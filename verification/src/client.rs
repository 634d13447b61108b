//! What each operation of a client handle asks of the connection actor.
//!
//! A client handle does not touch the socket. Each of its operations is a
//! short list of commands, sent to the actor in order; if the actor is gone
//! the operation fails at the first command that cannot be sent. The
//! functions here say which commands those are.

use serde_json::Value;
use vstd::prelude::*;

use crate::dispatch::{actions_of, state_after, with_routes, Action, Command, DispatchView, Event};
use crate::request::Request;
use crate::response::Response;
use crate::routing::{entry_of, Sink, SinkKind};

verus! {

/// A liveness probe: one `ping` request, no reply tracked.
pub fn ping() -> (plan: Vec<Command>)
    ensures
        plan@ == seq![Command::Send(Request::Ping)],
{
    let mut plan = Vec::new();
    plan.push(Command::Send(Request::Ping));
    assert(plan@ =~= seq![Command::Send(Request::Ping)]);
    plan
}

/// A broadcast of `message` to `address`: one `publish` request, no reply
/// tracked.
pub fn publish(address: String, message: Value) -> (plan: Vec<Command>)
    ensures
        plan@ == seq![
            Command::Send(
                Request::Publish { address, body: message, headers: None, replyAddress: None },
            ),
        ],
{
    let mut plan = Vec::new();
    plan.push(
        Command::Send(
            Request::Publish { address, body: message, headers: None, replyAddress: None },
        ),
    );
    assert(plan@ =~= seq![plan@[0]]);
    plan
}

/// A delivery of `message` to `address` that expects no answer: one `send`
/// request without a reply address, no reply tracked.
pub fn send(address: String, message: Value) -> (plan: Vec<Command>)
    ensures
        plan@ == seq![
            Command::Send(
                Request::Send { address, body: message, headers: None, replyAddress: None },
            ),
        ],
{
    let mut plan = Vec::new();
    plan.push(
        Command::Send(Request::Send { address, body: message, headers: None, replyAddress: None }),
    );
    assert(plan@ =~= seq![plan@[0]]);
    plan
}

/// A delivery of `message` to `address` that expects one answer: a `send`
/// request that names `address` as its reply address, then the registration
/// of the single-use sink `sink` under `address`.
pub fn send_reply(address: String, message: Value, sink: u64) -> (plan: Vec<Command>)
    ensures
        plan@ == seq![
            Command::Send(
                Request::Send {
                    address,
                    body: message,
                    headers: None,
                    replyAddress: Some(address),
                },
            ),
            Command::RegisterReply(address, sink),
        ],
{
    let mut plan = Vec::new();
    plan.push(
        Command::Send(
            Request::Send {
                address: address.clone(),
                body: message,
                headers: None,
                replyAddress: Some(address.clone()),
            },
        ),
    );
    plan.push(Command::RegisterReply(address, sink));
    assert(plan@ =~= seq![plan@[0], plan@[1]]);
    plan
}

/// A subscription to `address`: a `register` request, then the registration
/// of the multi-use sink `sink` under `address`.
pub fn register(address: String, headers: Option<Value>, sink: u64) -> (plan: Vec<Command>)
    ensures
        plan@ == seq![
            Command::Send(Request::Register { address, headers }),
            Command::RegisterStream(address, sink),
        ],
{
    let mut plan = Vec::new();
    plan.push(Command::Send(Request::Register { address: address.clone(), headers }));
    plan.push(Command::RegisterStream(address, sink));
    assert(plan@ =~= seq![plan@[0], plan@[1]]);
    plan
}

/// The end of a subscription to `address`: an `unregister` request, then the
/// removal of whatever sink waits under `address`.
pub fn unregister(address: String) -> (plan: Vec<Command>)
    ensures
        plan@ == seq![
            Command::Send(Request::Unregister { address, headers: None }),
            Command::Remove(address),
        ],
{
    let mut plan = Vec::new();
    plan.push(Command::Send(Request::Unregister { address: address.clone(), headers: None }));
    plan.push(Command::Remove(address));
    assert(plan@ =~= seq![plan@[0], plan@[1]]);
    plan
}

/// A request and its reply, from end to end. When the commands of
/// [`send_reply`] reach a running actor and a response for the same address
/// comes in afterwards, the request is written, the sink is registered, the
/// response is handed to that sink, and the address is free again.
pub proof fn lemma_reply_reaches_its_sink(
    s: DispatchView,
    address: String,
    message: Value,
    sink: u64,
    response: Response,
    to: String,
)
    requires
        !s.stopped,
        to@ == address@,
    ensures
        ({
            let request = Request::Send {
                address,
                body: message,
                headers: None,
                replyAddress: Some(address),
            };
            let events = seq![
                Event::Command(Command::Send(request)),
                Event::Command(Command::RegisterReply(address, sink)),
                Event::Frame(response, to),
            ];
            &&& actions_of(s, events) == seq![
                Action::Write(request),
                Action::Release(entry_of(s.routes, address@)),
                Action::Deliver {
                    sink: Sink { id: sink, kind: SinkKind::Once },
                    address: to,
                    response,
                },
            ]
            &&& state_after(s, events) == with_routes(s, s.routes.remove(address@))
        }),
{
    let request = Request::Send {
        address,
        body: message,
        headers: None,
        replyAddress: Some(address),
    };
    reveal_with_fuel(actions_of, 4);
    reveal_with_fuel(state_after, 4);
    let e0 = Event::Command(Command::Send(request));
    let e1 = Event::Command(Command::RegisterReply(address, sink));
    let e2 = Event::Frame(response, to);
    let events = seq![e0, e1, e2];
    let tail1 = seq![e1, e2];
    let tail2 = seq![e2];
    assert(events.drop_first() =~= tail1);
    assert(tail1.drop_first() =~= tail2);
    assert(tail2.drop_first() =~= Seq::<Event>::empty());
    let registered = with_routes(
        s,
        s.routes.insert(address@, Sink { id: sink, kind: SinkKind::Once }),
    );
    let settled = with_routes(s, s.routes.remove(address@));
    assert(registered.routes.remove(address@) =~= settled.routes);
}

/// A subscription from start to end. After the commands of [`register`] a
/// response for the address is handed to the stream's sink and the sink
/// stays; after the commands of [`unregister`] a response for the address is
/// dropped.
pub proof fn lemma_subscription_ends_with_unregister(
    s: DispatchView,
    address: String,
    headers: Option<Value>,
    sink: u64,
    during: Response,
    after: Response,
    to: String,
)
    requires
        !s.stopped,
        to@ == address@,
    ensures
        ({
            let stream = Sink { id: sink, kind: SinkKind::Stream };
            let events = seq![
                Event::Command(Command::Send(Request::Register { address, headers })),
                Event::Command(Command::RegisterStream(address, sink)),
                Event::Frame(during, to),
                Event::Command(Command::Send(Request::Unregister { address, headers: None })),
                Event::Command(Command::Remove(address)),
                Event::Frame(after, to),
            ];
            &&& actions_of(s, events) == seq![
                Action::Write(Request::Register { address, headers }),
                Action::Release(entry_of(s.routes, address@)),
                Action::Deliver { sink: stream, address: to, response: during },
                Action::Write(Request::Unregister { address, headers: None }),
                Action::Release(Some(stream)),
                Action::Discard,
            ]
            &&& state_after(s, events) == with_routes(s, s.routes.remove(address@))
        }),
{
    reveal_with_fuel(actions_of, 2);
    reveal_with_fuel(state_after, 2);
    let stream = Sink { id: sink, kind: SinkKind::Stream };
    let e0 = Event::Command(Command::Send(Request::Register { address, headers }));
    let e1 = Event::Command(Command::RegisterStream(address, sink));
    let e2 = Event::Frame(during, to);
    let e3 = Event::Command(Command::Send(Request::Unregister { address, headers: None }));
    let e4 = Event::Command(Command::Remove(address));
    let e5 = Event::Frame(after, to);
    let t0 = seq![e0, e1, e2, e3, e4, e5];
    let t1 = seq![e1, e2, e3, e4, e5];
    let t2 = seq![e2, e3, e4, e5];
    let t3 = seq![e3, e4, e5];
    let t4 = seq![e4, e5];
    let t5 = seq![e5];
    assert(t0.drop_first() =~= t1);
    assert(t1.drop_first() =~= t2);
    assert(t2.drop_first() =~= t3);
    assert(t3.drop_first() =~= t4);
    assert(t4.drop_first() =~= t5);
    assert(t5.drop_first() =~= Seq::<Event>::empty());
    let registered = with_routes(s, s.routes.insert(address@, stream));
    let settled = with_routes(s, s.routes.remove(address@));
    assert(registered.routes.remove(address@) =~= settled.routes);
    assert(actions_of(settled, t5) =~= seq![Action::Discard]);
    assert(state_after(settled, t5) == settled);
    assert(actions_of(registered, t4) =~= seq![Action::Release(Some(stream)), Action::Discard]);
    assert(state_after(registered, t4) == settled);
    assert(actions_of(registered, t3) =~= seq![
        Action::Write(Request::Unregister { address, headers: None }),
        Action::Release(Some(stream)),
        Action::Discard,
    ]);
    assert(state_after(registered, t3) == settled);
    assert(actions_of(registered, t2) =~= seq![
        Action::Deliver { sink: stream, address: to, response: during },
        Action::Write(Request::Unregister { address, headers: None }),
        Action::Release(Some(stream)),
        Action::Discard,
    ]);
    assert(state_after(registered, t2) == settled);
    assert(actions_of(s, t1) =~= seq![
        Action::Release(entry_of(s.routes, address@)),
        Action::Deliver { sink: stream, address: to, response: during },
        Action::Write(Request::Unregister { address, headers: None }),
        Action::Release(Some(stream)),
        Action::Discard,
    ]);
    assert(state_after(s, t1) == settled);
    assert(actions_of(s, t0) =~= seq![
        Action::Write(Request::Register { address, headers }),
        Action::Release(entry_of(s.routes, address@)),
        Action::Deliver { sink: stream, address: to, response: during },
        Action::Write(Request::Unregister { address, headers: None }),
        Action::Release(Some(stream)),
        Action::Discard,
    ]);
}

} // verus!
