//! The decisions of the connection actor.
//!
//! One actor owns the socket and the routing table. It waits for either an
//! inbound frame or a command from a client handle, and handles whichever
//! comes first. The waiting, the socket and the channels are the caller's
//! business: the caller tells the [`Dispatcher`] what happened, as an
//! [`Event`], and carries out the [`Action`] it answers with.

use vstd::prelude::*;

use crate::error::BridgeError;
use crate::request::Request;
use crate::response::Response;
use crate::routing::{after_delivery, entry_of, RoutingTable, Sink, SinkKind};

verus! {

/// How many commands may wait for the actor at a time. A client handle that
/// finds the queue full is held back until there is room, so a slow
/// connection cannot make the queue grow without bound.
pub const COMMAND_QUEUE_LEN: usize = 1024;

/// What a client handle asks of the actor.
pub enum Command {
    /// Write this request to the connection.
    Send(Request),
    /// Hand the next response for this address to this single-use sink.
    RegisterReply(String, u64),
    /// Hand every response for this address to this multi-use sink.
    RegisterStream(String, u64),
    /// Stop handing out responses for this address.
    Remove(String),
}

impl Command {
    /// The sink that this command puts into the table, if it is a
    /// registration.
    pub open spec fn registered_sink(self) -> Option<Sink> {
        match self {
            Command::RegisterReply(_, id) => Some(Sink { id, kind: SinkKind::Once }),
            Command::RegisterStream(_, id) => Some(Sink { id, kind: SinkKind::Stream }),
            _ => None,
        }
    }

    /// The sink that this command puts into the table, if it is a
    /// registration.
    pub fn sink(&self) -> (sink: Option<Sink>)
        ensures
            sink == self.registered_sink(),
    {
        match self {
            Command::RegisterReply(_, id) => Some(Sink { id: *id, kind: SinkKind::Once }),
            Command::RegisterStream(_, id) => Some(Sink { id: *id, kind: SinkKind::Stream }),
            _ => None,
        }
    }
}

/// What the actor is told.
pub enum Event {
    /// A frame arrived and was decoded to this response, to be routed by
    /// this address.
    Frame(Response, String),
    /// A client handle sent this command.
    Command(Command),
    /// The sink that a response for this address was handed to turned out
    /// to be discarded by its owner.
    Undelivered(String),
    /// The peer closed the connection, or the last client handle is gone.
    Closed,
    /// Reading, decoding, encoding or writing failed.
    Failed(BridgeError),
}

/// What the actor does next.
pub enum Action {
    /// Hand `response`, which arrived for `address`, to `sink`. A single-use
    /// sink has left the table and is to be let go after this.
    Deliver { sink: Sink, address: String, response: Response },
    /// Nobody waits for the response: drop it.
    Discard,
    /// Encode this request and write it to the connection.
    Write(Request),
    /// The table changed. If a sink is named, it has left the table without
    /// a response and is to be let go.
    Release(Option<Sink>),
    /// Go on; there is nothing to do.
    Idle,
    /// End the loop and let go of every sink; callers that still wait see
    /// their reply cancelled. A failure that caused the end is named.
    Stop(Option<BridgeError>),
}

/// The state of the actor as far as its decisions depend on it.
pub struct DispatchView {
    /// Who waits where.
    pub routes: Map<Seq<char>, Sink>,
    /// Whether the loop has ended.
    pub stopped: bool,
}

/// The state in which the loop has ended: nobody waits any more.
pub open spec fn stopped_state() -> DispatchView {
    DispatchView { routes: Map::empty(), stopped: true }
}

/// The state `s` with `routes` in place of its table.
pub open spec fn with_routes(s: DispatchView, routes: Map<Seq<char>, Sink>) -> DispatchView {
    DispatchView { routes, stopped: s.stopped }
}

/// What a command does to a running actor.
pub open spec fn command_step(s: DispatchView, command: Command) -> (DispatchView, Action) {
    match command {
        Command::Send(request) => (s, Action::Write(request)),
        Command::RegisterReply(address, id) => (
            with_routes(s, s.routes.insert(address@, Sink { id, kind: SinkKind::Once })),
            Action::Release(entry_of(s.routes, address@)),
        ),
        Command::RegisterStream(address, id) => (
            with_routes(s, s.routes.insert(address@, Sink { id, kind: SinkKind::Stream })),
            Action::Release(entry_of(s.routes, address@)),
        ),
        Command::Remove(address) => (
            with_routes(s, s.routes.remove(address@)),
            Action::Release(entry_of(s.routes, address@)),
        ),
    }
}

/// The actor's rule: the state after `event`, and what to do about it.
///
/// * A frame goes to the sink at its address; a single-use sink then leaves
///   the table. With no sink there, the frame is dropped.
/// * A request is written; a registration puts its sink in the table, in
///   place of any sink that was there; a removal takes the entry out.
/// * A discarded sink loses its entry.
/// * The end of the connection, and any failure after which it cannot go on,
///   end the loop and empty the table. Other failures change nothing.
/// * Once the loop has ended, it stays ended.
pub open spec fn step_spec(s: DispatchView, event: Event) -> (DispatchView, Action) {
    if s.stopped {
        (s, Action::Stop(None))
    } else {
        match event {
            Event::Frame(response, address) => match entry_of(s.routes, address@) {
                Some(sink) => (
                    with_routes(s, after_delivery(s.routes, address@)),
                    Action::Deliver { sink, address, response },
                ),
                None => (s, Action::Discard),
            },
            Event::Command(command) => command_step(s, command),
            Event::Undelivered(address) => (
                with_routes(s, s.routes.remove(address@)),
                Action::Release(entry_of(s.routes, address@)),
            ),
            Event::Closed => (stopped_state(), Action::Stop(None)),
            Event::Failed(e) => if e.is_fatal() {
                (stopped_state(), Action::Stop(Some(e)))
            } else {
                (s, Action::Idle)
            },
        }
    }
}

/// The state after a run of events.
pub open spec fn state_after(s: DispatchView, events: Seq<Event>) -> DispatchView
    decreases events.len(),
{
    if events.len() == 0 {
        s
    } else {
        state_after(step_spec(s, events[0]).0, events.drop_first())
    }
}

/// The actions that a run of events calls for, one per event.
pub open spec fn actions_of(s: DispatchView, events: Seq<Event>) -> Seq<Action>
    decreases events.len(),
{
    if events.len() == 0 {
        Seq::empty()
    } else {
        seq![step_spec(s, events[0]).1] + actions_of(
            step_spec(s, events[0]).0,
            events.drop_first(),
        )
    }
}

/// Whether every event of `events` is a frame to be routed by `address`.
pub open spec fn all_frames_for(events: Seq<Event>, address: Seq<char>) -> bool {
    forall|i: int|
        0 <= i < events.len() ==> (#[trigger] events[i] matches Event::Frame(_, to) && to@
            == address)
}

/// The response that the frame event `event` carries.
pub open spec fn frame_response(event: Event) -> Response
    recommends
        event is Frame,
{
    event->Frame_0
}

/// The address that the frame event `event` is to be routed by.
pub open spec fn frame_address(event: Event) -> String
    recommends
        event is Frame,
{
    event->Frame_1
}

/// The decisions of one connection's actor, with the routing table they are
/// made on.
pub struct Dispatcher {
    table: RoutingTable,
    stopped: bool,
}

impl View for Dispatcher {
    type V = DispatchView;

    closed spec fn view(&self) -> DispatchView {
        DispatchView { routes: self.table@, stopped: self.stopped }
    }
}

impl Dispatcher {
    /// Whether the table is empty once the loop has ended. Every state that
    /// [`Dispatcher::new`] and [`Dispatcher::step`] lead to is of this kind.
    pub open spec fn wf(&self) -> bool {
        self@.stopped ==> self@.routes == Map::<Seq<char>, Sink>::empty()
    }

    /// A running actor with nobody waiting.
    pub fn new() -> (d: Dispatcher)
        ensures
            d@ == (DispatchView { routes: Map::empty(), stopped: false }),
            d.wf(),
    {
        Dispatcher { table: RoutingTable::new(), stopped: false }
    }

    /// Whether the loop has ended.
    pub fn is_stopped(&self) -> (stopped: bool)
        ensures
            stopped == self@.stopped,
    {
        self.stopped
    }

    /// The sink that waits at `address`, if there is one.
    pub fn pending(&self, address: &str) -> (found: Option<Sink>)
        ensures
            found == entry_of(self@.routes, address@),
    {
        self.table.get(address)
    }

    /// Ends the loop: empties the table and remembers that it ended.
    fn stop(&mut self)
        ensures
            final(self)@ == stopped_state(),
    {
        self.table.clear();
        self.stopped = true;
    }

    /// Handles a command of a client handle.
    fn command(&mut self, command: Command) -> (action: Action)
        requires
            !old(self)@.stopped,
        ensures
            (final(self)@, action) == command_step(old(self)@, command),
    {
        match command {
            Command::Send(request) => Action::Write(request),
            Command::RegisterReply(address, id) => {
                let replaced = self.table.register(address, Sink { id, kind: SinkKind::Once });
                Action::Release(replaced)
            },
            Command::RegisterStream(address, id) => {
                let replaced = self.table.register(address, Sink { id, kind: SinkKind::Stream });
                Action::Release(replaced)
            },
            Command::Remove(address) => {
                let removed = self.table.remove(address.as_str());
                Action::Release(removed)
            },
        }
    }

    /// Handles one event: changes the table as the rule says and answers
    /// with the action to carry out.
    pub fn step(&mut self, event: Event) -> (action: Action)
        ensures
            (final(self)@, action) == step_spec(old(self)@, event),
            old(self).wf() ==> final(self).wf(),
    {
        if self.stopped {
            return Action::Stop(None);
        }
        match event {
            Event::Frame(response, address) => match self.table.route(address.as_str()) {
                Some(sink) => Action::Deliver { sink, address, response },
                None => Action::Discard,
            },
            Event::Command(command) => self.command(command),
            Event::Undelivered(address) => {
                let removed = self.table.remove(address.as_str());
                Action::Release(removed)
            },
            Event::Closed => {
                self.stop();
                Action::Stop(None)
            },
            Event::Failed(e) => if e.fatal() {
                self.stop();
                Action::Stop(Some(e))
            } else {
                Action::Idle
            },
        }
    }
}

/// Nobody gets another caller's data: a response is only ever handed to the
/// sink that is registered at the very address the response arrived for.
pub proof fn lemma_delivered_to_registered(s: DispatchView, event: Event)
    ensures
        step_spec(s, event).1 matches Action::Deliver { sink, address, response } ==> {
            &&& event == Event::Frame(response, address)
            &&& entry_of(s.routes, address@) == Some(sink)
        },
{
}

/// A registration replaces whatever waited at its address and touches no
/// other address. So of several registrations for one address the last one
/// decides who gets the next response, whatever was registered elsewhere in
/// between.
pub proof fn lemma_registration_replaces(s: DispatchView, command: Command)
    requires
        !s.stopped,
        command is RegisterReply || command is RegisterStream,
    ensures
        ({
            let after = command_step(s, command).0;
            match command {
                Command::RegisterReply(address, id) => entry_of(after.routes, address@) == Some(
                    Sink { id, kind: SinkKind::Once },
                ),
                Command::RegisterStream(address, id) => entry_of(after.routes, address@) == Some(
                    Sink { id, kind: SinkKind::Stream },
                ),
                _ => true,
            }
        }),
        forall|other: Seq<char>|
            other != command_address(command) ==> entry_of(
                command_step(s, command).0.routes,
                other,
            ) == entry_of(s.routes, other),
{
}

/// The address that a registration or a removal is about.
pub open spec fn command_address(command: Command) -> Seq<char> {
    match command {
        Command::Send(_) => Seq::empty(),
        Command::RegisterReply(address, _) => address@,
        Command::RegisterStream(address, _) => address@,
        Command::Remove(address) => address@,
    }
}

/// Routing of replies: after a single-use sink is registered at an address,
/// of any number of frames for that address the first is handed to that
/// sink and the others are dropped, and the address is then no longer in the
/// table.
pub proof fn lemma_reply_routed_once(s: DispatchView, address: String, id: u64, frames: Seq<Event>)
    requires
        !s.stopped,
        frames.len() >= 1,
        all_frames_for(frames, address@),
    ensures
        ({
            let registered = command_step(s, Command::RegisterReply(address, id)).0;
            let sink = Sink { id, kind: SinkKind::Once };
            &&& actions_of(registered, frames).len() == frames.len()
            &&& actions_of(registered, frames)[0] == (Action::Deliver {
                sink,
                address: frame_address(frames[0]),
                response: frame_response(frames[0]),
            })
            &&& forall|i: int|
                1 <= i < frames.len() ==> #[trigger] actions_of(registered, frames)[i]
                    == Action::Discard
            &&& state_after(registered, frames) == with_routes(s, s.routes.remove(address@))
        }),
{
    let registered = command_step(s, Command::RegisterReply(address, id)).0;
    let left = with_routes(s, s.routes.remove(address@));
    let rest = frames.drop_first();
    assert(frames[0] is Frame);
    assert(after_delivery(registered.routes, address@) =~= left.routes);
    assert(step_spec(registered, frames[0]).0 == left);
    assert forall|i: int| 0 <= i < rest.len() implies (#[trigger] rest[i] matches Event::Frame(
        _,
        to,
    ) && to@ == address@) by {
        assert(rest[i] == frames[i + 1]);
    }
    lemma_frames_dropped(left, address@, rest);
    assert forall|i: int| 1 <= i < frames.len() implies #[trigger] actions_of(
        registered,
        frames,
    )[i] == Action::Discard by {
        assert(actions_of(registered, frames)[i] == actions_of(left, rest)[i - 1]);
    }
}

/// Routing of streams: after a multi-use sink is registered at an address,
/// every frame for that address is handed to that sink, however many arrive,
/// and the sink stays in the table.
pub proof fn lemma_stream_routed_always(
    s: DispatchView,
    address: String,
    id: u64,
    frames: Seq<Event>,
)
    requires
        !s.stopped,
        all_frames_for(frames, address@),
    ensures
        ({
            let registered = command_step(s, Command::RegisterStream(address, id)).0;
            let sink = Sink { id, kind: SinkKind::Stream };
            &&& actions_of(registered, frames).len() == frames.len()
            &&& forall|i: int|
                0 <= i < frames.len() ==> #[trigger] actions_of(registered, frames)[i] == (
                Action::Deliver {
                    sink,
                    address: frame_address(frames[i]),
                    response: frame_response(frames[i]),
                })
            &&& state_after(registered, frames) == registered
        }),
{
    let registered = command_step(s, Command::RegisterStream(address, id)).0;
    lemma_frames_delivered(registered, address@, Sink { id, kind: SinkKind::Stream }, frames);
}

/// Frames for an address at which nobody waits are dropped and change
/// nothing.
pub proof fn lemma_frames_dropped(s: DispatchView, address: Seq<char>, frames: Seq<Event>)
    requires
        !s.stopped,
        !s.routes.contains_key(address),
        all_frames_for(frames, address),
    ensures
        actions_of(s, frames).len() == frames.len(),
        forall|i: int|
            0 <= i < frames.len() ==> #[trigger] actions_of(s, frames)[i] == Action::Discard,
        state_after(s, frames) == s,
    decreases frames.len(),
{
    if frames.len() > 0 {
        let rest = frames.drop_first();
        assert(frames[0] is Frame);
        assert forall|i: int| 0 <= i < rest.len() implies (#[trigger] rest[i] matches Event::Frame(
            _,
            to,
        ) && to@ == address) by {
            assert(rest[i] == frames[i + 1]);
        }
        lemma_frames_dropped(s, address, rest);
        assert forall|i: int| 0 <= i < frames.len() implies #[trigger] actions_of(s, frames)[i]
            == Action::Discard by {
            if i > 0 {
                assert(actions_of(s, frames)[i] == actions_of(s, rest)[i - 1]);
            }
        }
    }
}

/// Frames for an address at which a multi-use sink waits all go to that
/// sink and change nothing.
pub proof fn lemma_frames_delivered(
    s: DispatchView,
    address: Seq<char>,
    sink: Sink,
    frames: Seq<Event>,
)
    requires
        !s.stopped,
        entry_of(s.routes, address) == Some(sink),
        sink.kind is Stream,
        all_frames_for(frames, address),
    ensures
        actions_of(s, frames).len() == frames.len(),
        forall|i: int|
            0 <= i < frames.len() ==> #[trigger] actions_of(s, frames)[i] == (Action::Deliver {
                sink,
                address: frame_address(frames[i]),
                response: frame_response(frames[i]),
            }),
        state_after(s, frames) == s,
    decreases frames.len(),
{
    if frames.len() > 0 {
        let rest = frames.drop_first();
        assert(frames[0] is Frame);
        assert forall|i: int| 0 <= i < rest.len() implies (#[trigger] rest[i] matches Event::Frame(
            _,
            to,
        ) && to@ == address) by {
            assert(rest[i] == frames[i + 1]);
        }
        lemma_frames_delivered(s, address, sink, rest);
        assert forall|i: int| 0 <= i < frames.len() implies #[trigger] actions_of(s, frames)[i]
            == (Action::Deliver {
            sink,
            address: frame_address(frames[i]),
            response: frame_response(frames[i]),
        }) by {
            if i > 0 {
                assert(actions_of(s, frames)[i] == actions_of(s, rest)[i - 1]);
                assert(rest[i - 1] == frames[i]);
            }
        }
    }
}

/// A caller that gave up: once its sink is found discarded, the entry for
/// its address is gone, whatever kind of sink it was and whether or not the
/// response had already taken it out of the table.
pub proof fn lemma_abandoned_entry_removed(s: DispatchView, response: Response, address: String)
    requires
        !s.stopped,
    ensures
        ({
            let delivered = step_spec(s, Event::Frame(response, address)).0;
            let settled = step_spec(delivered, Event::Undelivered(address)).0;
            &&& !settled.routes.contains_key(address@)
            &&& settled.routes == s.routes.remove(address@)
            &&& !settled.stopped
        }),
{
    let delivered = step_spec(s, Event::Frame(response, address)).0;
    let settled = step_spec(delivered, Event::Undelivered(address)).0;
    assert(settled.routes =~= s.routes.remove(address@));
}

/// A single-use sink is out of the table as soon as a response for its
/// address has arrived, before anyone learns whether its owner still waits.
pub proof fn lemma_reply_entry_consumed(
    s: DispatchView,
    response: Response,
    address: String,
    id: u64,
)
    requires
        !s.stopped,
        entry_of(s.routes, address@) == Some(Sink { id, kind: SinkKind::Once }),
    ensures
        !step_spec(s, Event::Frame(response, address)).0.routes.contains_key(address@),
{
}

/// Once the loop has ended nobody waits, and no event brings it back.
pub proof fn lemma_stopped_stays(s: DispatchView, events: Seq<Event>)
    requires
        s.stopped,
    ensures
        state_after(s, events) == s,
    decreases events.len(),
{
    if events.len() > 0 {
        lemma_stopped_stays(s, events.drop_first());
    }
}

} // verus!
