use bytes::BytesMut;
use serde_json::Value;
use vertx_tcp_eventbus_bridge_client_rust::client;
use vertx_tcp_eventbus_bridge_client_rust::codec::{RequestCodec, ResponseCodec};
use vertx_tcp_eventbus_bridge_client_rust::dispatch::{Action, Command, Dispatcher, Event};
use vertx_tcp_eventbus_bridge_client_rust::error::BridgeError;
use vertx_tcp_eventbus_bridge_client_rust::request::Request;
use vertx_tcp_eventbus_bridge_client_rust::response::{ErrorType, Response};
use vertx_tcp_eventbus_bridge_client_rust::routing::{RoutingTable, Sink, SinkKind};

fn once(id: u64) -> Sink {
    Sink { id, kind: SinkKind::Once }
}

fn stream(id: u64) -> Sink {
    Sink { id, kind: SinkKind::Stream }
}

fn frame(address: &str) -> Event {
    Event::Frame(Response::ERR(ErrorType::UnknownType), address.to_string())
}

fn delivered_to(action: &Action) -> Option<Sink> {
    match action {
        Action::Deliver { sink, .. } => Some(*sink),
        _ => None,
    }
}

#[test]
fn table_keeps_one_sink_per_address() {
    let mut table = RoutingTable::new();
    assert_eq!(table.get("a"), None);
    assert_eq!(table.register("a".to_string(), once(1)), None);
    assert_eq!(table.get("a"), Some(once(1)));
    assert_eq!(table.register("a".to_string(), stream(2)), Some(once(1)));
    assert_eq!(table.get("a"), Some(stream(2)));
    assert_eq!(table.register("b".to_string(), once(3)), None);
    assert_eq!(table.get("a"), Some(stream(2)));
    assert_eq!(table.get("b"), Some(once(3)));
}

#[test]
fn table_remove_takes_the_entry_out() {
    let mut table = RoutingTable::new();
    table.register("a".to_string(), stream(1));
    assert_eq!(table.remove("b"), None);
    assert_eq!(table.remove("a"), Some(stream(1)));
    assert_eq!(table.remove("a"), None);
    assert_eq!(table.get("a"), None);
}

#[test]
fn route_consumes_a_single_use_sink() {
    let mut table = RoutingTable::new();
    table.register("a".to_string(), once(1));
    assert_eq!(table.route("a"), Some(once(1)));
    assert_eq!(table.get("a"), None);
    assert_eq!(table.route("a"), None);
}

#[test]
fn route_keeps_a_multi_use_sink() {
    let mut table = RoutingTable::new();
    table.register("a".to_string(), stream(1));
    for _ in 0..5 {
        assert_eq!(table.route("a"), Some(stream(1)));
    }
    assert_eq!(table.get("a"), Some(stream(1)));
    assert_eq!(table.route("b"), None);
}

#[test]
fn clear_empties_the_table() {
    let mut table = RoutingTable::new();
    table.register("a".to_string(), stream(1));
    table.register("b".to_string(), once(2));
    table.clear();
    assert_eq!(table.get("a"), None);
    assert_eq!(table.get("b"), None);
}

#[test]
fn single_use_sink_gets_exactly_one_of_many() {
    let mut actor = Dispatcher::new();
    let registered = actor.step(Event::Command(Command::RegisterReply("a".to_string(), 1)));
    assert!(matches!(registered, Action::Release(None)));
    let first = actor.step(frame("a"));
    assert_eq!(delivered_to(&first), Some(once(1)));
    assert_eq!(actor.pending("a"), None);
    for _ in 0..4 {
        assert!(matches!(actor.step(frame("a")), Action::Discard));
    }
    assert_eq!(actor.pending("a"), None);
}

#[test]
fn multi_use_sink_gets_all_of_many() {
    let mut actor = Dispatcher::new();
    actor.step(Event::Command(Command::RegisterStream("a".to_string(), 2)));
    for _ in 0..5 {
        assert_eq!(delivered_to(&actor.step(frame("a"))), Some(stream(2)));
    }
    assert_eq!(actor.pending("a"), Some(stream(2)));
}

#[test]
fn last_registration_for_an_address_wins() {
    let mut actor = Dispatcher::new();
    actor.step(Event::Command(Command::RegisterReply("a".to_string(), 1)));
    actor.step(Event::Command(Command::RegisterStream("b".to_string(), 2)));
    let replaced = actor.step(Event::Command(Command::RegisterStream("a".to_string(), 3)));
    assert!(matches!(replaced, Action::Release(Some(sink)) if sink == once(1)));
    let replaced = actor.step(Event::Command(Command::RegisterReply("a".to_string(), 4)));
    assert!(matches!(replaced, Action::Release(Some(sink)) if sink == stream(3)));
    assert_eq!(delivered_to(&actor.step(frame("a"))), Some(once(4)));
    assert!(matches!(actor.step(frame("a")), Action::Discard));
    assert_eq!(delivered_to(&actor.step(frame("b"))), Some(stream(2)));
}

#[test]
fn delivery_hands_over_the_response_itself() {
    let mut actor = Dispatcher::new();
    actor.step(Event::Command(Command::RegisterReply("a".to_string(), 1)));
    let action = actor.step(Event::Frame(Response::PONG, "a".to_string()));
    assert!(matches!(action, Action::Deliver { response: Response::PONG, .. }));
}

#[test]
fn response_without_a_sink_is_dropped() {
    let mut actor = Dispatcher::new();
    actor.step(Event::Command(Command::RegisterStream("a".to_string(), 1)));
    assert!(matches!(actor.step(frame("other")), Action::Discard));
    assert!(matches!(actor.step(frame("")), Action::Discard));
    assert_eq!(actor.pending("a"), Some(stream(1)));
    assert!(!actor.is_stopped());
}

#[test]
fn remove_stops_a_stream() {
    let mut actor = Dispatcher::new();
    actor.step(Event::Command(Command::RegisterStream("a".to_string(), 1)));
    let removed = actor.step(Event::Command(Command::Remove("a".to_string())));
    assert!(matches!(removed, Action::Release(Some(sink)) if sink == stream(1)));
    assert!(matches!(actor.step(frame("a")), Action::Discard));
    let again = actor.step(Event::Command(Command::Remove("a".to_string())));
    assert!(matches!(again, Action::Release(None)));
}

#[test]
fn send_command_is_written() {
    let mut actor = Dispatcher::new();
    let action = actor.step(Event::Command(Command::Send(Request::Ping)));
    assert!(matches!(action, Action::Write(Request::Ping)));
}

#[test]
fn abandoned_reply_leaves_no_entry() {
    let mut actor = Dispatcher::new();
    actor.step(Event::Command(Command::RegisterReply("a".to_string(), 1)));
    let action = actor.step(frame("a"));
    assert_eq!(delivered_to(&action), Some(once(1)));
    let settled = actor.step(Event::Undelivered("a".to_string()));
    assert!(matches!(settled, Action::Release(None)));
    assert_eq!(actor.pending("a"), None);
    assert!(!actor.is_stopped());
}

#[test]
fn abandoned_stream_loses_its_entry() {
    let mut actor = Dispatcher::new();
    actor.step(Event::Command(Command::RegisterStream("a".to_string(), 1)));
    actor.step(Event::Command(Command::RegisterStream("b".to_string(), 2)));
    assert_eq!(delivered_to(&actor.step(frame("a"))), Some(stream(1)));
    let settled = actor.step(Event::Undelivered("a".to_string()));
    assert!(matches!(settled, Action::Release(Some(sink)) if sink == stream(1)));
    assert_eq!(actor.pending("a"), None);
    assert_eq!(actor.pending("b"), Some(stream(2)));
    assert!(matches!(actor.step(frame("a")), Action::Discard));
    assert!(!actor.is_stopped());
}

#[test]
fn closing_ends_the_loop_and_drops_every_sink() {
    let mut actor = Dispatcher::new();
    actor.step(Event::Command(Command::RegisterReply("a".to_string(), 1)));
    actor.step(Event::Command(Command::RegisterStream("b".to_string(), 2)));
    assert!(matches!(actor.step(Event::Closed), Action::Stop(None)));
    assert!(actor.is_stopped());
    assert_eq!(actor.pending("a"), None);
    assert_eq!(actor.pending("b"), None);
    assert!(matches!(actor.step(frame("a")), Action::Stop(None)));
    let late = actor.step(Event::Command(Command::RegisterReply("c".to_string(), 3)));
    assert!(matches!(late, Action::Stop(None)));
    assert_eq!(actor.pending("c"), None);
}

#[test]
fn fatal_failures_end_the_loop() {
    for failure in [BridgeError::MalformedFrame, BridgeError::IoFailure, BridgeError::ChannelClosed] {
        assert!(failure.fatal());
        let mut actor = Dispatcher::new();
        actor.step(Event::Command(Command::RegisterStream("a".to_string(), 1)));
        let action = actor.step(Event::Failed(failure));
        assert!(matches!(action, Action::Stop(Some(found)) if found == failure));
        assert!(actor.is_stopped());
        assert_eq!(actor.pending("a"), None);
    }
}

#[test]
fn other_failures_leave_the_loop_running() {
    for failure in [BridgeError::FrameTooLarge, BridgeError::Cancelled] {
        assert!(!failure.fatal());
        let mut actor = Dispatcher::new();
        actor.step(Event::Command(Command::RegisterStream("a".to_string(), 1)));
        assert!(matches!(actor.step(Event::Failed(failure)), Action::Idle));
        assert!(!actor.is_stopped());
        assert_eq!(actor.pending("a"), Some(stream(1)));
    }
}

#[test]
fn request_with_reply_end_to_end() {
    let body: Value = serde_json::from_str("{\"x\":1}").unwrap();
    let mut actor = Dispatcher::new();
    let mut outbound = BytesMut::new();
    for command in client::send_reply("svc".to_string(), body, 1) {
        match actor.step(Event::Command(command)) {
            Action::Write(request) => RequestCodec.encode(request, &mut outbound).unwrap(),
            Action::Release(None) => {}
            _ => panic!("a request with reply writes once and registers once"),
        }
    }
    let sent = "{\"address\":\"svc\",\"body\":{\"x\":1},\"replyAddress\":\"svc\",\"type\":\"send\"}";
    assert_eq!(&outbound[..4], &(sent.len() as u32).to_be_bytes()[..]);
    assert_eq!(&outbound[4..], sent.as_bytes());
    assert_eq!(actor.pending("svc"), Some(once(1)));

    let reply = "{\"type\":\"message\",\"address\":\"svc\",\"body\":{\"y\":2},\"send\":true}";
    let mut inbound = BytesMut::new();
    inbound.extend_from_slice(&(reply.len() as u32).to_be_bytes());
    inbound.extend_from_slice(reply.as_bytes());
    let (response, address) = ResponseCodec.decode(&mut inbound).unwrap().unwrap();
    assert!(inbound.is_empty());
    match actor.step(Event::Frame(response, address)) {
        Action::Deliver { sink, address, response: Response::MESSAGE(m) } => {
            assert_eq!(sink, once(1));
            assert_eq!(address, "svc");
            assert_eq!(m.address, "svc");
            assert_eq!(m.body, serde_json::from_str::<Value>("{\"y\":2}").unwrap());
            assert!(m.headers.is_none());
            assert!(m.replyAddress.is_none());
            assert!(m.send);
        }
        _ => panic!("the reply must be handed to the waiting sink"),
    }
    assert_eq!(actor.pending("svc"), None);
}

#[test]
fn every_failure_has_its_words() {
    assert_eq!(BridgeError::FrameTooLarge.message(), "len is too long (> u32::MAX)");
    assert_eq!(BridgeError::MalformedFrame.message(), "frame is not a known message");
    assert_eq!(BridgeError::IoFailure.message(), "connection failed");
    assert_eq!(BridgeError::Cancelled.message(), "canceled");
    assert_eq!(BridgeError::ChannelClosed.message(), "connection actor is gone");
}

#[test]
fn only_registrations_name_a_sink() {
    assert_eq!(Command::RegisterReply("a".to_string(), 5).sink(), Some(once(5)));
    assert_eq!(Command::RegisterStream("a".to_string(), 6).sink(), Some(stream(6)));
    assert_eq!(Command::Remove("a".to_string()).sink(), None);
    assert_eq!(Command::Send(Request::Ping).sink(), None);
}
