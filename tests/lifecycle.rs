use artemis::client::GraphqlWsClientBuilder;
use artemis::apollo_client::ApolloGraphqlWsClientBuilder;
use artemis::connection::{Connection, ConnectionState, Dispatch, HandshakeStep, Inbound};
use artemis::event::{
    ClientError, DecodeError, Frame, GraphqlWsClientEvent, GraphqlWsComplete, GraphqlWsData,
    GraphqlWsDataPayload, GraphqlWsServerEvent, GraphqlWsStart, GraphqlWsStop,
};
use artemis::json::Json;
use artemis::GraphqlWsProtocol;

fn frame(s: &str) -> Inbound {
    Inbound::Frame(Frame::Text(s.to_string()))
}

fn ready(d: GraphqlWsProtocol) -> Connection {
    let mut c = Connection::new(d);
    c.open().unwrap();
    assert_eq!(c.on_handshake(frame(r#"{"type":"connection_ack"}"#)), HandshakeStep::Ready);
    c
}

fn utf8(b: Vec<u8>) -> String {
    String::from_utf8(b).unwrap()
}

#[test]
fn builder_from_url_keeps_the_url() {
    let b = GraphqlWsClientBuilder::from_url("ws://localhost:8080/graphql-ws");
    assert_eq!(b.url(), "ws://localhost:8080/graphql-ws");
    assert_eq!(b.get_protocol(), GraphqlWsProtocol::OFFICIAL);
    let a = ApolloGraphqlWsClientBuilder::from_url("wss://h/p");
    assert_eq!(a.url(), "wss://h/p");
    assert_eq!(a.get_protocol(), GraphqlWsProtocol::APOLLO);
}

#[test]
fn builder_formats_the_address() {
    let b = GraphqlWsClientBuilder::from("ws", "localhost", 8080, "/graphql-ws");
    assert_eq!(b.url(), "ws://localhost:8080/graphql-ws");
    let a = ApolloGraphqlWsClientBuilder::from("wss", "example.org", 0, "");
    assert_eq!(a.url(), "wss://example.org:0");
    let m = GraphqlWsClientBuilder::from("ws", "h", 65535, "/x");
    assert_eq!(m.url(), "ws://h:65535/x");
    let t = ApolloGraphqlWsClientBuilder::from("ws", "h", 10, "/");
    assert_eq!(t.url(), "ws://h:10/");
}

#[test]
fn builder_gives_a_fresh_connection() {
    let c = ApolloGraphqlWsClientBuilder::from_url("ws://h").connection();
    assert_eq!(c.get_protocol(), GraphqlWsProtocol::APOLLO);
    assert_eq!(c.state(), ConnectionState::Disconnected);
}

#[test]
fn open_sends_init_and_waits() {
    let mut c = Connection::new(GraphqlWsProtocol::OFFICIAL);
    let init = c.open().unwrap();
    assert_eq!(utf8(init), r#"{"type":"connection_init"}"#);
    assert_eq!(c.state(), ConnectionState::Handshaking);
    assert_eq!(c.open(), Err(ClientError::NotReady));
}

#[test]
fn handshake_discards_everything_before_the_ack() {
    let mut c = Connection::new(GraphqlWsProtocol::APOLLO);
    c.open().unwrap();
    for f in [
        r#"{"type":"error","id":"1"}"#,
        r#"{"type":"data","id":"1","payload":{"data":null}}"#,
        r#"{"type":"complete","id":"1"}"#,
        r#"{"type":"ka"}"#,
        "not json",
    ] {
        assert_eq!(c.on_handshake(frame(f)), HandshakeStep::Pending);
        assert_eq!(c.state(), ConnectionState::Handshaking);
    }
    assert_eq!(c.on_handshake(Inbound::Frame(Frame::NonText)), HandshakeStep::Pending);
    assert_eq!(c.on_handshake(frame(r#"{"type":"connection_ack"}"#)), HandshakeStep::Ready);
    assert_eq!(c.state(), ConnectionState::Ready);
}

#[test]
fn transport_handshake_discards_pings() {
    let mut c = Connection::new(GraphqlWsProtocol::OFFICIAL);
    c.open().unwrap();
    assert_eq!(c.on_handshake(frame(r#"{"type":"ping"}"#)), HandshakeStep::Pending);
    assert_eq!(c.on_handshake(frame(r#"{"type":"next","id":"1","payload":{"data":1}}"#)), HandshakeStep::Pending);
    assert_eq!(c.on_handshake(frame(r#"{"type":"connection_ack"}"#)), HandshakeStep::Ready);
}

#[test]
fn handshake_fails_at_end_of_stream() {
    let mut c = Connection::new(GraphqlWsProtocol::OFFICIAL);
    c.open().unwrap();
    assert_eq!(c.on_handshake(frame(r#"{"type":"ping"}"#)), HandshakeStep::Pending);
    assert_eq!(c.on_handshake(Inbound::EndOfStream), HandshakeStep::Failed(ClientError::HandshakeFailed));
    assert_eq!(c.state(), ConnectionState::Closed);
}

#[test]
fn handshake_fails_on_read_failure() {
    let mut c = Connection::new(GraphqlWsProtocol::APOLLO);
    c.open().unwrap();
    assert_eq!(c.on_handshake(Inbound::ReadFailed), HandshakeStep::Failed(ClientError::Transport));
}

#[test]
fn handshake_needs_an_open_connection() {
    let mut c = Connection::new(GraphqlWsProtocol::APOLLO);
    assert_eq!(c.on_handshake(frame(r#"{"type":"connection_ack"}"#)), HandshakeStep::Failed(ClientError::NotReady));
    assert_eq!(c.state(), ConnectionState::Disconnected);
}

#[test]
fn subscribe_next_complete_scenario() {
    let c = ready(GraphqlWsProtocol::OFFICIAL);
    let sub = GraphqlWsClientEvent::Subscribe(GraphqlWsStart::new("1", "{ __typename }".to_string()));
    let bytes = c.prepare_send(sub).unwrap();
    assert_eq!(
        utf8(bytes),
        r#"{"id":"1","payload":{"operationName":"","query":"{ __typename }","variables":{}},"type":"subscribe"}"#
    );
    let d = c.on_listen(frame(r#"{"type":"next","id":"1","payload":{"data":{"__typename":"Query"}}}"#));
    let data = Json::Object(vec![("__typename".to_string(), Json::Str("Query".to_string()))]);
    assert_eq!(
        d,
        Dispatch::Data(GraphqlWsData { id: "1".to_string(), payload: GraphqlWsDataPayload { data } })
    );
    assert!(!d.ends_loop_after(true));
    let done = c.on_listen(frame(r#"{"type":"complete","id":"1"}"#));
    assert_eq!(done, Dispatch::Complete(GraphqlWsComplete { id: "1".to_string() }));
    assert!(done.ends_loop_after(true));
    assert!(!done.ends_loop_after(false));
}

#[test]
fn malformed_frame_in_listen_is_skipped() {
    let c = ready(GraphqlWsProtocol::OFFICIAL);
    let d = c.on_listen(frame("not json"));
    assert_eq!(d, Dispatch::Continue);
    assert!(!d.ends_loop_after(true));
    assert_eq!(c.on_listen(Inbound::Frame(Frame::NonText)), Dispatch::Continue);
    assert_eq!(c.on_listen(frame(r#"{"type":"complete","id":"1"}"#)), Dispatch::Complete(GraphqlWsComplete { id: "1".to_string() }));
}

#[test]
fn ignored_events_continue() {
    let t = ready(GraphqlWsProtocol::OFFICIAL);
    assert_eq!(t.on_listen(frame(r#"{"type":"connection_ack"}"#)), Dispatch::Continue);
    assert_eq!(t.on_listen(frame(r#"{"type":"pong"}"#)), Dispatch::Continue);
    let l = ready(GraphqlWsProtocol::APOLLO);
    assert_eq!(l.on_listen(frame(r#"{"type":"ka"}"#)), Dispatch::Continue);
}

#[test]
fn ping_is_answered_with_one_pong() {
    let c = ready(GraphqlWsProtocol::OFFICIAL);
    match c.on_listen(frame(r#"{"type":"ping"}"#)) {
        Dispatch::Reply(b) => assert_eq!(utf8(b), r#"{"type":"pong"}"#),
        other => panic!("unexpected {:?}", other),
    }
}

#[test]
fn connection_error_closes_whatever_handlers_say() {
    let c = ready(GraphqlWsProtocol::APOLLO);
    let d = c.on_listen(frame(r#"{"type":"connection_error","payload":{}}"#));
    assert_eq!(d, Dispatch::Close);
    assert!(d.ends_loop_after(false));
    assert!(d.ends_loop_after(true));
}

#[test]
fn error_event_ends_loop_only_when_handler_says_so() {
    let c = ready(GraphqlWsProtocol::APOLLO);
    let d = c.on_listen(frame(r#"{"type":"error","id":"4"}"#));
    assert!(matches!(d, Dispatch::Error(_)));
    assert!(d.ends_loop_after(true));
    assert!(!d.ends_loop_after(false));
}

#[test]
fn end_and_read_failure_in_listen() {
    let c = ready(GraphqlWsProtocol::APOLLO);
    assert_eq!(c.on_listen(Inbound::EndOfStream), Dispatch::Finished);
    assert_eq!(c.on_listen(Inbound::ReadFailed), Dispatch::Abort(ClientError::Transport));
    let idle = Connection::new(GraphqlWsProtocol::APOLLO);
    assert_eq!(idle.on_listen(frame(r#"{"type":"ka"}"#)), Dispatch::Finished);
}

#[test]
fn next_surfaces_decode_failures() {
    let c = ready(GraphqlWsProtocol::OFFICIAL);
    assert_eq!(c.on_next(frame("not json")), Err(ClientError::Decode(DecodeError::UnrecognizedEvent)));
    assert_eq!(c.on_next(Inbound::Frame(Frame::NonText)), Err(ClientError::Decode(DecodeError::NotText)));
    assert_eq!(c.on_next(Inbound::EndOfStream), Ok(None));
    assert_eq!(c.on_next(Inbound::ReadFailed), Err(ClientError::Transport));
    assert_eq!(c.on_next(frame(r#"{"type":"ping"}"#)), Ok(Some(GraphqlWsServerEvent::Ping)));
}

#[test]
fn operations_wait_for_ready() {
    let mut c = Connection::new(GraphqlWsProtocol::OFFICIAL);
    let stop = || GraphqlWsClientEvent::Stop(GraphqlWsStop { id: "1".to_string() });
    assert_eq!(c.prepare_send(stop()), Err(ClientError::NotReady));
    c.open().unwrap();
    assert_eq!(c.prepare_send(stop()), Err(ClientError::NotReady));
    assert_eq!(c.prepare_send(GraphqlWsClientEvent::Pong), Err(ClientError::NotReady));
}

#[test]
fn legacy_close_sends_terminate_then_closes() {
    let mut c = ready(GraphqlWsProtocol::APOLLO);
    let term = c.begin_close().unwrap().unwrap();
    assert_eq!(utf8(term), r#"{"type":"connection_terminate"}"#);
    assert_eq!(c.state(), ConnectionState::Closing);
    c.finish_close();
    assert_eq!(c.state(), ConnectionState::Closed);
    assert_eq!(c.begin_close(), Err(ClientError::ConnectionClosed));
}

#[test]
fn transport_close_sends_no_terminate() {
    let mut c = ready(GraphqlWsProtocol::OFFICIAL);
    assert_eq!(c.begin_close(), Ok(None));
    c.finish_close();
    assert_eq!(c.state(), ConnectionState::Closed);
}

#[test]
fn send_after_close_fails() {
    let mut c = ready(GraphqlWsProtocol::OFFICIAL);
    c.begin_close().unwrap();
    c.finish_close();
    let sub = GraphqlWsClientEvent::Subscribe(GraphqlWsStart::new("1", "{ a }".to_string()));
    assert_eq!(c.prepare_send(sub), Err(ClientError::ConnectionClosed));
    assert_eq!(c.prepare_send(GraphqlWsClientEvent::ConnectionTerminate), Err(ClientError::ConnectionClosed));
}

#[test]
fn legacy_ready_connection_sends_start_and_stop() {
    let c = ready(GraphqlWsProtocol::APOLLO);
    let sub = GraphqlWsClientEvent::Subscribe(GraphqlWsStart::new("2", "{ a }".to_string()));
    assert_eq!(
        utf8(c.prepare_send(sub).unwrap()),
        r#"{"id":"2","payload":{"operationName":"","query":"{ a }","variables":{}},"type":"start"}"#
    );
    let stop = GraphqlWsClientEvent::Stop(GraphqlWsStop { id: "2".to_string() });
    assert_eq!(utf8(c.prepare_send(stop).unwrap()), r#"{"id":"2","type":"stop"}"#);
    assert_eq!(c.prepare_send(GraphqlWsClientEvent::Pong), Err(ClientError::Encode));
}

#[test]
fn ready_connection_sends_init_and_terminate() {
    for d in [GraphqlWsProtocol::APOLLO, GraphqlWsProtocol::OFFICIAL] {
        let c = ready(d);
        assert_eq!(utf8(c.prepare_send(GraphqlWsClientEvent::ConnectionInit).unwrap()), r#"{"type":"connection_init"}"#);
        assert_eq!(
            utf8(c.prepare_send(GraphqlWsClientEvent::ConnectionTerminate).unwrap()),
            r#"{"type":"connection_terminate"}"#
        );
    }
    let fresh = Connection::new(GraphqlWsProtocol::OFFICIAL);
    assert!(fresh.prepare_send(GraphqlWsClientEvent::ConnectionInit).is_ok());
    assert_eq!(fresh.prepare_send(GraphqlWsClientEvent::Pong), Err(ClientError::NotReady));
}
