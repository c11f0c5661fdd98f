//! The event vocabulary of both dialects and its wire encoding.
//!
//! One set of event types serves both dialects; the dialect decides which
//! members exist and which `type` discriminator each one carries.
use vstd::prelude::*;

use crate::json::{
    field_of, has_keys, key_index, lemma_field_of_after_remove, lemma_key_index_bounds,
    lemma_key_index_is, member, parse_json, parsed_json, render_json, rendered_json, str_of, take_field,
    text, value_at, Json,
};
use crate::GraphqlWsProtocol;

verus! {

/// What a subscription asks for.
#[derive(Debug, PartialEq)]
pub struct GraphqlWsStartPayload {
    /// Written `operationName` on the wire.
    pub operation_name: String,
    pub variables: Json,
    pub query: String,
}

/// Starts an operation: `start` in the legacy dialect, `subscribe` in the transport one.
#[derive(Debug, PartialEq)]
pub struct GraphqlWsStart {
    pub id: String,
    pub payload: GraphqlWsStartPayload,
}

/// The transport dialect's name for [`GraphqlWsStart`].
pub type GraphqlWsSubscribe = GraphqlWsStart;

/// Cancels an operation: `stop` in the legacy dialect, `complete` in the transport one.
#[derive(Debug, PartialEq)]
pub struct GraphqlWsStop {
    pub id: String,
}

#[derive(Debug, PartialEq)]
pub struct GraphqlWsDataPayload {
    pub data: Json,
}

/// A result of an operation: `data` in the legacy dialect, `next` in the transport one.
#[derive(Debug, PartialEq)]
pub struct GraphqlWsData {
    pub id: String,
    pub payload: GraphqlWsDataPayload,
}

/// The transport dialect's name for [`GraphqlWsData`].
pub type GraphqlWsNext = GraphqlWsData;

#[derive(Debug, PartialEq)]
pub struct GraphqlWsErrorPayload {
    pub errors: Json,
}

/// An error, for an operation or for none.
#[derive(Debug, PartialEq)]
pub struct GraphqlWsError {
    pub id: Option<String>,
    pub payload: Option<GraphqlWsErrorPayload>,
}

/// The server has finished an operation.
#[derive(Debug, PartialEq)]
pub struct GraphqlWsComplete {
    pub id: String,
}

/// What a client sends.
#[derive(Debug, PartialEq)]
pub enum GraphqlWsClientEvent {
    ConnectionInit,
    ConnectionTerminate,
    Subscribe(GraphqlWsStart),
    Stop(GraphqlWsStop),
    /// Transport dialect only.
    Pong,
}

/// What a server sends.
#[derive(Debug, PartialEq)]
pub enum GraphqlWsServerEvent {
    ConnectionAck,
    /// Legacy dialect only.
    ConnectionError,
    /// Legacy dialect only (`ka`).
    KeepAlive,
    /// Transport dialect only.
    Ping,
    /// Transport dialect only.
    Pong,
    Data(GraphqlWsData),
    Error(GraphqlWsError),
    Complete(GraphqlWsComplete),
}

/// An inbound transport frame, as far as decoding cares.
#[derive(Debug, PartialEq)]
pub enum Frame {
    Text(String),
    NonText,
}

#[derive(Clone, Copy, Debug, PartialEq, Eq, Structural)]
pub enum DecodeError {
    NotText,
    UnrecognizedEvent,
}

#[derive(Clone, Copy, Debug, PartialEq, Eq, Structural)]
pub enum ClientError {
    /// The transport failed to read or write.
    Transport,
    Decode(DecodeError),
    /// The stream ended before the server acknowledged the connection.
    HandshakeFailed,
    /// The event could not be written in the connection's dialect.
    Encode,
    /// The connection is closed.
    ConnectionClosed,
    /// The connection is not in a state that allows this event.
    NotReady,
}

impl GraphqlWsStart {
    /// A subscription with no operation name and empty variables.
    pub fn new(id: &str, query: String) -> (r: GraphqlWsStart)
        ensures
            r.id@ == id@,
            r.payload.query == query,
            r.payload.operation_name@ == Seq::<char>::empty(),
            r.payload.variables matches Json::Object(v) && v@.len() == 0,
    {
        GraphqlWsStart {
            id: text(id),
            payload: GraphqlWsStartPayload {
                operation_name: String::new(),
                variables: Json::Object(Vec::new()),
                query,
            },
        }
    }
}

/// Whether the dialect has this server event.
pub open spec fn server_in_dialect(d: GraphqlWsProtocol, e: GraphqlWsServerEvent) -> bool {
    match e {
        GraphqlWsServerEvent::ConnectionError | GraphqlWsServerEvent::KeepAlive => d
            == GraphqlWsProtocol::APOLLO,
        GraphqlWsServerEvent::Ping | GraphqlWsServerEvent::Pong => d == GraphqlWsProtocol::OFFICIAL,
        _ => true,
    }
}

/// Whether the dialect has this client event.
pub open spec fn client_in_dialect(d: GraphqlWsProtocol, e: GraphqlWsClientEvent) -> bool {
    match e {
        GraphqlWsClientEvent::Pong => d == GraphqlWsProtocol::OFFICIAL,
        _ => true,
    }
}

/// The discriminator of an operation result.
pub open spec fn data_tag(d: GraphqlWsProtocol) -> Seq<char> {
    match d {
        GraphqlWsProtocol::APOLLO => "data"@,
        GraphqlWsProtocol::OFFICIAL => "next"@,
    }
}

/// The discriminator of a server event.
pub open spec fn server_tag(d: GraphqlWsProtocol, e: GraphqlWsServerEvent) -> Seq<char> {
    match e {
        GraphqlWsServerEvent::ConnectionAck => "connection_ack"@,
        GraphqlWsServerEvent::ConnectionError => "connection_error"@,
        GraphqlWsServerEvent::KeepAlive => "ka"@,
        GraphqlWsServerEvent::Ping => "ping"@,
        GraphqlWsServerEvent::Pong => "pong"@,
        GraphqlWsServerEvent::Data(_) => data_tag(d),
        GraphqlWsServerEvent::Error(_) => "error"@,
        GraphqlWsServerEvent::Complete(_) => "complete"@,
    }
}

/// The discriminator of a client event.
pub open spec fn client_tag(d: GraphqlWsProtocol, e: GraphqlWsClientEvent) -> Seq<char> {
    match e {
        GraphqlWsClientEvent::ConnectionInit => "connection_init"@,
        GraphqlWsClientEvent::ConnectionTerminate => "connection_terminate"@,
        GraphqlWsClientEvent::Subscribe(_) => if d == GraphqlWsProtocol::APOLLO {
            "start"@
        } else {
            "subscribe"@
        },
        GraphqlWsClientEvent::Stop(_) => if d == GraphqlWsProtocol::APOLLO {
            "stop"@
        } else {
            "complete"@
        },
        GraphqlWsClientEvent::Pong => "pong"@,
    }
}

/// `j` is the string `s`.
pub open spec fn is_text(j: Json, s: Seq<char>) -> bool {
    j matches Json::Str(t) && t@ == s
}

/// An optional string: absent or `null` is none, a string is some, anything else is malformed.
pub open spec fn optional_str(j: Option<Json>) -> Option<Option<String>> {
    match j {
        None => Some(None),
        Some(Json::Null) => Some(None),
        Some(Json::Str(s)) => Some(Some(s)),
        _ => None,
    }
}

/// The body of a `data` / `next` document.
pub open spec fn data_of(j: Json) -> Option<GraphqlWsData> {
    match (str_of(member(j, "id"@)), member(j, "payload"@)) {
        (Some(id), Some(p)) => match member(p, "data"@) {
            Some(data) => Some(GraphqlWsData { id, payload: GraphqlWsDataPayload { data } }),
            None => None,
        },
        _ => None,
    }
}

/// The payload of an `error` document: absent or `null` is none, else an object with `errors`.
pub open spec fn error_payload_of(j: Option<Json>) -> Option<Option<GraphqlWsErrorPayload>> {
    match j {
        None => Some(None),
        Some(Json::Null) => Some(None),
        Some(p) => match member(p, "errors"@) {
            Some(errors) => Some(Some(GraphqlWsErrorPayload { errors })),
            None => None,
        },
    }
}

/// The body of an `error` document.
pub open spec fn error_of(j: Json) -> Option<GraphqlWsError> {
    match (optional_str(member(j, "id"@)), error_payload_of(member(j, "payload"@))) {
        (Some(id), Some(payload)) => Some(GraphqlWsError { id, payload }),
        _ => None,
    }
}

/// The body of a `complete` document.
pub open spec fn complete_of(j: Json) -> Option<GraphqlWsComplete> {
    match str_of(member(j, "id"@)) {
        Some(id) => Some(GraphqlWsComplete { id }),
        None => None,
    }
}

/// The server event a document stands for in dialect `d`, read by its `type`
/// member; members that the event does not use are ignored.
pub open spec fn server_event_of(d: GraphqlWsProtocol, j: Json) -> Option<GraphqlWsServerEvent> {
    match str_of(member(j, "type"@)) {
        None => None,
        Some(t) => if t@ == "connection_ack"@ {
            Some(GraphqlWsServerEvent::ConnectionAck)
        } else if t@ == "error"@ {
            match error_of(j) {
                Some(e) => Some(GraphqlWsServerEvent::Error(e)),
                None => None,
            }
        } else if t@ == "complete"@ {
            match complete_of(j) {
                Some(c) => Some(GraphqlWsServerEvent::Complete(c)),
                None => None,
            }
        } else if t@ == data_tag(d) {
            match data_of(j) {
                Some(x) => Some(GraphqlWsServerEvent::Data(x)),
                None => None,
            }
        } else if d == GraphqlWsProtocol::APOLLO && t@ == "connection_error"@ {
            Some(GraphqlWsServerEvent::ConnectionError)
        } else if d == GraphqlWsProtocol::APOLLO && t@ == "ka"@ {
            Some(GraphqlWsServerEvent::KeepAlive)
        } else if d == GraphqlWsProtocol::OFFICIAL && t@ == "ping"@ {
            Some(GraphqlWsServerEvent::Ping)
        } else if d == GraphqlWsProtocol::OFFICIAL && t@ == "pong"@ {
            Some(GraphqlWsServerEvent::Pong)
        } else {
            None
        },
    }
}

/// What a frame decodes to in dialect `d`.
pub open spec fn frame_event(d: GraphqlWsProtocol, f: Frame) -> Result<
    GraphqlWsServerEvent,
    DecodeError,
> {
    match f {
        Frame::NonText => Err(DecodeError::NotText),
        Frame::Text(s) => match parsed_json(s@) {
            None => Err(DecodeError::UnrecognizedEvent),
            Some(j) => match server_event_of(d, j) {
                Some(e) => Ok(e),
                None => Err(DecodeError::UnrecognizedEvent),
            },
        },
    }
}

/// `j` is the document that writes server event `e` in dialect `d`: in the
/// tree its discriminator comes first, then the event's own members. (Written
/// out, the members come sorted by key, so `type` stands last.)
pub open spec fn server_doc(d: GraphqlWsProtocol, e: GraphqlWsServerEvent, j: Json) -> bool {
    &&& is_text(value_at(j, 0), server_tag(d, e))
    &&& match e {
        GraphqlWsServerEvent::Data(x) => {
            &&& has_keys(j, seq!["type"@, "id"@, "payload"@])
            &&& value_at(j, 1) == Json::Str(x.id)
            &&& has_keys(value_at(j, 2), seq!["data"@])
            &&& value_at(value_at(j, 2), 0) == x.payload.data
        },
        GraphqlWsServerEvent::Error(x) => {
            &&& has_keys(j, seq!["type"@, "id"@, "payload"@])
            &&& value_at(j, 1) == match x.id {
                Some(id) => Json::Str(id),
                None => Json::Null,
            }
            &&& match x.payload {
                Some(p) => has_keys(value_at(j, 2), seq!["errors"@]) && value_at(value_at(j, 2), 0)
                    == p.errors,
                None => value_at(j, 2) == Json::Null,
            }
        },
        GraphqlWsServerEvent::Complete(x) => {
            &&& has_keys(j, seq!["type"@, "id"@])
            &&& value_at(j, 1) == Json::Str(x.id)
        },
        _ => has_keys(j, seq!["type"@]),
    }
}

/// `j` is the document that writes client event `e` in dialect `d`, with the
/// same member order in the tree as a server document (sorted by key when
/// written out).
pub open spec fn client_doc(d: GraphqlWsProtocol, e: GraphqlWsClientEvent, j: Json) -> bool {
    &&& is_text(value_at(j, 0), client_tag(d, e))
    &&& match e {
        GraphqlWsClientEvent::Subscribe(x) => {
            &&& has_keys(j, seq!["type"@, "id"@, "payload"@])
            &&& value_at(j, 1) == Json::Str(x.id)
            &&& has_keys(value_at(j, 2), seq!["operationName"@, "variables"@, "query"@])
            &&& value_at(value_at(j, 2), 0) == Json::Str(x.payload.operation_name)
            &&& value_at(value_at(j, 2), 1) == x.payload.variables
            &&& value_at(value_at(j, 2), 2) == Json::Str(x.payload.query)
        },
        GraphqlWsClientEvent::Stop(x) => {
            &&& has_keys(j, seq!["type"@, "id"@])
            &&& value_at(j, 1) == Json::Str(x.id)
        },
        _ => has_keys(j, seq!["type"@]),
    }
}

/// Within an object whose names are `keys`, the member named `keys[i]` is the
/// `i`-th, when no earlier name repeats it.
pub proof fn lemma_member_at(j: Json, keys: Seq<Seq<char>>, i: int)
    requires
        has_keys(j, keys),
        0 <= i < keys.len(),
        forall|k: int| 0 <= k < i ==> keys[k] != keys[i],
    ensures
        member(j, keys[i]) == Some(value_at(j, i)),
{
    if let Json::Object(fields) = j {
        assert(fields@[i].0@ == keys[i]);
        assert forall|k: int| 0 <= k < i implies fields@[k].0@ != keys[i] by {
            assert(fields@[k].0@ == keys[k]);
        }
        lemma_key_index_is(fields@, keys[i], i);
    }
}

/// Both dialects read back every server event they write: decoding the document
/// that writes `e` gives `e` again.
pub proof fn lemma_server_doc_decodes(d: GraphqlWsProtocol, e: GraphqlWsServerEvent, j: Json)
    requires
        server_in_dialect(d, e),
        server_doc(d, e, j),
    ensures
        server_event_of(d, j) == Some(e),
{
    reveal_strlit("type");
    reveal_strlit("id");
    reveal_strlit("payload");
    reveal_strlit("data");
    reveal_strlit("errors");
    reveal_strlit("next");
    reveal_strlit("connection_ack");
    reveal_strlit("connection_error");
    reveal_strlit("ka");
    reveal_strlit("ping");
    reveal_strlit("pong");
    reveal_strlit("error");
    reveal_strlit("complete");
    let three = seq!["type"@, "id"@, "payload"@];
    let two = seq!["type"@, "id"@];
    let one = seq!["type"@];
    assert("type"@.len() == 4 && "id"@.len() == 2 && "payload"@.len() == 7);
    assert("data"@.len() == 4 && "next"@.len() == 4 && "error"@.len() == 5);
    assert("complete"@.len() == 8 && "connection_ack"@.len() == 14);
    assert("type"@ != "id"@ && "type"@ != "payload"@ && "id"@ != "payload"@);
    assert(three[0] == "type"@ && three[1] == "id"@ && three[2] == "payload"@);
    assert(two[0] == "type"@ && two[1] == "id"@);
    match e {
        GraphqlWsServerEvent::Data(x) => {
            lemma_member_at(j, three, 0);
            lemma_member_at(j, three, 1);
            lemma_member_at(j, three, 2);
            lemma_member_at(value_at(j, 2), seq!["data"@], 0);
        },
        GraphqlWsServerEvent::Error(x) => {
            lemma_member_at(j, three, 0);
            lemma_member_at(j, three, 1);
            lemma_member_at(j, three, 2);
            if x.payload is Some {
                lemma_member_at(value_at(j, 2), seq!["errors"@], 0);
            }
        },
        GraphqlWsServerEvent::Complete(x) => {
            lemma_member_at(j, two, 0);
            lemma_member_at(j, two, 1);
        },
        _ => {
            lemma_member_at(j, one, 0);
            assert("ka"@.len() == 2 && "connection_error"@.len() == 16);
            assert("ping"@[1] != "pong"@[1] && "ping"@[0] != "next"@[0] && "pong"@[0] != "next"@[0]);
            assert("ping"@ != "next"@ && "pong"@ != "next"@ && "ping"@ != "pong"@);
        },
    }
}

/// Round trip of the codec: a decoded server event, written again and decoded
/// again, is the same event.
pub proof fn lemma_server_round_trip(d: GraphqlWsProtocol, doc: Json, again: Json)
    requires
        server_event_of(d, doc) is Some,
        server_doc(d, server_event_of(d, doc)->Some_0, again),
    ensures
        server_event_of(d, again) == server_event_of(d, doc),
{
    lemma_decoded_in_dialect(d, doc);
    lemma_server_doc_decodes(d, server_event_of(d, doc)->Some_0, again);
}

/// Decoding only ever yields events of the dialect.
pub proof fn lemma_decoded_in_dialect(d: GraphqlWsProtocol, doc: Json)
    requires
        server_event_of(d, doc) is Some,
    ensures
        server_in_dialect(d, server_event_of(d, doc)->Some_0),
{
}

fn is_apollo(d: GraphqlWsProtocol) -> (r: bool)
    ensures
        r == (d == GraphqlWsProtocol::APOLLO),
{
    match d {
        GraphqlWsProtocol::APOLLO => true,
        GraphqlWsProtocol::OFFICIAL => false,
    }
}

fn server_tag_text(d: GraphqlWsProtocol, e: &GraphqlWsServerEvent) -> (r: String)
    ensures
        r@ == server_tag(d, *e),
{
    match e {
        GraphqlWsServerEvent::ConnectionAck => text("connection_ack"),
        GraphqlWsServerEvent::ConnectionError => text("connection_error"),
        GraphqlWsServerEvent::KeepAlive => text("ka"),
        GraphqlWsServerEvent::Ping => text("ping"),
        GraphqlWsServerEvent::Pong => text("pong"),
        GraphqlWsServerEvent::Data(_) => if is_apollo(d) {
            text("data")
        } else {
            text("next")
        },
        GraphqlWsServerEvent::Error(_) => text("error"),
        GraphqlWsServerEvent::Complete(_) => text("complete"),
    }
}

fn client_tag_text(d: GraphqlWsProtocol, e: &GraphqlWsClientEvent) -> (r: String)
    ensures
        r@ == client_tag(d, *e),
{
    match e {
        GraphqlWsClientEvent::ConnectionInit => text("connection_init"),
        GraphqlWsClientEvent::ConnectionTerminate => text("connection_terminate"),
        GraphqlWsClientEvent::Subscribe(_) => if is_apollo(d) {
            text("start")
        } else {
            text("subscribe")
        },
        GraphqlWsClientEvent::Stop(_) => if is_apollo(d) {
            text("stop")
        } else {
            text("complete")
        },
        GraphqlWsClientEvent::Pong => text("pong"),
    }
}

/// Whether dialect `d` has server event `e`.
pub fn server_event_in_dialect(d: GraphqlWsProtocol, e: &GraphqlWsServerEvent) -> (r: bool)
    ensures
        r == server_in_dialect(d, *e),
{
    match e {
        GraphqlWsServerEvent::ConnectionError | GraphqlWsServerEvent::KeepAlive => is_apollo(d),
        GraphqlWsServerEvent::Ping | GraphqlWsServerEvent::Pong => !is_apollo(d),
        _ => true,
    }
}

/// Whether dialect `d` has client event `e`.
pub fn client_event_in_dialect(d: GraphqlWsProtocol, e: &GraphqlWsClientEvent) -> (r: bool)
    ensures
        r == client_in_dialect(d, *e),
{
    match e {
        GraphqlWsClientEvent::Pong => !is_apollo(d),
        _ => true,
    }
}

/// The document that writes server event `e` in dialect `d`; none when the
/// dialect lacks the event.
pub fn encode_server_json(d: GraphqlWsProtocol, e: GraphqlWsServerEvent) -> (r: Option<Json>)
    ensures
        r is Some <==> server_in_dialect(d, e),
        r matches Some(j) ==> server_doc(d, e, j),
{
    if !server_event_in_dialect(d, &e) {
        return None;
    }
    let tag = (text("type"), Json::Str(server_tag_text(d, &e)));
    let ghost e0 = e;
    let doc = match e {
        GraphqlWsServerEvent::Data(x) => {
            let payload = Json::Object(vec![(text("data"), x.payload.data)]);
            Json::Object(vec![tag, (text("id"), Json::Str(x.id)), (text("payload"), payload)])
        },
        GraphqlWsServerEvent::Error(x) => {
            let id = match x.id {
                Some(id) => Json::Str(id),
                None => Json::Null,
            };
            let payload = match x.payload {
                Some(p) => Json::Object(vec![(text("errors"), p.errors)]),
                None => Json::Null,
            };
            Json::Object(vec![tag, (text("id"), id), (text("payload"), payload)])
        },
        GraphqlWsServerEvent::Complete(x) => Json::Object(vec![tag, (text("id"), Json::Str(x.id))]),
        _ => Json::Object(vec![tag]),
    };
    proof {
        assert(server_doc(d, e0, doc));
    }
    Some(doc)
}

/// The document that writes client event `e` in dialect `d`; none when the
/// dialect lacks the event.
pub fn encode_client_json(d: GraphqlWsProtocol, e: GraphqlWsClientEvent) -> (r: Option<Json>)
    ensures
        r is Some <==> client_in_dialect(d, e),
        r matches Some(j) ==> client_doc(d, e, j),
{
    if !client_event_in_dialect(d, &e) {
        return None;
    }
    let tag = (text("type"), Json::Str(client_tag_text(d, &e)));
    let ghost e0 = e;
    let doc = match e {
        GraphqlWsClientEvent::Subscribe(x) => {
            let payload = Json::Object(
                vec![
                    (text("operationName"), Json::Str(x.payload.operation_name)),
                    (text("variables"), x.payload.variables),
                    (text("query"), Json::Str(x.payload.query)),
                ],
            );
            Json::Object(vec![tag, (text("id"), Json::Str(x.id)), (text("payload"), payload)])
        },
        GraphqlWsClientEvent::Stop(x) => Json::Object(vec![tag, (text("id"), Json::Str(x.id))]),
        _ => Json::Object(vec![tag]),
    };
    proof {
        assert(client_doc(d, e0, doc));
    }
    Some(doc)
}

/// Takes the `id` and `payload` members out of an object's member list.
fn take_id_and_payload(fields: Vec<(String, Json)>) -> (r: (Option<Json>, Option<Json>))
    ensures
        r.0 == field_of(fields@, "id"@),
        r.1 == field_of(fields@, "payload"@),
{
    proof {
        reveal_strlit("id");
        reveal_strlit("payload");
        assert("id"@.len() == 2 && "payload"@.len() == 7);
    }
    let mut fields = fields;
    let ghost all = fields@;
    let id = take_field(&mut fields, "id");
    proof {
        lemma_key_index_bounds(all, "id"@);
        if key_index(all, "id"@) < all.len() {
            lemma_field_of_after_remove(all, "id"@, "payload"@);
        }
    }
    let payload = take_field(&mut fields, "payload");
    (id, payload)
}

/// The server event that document `j` stands for in dialect `d`.
pub fn decode_server_json(d: GraphqlWsProtocol, j: Json) -> (r: Option<GraphqlWsServerEvent>)
    ensures
        r == server_event_of(d, j),
{
    let ghost j0 = j;
    let mut fields = match j {
        Json::Object(fields) => fields,
        _ => return None,
    };
    let ghost all = fields@;
    proof {
        reveal_strlit("type");
        reveal_strlit("id");
        reveal_strlit("payload");
        assert("type"@.len() == 4 && "id"@.len() == 2 && "payload"@.len() == 7);
    }
    let tag = match take_field(&mut fields, "type") {
        Some(Json::Str(t)) => t,
        _ => return None,
    };
    proof {
        lemma_field_of_after_remove(all, "type"@, "id"@);
        lemma_field_of_after_remove(all, "type"@, "payload"@);
    }
    if tag == text("connection_ack") {
        return Some(GraphqlWsServerEvent::ConnectionAck);
    }
    let (id, payload) = take_id_and_payload(fields);
    if tag == text("error") {
        let id = match id {
            None => None,
            Some(Json::Null) => None,
            Some(Json::Str(s)) => Some(s),
            _ => return None,
        };
        let payload = match payload {
            None => None,
            Some(Json::Null) => None,
            Some(Json::Object(mut inner)) => match take_field(&mut inner, "errors") {
                Some(errors) => Some(GraphqlWsErrorPayload { errors }),
                None => return None,
            },
            _ => return None,
        };
        return Some(GraphqlWsServerEvent::Error(GraphqlWsError { id, payload }));
    }
    if tag == text("complete") {
        return match id {
            Some(Json::Str(id)) => Some(GraphqlWsServerEvent::Complete(GraphqlWsComplete { id })),
            _ => None,
        };
    }
    let data = if is_apollo(d) {
        text("data")
    } else {
        text("next")
    };
    if tag == data {
        return match (id, payload) {
            (Some(Json::Str(id)), Some(Json::Object(mut inner))) => match take_field(
                &mut inner,
                "data",
            ) {
                Some(data) => Some(
                    GraphqlWsServerEvent::Data(GraphqlWsData { id, payload: GraphqlWsDataPayload { data } }),
                ),
                None => None,
            },
            _ => None,
        };
    }
    if is_apollo(d) {
        if tag == text("connection_error") {
            Some(GraphqlWsServerEvent::ConnectionError)
        } else if tag == text("ka") {
            Some(GraphqlWsServerEvent::KeepAlive)
        } else {
            None
        }
    } else {
        if tag == text("ping") {
            Some(GraphqlWsServerEvent::Ping)
        } else if tag == text("pong") {
            Some(GraphqlWsServerEvent::Pong)
        } else {
            None
        }
    }
}

/// Decodes an inbound frame in dialect `d`: a frame that is not text, or text
/// that is not a known event of the dialect, is refused.
pub fn decode_frame(d: GraphqlWsProtocol, frame: Frame) -> (r: Result<GraphqlWsServerEvent, DecodeError>)
    ensures
        r == frame_event(d, frame),
{
    match frame {
        Frame::NonText => Err(DecodeError::NotText),
        Frame::Text(s) => match parse_json(s.as_str()) {
            None => Err(DecodeError::UnrecognizedEvent),
            Some(j) => match decode_server_json(d, j) {
                Some(e) => Ok(e),
                None => Err(DecodeError::UnrecognizedEvent),
            },
        },
    }
}

/// The bytes of client event `e` in dialect `d`. Fails with `Encode` exactly
/// when the dialect lacks the event.
pub fn encode_client_message(d: GraphqlWsProtocol, e: GraphqlWsClientEvent) -> (r: Result<
    Vec<u8>,
    ClientError,
>)
    ensures
        client_in_dialect(d, e) ==> r is Ok,
        r matches Ok(b) ==> exists|j: Json| #[trigger] client_doc(d, e, j) && b@ == rendered_json(j),
        !client_in_dialect(d, e) ==> r == Err::<Vec<u8>, ClientError>(ClientError::Encode),
{
    let ghost e0 = e;
    match encode_client_json(d, e) {
        None => Err(ClientError::Encode),
        Some(doc) => {
            let ghost j = doc;
            match render_json(doc) {
                Some(bytes) => {
                    assert(client_doc(d, e0, j));
                    Ok(bytes)
                },
                None => Err(ClientError::Encode),
            }
        },
    }
}

/// The bytes of server event `e` in dialect `d`. Fails with `Encode` exactly
/// when the dialect lacks the event.
pub fn encode_server_message(d: GraphqlWsProtocol, e: GraphqlWsServerEvent) -> (r: Result<
    Vec<u8>,
    ClientError,
>)
    ensures
        server_in_dialect(d, e) ==> r is Ok,
        r matches Ok(b) ==> exists|j: Json| #[trigger] server_doc(d, e, j) && b@ == rendered_json(j),
        !server_in_dialect(d, e) ==> r == Err::<Vec<u8>, ClientError>(ClientError::Encode),
{
    let ghost e0 = e;
    match encode_server_json(d, e) {
        None => Err(ClientError::Encode),
        Some(doc) => {
            let ghost j = doc;
            match render_json(doc) {
                Some(bytes) => {
                    assert(server_doc(d, e0, j));
                    Ok(bytes)
                },
                None => Err(ClientError::Encode),
            }
        },
    }
}

/// The bytes of a client event in the transport dialect.
pub fn build_client_message(client_event: GraphqlWsClientEvent) -> (r: Result<Vec<u8>, ClientError>)
    ensures
        client_in_dialect(GraphqlWsProtocol::OFFICIAL, client_event) ==> r is Ok,
        r matches Ok(b) ==> exists|j: Json| #[trigger] client_doc(GraphqlWsProtocol::OFFICIAL, client_event, j) && b@ == rendered_json(j),
        !client_in_dialect(GraphqlWsProtocol::OFFICIAL, client_event) ==> r == Err::<
            Vec<u8>,
            ClientError,
        >(ClientError::Encode),
{
    encode_client_message(GraphqlWsProtocol::OFFICIAL, client_event)
}

} // verus!
