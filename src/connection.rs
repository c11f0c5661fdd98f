//! The connection lifecycle and the receive dispatch, as decisions over
//! inbound input; the transport itself is driven by the caller.
use vstd::prelude::*;

use crate::event::{
    client_doc, client_in_dialect, decode_frame, encode_client_message, frame_event, ClientError,
    DecodeError, Frame, GraphqlWsClientEvent, GraphqlWsComplete, GraphqlWsData, GraphqlWsError,
    GraphqlWsServerEvent,
};
use crate::json::{rendered_json, Json};
use crate::GraphqlWsProtocol;

verus! {

/// Where a connection stands. It only moves forward; `Closed` is final.
#[derive(Clone, Copy, Debug, PartialEq, Eq, Structural)]
pub enum ConnectionState {
    Disconnected,
    Handshaking,
    Ready,
    Closing,
    Closed,
}

/// One thing the transport hands over when asked for the next frame.
#[derive(Debug, PartialEq)]
pub enum Inbound {
    Frame(Frame),
    EndOfStream,
    ReadFailed,
}

/// What one inbound item does to a handshake.
#[derive(Debug, PartialEq)]
pub enum HandshakeStep {
    /// Still waiting for the acknowledgement; the item was discarded.
    Pending,
    /// Acknowledged: the connection is ready.
    Ready,
    /// The handshake is over without a connection.
    Failed(ClientError),
}

/// What the receive loop does with one inbound item.
#[derive(Debug, PartialEq)]
pub enum Dispatch {
    /// Nothing to do; wait for the next frame.
    Continue,
    /// Write these bytes (the answer to a ping), then wait for the next frame.
    Reply(Vec<u8>),
    /// Close the connection and end the loop.
    Close,
    /// Hand the event to the data handler.
    Data(GraphqlWsData),
    /// Hand the event to the error handler.
    Error(GraphqlWsError),
    /// Hand the event to the complete handler.
    Complete(GraphqlWsComplete),
    /// The stream is over: end the loop.
    Finished,
    /// Close the connection, then end the loop with this error.
    Abort(ClientError),
}

/// The protocol state of one connection.
pub struct Connection {
    dialect: GraphqlWsProtocol,
    state: ConnectionState,
}

/// `b` holds the document of client event `e` in dialect `d`.
pub open spec fn writes(d: GraphqlWsProtocol, e: GraphqlWsClientEvent, b: Seq<u8>) -> bool {
    exists|j: Json| #[trigger] client_doc(d, e, j) && b == rendered_json(j)
}

/// The input is a frame that decodes to the acknowledgement.
pub open spec fn is_ack(d: GraphqlWsProtocol, input: Inbound) -> bool {
    input matches Inbound::Frame(f) && frame_event(d, f) == Ok::<
        GraphqlWsServerEvent,
        DecodeError,
    >(GraphqlWsServerEvent::ConnectionAck)
}

/// The effect of one input on a handshake: only the acknowledgement ends it
/// well, every other frame is discarded, and the end of the stream or a read
/// failure ends it without a connection.
pub open spec fn handshake_step(d: GraphqlWsProtocol, input: Inbound) -> HandshakeStep {
    match input {
        Inbound::Frame(_) => if is_ack(d, input) {
            HandshakeStep::Ready
        } else {
            HandshakeStep::Pending
        },
        Inbound::EndOfStream => HandshakeStep::Failed(ClientError::HandshakeFailed),
        Inbound::ReadFailed => HandshakeStep::Failed(ClientError::Transport),
    }
}

/// The state a handshake step leaves the connection in.
pub open spec fn state_after_handshake(s: HandshakeStep) -> ConnectionState {
    match s {
        HandshakeStep::Pending => ConnectionState::Handshaking,
        HandshakeStep::Ready => ConnectionState::Ready,
        HandshakeStep::Failed(_) => ConnectionState::Closed,
    }
}

/// The outcome of a handshake fed `inputs` in order, up to its first decisive step.
pub open spec fn handshake_run(d: GraphqlWsProtocol, inputs: Seq<Inbound>) -> HandshakeStep
    decreases inputs.len(),
{
    if inputs.len() == 0 {
        HandshakeStep::Pending
    } else {
        match handshake_step(d, inputs[0]) {
            HandshakeStep::Pending => handshake_run(d, inputs.drop_first()),
            s => s,
        }
    }
}

/// The receive loop's decision on one input of a ready connection.
pub open spec fn dispatches(d: GraphqlWsProtocol, input: Inbound, r: Dispatch) -> bool {
    match input {
        Inbound::EndOfStream => r == Dispatch::Finished,
        Inbound::ReadFailed => r == Dispatch::Abort(ClientError::Transport),
        Inbound::Frame(f) => match frame_event(d, f) {
            Err(_) => r == Dispatch::Continue,
            Ok(e) => match e {
                GraphqlWsServerEvent::ConnectionError => r == Dispatch::Close,
                GraphqlWsServerEvent::Ping => match r {
                    Dispatch::Reply(b) => writes(d, GraphqlWsClientEvent::Pong, b@),
                    _ => false,
                },
                GraphqlWsServerEvent::Data(x) => r == Dispatch::Data(x),
                GraphqlWsServerEvent::Error(x) => r == Dispatch::Error(x),
                GraphqlWsServerEvent::Complete(x) => r == Dispatch::Complete(x),
                _ => r == Dispatch::Continue,
            },
        },
    }
}

/// Whether client event `e` may be sent in state `s`: nothing once closed, and
/// operation traffic (subscribe, stop, pong) only when ready.
pub open spec fn may_send(s: ConnectionState, e: GraphqlWsClientEvent) -> bool {
    match e {
        GraphqlWsClientEvent::ConnectionInit | GraphqlWsClientEvent::ConnectionTerminate => s
            != ConnectionState::Closed,
        _ => s == ConnectionState::Ready,
    }
}

/// Whether the loop ends once the handler for `d` has returned `handler_result`.
pub open spec fn ends_loop(d: Dispatch, handler_result: bool) -> bool {
    match d {
        Dispatch::Continue | Dispatch::Reply(_) | Dispatch::Data(_) => false,
        Dispatch::Error(_) | Dispatch::Complete(_) => handler_result,
        _ => true,
    }
}

impl Dispatch {
    /// Whether the loop ends after this decision, given what its handler
    /// returned (ignored where no handler or the data handler runs).
    pub fn ends_loop_after(&self, handler_result: bool) -> (r: bool)
        ensures
            r == ends_loop(*self, handler_result),
    {
        match self {
            Dispatch::Continue | Dispatch::Reply(_) | Dispatch::Data(_) => false,
            Dispatch::Error(_) | Dispatch::Complete(_) => handler_result,
            _ => true,
        }
    }
}

fn same_state(a: ConnectionState, b: ConnectionState) -> (r: bool)
    ensures
        r == (a == b),
{
    match (a, b) {
        (ConnectionState::Disconnected, ConnectionState::Disconnected) => true,
        (ConnectionState::Handshaking, ConnectionState::Handshaking) => true,
        (ConnectionState::Ready, ConnectionState::Ready) => true,
        (ConnectionState::Closing, ConnectionState::Closing) => true,
        (ConnectionState::Closed, ConnectionState::Closed) => true,
        _ => false,
    }
}

impl Connection {
    /// The dialect, fixed for the connection's lifetime.
    pub closed spec fn dialect_of(&self) -> GraphqlWsProtocol {
        self.dialect
    }

    pub closed spec fn state_of(&self) -> ConnectionState {
        self.state
    }

    /// A connection that is not open yet.
    pub fn new(dialect: GraphqlWsProtocol) -> (r: Connection)
        ensures
            r.dialect_of() == dialect,
            r.state_of() == ConnectionState::Disconnected,
    {
        Connection { dialect, state: ConnectionState::Disconnected }
    }

    pub fn get_protocol(&self) -> (r: GraphqlWsProtocol)
        ensures
            r == self.dialect_of(),
    {
        self.dialect
    }

    pub fn state(&self) -> (r: ConnectionState)
        ensures
            r == self.state_of(),
    {
        self.state
    }

    /// Starts the handshake: gives the initiation to write and waits for the
    /// acknowledgement. Only a connection that is not open yet can start.
    pub fn open(&mut self) -> (r: Result<Vec<u8>, ClientError>)
        ensures
            final(self).dialect_of() == old(self).dialect_of(),
            old(self).state_of() != ConnectionState::Disconnected ==> r == Err::<
                Vec<u8>,
                ClientError,
            >(ClientError::NotReady) && final(self).state_of() == old(self).state_of(),
            old(self).state_of() == ConnectionState::Disconnected ==> match r {
                Ok(b) => writes(old(self).dialect_of(), GraphqlWsClientEvent::ConnectionInit, b@)
                    && final(self).state_of() == ConnectionState::Handshaking,
                Err(_) => false,
            },
    {
        if !same_state(self.state, ConnectionState::Disconnected) {
            return Err(ClientError::NotReady);
        }
        let r = encode_client_message(self.dialect, GraphqlWsClientEvent::ConnectionInit);
        self.state = ConnectionState::Handshaking;
        r
    }

    /// Takes one inbound item while handshaking.
    pub fn on_handshake(&mut self, input: Inbound) -> (r: HandshakeStep)
        ensures
            final(self).dialect_of() == old(self).dialect_of(),
            old(self).state_of() != ConnectionState::Handshaking ==> r == HandshakeStep::Failed(
                ClientError::NotReady,
            ) && final(self).state_of() == old(self).state_of(),
            old(self).state_of() == ConnectionState::Handshaking ==> r == handshake_step(
                old(self).dialect_of(),
                input,
            ) && final(self).state_of() == state_after_handshake(r),
    {
        if !same_state(self.state, ConnectionState::Handshaking) {
            return HandshakeStep::Failed(ClientError::NotReady);
        }
        let step = match input {
            Inbound::Frame(f) => match decode_frame(self.dialect, f) {
                Ok(GraphqlWsServerEvent::ConnectionAck) => HandshakeStep::Ready,
                _ => HandshakeStep::Pending,
            },
            Inbound::EndOfStream => HandshakeStep::Failed(ClientError::HandshakeFailed),
            Inbound::ReadFailed => HandshakeStep::Failed(ClientError::Transport),
        };
        self.state = match step {
            HandshakeStep::Pending => ConnectionState::Handshaking,
            HandshakeStep::Ready => ConnectionState::Ready,
            HandshakeStep::Failed(_) => ConnectionState::Closed,
        };
        step
    }

    /// Takes one inbound item in the receive loop. A connection that is not
    /// ready has nothing to receive: the loop is over.
    pub fn on_listen(&self, input: Inbound) -> (r: Dispatch)
        ensures
            self.state_of() != ConnectionState::Ready ==> r == Dispatch::Finished,
            self.state_of() == ConnectionState::Ready ==> dispatches(self.dialect_of(), input, r),
    {
        if !same_state(self.state, ConnectionState::Ready) {
            return Dispatch::Finished;
        }
        match input {
            Inbound::EndOfStream => Dispatch::Finished,
            Inbound::ReadFailed => Dispatch::Abort(ClientError::Transport),
            Inbound::Frame(f) => match decode_frame(self.dialect, f) {
                Err(_) => Dispatch::Continue,
                Ok(e) => match e {
                    GraphqlWsServerEvent::ConnectionError => Dispatch::Close,
                    GraphqlWsServerEvent::Ping => match encode_client_message(
                        self.dialect,
                        GraphqlWsClientEvent::Pong,
                    ) {
                        Ok(b) => Dispatch::Reply(b),
                        Err(_) => Dispatch::Continue,
                    },
                    GraphqlWsServerEvent::Data(x) => Dispatch::Data(x),
                    GraphqlWsServerEvent::Error(x) => Dispatch::Error(x),
                    GraphqlWsServerEvent::Complete(x) => Dispatch::Complete(x),
                    _ => Dispatch::Continue,
                },
            },
        }
    }

    /// Takes one inbound item for a caller that reads events one at a time:
    /// unlike the receive loop, a frame that does not decode is an error.
    pub fn on_next(&self, input: Inbound) -> (r: Result<Option<GraphqlWsServerEvent>, ClientError>)
        ensures
            r == match input {
                Inbound::EndOfStream => Ok(None),
                Inbound::ReadFailed => Err(ClientError::Transport),
                Inbound::Frame(f) => match frame_event(self.dialect_of(), f) {
                    Ok(e) => Ok(Some(e)),
                    Err(x) => Err(ClientError::Decode(x)),
                },
            },
    {
        match input {
            Inbound::EndOfStream => Ok(None),
            Inbound::ReadFailed => Err(ClientError::Transport),
            Inbound::Frame(f) => match decode_frame(self.dialect, f) {
                Ok(e) => Ok(Some(e)),
                Err(x) => Err(ClientError::Decode(x)),
            },
        }
    }

    /// The bytes to write for `event`: always given when the connection's state
    /// allows the event and the dialect has it. Nothing is to be written when
    /// this fails.
    pub fn prepare_send(&self, event: GraphqlWsClientEvent) -> (r: Result<Vec<u8>, ClientError>)
        ensures
            self.state_of() == ConnectionState::Closed ==> r == Err::<Vec<u8>, ClientError>(
                ClientError::ConnectionClosed,
            ),
            self.state_of() != ConnectionState::Closed && !may_send(self.state_of(), event) ==> r
                == Err::<Vec<u8>, ClientError>(ClientError::NotReady),
            may_send(self.state_of(), event) && client_in_dialect(self.dialect_of(), event) ==> match r {
                Ok(b) => writes(self.dialect_of(), event, b@),
                Err(_) => false,
            },
            may_send(self.state_of(), event) && !client_in_dialect(self.dialect_of(), event) ==> r
                == Err::<Vec<u8>, ClientError>(ClientError::Encode),
            self.state_of() == ConnectionState::Ready && client_in_dialect(self.dialect_of(), event)
                ==> match r {
                Ok(b) => writes(self.dialect_of(), event, b@),
                Err(_) => false,
            },
    {
        if same_state(self.state, ConnectionState::Closed) {
            return Err(ClientError::ConnectionClosed);
        }
        let allowed = match &event {
            GraphqlWsClientEvent::ConnectionInit | GraphqlWsClientEvent::ConnectionTerminate => true,
            _ => same_state(self.state, ConnectionState::Ready),
        };
        if !allowed {
            return Err(ClientError::NotReady);
        }
        encode_client_message(self.dialect, event)
    }

    /// Starts closing: gives the termination to write first where the dialect
    /// has one (the legacy dialect; the transport dialect closes with the
    /// transport's close frame alone). A closed connection stays closed.
    pub fn begin_close(&mut self) -> (r: Result<Option<Vec<u8>>, ClientError>)
        ensures
            final(self).dialect_of() == old(self).dialect_of(),
            old(self).state_of() == ConnectionState::Closed ==> r == Err::<
                Option<Vec<u8>>,
                ClientError,
            >(ClientError::ConnectionClosed) && final(self).state_of() == ConnectionState::Closed,
            old(self).state_of() != ConnectionState::Closed ==> final(self).state_of()
                == ConnectionState::Closing,
            old(self).state_of() != ConnectionState::Closed && old(self).dialect_of()
                == GraphqlWsProtocol::OFFICIAL ==> r == Ok::<Option<Vec<u8>>, ClientError>(None),
            old(self).state_of() != ConnectionState::Closed && old(self).dialect_of()
                == GraphqlWsProtocol::APOLLO ==> match r {
                Ok(Some(b)) => writes(
                    GraphqlWsProtocol::APOLLO,
                    GraphqlWsClientEvent::ConnectionTerminate,
                    b@,
                ),
                _ => false,
            },
    {
        if same_state(self.state, ConnectionState::Closed) {
            return Err(ClientError::ConnectionClosed);
        }
        self.state = ConnectionState::Closing;
        match self.dialect {
            GraphqlWsProtocol::OFFICIAL => Ok(None),
            GraphqlWsProtocol::APOLLO => match encode_client_message(
                GraphqlWsProtocol::APOLLO,
                GraphqlWsClientEvent::ConnectionTerminate,
            ) {
                Ok(b) => Ok(Some(b)),
                Err(_) => Ok(None),
            },
        }
    }

    /// The transport's close frame is written: the connection is closed for good.
    pub fn finish_close(&mut self)
        ensures
            final(self).dialect_of() == old(self).dialect_of(),
            final(self).state_of() == ConnectionState::Closed,
    {
        self.state = ConnectionState::Closed;
    }
}

/// Frames as the transport hands them over, one input each.
pub open spec fn frames_in(frames: Seq<Frame>) -> Seq<Inbound> {
    frames.map_values(|f: Frame| Inbound::Frame(f))
}

/// Some frame decodes to the acknowledgement.
pub open spec fn has_ack(d: GraphqlWsProtocol, frames: Seq<Frame>) -> bool {
    exists|i: int|
        0 <= i < frames.len() && #[trigger] frame_event(d, frames[i]) == Ok::<
            GraphqlWsServerEvent,
            DecodeError,
        >(GraphqlWsServerEvent::ConnectionAck)
}

/// A handshake that receives `frames` and then the end of the stream becomes
/// ready exactly when one of the frames is the acknowledgement; otherwise it
/// fails with `HandshakeFailed`.
pub proof fn lemma_handshake_outcome(d: GraphqlWsProtocol, frames: Seq<Frame>)
    ensures
        (handshake_run(d, frames_in(frames).push(Inbound::EndOfStream)) == HandshakeStep::Ready)
            <==> has_ack(d, frames),
        !has_ack(d, frames) ==> handshake_run(d, frames_in(frames).push(Inbound::EndOfStream))
            == HandshakeStep::Failed(ClientError::HandshakeFailed),
    decreases frames.len(),
{
    let inputs = frames_in(frames).push(Inbound::EndOfStream);
    if frames.len() == 0 {
        assert(inputs[0] == Inbound::EndOfStream);
    } else {
        let rest = frames.drop_first();
        lemma_handshake_outcome(d, rest);
        assert(inputs.drop_first() =~= frames_in(rest).push(Inbound::EndOfStream));
        assert(inputs[0] == Inbound::Frame(frames[0]));
        if frame_event(d, frames[0]) == Ok::<GraphqlWsServerEvent, DecodeError>(
            GraphqlWsServerEvent::ConnectionAck,
        ) {
            assert(has_ack(d, frames));
        } else {
            if has_ack(d, frames) {
                let i = choose|i: int|
                    0 <= i < frames.len() && #[trigger] frame_event(d, frames[i]) == Ok::<
                        GraphqlWsServerEvent,
                        DecodeError,
                    >(GraphqlWsServerEvent::ConnectionAck);
                assert(rest[i - 1] == frames[i]);
            }
            if has_ack(d, rest) {
                let i = choose|i: int|
                    0 <= i < rest.len() && #[trigger] frame_event(d, rest[i]) == Ok::<
                        GraphqlWsServerEvent,
                        DecodeError,
                    >(GraphqlWsServerEvent::ConnectionAck);
                assert(frames[i + 1] == rest[i]);
            }
        }
    }
}

/// On a legacy connection a `connection_error` frame always closes the
/// connection and ends the loop, whatever any handler would return.
pub proof fn lemma_connection_error_closes(f: Frame, r: Dispatch, handler_result: bool)
    requires
        frame_event(GraphqlWsProtocol::APOLLO, f) == Ok::<GraphqlWsServerEvent, DecodeError>(
            GraphqlWsServerEvent::ConnectionError,
        ),
        dispatches(GraphqlWsProtocol::APOLLO, Inbound::Frame(f), r),
    ensures
        r == Dispatch::Close,
        ends_loop(r, handler_result),
{
}

/// On a transport-dialect connection a ping is answered by exactly one pong,
/// written before the loop takes the next frame, and the loop goes on.
pub proof fn lemma_ping_answered_once(f: Frame, r: Dispatch, handler_result: bool)
    requires
        frame_event(GraphqlWsProtocol::OFFICIAL, f) == Ok::<GraphqlWsServerEvent, DecodeError>(
            GraphqlWsServerEvent::Ping,
        ),
        dispatches(GraphqlWsProtocol::OFFICIAL, Inbound::Frame(f), r),
    ensures
        r matches Dispatch::Reply(b) && writes(
            GraphqlWsProtocol::OFFICIAL,
            GraphqlWsClientEvent::Pong,
            b@,
        ),
        !ends_loop(r, handler_result),
{
}

/// While handshaking, a frame that is anything but the acknowledgement is
/// discarded: the handshake keeps waiting and no event comes out of it.
pub proof fn lemma_handshake_discards(d: GraphqlWsProtocol, f: Frame)
    requires
        frame_event(d, f) != Ok::<GraphqlWsServerEvent, DecodeError>(
            GraphqlWsServerEvent::ConnectionAck,
        ),
    ensures
        handshake_step(d, Inbound::Frame(f)) == HandshakeStep::Pending,
        state_after_handshake(handshake_step(d, Inbound::Frame(f))) == ConnectionState::Handshaking,
{
}

} // verus!
