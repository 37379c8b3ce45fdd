//! The state machine of one connection.
//!
//! The machine decides; it does not touch the socket. Its caller performs
//! the action of each transition and hands back what came of it as the next
//! event, until the action is to close.

use crate::encoding::text_from_utf8;
use crate::error::ConnectionError;
use crate::frame::{decode_frame, decoding, encode_frame, encoded, Decoded, DecodedView, Opcode};
use crate::handshake::{
    accept_token, create_response_header, find_handshake_key, generate_sec_websocket_accept,
    handshake_key, key_fits, response_header, MAX_KEY_LEN,
};
use crate::page::{connect_page, generate_connect_websocket_response};
use crate::request::{parse_request, parsed_request, IncomingRequest, IncomingRequestView};
use vstd::prelude::*;
use vstd::utf8::{decode_utf8, encode_utf8, encode_utf8_decode_utf8, valid_utf8};

verus! {

/// Where a connection stands.
#[derive(Clone, Copy, Debug, PartialEq, Eq, Structural)]
pub enum ConnectionState {
    /// Nothing has been read yet.
    AwaitingRequest,
    /// The root path was asked for; the page is being written.
    RespondedPlain,
    /// The upgrade was asked for; the handshake response is being written.
    HandshakeSent,
    /// Frames are exchanged.
    Streaming,
    /// The connection is over and the socket can be released.
    Closed,
}

/// What came of the last action.
#[derive(Clone, Debug, PartialEq, Eq)]
pub enum Event {
    /// A read returned these bytes.
    Received(Vec<u8>),
    /// A read found that the peer has closed the connection.
    EndOfStream,
    /// A write went through.
    Written,
    /// A read or a write failed.
    IoFailed,
}

/// An event as contracts speak of it.
pub enum EventView {
    Received(Seq<u8>),
    EndOfStream,
    Written,
    IoFailed,
}

impl View for Event {
    type V = EventView;

    open spec fn view(&self) -> EventView {
        match self {
            Event::Received(bytes) => EventView::Received(bytes@),
            Event::EndOfStream => EventView::EndOfStream,
            Event::Written => EventView::Written,
            Event::IoFailed => EventView::IoFailed,
        }
    }
}

/// What the caller is to do next.
#[derive(Clone, Debug, PartialEq, Eq)]
pub enum Action {
    /// Read from the socket.
    Read,
    /// Write these bytes to the socket.
    Write(Vec<u8>),
    /// A text message has arrived: hand `message` to the application, and
    /// write `frame`, the acknowledgment, to the socket.
    Reply { message: String, frame: Vec<u8> },
    /// Release the socket.
    Close,
}

/// An action as contracts speak of it.
pub enum ActionView {
    Read,
    Write(Seq<u8>),
    Reply { message: Seq<char>, frame: Seq<u8> },
    Close,
}

impl View for Action {
    type V = ActionView;

    open spec fn view(&self) -> ActionView {
        match self {
            Action::Read => ActionView::Read,
            Action::Write(bytes) => ActionView::Write(bytes@),
            Action::Reply { message, frame } => ActionView::Reply {
                message: message@,
                frame: frame@,
            },
            Action::Close => ActionView::Close,
        }
    }
}

/// One step of the machine: the state it leads to, what to do there, and,
/// where the step closes the connection on a failure, which one.
#[derive(Clone, Debug, PartialEq, Eq)]
pub struct Transition {
    pub state: ConnectionState,
    pub action: Action,
    pub error: Option<ConnectionError>,
}

/// A transition as contracts speak of it.
pub struct TransitionView {
    pub state: ConnectionState,
    pub action: ActionView,
    pub error: Option<ConnectionError>,
}

impl View for Transition {
    type V = TransitionView;

    open spec fn view(&self) -> TransitionView {
        TransitionView { state: self.state, action: self.action@, error: self.error }
    }
}

/// The path of the plain page.
pub const ROOT_PATH: &'static str = "/";

/// The path of the WebSocket endpoint.
pub const WEBSOCKET_PATH: &'static str = "/websocket";

/// The payload of the acknowledgment that answers every text message.
pub const ACKNOWLEDGMENT: &'static str = "Hello";

/// How many headers a request may have.
pub const MAX_HEADERS: usize = 16;

/// The step that ends a connection.
pub open spec fn closing(error: Option<ConnectionError>) -> TransitionView {
    TransitionView { state: ConnectionState::Closed, action: ActionView::Close, error }
}

/// The step that goes on in `state` by reading.
pub open spec fn reading(state: ConnectionState) -> TransitionView {
    TransitionView { state, action: ActionView::Read, error: None }
}

/// The step that goes on in `state` by writing the bytes of `text`.
pub open spec fn writing(state: ConnectionState, text: Seq<char>) -> TransitionView {
    TransitionView { state, action: ActionView::Write(encode_utf8(text)), error: None }
}

/// What a request leads to. The root path gets the page. The WebSocket
/// path gets the handshake response, or `MissingHandshakeKey` where the
/// request carries no key. Any other path closes the connection with
/// nothing written.
pub open spec fn routed(request: IncomingRequestView) -> TransitionView {
    if request.path == ROOT_PATH@ {
        writing(ConnectionState::RespondedPlain, connect_page())
    } else if request.path == WEBSOCKET_PATH@ {
        match handshake_key(request.headers) {
            Some(key) => writing(
                ConnectionState::HandshakeSent,
                response_header(accept_token(key)),
            ),
            None => closing(Some(ConnectionError::MissingHandshakeKey)),
        }
    } else {
        closing(None)
    }
}

/// The request can be routed: where it asks for the WebSocket path, its
/// key, if it has one, can be hashed.
pub open spec fn routable(request: IncomingRequestView) -> bool {
    request.path == WEBSOCKET_PATH@ ==> key_fits(request.headers)
}

/// The frame that acknowledges a text message.
pub open spec fn acknowledgment_frame() -> Seq<u8> {
    encoded(Opcode::Text, encode_utf8(ACKNOWLEDGMENT@))
}

/// What the bytes of one read lead to while streaming. A text frame with a
/// UTF-8 payload is answered; one with another payload closes with
/// `InvalidUtf8Payload`. A frame of another kind is passed over. Bytes that
/// hold less than a whole frame, like a frame that a client may not send,
/// close with `ProtocolViolation`.
pub open spec fn frame_handled(buf: Seq<u8>) -> TransitionView {
    match decoding(buf) {
        DecodedView::Frame(frame) => {
            if frame.opcode != Opcode::Text {
                reading(ConnectionState::Streaming)
            } else if valid_utf8(frame.payload) {
                TransitionView {
                    state: ConnectionState::Streaming,
                    action: ActionView::Reply {
                        message: decode_utf8(frame.payload),
                        frame: acknowledgment_frame(),
                    },
                    error: None,
                }
            } else {
                closing(Some(ConnectionError::InvalidUtf8Payload))
            }
        },
        DecodedView::NeedMoreBytes => closing(Some(ConnectionError::ProtocolViolation)),
        DecodedView::Error(error) => closing(Some(error)),
    }
}

/// What the first bytes of a connection lead to: where they are one whole
/// request that can be routed, what the request leads to; else
/// `MalformedRequest`.
pub open spec fn request_handled(buf: Seq<u8>) -> TransitionView {
    match parsed_request(buf, MAX_HEADERS as nat) {
        Some(request) => if routable(request) {
            routed(request)
        } else {
            closing(Some(ConnectionError::MalformedRequest))
        },
        None => closing(Some(ConnectionError::MalformedRequest)),
    }
}

/// The machine. A closed connection stays closed. A failed read or write
/// closes with `IoError`, the end of the stream without an error. Else the
/// first bytes are taken as the request, the page once written ends the
/// connection, the handshake response once written starts the streaming,
/// and while streaming each read is taken as one frame and each write is
/// followed by a read. An event that answers no action of the state closes
/// the connection.
pub open spec fn stepped(state: ConnectionState, event: EventView) -> TransitionView {
    if state == ConnectionState::Closed {
        closing(None)
    } else if event is IoFailed {
        closing(Some(ConnectionError::IoError))
    } else {
        match (state, event) {
            (ConnectionState::AwaitingRequest, EventView::Received(buf)) => request_handled(buf),
            (ConnectionState::RespondedPlain, EventView::Written) => closing(None),
            (ConnectionState::HandshakeSent, EventView::Written) => reading(
                ConnectionState::Streaming,
            ),
            (ConnectionState::Streaming, EventView::Received(buf)) => frame_handled(buf),
            (ConnectionState::Streaming, EventView::Written) => reading(
                ConnectionState::Streaming,
            ),
            _ => closing(None),
        }
    }
}

fn close_with(error: Option<ConnectionError>) -> (transition: Transition)
    ensures
        transition@ == closing(error),
{
    Transition { state: ConnectionState::Closed, action: Action::Close, error }
}

fn read_in(state: ConnectionState) -> (transition: Transition)
    ensures
        transition@ == reading(state),
{
    Transition { state, action: Action::Read, error: None }
}

fn write_in(state: ConnectionState, text: String) -> (transition: Transition)
    ensures
        transition@ == writing(state, text@),
{
    Transition { state, action: Action::Write(text.as_str().as_bytes_vec()), error: None }
}

/// What a new connection starts with: it awaits the request, and reads.
pub fn accept() -> (transition: Transition)
    ensures
        transition@ == reading(ConnectionState::AwaitingRequest),
{
    read_in(ConnectionState::AwaitingRequest)
}

/// Decides what a request leads to.
///
/// A path other than the two that are served closes the connection, and
/// nothing is written.
pub fn route_request(request: &IncomingRequest) -> (transition: Transition)
    requires
        routable(request@),
    ensures
        transition@ == routed(request@),
        request@.path != ROOT_PATH@ && request@.path != WEBSOCKET_PATH@ ==> transition@
            == closing(None),
{
    if request.path == ROOT_PATH.to_owned() {
        write_in(ConnectionState::RespondedPlain, generate_connect_websocket_response())
    } else if request.path == WEBSOCKET_PATH.to_owned() {
        match generate_sec_websocket_accept(request.headers.as_slice()) {
            Ok(token) => write_in(ConnectionState::HandshakeSent, create_response_header(token)),
            Err(error) => close_with(Some(error)),
        }
    } else {
        close_with(None)
    }
}

/// Decides what the bytes of one read lead to while streaming. They are
/// taken as one frame, and no frame is put together from several reads.
///
/// The answer to a text message is the fixed acknowledgment. An
/// application that answers otherwise takes the message of the `Reply` and
/// encodes a payload of its own with [`encode_frame`].
pub fn handle_frame_bytes(buf: &[u8]) -> (transition: Transition)
    ensures
        transition@ == frame_handled(buf@),
{
    match decode_frame(buf) {
        Decoded::Frame(frame) => {
            match frame.opcode {
                Opcode::Text => {
                    match text_from_utf8(frame.payload) {
                        Ok(message) => {
                            proof {
                                encode_utf8_decode_utf8(message@);
                            }
                            let reply = encode_frame(Opcode::Text, ACKNOWLEDGMENT.as_bytes());
                            Transition {
                                state: ConnectionState::Streaming,
                                action: Action::Reply { message, frame: reply },
                                error: None,
                            }
                        },
                        Err(_) => close_with(Some(ConnectionError::InvalidUtf8Payload)),
                    }
                },
                _ => read_in(ConnectionState::Streaming),
            }
        },
        Decoded::NeedMoreBytes => close_with(Some(ConnectionError::ProtocolViolation)),
        Decoded::Error(error) => close_with(Some(error)),
    }
}

/// Whether a request can be routed.
pub fn is_routable(request: &IncomingRequest) -> (yes: bool)
    ensures
        yes == routable(request@),
{
    if request.path == WEBSOCKET_PATH.to_owned() {
        match find_handshake_key(request.headers.as_slice()) {
            Some(key) => key.len() as u64 <= MAX_KEY_LEN,
            None => true,
        }
    } else {
        true
    }
}

/// Decides what the first bytes of a connection lead to. The request has
/// to be whole in them: nothing is kept for a second read.
pub fn handle_request_bytes(buf: &[u8]) -> (transition: Transition)
    ensures
        transition@ == request_handled(buf@),
{
    match parse_request(buf, MAX_HEADERS) {
        Ok(Some(request)) => {
            if is_routable(&request) {
                route_request(&request)
            } else {
                close_with(Some(ConnectionError::MalformedRequest))
            }
        },
        Ok(None) => close_with(Some(ConnectionError::MalformedRequest)),
        Err(_) => close_with(Some(ConnectionError::MalformedRequest)),
    }
}

/// Takes one step: from the state and what came of the last action to the
/// next state and the next action.
pub fn step(state: ConnectionState, event: Event) -> (transition: Transition)
    ensures
        transition@ == stepped(state, event@),
{
    match state {
        ConnectionState::Closed => close_with(None),
        ConnectionState::AwaitingRequest => match event {
            Event::IoFailed => close_with(Some(ConnectionError::IoError)),
            Event::Received(buf) => handle_request_bytes(buf.as_slice()),
            _ => close_with(None),
        },
        ConnectionState::RespondedPlain => match event {
            Event::IoFailed => close_with(Some(ConnectionError::IoError)),
            // the page is out, or something else came: either way it is over
            _ => close_with(None),
        },
        ConnectionState::HandshakeSent => match event {
            Event::IoFailed => close_with(Some(ConnectionError::IoError)),
            Event::Written => read_in(ConnectionState::Streaming),
            _ => close_with(None),
        },
        ConnectionState::Streaming => match event {
            Event::IoFailed => close_with(Some(ConnectionError::IoError)),
            Event::Received(buf) => handle_frame_bytes(buf.as_slice()),
            Event::Written => read_in(ConnectionState::Streaming),
            Event::EndOfStream => close_with(None),
        },
    }
}

/// Whatever the first bytes are, a request for a path other than the two
/// that are served closes the connection at once, without an error and
/// with nothing written.
pub proof fn lemma_unserved_path_closes(buf: Seq<u8>)
    ensures
        parsed_request(buf, MAX_HEADERS as nat) matches Some(request) && request.path
            != ROOT_PATH@ && request.path != WEBSOCKET_PATH@ ==> stepped(
            ConnectionState::AwaitingRequest,
            EventView::Received(buf),
        ) == closing(None),
{
}

/// No step leaves the closed state, and no step out of it asks for
/// anything but to close.
pub proof fn lemma_closed_is_terminal(event: EventView)
    ensures
        stepped(ConnectionState::Closed, event) == closing(None),
{
}

/// A step that reports an error closes the connection, and a step that
/// closes the connection writes nothing.
pub proof fn lemma_errors_close(state: ConnectionState, event: EventView)
    ensures
        stepped(state, event).error is Some ==> stepped(state, event) == closing(
            stepped(state, event).error,
        ),
        stepped(state, event).state == ConnectionState::Closed ==> stepped(state, event).action
            == ActionView::Close,
{
}

} // verus!
