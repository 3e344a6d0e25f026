//! One client's connection, step by step: a frame is read, decoded,
//! dispatched, the response is encoded and written, and the next frame is
//! read. The steps decide; whoever drives them does the reading, the parsing
//! of JSON text, the call of the service and the writing.

pub mod chunks;
pub mod codec;
pub mod encoding;
pub mod guarantees;
pub mod listener;
pub mod round_trip;
pub mod stdio;
pub mod tcp;
pub mod unix_socket;
pub mod wire;

use crate::json::{Json, JsonValue};
use crate::jsonrpc::{
    outcome_view, request_of, ErrorObject, JsonRpcRequest, JsonRpcResponse, RequestEnvelope,
    ResponseEnvelope, ResponseError, PARSE_ERROR,
};
use crate::router::{method_not_found, Dispatch, RouterService};
use crate::text::joined;
use crate::transport::codec::{encode, frame_bytes, FrameError};
use vstd::prelude::*;

verus! {

/// Where a connection stands.
#[derive(Clone, Copy, Debug, PartialEq, Eq, Structural)]
pub enum ConnectionState {
    /// Waiting for the next frame.
    AwaitingFrame,
    /// A frame has come; its text is being parsed.
    Decoding,
    /// The request `id` is with its service.
    Dispatching { id: u64 },
    /// A response is on its way out: being put into text, or, once `framed`,
    /// being written.
    Encoding { framed: bool },
    /// The connection is over.
    Closed,
}

/// What has happened on a connection since its last step.
#[derive(Debug, PartialEq, Eq)]
pub enum Event {
    /// The read of a frame ended: with the frame's text or a framing error.
    Frame(Result<String, FrameError>),
    /// The frame's text was parsed: into a document, or not, with the reason.
    Decoded(Result<Json, String>),
    /// The service returned.
    Served(Result<Json, ResponseError>),
    /// The response was put into text, or could not be, with the reason.
    Encoded(Result<Vec<u8>, String>),
    /// The write of the frame ended; `true` says that it went through.
    Written(bool),
}

/// What an `Event` holds.
pub enum EventView {
    Frame(Result<Seq<char>, FrameError>),
    Decoded(Result<JsonValue, Seq<char>>),
    Served(Result<JsonValue, ErrorObject>),
    Encoded(Result<Seq<u8>, Seq<char>>),
    Written(bool),
}

impl View for Event {
    type V = EventView;

    open spec fn view(&self) -> EventView {
        match self {
            Event::Frame(Ok(text)) => EventView::Frame(Ok(text@)),
            Event::Frame(Err(e)) => EventView::Frame(Err(*e)),
            Event::Decoded(Ok(doc)) => EventView::Decoded(Ok(doc@)),
            Event::Decoded(Err(why)) => EventView::Decoded(Err(why@)),
            Event::Served(outcome) => EventView::Served(outcome_view(*outcome)),
            Event::Encoded(Ok(bytes)) => EventView::Encoded(Ok(bytes@)),
            Event::Encoded(Err(why)) => EventView::Encoded(Err(why@)),
            Event::Written(done) => EventView::Written(*done),
        }
    }
}

/// What is to be done next on a connection.
#[derive(Debug)]
pub enum Action<'a, S> {
    /// Read a frame.
    ReadFrame,
    /// Parse this text as JSON.
    Decode(String),
    /// Call this service with this request.
    Call { service: &'a S, request: JsonRpcRequest },
    /// Put this response into JSON text.
    Encode(JsonRpcResponse),
    /// Write these bytes, and flush.
    WriteFrame(Vec<u8>),
    /// Drop the connection. With an `error` the connection has failed, and
    /// the error says why; without one it has ended, as it does when the
    /// client goes away.
    Close { error: Option<String> },
}

/// What an `Action` holds.
pub enum ActionView<S> {
    ReadFrame,
    Decode(Seq<char>),
    Call { service: S, request: RequestEnvelope },
    Encode(ResponseEnvelope),
    WriteFrame(Seq<u8>),
    Close { error: Option<Seq<char>> },
}

impl<'a, S> View for Action<'a, S> {
    type V = ActionView<S>;

    open spec fn view(&self) -> ActionView<S> {
        match self {
            Action::ReadFrame => ActionView::ReadFrame,
            Action::Decode(text) => ActionView::Decode(text@),
            Action::Call { service, request } => ActionView::Call {
                service: **service,
                request: request@,
            },
            Action::Encode(response) => ActionView::Encode(response@),
            Action::WriteFrame(bytes) => ActionView::WriteFrame(bytes@),
            Action::Close { error } => ActionView::Close {
                error: match error {
                    Some(why) => Some(why@),
                    None => None,
                },
            },
        }
    }
}

/// The response to a frame that holds no request envelope: id 0, no result,
/// and the parse error with the reason.
pub open spec fn parse_error(why: Seq<char>) -> ResponseEnvelope {
    ResponseEnvelope::from_error(
        0,
        ErrorObject { code: PARSE_ERROR, message: "Parse error: "@ + why },
    )
}

/// What becomes of a parsed document: the call of its method's service, the
/// method-not-found response, or the parse-error response where the document
/// is no request envelope.
pub open spec fn dispatched<S>(doc: JsonValue, table: Map<Seq<char>, S>) -> (
    ConnectionState,
    ActionView<S>,
) {
    match request_of(doc) {
        Ok(request) => if table.contains_key(request.method) {
            (
                ConnectionState::Dispatching { id: request.id },
                ActionView::Call { service: table[request.method], request },
            )
        } else {
            (
                ConnectionState::Encoding { framed: false },
                ActionView::Encode(method_not_found(request)),
            )
        },
        Err(e) => (
            ConnectionState::Encoding { framed: false },
            ActionView::Encode(parse_error(e.text())),
        ),
    }
}

/// What is said of an event that the connection's state does not wait for.
pub open spec fn out_of_turn() -> Seq<char> {
    "event out of turn"@
}

/// One step of a connection: the state that follows `state` on `event`, and
/// what is to be done then.
///
/// A framing error and a failed write end the connection, without a
/// response and without an error of the connection's own. A response that
/// cannot be put into text makes the connection fail with the reason, and so
/// does an event that the state does not wait for.
pub open spec fn next<S>(state: ConnectionState, event: EventView, table: Map<Seq<char>, S>) -> (
    ConnectionState,
    ActionView<S>,
) {
    match (state, event) {
        (ConnectionState::AwaitingFrame, EventView::Frame(Ok(text))) => (
            ConnectionState::Decoding,
            ActionView::Decode(text),
        ),
        (ConnectionState::AwaitingFrame, EventView::Frame(Err(_))) => (
            ConnectionState::Closed,
            ActionView::Close { error: None },
        ),
        (ConnectionState::Decoding, EventView::Decoded(Ok(doc))) => dispatched(doc, table),
        (ConnectionState::Decoding, EventView::Decoded(Err(why))) => (
            ConnectionState::Encoding { framed: false },
            ActionView::Encode(parse_error(why)),
        ),
        (ConnectionState::Dispatching { id }, EventView::Served(outcome)) => (
            ConnectionState::Encoding { framed: false },
            ActionView::Encode(ResponseEnvelope::from_outcome(id, outcome)),
        ),
        (ConnectionState::Encoding { framed: false }, EventView::Encoded(Ok(bytes))) => (
            ConnectionState::Encoding { framed: true },
            ActionView::WriteFrame(frame_bytes(bytes)),
        ),
        (ConnectionState::Encoding { framed: false }, EventView::Encoded(Err(why))) => (
            ConnectionState::Closed,
            ActionView::Close { error: Some(why) },
        ),
        (ConnectionState::Encoding { framed: true }, EventView::Written(true)) => (
            ConnectionState::AwaitingFrame,
            ActionView::ReadFrame,
        ),
        (ConnectionState::Encoding { framed: true }, EventView::Written(false)) => (
            ConnectionState::Closed,
            ActionView::Close { error: None },
        ),
        _ => (ConnectionState::Closed, ActionView::Close { error: Some(out_of_turn()) }),
    }
}

/// The parse-error response with the reason `why`.
fn parse_failure(why: &str) -> (r: JsonRpcResponse)
    ensures
        r@ == parse_error(why@),
{
    JsonRpcResponse::from_error(
        0,
        ResponseError { code: PARSE_ERROR, message: joined("Parse error: ", why) },
    )
}

/// Decides what becomes of a parsed document.
fn dispatch<'a, S>(doc: Json, server: &RouterService<'a, S>) -> (r: (
    ConnectionState,
    Action<'a, S>,
))
    ensures
        (r.0, r.1@) == dispatched(doc@, server@),
{
    match JsonRpcRequest::from_json(doc) {
        Ok(request) => {
            let id = request.id;
            match server.route(request) {
                Dispatch::Forward { service, request } => (
                    ConnectionState::Dispatching { id },
                    Action::Call { service, request },
                ),
                Dispatch::Reply(response) => (
                    ConnectionState::Encoding { framed: false },
                    Action::Encode(response),
                ),
            }
        },
        Err(e) => (
            ConnectionState::Encoding { framed: false },
            Action::Encode(parse_failure(e.message().as_str())),
        ),
    }
}

/// Takes a client's connection one step on: from `state`, on `event`, with
/// the route table `server`.
pub fn handle_client<'a, S>(
    state: ConnectionState,
    event: Event,
    server: &RouterService<'a, S>,
) -> (r: (ConnectionState, Action<'a, S>))
    ensures
        (r.0, r.1@) == next(state, event@, server@),
{
    match (state, event) {
        (ConnectionState::AwaitingFrame, Event::Frame(Ok(text))) => (
            ConnectionState::Decoding,
            Action::Decode(text),
        ),
        (ConnectionState::AwaitingFrame, Event::Frame(Err(_))) => (
            ConnectionState::Closed,
            Action::Close { error: None },
        ),
        (ConnectionState::Decoding, Event::Decoded(Ok(doc))) => dispatch(doc, server),
        (ConnectionState::Decoding, Event::Decoded(Err(why))) => (
            ConnectionState::Encoding { framed: false },
            Action::Encode(parse_failure(why.as_str())),
        ),
        (ConnectionState::Dispatching { id }, Event::Served(outcome)) => (
            ConnectionState::Encoding { framed: false },
            Action::Encode(JsonRpcResponse::from_outcome(id, outcome)),
        ),
        (ConnectionState::Encoding { framed: false }, Event::Encoded(Ok(bytes))) => (
            ConnectionState::Encoding { framed: true },
            Action::WriteFrame(encode(bytes.as_slice())),
        ),
        (ConnectionState::Encoding { framed: false }, Event::Encoded(Err(why))) => (
            ConnectionState::Closed,
            Action::Close { error: Some(why) },
        ),
        (ConnectionState::Encoding { framed: true }, Event::Written(true)) => (
            ConnectionState::AwaitingFrame,
            Action::ReadFrame,
        ),
        (ConnectionState::Encoding { framed: true }, Event::Written(false)) => (
            ConnectionState::Closed,
            Action::Close { error: None },
        ),
        _ => (
            ConnectionState::Closed,
            Action::Close { error: Some("event out of turn".to_owned()) },
        ),
    }
}

} // verus!
