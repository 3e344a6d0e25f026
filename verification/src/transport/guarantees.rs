//! What holds of every connection, whatever its client sends and whatever
//! its services return.

use crate::json::JsonValue;
use crate::jsonrpc::{
    request_of, ErrorObject, ResponseEnvelope, METHOD_NOT_FOUND, PARSE_ERROR,
};
use crate::transport::{next, ActionView, ConnectionState, EventView};
use vstd::prelude::*;

verus! {

/// A request that is a well-formed envelope and whose method has a route is
/// handed to that route's service, and whatever the service returns, a result
/// or an error, the response that follows carries the request's id.
pub proof fn lemma_response_has_request_id<S>(
    table: Map<Seq<char>, S>,
    doc: JsonValue,
    outcome: Result<JsonValue, ErrorObject>,
)
    requires
        request_of(doc) is Ok,
        table.contains_key(request_of(doc)->Ok_0.method),
    ensures
        ({
            let request = request_of(doc)->Ok_0;
            let called = next(ConnectionState::Decoding, EventView::Decoded(Ok(doc)), table);
            let answered = next(called.0, EventView::Served(outcome), table);
            &&& called.1 == (ActionView::Call { service: table[request.method], request })
            &&& answered.1 == ActionView::<S>::Encode(
                ResponseEnvelope::from_outcome(request.id, outcome),
            )
            &&& answered.1->Encode_0.id == request.id
        }),
{
}

/// A request whose method has no route is answered with the code for an
/// unknown method, without a result, under the request's id; no service is
/// called.
pub proof fn lemma_unknown_method_is_reported<S>(table: Map<Seq<char>, S>, doc: JsonValue)
    requires
        request_of(doc) is Ok,
        !table.contains_key(request_of(doc)->Ok_0.method),
    ensures
        ({
            let answered = next(ConnectionState::Decoding, EventView::Decoded(Ok(doc)), table);
            &&& answered.0 == (ConnectionState::Encoding { framed: false })
            &&& answered.1 is Encode
            &&& answered.1->Encode_0.id == request_of(doc)->Ok_0.id
            &&& answered.1->Encode_0.result is None
            &&& answered.1->Encode_0.error is Some
            &&& answered.1->Encode_0.error->0.code == METHOD_NOT_FOUND
        }),
{
}

/// A frame whose text is no JSON, or whose JSON is no request envelope, is
/// answered with the code for a parse error under the id 0, and the
/// connection goes on.
pub proof fn lemma_malformed_envelope_is_reported<S>(
    table: Map<Seq<char>, S>,
    parsed: Result<JsonValue, Seq<char>>,
)
    requires
        parsed matches Ok(doc) ==> request_of(doc) is Err,
    ensures
        ({
            let answered = next(ConnectionState::Decoding, EventView::Decoded(parsed), table);
            &&& answered.0 == (ConnectionState::Encoding { framed: false })
            &&& answered.1 is Encode
            &&& answered.1->Encode_0.id == 0
            &&& answered.1->Encode_0.result is None
            &&& answered.1->Encode_0.error is Some
            &&& answered.1->Encode_0.error->0.code == PARSE_ERROR
        }),
{
}

/// Every response that a connection puts out carries a result or an error,
/// never both and never neither.
pub proof fn lemma_responses_are_well_formed<S>(
    state: ConnectionState,
    event: EventView,
    table: Map<Seq<char>, S>,
)
    ensures
        next(state, event, table).1 matches ActionView::Encode(response)
            ==> response.well_formed(),
{
}

/// One request at a time: a connection asks for the next frame only when it
/// starts and when the write of a response has gone through, so responses
/// leave in the order in which their requests came.
pub proof fn lemma_reads_follow_writes<S>(
    state: ConnectionState,
    event: EventView,
    table: Map<Seq<char>, S>,
)
    ensures
        next(state, event, table).1 is ReadFrame ==> state == (ConnectionState::Encoding {
            framed: true,
        }) && event == EventView::Written(true),
        next(state, event, table).0 == ConnectionState::AwaitingFrame ==> next(
            state,
            event,
            table,
        ).1 is ReadFrame,
{
}

/// A framing error and a failed write each end the connection, with no
/// response and no error of its own: the client is gone. Nothing is sent and
/// nothing is read after either.
pub proof fn lemma_broken_streams_close<S>(
    state: ConnectionState,
    event: EventView,
    table: Map<Seq<char>, S>,
)
    requires
        (state == ConnectionState::AwaitingFrame && event is Frame && event->Frame_0 is Err) || (
        state == (ConnectionState::Encoding { framed: true }) && event == EventView::Written(
            false,
        )),
    ensures
        next(state, event, table) == (
            ConnectionState::Closed,
            ActionView::<S>::Close { error: None },
        ),
{
}

/// A response that cannot be put into text makes the connection fail, with
/// the reason that was given: no frame is written for that response, and none
/// is read after it.
pub proof fn lemma_encoding_failure_fails<S>(why: Seq<char>, table: Map<Seq<char>, S>)
    ensures
        next(
            ConnectionState::Encoding { framed: false },
            EventView::Encoded(Err(why)),
            table,
        ) == (ConnectionState::Closed, ActionView::<S>::Close { error: Some(why) }),
{
}

/// A connection that is closed stays closed, and every step that closes a
/// connection says to drop it.
pub proof fn lemma_closed_for_good<S>(
    state: ConnectionState,
    event: EventView,
    table: Map<Seq<char>, S>,
)
    ensures
        state == ConnectionState::Closed ==> next(state, event, table).0
            == ConnectionState::Closed,
        next(state, event, table).0 == ConnectionState::Closed <==> next(
            state,
            event,
            table,
        ).1 is Close,
{
}

} // verus!
