//! The request and response envelopes, and their JSON form.

use crate::json::{lemma_view_of_parts, take_member, Json, JsonValue, Number};
use crate::text::joined;
use vstd::prelude::*;

verus! {

/// The code of a response to a frame that holds no request envelope.
pub const PARSE_ERROR: i32 = -32700;

/// The code of a response to a request whose method has no route.
pub const METHOD_NOT_FOUND: i32 = -32601;

/// The code of a response to a request whose handler failed.
pub const APPLICATION_ERROR: i32 = -32000;

/// A request: the protocol's tag, the id that the caller chose, the method's
/// name, and the parameters, which the core passes on unread.
#[derive(Debug, Clone, PartialEq, Eq)]
pub struct JsonRpcRequest {
    pub jsonrpc: String,
    pub id: u64,
    pub method: String,
    pub params: Json,
}

/// What a `JsonRpcRequest` holds.
pub struct RequestEnvelope {
    pub jsonrpc: Seq<char>,
    pub id: u64,
    pub method: Seq<char>,
    pub params: JsonValue,
}

impl View for JsonRpcRequest {
    type V = RequestEnvelope;

    open spec fn view(&self) -> RequestEnvelope {
        RequestEnvelope {
            jsonrpc: self.jsonrpc@,
            id: self.id,
            method: self.method@,
            params: self.params@,
        }
    }
}

/// An error as a response reports it: a code and a message for people.
#[derive(Debug, Clone, PartialEq, Eq)]
pub struct ResponseError {
    pub code: i32,
    pub message: String,
}

/// What a `ResponseError` holds.
pub struct ErrorObject {
    pub code: i32,
    pub message: Seq<char>,
}

impl View for ResponseError {
    type V = ErrorObject;

    open spec fn view(&self) -> ErrorObject {
        ErrorObject { code: self.code, message: self.message@ }
    }
}

/// A response: the protocol's tag, the id of the request it answers, and
/// either a result or an error.
#[derive(Debug, Clone, PartialEq, Eq)]
pub struct JsonRpcResponse {
    pub jsonrpc: String,
    pub id: u64,
    pub result: Option<Json>,
    pub error: Option<ResponseError>,
}

/// What a `JsonRpcResponse` holds.
pub struct ResponseEnvelope {
    pub jsonrpc: Seq<char>,
    pub id: u64,
    pub result: Option<JsonValue>,
    pub error: Option<ErrorObject>,
}

impl ResponseEnvelope {
    /// A response carries a result or an error, never both and never neither.
    pub open spec fn well_formed(self) -> bool {
        self.result is Some <==> self.error is None
    }

    /// The response that carries `result` for the request `id`.
    pub open spec fn ok(id: u64, result: JsonValue) -> ResponseEnvelope {
        ResponseEnvelope { jsonrpc: protocol(), id, result: Some(result), error: None }
    }

    /// The response that carries `error` for the request `id`.
    pub open spec fn from_error(id: u64, error: ErrorObject) -> ResponseEnvelope {
        ResponseEnvelope { jsonrpc: protocol(), id, result: None, error: Some(error) }
    }

    /// The response to a request `id` whose handler gave `outcome`.
    pub open spec fn from_outcome(
        id: u64,
        outcome: Result<JsonValue, ErrorObject>,
    ) -> ResponseEnvelope {
        match outcome {
            Ok(result) => ResponseEnvelope::ok(id, result),
            Err(error) => ResponseEnvelope::from_error(id, error),
        }
    }
}

impl View for JsonRpcResponse {
    type V = ResponseEnvelope;

    open spec fn view(&self) -> ResponseEnvelope {
        ResponseEnvelope {
            jsonrpc: self.jsonrpc@,
            id: self.id,
            result: match self.result {
                Some(r) => Some(r@),
                None => None,
            },
            error: match self.error {
                Some(e) => Some(e@),
                None => None,
            },
        }
    }
}

/// What a handler's outcome holds.
pub open spec fn outcome_view(outcome: Result<Json, ResponseError>) -> Result<
    JsonValue,
    ErrorObject,
> {
    match outcome {
        Ok(result) => Ok(result@),
        Err(error) => Err(error@),
    }
}

impl ResponseError {
    /// An error with the given code and message.
    pub fn new(code: i32, message: &str) -> (r: ResponseError)
        ensures
            r@ == (ErrorObject { code, message: message@ }),
    {
        ResponseError { code, message: message.to_owned() }
    }
}

impl JsonRpcResponse {
    /// The response that carries `response` as the result of the request `id`.
    pub fn ok(id: u64, response: Json) -> (r: JsonRpcResponse)
        ensures
            r@ == ResponseEnvelope::ok(id, response@),
            r@.well_formed(),
    {
        JsonRpcResponse { jsonrpc: "2.0".to_owned(), id, result: Some(response), error: None }
    }

    /// The response that carries `error` for the request `id`.
    pub fn from_error(id: u64, error: ResponseError) -> (r: JsonRpcResponse)
        ensures
            r@ == ResponseEnvelope::from_error(id, error@),
            r@.well_formed(),
    {
        JsonRpcResponse { jsonrpc: "2.0".to_owned(), id, result: None, error: Some(error) }
    }

    /// The response to the request `id` whose handler gave `outcome`: its
    /// result on success, its error on failure, the id in both.
    pub fn from_outcome(id: u64, outcome: Result<Json, ResponseError>) -> (r: JsonRpcResponse)
        ensures
            r@ == ResponseEnvelope::from_outcome(id, outcome_view(outcome)),
            r@.well_formed(),
            r@.id == id,
    {
        match outcome {
            Ok(result) => JsonRpcResponse::ok(id, result),
            Err(error) => JsonRpcResponse::from_error(id, error),
        }
    }
}

/// A field of the request envelope.
#[derive(Clone, Copy, Debug, PartialEq, Eq, Structural)]
pub enum Field {
    Jsonrpc,
    Id,
    Method,
    Params,
}

impl Field {
    /// The name under which the field stands in the envelope.
    pub open spec fn name(self) -> Seq<char> {
        match self {
            Field::Jsonrpc => "jsonrpc"@,
            Field::Id => "id"@,
            Field::Method => "method"@,
            Field::Params => "params"@,
        }
    }

    /// The name under which the field stands in the envelope.
    pub fn as_str(&self) -> (r: &'static str)
        ensures
            r@ == self.name(),
    {
        match self {
            Field::Jsonrpc => "jsonrpc",
            Field::Id => "id",
            Field::Method => "method",
            Field::Params => "params",
        }
    }
}

/// Why a document is no request envelope.
#[derive(Clone, Copy, Debug, PartialEq, Eq, Structural)]
pub enum EnvelopeError {
    /// The document is not an object.
    NotAnObject,
    /// The object has no member of the field's name.
    Missing(Field),
    /// The member is not of the field's type.
    Invalid(Field),
}

impl EnvelopeError {
    /// The error in words.
    pub open spec fn text(self) -> Seq<char> {
        match self {
            EnvelopeError::NotAnObject => "expected a JSON object"@,
            EnvelopeError::Missing(field) => "missing field "@ + field.name(),
            EnvelopeError::Invalid(field) => "invalid type for field "@ + field.name(),
        }
    }

    /// The error in words.
    pub fn message(&self) -> (r: String)
        ensures
            r@ == self.text(),
    {
        match self {
            EnvelopeError::NotAnObject => "expected a JSON object".to_owned(),
            EnvelopeError::Missing(field) => joined("missing field ", field.as_str()),
            EnvelopeError::Invalid(field) => joined("invalid type for field ", field.as_str()),
        }
    }
}

/// The tag of the protocol that the server speaks.
pub open spec fn protocol() -> Seq<char> {
    "2.0"@
}

/// The request envelope that the document `doc` holds: an object with a
/// string `jsonrpc`, a non-negative integer `id` that fits 64 bits, a string
/// `method` and any `params`; other members count for nothing. A request that
/// names no protocol is taken to speak the server's own. Where the document
/// holds no envelope, the first field, in this order, that is missing or
/// ill-typed.
pub open spec fn request_of(doc: JsonValue) -> Result<RequestEnvelope, EnvelopeError> {
    let jsonrpc = doc.get(Field::Jsonrpc.name());
    let id = doc.get(Field::Id.name());
    let method = doc.get(Field::Method.name());
    let params = doc.get(Field::Params.name());
    if !(doc is Object) {
        Err(EnvelopeError::NotAnObject)
    } else if jsonrpc is Some && jsonrpc->0.text() is None {
        Err(EnvelopeError::Invalid(Field::Jsonrpc))
    } else if id is None {
        Err(EnvelopeError::Missing(Field::Id))
    } else if id->0.to_u64() is None {
        Err(EnvelopeError::Invalid(Field::Id))
    } else if method is None {
        Err(EnvelopeError::Missing(Field::Method))
    } else if method->0.text() is None {
        Err(EnvelopeError::Invalid(Field::Method))
    } else if params is None {
        Err(EnvelopeError::Missing(Field::Params))
    } else {
        Ok(
            RequestEnvelope {
                jsonrpc: if jsonrpc is Some {
                    jsonrpc->0.text()->0
                } else {
                    protocol()
                },
                id: id->0.to_u64()->0,
                method: method->0.text()->0,
                params: params->0,
            },
        )
    }
}

/// The field names differ from one another.
proof fn lemma_field_names_differ()
    ensures
        Field::Jsonrpc.name() != Field::Id.name(),
        Field::Jsonrpc.name() != Field::Method.name(),
        Field::Jsonrpc.name() != Field::Params.name(),
        Field::Id.name() != Field::Method.name(),
        Field::Id.name() != Field::Params.name(),
        Field::Method.name() != Field::Params.name(),
{
    reveal_strlit("jsonrpc");
    reveal_strlit("id");
    reveal_strlit("method");
    reveal_strlit("params");
    assert("jsonrpc"@.len() == 7 && "id"@.len() == 2 && "method"@.len() == 6);
    assert("method"@[0] != "params"@[0]);
}

impl JsonRpcRequest {
    /// Reads the request envelope that `doc` holds.
    pub fn from_json(doc: Json) -> (r: Result<JsonRpcRequest, EnvelopeError>)
        ensures
            match r {
                Ok(request) => request_of(doc@) == Ok::<RequestEnvelope, EnvelopeError>(request@),
                Err(e) => request_of(doc@) == Err::<RequestEnvelope, EnvelopeError>(e),
            },
    {
        proof {
            lemma_view_of_parts(doc);
            lemma_field_names_differ();
        }
        let mut members = match doc {
            Json::Object(members) => members,
            _ => {
                return Err(EnvelopeError::NotAnObject);
            },
        };
        let jsonrpc = match take_member(&mut members, Field::Jsonrpc.as_str()) {
            None => "2.0".to_owned(),
            Some(Json::Text(tag)) => tag,
            Some(_) => {
                return Err(EnvelopeError::Invalid(Field::Jsonrpc));
            },
        };
        let id = match take_member(&mut members, Field::Id.as_str()) {
            None => {
                return Err(EnvelopeError::Missing(Field::Id));
            },
            Some(Json::Number(Number::PosInt(id))) => id,
            Some(_) => {
                return Err(EnvelopeError::Invalid(Field::Id));
            },
        };
        let method = match take_member(&mut members, Field::Method.as_str()) {
            None => {
                return Err(EnvelopeError::Missing(Field::Method));
            },
            Some(Json::Text(name)) => name,
            Some(_) => {
                return Err(EnvelopeError::Invalid(Field::Method));
            },
        };
        match take_member(&mut members, Field::Params.as_str()) {
            None => Err(EnvelopeError::Missing(Field::Params)),
            Some(params) => Ok(JsonRpcRequest { jsonrpc, id, method, params }),
        }
    }
}

/// The JSON form of an error: an object with `code` and `message`.
pub open spec fn error_json(error: ErrorObject) -> JsonValue {
    JsonValue::Object(
        seq![
            ("code"@, JsonValue::Number(Number::of_int(error.code as int))),
            ("message"@, JsonValue::Text(error.message)),
        ],
    )
}

/// The JSON form of a response: an object with `jsonrpc`, `id`, `result` and
/// `error`, in this order; the one of `result` and `error` that the response
/// lacks is `null`.
pub open spec fn response_json(response: ResponseEnvelope) -> JsonValue {
    JsonValue::Object(
        seq![
            ("jsonrpc"@, JsonValue::Text(response.jsonrpc)),
            ("id"@, JsonValue::Number(Number::PosInt(response.id))),
            (
                "result"@,
                match response.result {
                    Some(result) => result,
                    None => JsonValue::Null,
                },
            ),
            (
                "error"@,
                match response.error {
                    Some(error) => error_json(error),
                    None => JsonValue::Null,
                },
            ),
        ],
    )
}

impl ResponseError {
    /// The JSON form of the error.
    pub fn into_json(self) -> (r: Json)
        ensures
            r@ == error_json(self@),
    {
        let mut members: Vec<(String, Json)> = Vec::new();
        members.push(("code".to_owned(), Json::Number(Number::from_i32(self.code))));
        members.push(("message".to_owned(), Json::Text(self.message)));
        let r = Json::Object(members);
        proof {
            lemma_view_of_parts(r);
            assert(r@->Object_0 =~= error_json(self@)->Object_0);
        }
        r
    }
}

impl JsonRpcResponse {
    /// The JSON form of the response.
    pub fn into_json(self) -> (r: Json)
        ensures
            r@ == response_json(self@),
    {
        let ghost envelope = self@;
        let result = match self.result {
            Some(result) => result,
            None => Json::Null,
        };
        let error = match self.error {
            Some(error) => error.into_json(),
            None => Json::Null,
        };
        let mut members: Vec<(String, Json)> = Vec::new();
        members.push(("jsonrpc".to_owned(), Json::Text(self.jsonrpc)));
        members.push(("id".to_owned(), Json::Number(Number::PosInt(self.id))));
        members.push(("result".to_owned(), result));
        members.push(("error".to_owned(), error));
        let r = Json::Object(members);
        proof {
            lemma_view_of_parts(r);
            assert(r@->Object_0 =~= response_json(envelope)->Object_0);
        }
        r
    }
}

} // verus!
