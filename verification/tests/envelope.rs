use contextual_backend::json::{Json, Number};
use contextual_backend::jsonrpc::{
    EnvelopeError, Field, JsonRpcRequest, JsonRpcResponse, ResponseError, APPLICATION_ERROR,
    METHOD_NOT_FOUND, PARSE_ERROR,
};

fn object(members: Vec<(&str, Json)>) -> Json {
    Json::Object(members.into_iter().map(|(k, v)| (k.to_string(), v)).collect())
}

fn whole(n: u64) -> Json {
    Json::Number(Number::PosInt(n))
}

fn request_doc() -> Vec<(&'static str, Json)> {
    vec![
        ("jsonrpc", Json::text("2.0")),
        ("id", whole(1)),
        ("method", Json::text("contextual/echo")),
        ("params", object(vec![("a", whole(1))])),
    ]
}

#[test]
fn codes_are_the_ones_of_the_protocol() {
    assert_eq!(PARSE_ERROR, -32700);
    assert_eq!(METHOD_NOT_FOUND, -32601);
    assert_eq!(APPLICATION_ERROR, -32000);
}

#[test]
fn request_is_read_out_of_its_document() {
    let request = JsonRpcRequest::from_json(object(request_doc())).unwrap();
    assert_eq!(
        request,
        JsonRpcRequest {
            jsonrpc: "2.0".to_string(),
            id: 1,
            method: "contextual/echo".to_string(),
            params: object(vec![("a", whole(1))]),
        }
    );
}

#[test]
fn request_may_carry_members_that_the_envelope_does_not_know() {
    let mut doc = request_doc();
    doc.insert(0, ("trace", Json::text("abc")));
    doc.push(("extra", Json::Array(vec![])));
    let request = JsonRpcRequest::from_json(object(doc)).unwrap();
    assert_eq!(request.id, 1);
    assert_eq!(request.method, "contextual/echo");
}

#[test]
fn request_takes_the_later_of_two_members_of_one_name() {
    let mut doc = request_doc();
    doc.push(("id", whole(9)));
    assert_eq!(JsonRpcRequest::from_json(object(doc)).unwrap().id, 9);
}

#[test]
fn request_with_any_parameters_is_read() {
    for params in [Json::Null, Json::Array(vec![whole(1)]), Json::text("x"), Json::Bool(true)] {
        let mut doc = request_doc();
        doc[3] = ("params", params.clone());
        assert_eq!(JsonRpcRequest::from_json(object(doc)).unwrap().params, params);
    }
}

#[test]
fn document_that_is_no_object_is_no_request() {
    assert_eq!(JsonRpcRequest::from_json(Json::Null), Err(EnvelopeError::NotAnObject));
    assert_eq!(JsonRpcRequest::from_json(Json::Array(vec![])), Err(EnvelopeError::NotAnObject));
    assert_eq!(JsonRpcRequest::from_json(Json::text("{}")), Err(EnvelopeError::NotAnObject));
}

#[test]
fn missing_field_is_named() {
    let fields = [Field::Id, Field::Method, Field::Params];
    for (i, field) in fields.iter().enumerate() {
        let mut doc = request_doc();
        doc.remove(i + 1);
        assert_eq!(JsonRpcRequest::from_json(object(doc)), Err(EnvelopeError::Missing(*field)));
    }
    assert_eq!(JsonRpcRequest::from_json(object(vec![])), Err(EnvelopeError::Missing(Field::Id)));
}

#[test]
fn request_that_names_no_protocol_is_taken_to_speak_the_servers() {
    let doc = object(vec![
        ("id", whole(1)),
        ("method", Json::text("contextual/echo")),
        ("params", object(vec![("a", whole(1))])),
    ]);
    assert_eq!(
        JsonRpcRequest::from_json(doc),
        Ok(JsonRpcRequest {
            jsonrpc: "2.0".to_string(),
            id: 1,
            method: "contextual/echo".to_string(),
            params: object(vec![("a", whole(1))]),
        })
    );
    let mut doc = request_doc();
    doc[0] = ("jsonrpc", Json::text("1.0"));
    assert_eq!(JsonRpcRequest::from_json(object(doc)).unwrap().jsonrpc, "1.0");
}

#[test]
fn ill_typed_field_is_named() {
    let mut doc = request_doc();
    doc[0] = ("jsonrpc", whole(2));
    assert_eq!(
        JsonRpcRequest::from_json(object(doc)),
        Err(EnvelopeError::Invalid(Field::Jsonrpc))
    );
    for id in [
        Json::text("1"),
        Json::Number(Number::NegInt(-1)),
        Json::Number(Number::Real(0x3ff0_0000_0000_0000)),
        Json::Null,
    ] {
        let mut doc = request_doc();
        doc[1] = ("id", id);
        assert_eq!(JsonRpcRequest::from_json(object(doc)), Err(EnvelopeError::Invalid(Field::Id)));
    }
    let mut doc = request_doc();
    doc[2] = ("method", Json::Null);
    assert_eq!(
        JsonRpcRequest::from_json(object(doc)),
        Err(EnvelopeError::Invalid(Field::Method))
    );
}

#[test]
fn first_field_at_fault_is_the_one_reported() {
    let doc = vec![("jsonrpc", Json::Null), ("id", Json::text("x")), ("method", whole(1))];
    assert_eq!(
        JsonRpcRequest::from_json(object(doc)),
        Err(EnvelopeError::Invalid(Field::Jsonrpc))
    );
    let doc = vec![("id", Json::text("x")), ("method", whole(1))];
    assert_eq!(JsonRpcRequest::from_json(object(doc)), Err(EnvelopeError::Invalid(Field::Id)));
    let doc = vec![("method", whole(1))];
    assert_eq!(JsonRpcRequest::from_json(object(doc)), Err(EnvelopeError::Missing(Field::Id)));
}

#[test]
fn envelope_errors_in_words() {
    assert_eq!(EnvelopeError::NotAnObject.message(), "expected a JSON object");
    assert_eq!(EnvelopeError::Missing(Field::Id).message(), "missing field id");
    assert_eq!(EnvelopeError::Invalid(Field::Jsonrpc).message(), "invalid type for field jsonrpc");
    assert_eq!(EnvelopeError::Invalid(Field::Method).message(), "invalid type for field method");
    assert_eq!(EnvelopeError::Invalid(Field::Params).message(), "invalid type for field params");
    assert_eq!(Field::Params.as_str(), "params");
}

#[test]
fn ok_carries_the_result_and_no_error() {
    let response = JsonRpcResponse::ok(1, object(vec![("a", whole(1))]));
    assert_eq!(
        response,
        JsonRpcResponse {
            jsonrpc: "2.0".to_string(),
            id: 1,
            result: Some(object(vec![("a", whole(1))])),
            error: None,
        }
    );
}

#[test]
fn from_error_carries_the_error_and_no_result() {
    let response = JsonRpcResponse::from_error(7, ResponseError::new(-32601, "nope"));
    assert_eq!(
        response,
        JsonRpcResponse {
            jsonrpc: "2.0".to_string(),
            id: 7,
            result: None,
            error: Some(ResponseError { code: -32601, message: "nope".to_string() }),
        }
    );
}

#[test]
fn from_outcome_takes_either() {
    assert_eq!(JsonRpcResponse::from_outcome(3, Ok(Json::Null)), JsonRpcResponse::ok(3, Json::Null));
    let error = ResponseError::new(-32000, "failed");
    assert_eq!(
        JsonRpcResponse::from_outcome(u64::MAX, Err(error.clone())),
        JsonRpcResponse::from_error(u64::MAX, error)
    );
}

#[test]
fn response_with_a_result_in_json() {
    let doc = JsonRpcResponse::ok(1, object(vec![("a", whole(1))])).into_json();
    assert_eq!(
        doc,
        object(vec![
            ("jsonrpc", Json::text("2.0")),
            ("id", whole(1)),
            ("result", object(vec![("a", whole(1))])),
            ("error", Json::Null),
        ])
    );
}

#[test]
fn response_with_an_error_in_json() {
    let doc = JsonRpcResponse::from_error(7, ResponseError::new(-32601, "nope")).into_json();
    assert_eq!(
        doc,
        object(vec![
            ("jsonrpc", Json::text("2.0")),
            ("id", whole(7)),
            ("result", Json::Null),
            (
                "error",
                object(vec![
                    ("code", Json::Number(Number::NegInt(-32601))),
                    ("message", Json::text("nope")),
                ])
            ),
        ])
    );
    assert_eq!(
        ResponseError::new(5, "five").into_json(),
        object(vec![("code", whole(5)), ("message", Json::text("five"))])
    );
}
