use contextual_backend::handlers::echo::EchoService;
use contextual_backend::json::{Json, Number};
use contextual_backend::jsonrpc::{JsonRpcRequest, JsonRpcResponse, ResponseError};
use contextual_backend::router::{RouterFactory, RouterService};
use contextual_backend::transport::codec::FrameError;
use contextual_backend::transport::{handle_client, Action, ConnectionState, Event};

fn object(members: Vec<(&str, Json)>) -> Json {
    Json::Object(members.into_iter().map(|(k, v)| (k.to_string(), v)).collect())
}

fn request_doc(id: u64, method: &str, params: Json) -> Json {
    object(vec![
        ("jsonrpc", Json::text("2.0")),
        ("id", Json::Number(Number::PosInt(id))),
        ("method", Json::text(method)),
        ("params", params),
    ])
}

fn echo_table() -> RouterFactory<EchoService> {
    RouterFactory::new().with_route("contextual/echo", EchoService)
}

fn encoded(state: ConnectionState, event: Event, router: &RouterService<EchoService>) -> JsonRpcResponse {
    match handle_client(state, event, router) {
        (ConnectionState::Encoding { framed: false }, Action::Encode(response)) => response,
        other => panic!("expected a response to encode, got {:?}", other),
    }
}

#[test]
fn frame_that_arrives_is_to_be_decoded() {
    let factory = echo_table();
    let router = factory.service();
    let step = handle_client(
        ConnectionState::AwaitingFrame,
        Event::Frame(Ok("{\"id\":1}".to_string())),
        &router,
    );
    assert!(matches!(step, (ConnectionState::Decoding, Action::Decode(text)) if text == "{\"id\":1}"));
}

#[test]
fn framing_error_closes_the_connection_without_a_response() {
    let factory = echo_table();
    let router = factory.service();
    for error in [
        FrameError::UnexpectedEof,
        FrameError::MissingContentLength,
        FrameError::InvalidEncoding,
    ] {
        let step = handle_client(ConnectionState::AwaitingFrame, Event::Frame(Err(error)), &router);
        assert!(matches!(step, (ConnectionState::Closed, Action::Close { error: None })));
    }
}

#[test]
fn request_for_a_known_method_is_handed_to_its_service() {
    let factory = echo_table();
    let router = factory.service();
    let params = object(vec![("a", Json::Number(Number::PosInt(1)))]);
    let step = handle_client(
        ConnectionState::Decoding,
        Event::Decoded(Ok(request_doc(1, "contextual/echo", params.clone()))),
        &router,
    );
    match step {
        (ConnectionState::Dispatching { id }, Action::Call { request, .. }) => {
            assert_eq!(id, 1);
            assert_eq!(
                request,
                JsonRpcRequest {
                    jsonrpc: "2.0".to_string(),
                    id: 1,
                    method: "contextual/echo".to_string(),
                    params,
                }
            );
        }
        other => panic!("expected a call, got {:?}", other),
    }
}

#[test]
fn request_for_an_unknown_method_is_answered_at_once() {
    let factory = echo_table();
    let router = factory.service();
    let response = encoded(
        ConnectionState::Decoding,
        Event::Decoded(Ok(request_doc(7, "does/not/exist", object(vec![])))),
        &router,
    );
    assert_eq!(response.id, 7);
    assert_eq!(response.result, None);
    let error = response.error.unwrap();
    assert_eq!(error.code, -32601);
    assert_eq!(error.message, "Method not found: does/not/exist");
}

#[test]
fn text_that_is_no_json_is_answered_with_a_parse_error_under_id_zero() {
    let factory = echo_table();
    let router = factory.service();
    let response = encoded(
        ConnectionState::Decoding,
        Event::Decoded(Err("expected value at line 1 column 1".to_string())),
        &router,
    );
    assert_eq!(
        response,
        JsonRpcResponse::from_error(
            0,
            ResponseError::new(-32700, "Parse error: expected value at line 1 column 1")
        )
    );
}

#[test]
fn json_that_is_no_envelope_is_answered_with_a_parse_error_under_id_zero() {
    let factory = echo_table();
    let router = factory.service();
    let docs = vec![
        (Json::Null, "Parse error: expected a JSON object"),
        (Json::Array(vec![]), "Parse error: expected a JSON object"),
        (object(vec![]), "Parse error: missing field id"),
        (object(vec![("jsonrpc", Json::Null)]), "Parse error: invalid type for field jsonrpc"),
        (
            object(vec![("jsonrpc", Json::text("2.0")), ("id", Json::text("9"))]),
            "Parse error: invalid type for field id",
        ),
        (
            object(vec![
                ("jsonrpc", Json::text("2.0")),
                ("id", Json::Number(Number::PosInt(9))),
                ("method", Json::text("contextual/echo")),
            ]),
            "Parse error: missing field params",
        ),
    ];
    for (doc, message) in docs {
        let response = encoded(ConnectionState::Decoding, Event::Decoded(Ok(doc)), &router);
        assert_eq!(response.id, 0);
        assert_eq!(response.result, None);
        assert_eq!(response.error, Some(ResponseError::new(-32700, message)));
    }
}

#[test]
fn outcome_of_the_service_is_answered_under_the_id_of_the_request() {
    let factory = echo_table();
    let router = factory.service();
    let response = encoded(
        ConnectionState::Dispatching { id: 11 },
        Event::Served(Ok(Json::text("done"))),
        &router,
    );
    assert_eq!(response, JsonRpcResponse::ok(11, Json::text("done")));
    let error = ResponseError::new(-32000, "failed");
    let response = encoded(
        ConnectionState::Dispatching { id: 12 },
        Event::Served(Err(error.clone())),
        &router,
    );
    assert_eq!(response, JsonRpcResponse::from_error(12, error));
}

#[test]
fn response_text_is_framed_for_writing() {
    let factory = echo_table();
    let router = factory.service();
    let step = handle_client(
        ConnectionState::Encoding { framed: false },
        Event::Encoded(Ok(b"{\"id\":1}".to_vec())),
        &router,
    );
    match step {
        (ConnectionState::Encoding { framed: true }, Action::WriteFrame(bytes)) => {
            assert_eq!(bytes, b"Content-Length: 8\r\n\r\n{\"id\":1}".to_vec());
        }
        other => panic!("expected a frame to write, got {:?}", other),
    }
}

#[test]
fn response_that_cannot_be_put_into_text_fails_the_connection_with_the_reason() {
    let factory = echo_table();
    let router = factory.service();
    let step = handle_client(
        ConnectionState::Encoding { framed: false },
        Event::Encoded(Err("key must be a string".to_string())),
        &router,
    );
    match step {
        (ConnectionState::Closed, Action::Close { error }) => {
            assert_eq!(error, Some("key must be a string".to_string()));
        }
        other => panic!("expected the connection to fail, got {:?}", other),
    }
    let after = handle_client(ConnectionState::Closed, Event::Written(true), &router);
    assert!(matches!(after, (ConnectionState::Closed, Action::Close { error: Some(_) })));
}

#[test]
fn write_that_went_through_leads_to_the_next_read() {
    let factory = echo_table();
    let router = factory.service();
    let step = handle_client(ConnectionState::Encoding { framed: true }, Event::Written(true), &router);
    assert!(matches!(step, (ConnectionState::AwaitingFrame, Action::ReadFrame)));
}

#[test]
fn write_that_failed_closes_the_connection() {
    let factory = echo_table();
    let router = factory.service();
    let step = handle_client(ConnectionState::Encoding { framed: true }, Event::Written(false), &router);
    assert!(matches!(step, (ConnectionState::Closed, Action::Close { error: None })));
}

#[test]
fn event_that_the_state_does_not_wait_for_closes_the_connection() {
    let factory = echo_table();
    let router = factory.service();
    let cases = vec![
        (ConnectionState::AwaitingFrame, Event::Written(true)),
        (ConnectionState::AwaitingFrame, Event::Served(Ok(Json::Null))),
        (ConnectionState::Decoding, Event::Frame(Ok("x".to_string()))),
        (ConnectionState::Dispatching { id: 1 }, Event::Frame(Ok("x".to_string()))),
        (ConnectionState::Dispatching { id: 1 }, Event::Decoded(Ok(Json::Null))),
        (ConnectionState::Encoding { framed: false }, Event::Written(true)),
        (ConnectionState::Encoding { framed: true }, Event::Encoded(Ok(vec![]))),
        (ConnectionState::Encoding { framed: true }, Event::Frame(Ok("x".to_string()))),
        (ConnectionState::Closed, Event::Frame(Ok("x".to_string()))),
        (ConnectionState::Closed, Event::Written(true)),
    ];
    for (state, event) in cases {
        match handle_client(state, event, &router) {
            (ConnectionState::Closed, Action::Close { error }) => {
                assert_eq!(error, Some("event out of turn".to_string()));
            }
            other => panic!("expected the connection to fail, got {:?}", other),
        }
    }
}

/// Runs one request through a connection, playing the part of whoever drives
/// it, and gives the response that is to be encoded.
fn round(router: &RouterService<EchoService>, doc: Json) -> JsonRpcResponse {
    let (state, action) = handle_client(
        ConnectionState::AwaitingFrame,
        Event::Frame(Ok("text".to_string())),
        router,
    );
    assert!(matches!(action, Action::Decode(_)));
    let (state, action) = handle_client(state, Event::Decoded(Ok(doc)), router);
    let (state, response) = match action {
        Action::Call { service, request } => {
            let mut service = *service;
            let outcome = contextual_backend::service::Service::call(&mut service, request);
            match handle_client(state, Event::Served(outcome), router) {
                (state, Action::Encode(response)) => (state, response),
                other => panic!("expected a response to encode, got {:?}", other),
            }
        }
        Action::Encode(response) => (state, response),
        other => panic!("expected a call or a response, got {:?}", other),
    };
    assert_eq!(state, ConnectionState::Encoding { framed: false });
    let (state, action) = handle_client(state, Event::Encoded(Ok(b"{}".to_vec())), router);
    assert!(matches!(action, Action::WriteFrame(_)));
    let (state, action) = handle_client(state, Event::Written(true), router);
    assert_eq!(state, ConnectionState::AwaitingFrame);
    assert!(matches!(action, Action::ReadFrame));
    response
}

#[test]
fn echo_request_goes_round_and_comes_back_with_its_parameters() {
    let factory = echo_table();
    let router = factory.service();
    let params = object(vec![("a", Json::Number(Number::PosInt(1)))]);
    let response = round(&router, request_doc(1, "contextual/echo", params.clone()));
    assert_eq!(response.id, 1);
    assert_eq!(response.result, Some(params));
    assert_eq!(response.error, None);
}

#[test]
fn request_without_a_protocol_tag_is_answered_all_the_same() {
    let factory = echo_table();
    let router = factory.service();
    let params = object(vec![("a", Json::Number(Number::PosInt(1)))]);
    let echo = object(vec![
        ("id", Json::Number(Number::PosInt(1))),
        ("method", Json::text("contextual/echo")),
        ("params", params.clone()),
    ]);
    let response = round(&router, echo);
    assert_eq!((response.id, response.result, response.error), (1, Some(params), None));
    let unknown = object(vec![
        ("id", Json::Number(Number::PosInt(7))),
        ("method", Json::text("does/not/exist")),
        ("params", object(vec![])),
    ]);
    let response = round(&router, unknown);
    assert_eq!((response.id, response.result), (7, None));
    assert_eq!(response.error.unwrap().code, -32601);
}

#[test]
fn unknown_method_goes_round_and_comes_back_as_an_error() {
    let factory = echo_table();
    let router = factory.service();
    let response = round(&router, request_doc(7, "does/not/exist", object(vec![])));
    assert_eq!(response.id, 7);
    assert_eq!(response.result, None);
    assert_eq!(response.error.unwrap().code, -32601);
}

#[test]
fn two_requests_in_a_row_are_answered_in_their_order() {
    let factory = echo_table();
    let router = factory.service();
    let first = round(&router, request_doc(1, "contextual/echo", Json::text("slow")));
    let second = round(&router, request_doc(2, "contextual/echo", Json::text("fast")));
    assert_eq!((first.id, first.result), (1, Some(Json::text("slow"))));
    assert_eq!((second.id, second.result), (2, Some(Json::text("fast"))));
}

#[test]
fn no_frame_is_read_while_a_request_is_with_its_service() {
    let factory = echo_table();
    let router = factory.service();
    let (state, _) = handle_client(
        ConnectionState::Decoding,
        Event::Decoded(Ok(request_doc(1, "contextual/echo", Json::Null))),
        &router,
    );
    assert_eq!(state, ConnectionState::Dispatching { id: 1 });
    let step = handle_client(state, Event::Frame(Ok("second".to_string())), &router);
    assert!(matches!(step, (ConnectionState::Closed, Action::Close { error: Some(_) })));
}

#[test]
fn two_connections_on_one_table_do_not_touch_each_other() {
    let factory = echo_table();
    let one = factory.service();
    let two = factory.service();
    let (state_one, _) = handle_client(
        ConnectionState::Decoding,
        Event::Decoded(Ok(request_doc(1, "contextual/echo", Json::text("one")))),
        &one,
    );
    let (state_two, _) = handle_client(
        ConnectionState::Decoding,
        Event::Decoded(Ok(request_doc(2, "contextual/echo", Json::text("two")))),
        &two,
    );
    let second = encoded(state_two, Event::Served(Ok(Json::text("two"))), &two);
    let first = encoded(state_one, Event::Served(Ok(Json::text("one"))), &one);
    assert_eq!(first, JsonRpcResponse::ok(1, Json::text("one")));
    assert_eq!(second, JsonRpcResponse::ok(2, Json::text("two")));
}
