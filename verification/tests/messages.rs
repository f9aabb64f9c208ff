use codex_ffi::json::find_key;
use codex_ffi::json::JsonNumber;
use codex_ffi::json::JsonValue;
use codex_ffi::jsonrpc::classify_server_reply;
use codex_ffi::jsonrpc::event_message;
use codex_ffi::jsonrpc::lagged_message;
use codex_ffi::jsonrpc::request_result_to_message;
use codex_ffi::jsonrpc::server_notification_message;
use codex_ffi::jsonrpc::server_request_message;
use codex_ffi::jsonrpc::JsonRpcMessage;
use codex_ffi::jsonrpc::RequestId;
use codex_ffi::jsonrpc::RequestResult;
use codex_ffi::jsonrpc::RpcError;
use codex_ffi::jsonrpc::ServerEvent;
use codex_ffi::jsonrpc::ServerReply;

fn text(s: &str) -> JsonValue {
    JsonValue::Text(s.to_string())
}

fn object(fields: Vec<(&str, JsonValue)>) -> JsonValue {
    JsonValue::Object(fields.into_iter().map(|(k, v)| (k.to_string(), v)).collect())
}

fn params() -> JsonValue {
    object(vec![("threadId", text("t-1")), ("turn", JsonValue::Number(JsonNumber::PosInt(2)))])
}

#[test]
fn find_key_returns_first_position() {
    let fields = vec![
        ("a".to_string(), JsonValue::Null),
        ("b".to_string(), JsonValue::Bool(true)),
        ("b".to_string(), JsonValue::Bool(false)),
    ];
    assert_eq!(find_key(&fields, &"b".to_string()), Some(1));
    assert_eq!(find_key(&fields, &"c".to_string()), None);
}

#[test]
fn take_member_and_member_text() {
    let mut value = object(vec![("method", text("turn/started")), ("params", params())]);
    assert_eq!(value.member_text(&"method".to_string()), Some("turn/started".to_string()));
    assert_eq!(value.member_text(&"params".to_string()), None);
    assert_eq!(value.take_member(&"params".to_string()), Some(params()));
    assert_eq!(value, object(vec![("method", text("turn/started"))]));
    assert_eq!(value.take_member(&"params".to_string()), None);
    let mut plain = text("x");
    assert_eq!(plain.take_member(&"method".to_string()), None);
    assert_eq!(plain, text("x"));
    let mut twice = object(vec![("k", JsonValue::Null), ("k", JsonValue::Bool(true))]);
    assert_eq!(twice.take_member(&"k".to_string()), Some(JsonValue::Null));
    assert_eq!(twice, object(vec![("k", JsonValue::Bool(true))]));
}

#[test]
fn answered_request_becomes_response() {
    let message = request_result_to_message(
        RequestId::Integer(1),
        RequestResult::Answered(object(vec![("ok", JsonValue::Bool(true))])),
    );
    assert_eq!(
        message,
        JsonRpcMessage::Response {
            id: RequestId::Integer(1),
            result: object(vec![("ok", JsonValue::Bool(true))]),
        }
    );
}

#[test]
fn rejected_request_keeps_server_error() {
    let error = RpcError { code: -32601, message: "method not found".to_string(), data: None };
    let message = request_result_to_message(
        RequestId::Text("r-7".to_string()),
        RequestResult::Rejected(error),
    );
    assert_eq!(
        message,
        JsonRpcMessage::Error {
            id: RequestId::Text("r-7".to_string()),
            error: RpcError { code: -32601, message: "method not found".to_string(), data: None },
        }
    );
}

#[test]
fn failed_request_becomes_transport_error() {
    let message = request_result_to_message(
        RequestId::Integer(1),
        RequestResult::Failed("channel closed".to_string()),
    );
    assert_eq!(
        message,
        JsonRpcMessage::Error {
            id: RequestId::Integer(1),
            error: RpcError { code: -32000, message: "channel closed".to_string(), data: None },
        }
    );
}

#[test]
fn notification_takes_method_and_params() {
    let message = server_notification_message(Some(object(vec![
        ("method", text("turn/started")),
        ("params", params()),
    ])));
    assert_eq!(
        message,
        JsonRpcMessage::Notification { method: "turn/started".to_string(), params: Some(params()) }
    );
}

#[test]
fn notification_without_method_is_unknown() {
    let message = server_notification_message(Some(object(vec![("params", params())])));
    assert_eq!(
        message,
        JsonRpcMessage::Notification { method: "_ffi/unknown".to_string(), params: Some(params()) }
    );
    let message = server_notification_message(Some(object(vec![(
        "method",
        JsonValue::Number(JsonNumber::PosInt(5)),
    )])));
    assert_eq!(
        message,
        JsonRpcMessage::Notification { method: "_ffi/unknown".to_string(), params: None }
    );
    let message = server_notification_message(Some(text("turn/started")));
    assert_eq!(
        message,
        JsonRpcMessage::Notification { method: "_ffi/unknown".to_string(), params: None }
    );
}

#[test]
fn notification_that_cannot_be_serialized() {
    assert_eq!(
        server_notification_message(None),
        JsonRpcMessage::Notification {
            method: "_ffi/serializationError".to_string(),
            params: None,
        }
    );
}

#[test]
fn server_request_keeps_its_id() {
    let message = server_request_message(
        RequestId::Integer(9),
        Some(object(vec![("method", text("item/commandExecution/requestApproval")), ("id", JsonValue::Number(JsonNumber::PosInt(9))), ("params", params())])),
    );
    assert_eq!(
        message,
        JsonRpcMessage::Request {
            id: RequestId::Integer(9),
            method: "item/commandExecution/requestApproval".to_string(),
            params: Some(params()),
        }
    );
    assert_eq!(
        server_request_message(RequestId::Text("q".to_string()), None),
        JsonRpcMessage::Request {
            id: RequestId::Text("q".to_string()),
            method: "_ffi/serializationError".to_string(),
            params: None,
        }
    );
}

#[test]
fn lagged_notice() {
    assert_eq!(
        lagged_message(12),
        JsonRpcMessage::Notification {
            method: "_ffi/lagged".to_string(),
            params: Some(object(vec![("skipped", JsonValue::Number(JsonNumber::PosInt(12)))])),
        }
    );
}

#[test]
fn events_become_messages() {
    assert_eq!(event_message(ServerEvent::Lagged { skipped: 3 }), lagged_message(3));
    assert_eq!(
        event_message(ServerEvent::Notification(None)),
        server_notification_message(None)
    );
    assert_eq!(
        event_message(ServerEvent::Request { id: RequestId::Integer(4), serialized: None }),
        server_request_message(RequestId::Integer(4), None)
    );
}

#[test]
fn replies_to_server_requests() {
    assert_eq!(
        classify_server_reply(JsonRpcMessage::Response {
            id: RequestId::Integer(3),
            result: object(vec![("decision", text("accept"))]),
        }),
        Ok(ServerReply::Resolve {
            id: RequestId::Integer(3),
            result: object(vec![("decision", text("accept"))]),
        })
    );
    let error = || RpcError { code: -32603, message: "declined".to_string(), data: Some(JsonValue::Null) };
    assert_eq!(
        classify_server_reply(JsonRpcMessage::Error { id: RequestId::Integer(3), error: error() }),
        Ok(ServerReply::Fail { id: RequestId::Integer(3), error: error() })
    );
    assert_eq!(
        classify_server_reply(JsonRpcMessage::Notification { method: "x".to_string(), params: None }),
        Err("response must be a json-rpc response or error".to_string())
    );
    assert_eq!(
        classify_server_reply(JsonRpcMessage::Request {
            id: RequestId::Integer(1),
            method: "x".to_string(),
            params: None,
        }),
        Err("response must be a json-rpc response or error".to_string())
    );
}
