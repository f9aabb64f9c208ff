//! JSON-RPC messages that the runtime delivers to its C caller or accepts from it.
use vstd::prelude::*;
use crate::json::{is_first_key, lemma_first_key, member, member_text, JsonNumber, JsonValue};

verus! {

/// The id that pairs a JSON-RPC request with its answer.
#[derive(Debug, PartialEq, Eq)]
pub enum RequestId {
    Text(String),
    Integer(i64),
}

/// The error object of a JSON-RPC error answer.
#[derive(Debug, PartialEq, Eq)]
pub struct RpcError {
    pub code: i64,
    pub message: String,
    pub data: Option<JsonValue>,
}

/// A JSON-RPC message.
#[derive(Debug, PartialEq, Eq)]
pub enum JsonRpcMessage {
    Request { id: RequestId, method: String, params: Option<JsonValue> },
    Notification { method: String, params: Option<JsonValue> },
    Response { id: RequestId, result: JsonValue },
    Error { id: RequestId, error: RpcError },
}

/// How a request the caller sent was settled by the server.
#[derive(Debug, PartialEq, Eq)]
pub enum RequestResult {
    /// The server answered with this result.
    Answered(JsonValue),
    /// The server answered with this error.
    Rejected(RpcError),
    /// The request could not be carried to the server; the text says why.
    Failed(String),
}

/// An event of the in-process server, with its payload already turned into JSON.
#[derive(Debug, PartialEq, Eq)]
pub enum ServerEvent {
    /// A notification; its JSON form, or nothing when it could not be turned into JSON.
    Notification(Option<JsonValue>),
    /// A request the server makes of the client, with its id and JSON form (or nothing).
    Request { id: RequestId, serialized: Option<JsonValue> },
    /// The caller fell behind and this many events were dropped.
    Lagged { skipped: usize },
}

/// The client's reply to a server request, as the server takes it.
#[derive(Debug, PartialEq, Eq)]
pub enum ServerReply {
    /// Settle request `id` with a result.
    Resolve { id: RequestId, result: JsonValue },
    /// Settle request `id` with an error.
    Fail { id: RequestId, error: RpcError },
}

/// The code of the error answer that reports a request which never reached the server.
pub open spec fn transport_error_code() -> i64 {
    -32000i64
}

/// Method of the notification sent when the caller fell behind.
pub open spec fn lagged_method() -> Seq<char> {
    "_ffi/lagged"@
}

/// Method used when a server message could not be turned into JSON.
pub open spec fn serialization_error_method() -> Seq<char> {
    "_ffi/serializationError"@
}

/// Method used when a server message's JSON names no method.
pub open spec fn unknown_method() -> Seq<char> {
    "_ffi/unknown"@
}

/// The id a message carries, if any.
pub open spec fn message_id(message: JsonRpcMessage) -> Option<RequestId> {
    match message {
        JsonRpcMessage::Request { id, .. } => Some(id),
        JsonRpcMessage::Notification { .. } => None,
        JsonRpcMessage::Response { id, .. } => Some(id),
        JsonRpcMessage::Error { id, .. } => Some(id),
    }
}

/// The message that reports how request `id` was settled.
pub open spec fn spec_request_result_message(id: RequestId, result: RequestResult) -> JsonRpcMessage {
    match result {
        RequestResult::Answered(value) => JsonRpcMessage::Response { id, result: value },
        RequestResult::Rejected(error) => JsonRpcMessage::Error { id, error },
        RequestResult::Failed(text) => JsonRpcMessage::Error {
            id,
            error: RpcError { code: transport_error_code(), message: text, data: None },
        },
    }
}

/// The method named by a server message's JSON form: its `method` member when that is a
/// string, else `_ffi/unknown`; `_ffi/serializationError` when there is no JSON form.
pub open spec fn spec_event_method(serialized: Option<JsonValue>) -> Seq<char> {
    match serialized {
        None => serialization_error_method(),
        Some(value) => match member_text(value, "method"@) {
            Some(m) => m,
            None => unknown_method(),
        },
    }
}

/// The parameters carried by a server message's JSON form: its `params` member.
pub open spec fn spec_event_params(serialized: Option<JsonValue>) -> Option<JsonValue> {
    match serialized {
        None => None,
        Some(value) => member(value, "params"@),
    }
}

/// The notification that tells the caller how many events were dropped.
pub open spec fn is_lagged_notice(message: JsonRpcMessage, skipped: usize) -> bool {
    message matches JsonRpcMessage::Notification { method, params: Some(JsonValue::Object(fields)) }
        && method@ == lagged_method() && fields@.len() == 1 && fields@[0].0@ == "skipped"@
        && fields@[0].1 == JsonValue::Number(JsonNumber::PosInt(skipped as u64))
}

/// The message that reports how request `id` was settled: the server's answer as a
/// response or error, and a failure to reach the server as error -32000 with its text.
pub fn request_result_to_message(id: RequestId, result: RequestResult) -> (message: JsonRpcMessage)
    ensures
        message == spec_request_result_message(id, result),
        message_id(message) == Some(id),
        match result {
            RequestResult::Answered(value) => message == JsonRpcMessage::Response { id, result: value },
            RequestResult::Rejected(error) => message == JsonRpcMessage::Error { id, error },
            RequestResult::Failed(text) => message == JsonRpcMessage::Error {
                id,
                error: RpcError { code: -32000i64, message: text, data: None },
            },
        },
{
    match result {
        RequestResult::Answered(value) => JsonRpcMessage::Response { id, result: value },
        RequestResult::Rejected(error) => JsonRpcMessage::Error { id, error },
        RequestResult::Failed(text) => JsonRpcMessage::Error {
            id,
            error: RpcError { code: -32000, message: text, data: None },
        },
    }
}

/// The method and parameters of a server message's JSON form (see `spec_event_method`).
fn method_and_params(serialized: Option<JsonValue>) -> (parts: (String, Option<JsonValue>))
    ensures
        parts.0@ == spec_event_method(serialized),
        parts.1 == spec_event_params(serialized),
        match serialized {
            None => parts.0@ == "_ffi/serializationError"@ && parts.1 is None,
            Some(value) => parts.1 == member(value, "params"@) && match member_text(value, "method"@) {
                Some(m) => parts.0@ == m,
                None => parts.0@ == "_ffi/unknown"@,
            },
        },
{
    match serialized {
        None => {
            proof {
                reveal_strlit("_ffi/serializationError");
            }
            ("_ffi/serializationError".to_owned(), None)
        },
        Some(value) => {
            let ghost original = value;
            let mut value = value;
            let method_key = "method".to_owned();
            let params_key = "params".to_owned();
            proof {
                reveal_strlit("method");
                reveal_strlit("params");
                assert(method_key@ != params_key@) by {
                    assert(method_key@[0] != params_key@[0]);
                }
            }
            let params = value.take_member(&params_key);
            let method = match value.member_text(&method_key) {
                Some(m) => m,
                None => {
                    proof {
                        reveal_strlit("_ffi/unknown");
                    }
                    "_ffi/unknown".to_owned()
                },
            };
            assert(member(value, method_key@) == member(original, method_key@));
            (method, params)
        },
    }
}

/// The notification delivered for a server notification with JSON form `serialized`.
pub fn server_notification_message(serialized: Option<JsonValue>) -> (message: JsonRpcMessage)
    ensures
        message matches JsonRpcMessage::Notification { method, params }
            && method@ == spec_event_method(serialized)
            && params == spec_event_params(serialized),
{
    let (method, params) = method_and_params(serialized);
    JsonRpcMessage::Notification { method, params }
}

/// The request delivered for a server request with id `id` and JSON form `serialized`.
pub fn server_request_message(id: RequestId, serialized: Option<JsonValue>) -> (message: JsonRpcMessage)
    ensures
        message matches JsonRpcMessage::Request { id: i, method, params }
            && i == id
            && method@ == spec_event_method(serialized)
            && params == spec_event_params(serialized),
{
    let (method, params) = method_and_params(serialized);
    JsonRpcMessage::Request { id, method, params }
}

/// The notification `{"method": "_ffi/lagged", "params": {"skipped": n}}`.
pub fn lagged_message(skipped: usize) -> (message: JsonRpcMessage)
    ensures
        is_lagged_notice(message, skipped),
{
    let mut fields: Vec<(String, JsonValue)> = Vec::new();
    fields.push(("skipped".to_owned(), JsonValue::Number(JsonNumber::PosInt(skipped as u64))));
    JsonRpcMessage::Notification {
        method: "_ffi/lagged".to_owned(),
        params: Some(JsonValue::Object(fields)),
    }
}

/// The message delivered to the caller for a server event.
pub fn event_message(event: ServerEvent) -> (message: JsonRpcMessage)
    ensures
        match event {
            ServerEvent::Notification(serialized) => message matches JsonRpcMessage::Notification {
                method,
                params,
            } && method@ == spec_event_method(serialized) && params == spec_event_params(serialized),
            ServerEvent::Request { id, serialized } => message matches JsonRpcMessage::Request {
                id: i,
                method,
                params,
            } && i == id && method@ == spec_event_method(serialized) && params == spec_event_params(
                serialized,
            ),
            ServerEvent::Lagged { skipped } => is_lagged_notice(message, skipped),
        },
{
    match event {
        ServerEvent::Notification(serialized) => server_notification_message(serialized),
        ServerEvent::Request { id, serialized } => server_request_message(id, serialized),
        ServerEvent::Lagged { skipped } => lagged_message(skipped),
    }
}

/// The reply a JSON-RPC message gives to a server request: a response settles it with
/// its result, an error with its error; any other message is refused.
pub fn classify_server_reply(message: JsonRpcMessage) -> (reply: Result<ServerReply, String>)
    ensures
        match message {
            JsonRpcMessage::Response { id, result } => reply == Ok::<ServerReply, String>(
                ServerReply::Resolve { id, result },
            ),
            JsonRpcMessage::Error { id, error } => reply == Ok::<ServerReply, String>(
                ServerReply::Fail { id, error },
            ),
            _ => reply matches Err(e) && e@ == "response must be a json-rpc response or error"@,
        },
{
    match message {
        JsonRpcMessage::Response { id, result } => Ok(ServerReply::Resolve { id, result }),
        JsonRpcMessage::Error { id, error } => Ok(ServerReply::Fail { id, error }),
        _ => Err("response must be a json-rpc response or error".to_owned()),
    }
}

/// A request the server answered is delivered as a response carrying exactly that result
/// under the request's id.
pub proof fn law_answer_is_delivered_intact(id: RequestId, value: JsonValue)
    ensures
        spec_request_result_message(id, RequestResult::Answered(value)) == (JsonRpcMessage::Response {
            id,
            result: value,
        }),
{
}

/// A request the server rejected is delivered as an error carrying exactly the server's
/// error object (code, message and data unchanged) under the request's id.
pub proof fn law_rejection_is_delivered_intact(id: RequestId, error: RpcError)
    ensures
        spec_request_result_message(id, RequestResult::Rejected(error)) == (JsonRpcMessage::Error {
            id,
            error,
        }),
{
}

/// A request that never reached the server is delivered as error -32000 whose message is
/// the failure's text, with no data.
pub proof fn law_transport_failure_is_error_32000(id: RequestId, text: String)
    ensures
        spec_request_result_message(id, RequestResult::Failed(text)) == (JsonRpcMessage::Error {
            id,
            error: RpcError { code: -32000i64, message: text, data: None },
        }),
{
}

/// When a server message's JSON form has a string member `method`, that string is the
/// delivered method, whatever characters it holds; `_ffi/unknown` only when the member is
/// absent or not a string; `_ffi/serializationError` when there is no JSON form.
pub proof fn law_method_is_taken_from_json(serialized: Option<JsonValue>)
    ensures
        match serialized {
            None => spec_event_method(serialized) == "_ffi/serializationError"@,
            Some(value) => match member_text(value, "method"@) {
                Some(m) => spec_event_method(serialized) == m,
                None => spec_event_method(serialized) == "_ffi/unknown"@,
            },
        },
{
}

/// For an object whose first `method` member is the string `m`, the delivered method is `m`.
pub proof fn law_method_of_object(fields: Vec<(String, JsonValue)>, i: int, m: String)
    requires
        is_first_key(fields@, "method"@, i),
        fields@[i].1 == JsonValue::Text(m),
    ensures
        spec_event_method(Some(JsonValue::Object(fields))) == m@,
{
    lemma_first_key(fields@, "method"@, i);
}

/// The delivered parameters are the JSON form's `params` member, unchanged; nothing when
/// there is no JSON form.
pub proof fn law_params_are_taken_from_json(serialized: Option<JsonValue>)
    ensures
        match serialized {
            None => spec_event_params(serialized) is None,
            Some(value) => spec_event_params(serialized) == member(value, "params"@),
        },
{
}

/// For an object whose first `params` member is `p`, the delivered parameters are `p`.
pub proof fn law_params_of_object(fields: Vec<(String, JsonValue)>, i: int, p: JsonValue)
    requires
        is_first_key(fields@, "params"@, i),
        fields@[i].1 == p,
    ensures
        spec_event_params(Some(JsonValue::Object(fields))) == Some(p),
{
    lemma_first_key(fields@, "params"@, i);
}

/// The lagged notice is `{"method": "_ffi/lagged", "params": {"skipped": n}}` with the
/// number of dropped events, for every count.
pub proof fn law_lagged_notice(message: JsonRpcMessage, skipped: usize)
    requires
        is_lagged_notice(message, skipped),
    ensures
        message matches JsonRpcMessage::Notification { method, params: Some(JsonValue::Object(fields)) }
            && method@ == "_ffi/lagged"@ && fields@.len() == 1 && fields@[0].0@ == "skipped"@
            && fields@[0].1 == JsonValue::Number(JsonNumber::PosInt(skipped as u64)),
{
}

} // verus!
