//! The replies of a worker on the Messages endpoint, and what the client gets.

use axum::http::{header, HeaderMap, HeaderValue};
use serde_json::Value;
use vllm_router_rs::protocols::anthropic_error::{rewrite_context_overflow, Body, Response};

/// The context-length error text observed from production vLLM workers.
fn overflow_message() -> String {
    "This model's maximum context length is 262144 tokens. However, you requested 128000 output tokens and your prompt contains at least 134145 input tokens, for a total of at least 262145 tokens. Please reduce the length of the input prompt or the number of requested output tokens. (parameter=input_tokens, value=134145)".to_string()
}

fn text(value: &str) -> Value {
    Value::String(value.to_string())
}

fn object(members: Vec<(&str, Value)>) -> Value {
    let mut map = serde_json::Map::new();
    for (name, value) in members {
        map.insert(name.to_string(), value);
    }
    Value::Object(map)
}

fn anthropic_error(kind: &str, message: &str) -> Value {
    object(vec![
        ("type", text("error")),
        (
            "error",
            object(vec![("type", text(kind)), ("message", text(message))]),
        ),
    ])
}

/// What the client receives when the worker answers `path` like this.
fn answer(path: &str, status: u16, body: Value) -> (u16, Value, Option<String>) {
    let mut headers = HeaderMap::new();
    headers.insert(
        header::CONTENT_TYPE,
        HeaderValue::from_static("application/json"),
    );
    let reply = rewrite_context_overflow(
        path,
        Response {
            status,
            headers,
            body: Body::Complete(body.to_string().into_bytes()),
        },
    );
    let content_type = reply
        .headers
        .get(header::CONTENT_TYPE)
        .and_then(|v| v.to_str().ok())
        .map(str::to_string);
    let value = match reply.body {
        Body::Complete(bytes) => serde_json::from_slice(&bytes).unwrap(),
        Body::Interrupted => panic!("interrupted body"),
    };
    (reply.status, value, content_type)
}

#[test]
fn test_messages_context_overflow_returns_400_invalid_request_error() {
    let (status, value, content_type) = answer(
        "/v1/messages",
        500,
        anthropic_error("internal_error", &overflow_message()),
    );
    assert_eq!(status, 400, "body: {value}");
    assert_eq!(content_type.as_deref(), Some("application/json"));
    assert_eq!(value["type"], "error");
    assert_eq!(value["error"]["type"], "invalid_request_error");
    assert_eq!(value["error"]["message"], overflow_message());
}

#[test]
fn test_messages_streaming_context_overflow_returns_400() {
    // The worker rejects before the stream starts, so the reply is a JSON
    // error even for stream=true; the mapping must apply to it too.
    let (status, value, _) = answer(
        "/v1/messages",
        500,
        anthropic_error("internal_error", &overflow_message()),
    );
    assert_eq!(status, 400, "body: {value}");
    assert_eq!(value["type"], "error");
    assert_eq!(value["error"]["type"], "invalid_request_error");
    assert_eq!(value["error"]["message"], overflow_message());
}

#[test]
fn test_messages_max_completion_tokens_overflow_returns_400() {
    let (status, value, _) = answer(
        "/v1/messages",
        500,
        anthropic_error(
            "internal_error",
            "max_completion_tokens=128000 cannot be greater than max_model_len=max_total_tokens=262144. Please reduce the number of requested output tokens.",
        ),
    );
    assert_eq!(status, 400, "body: {value}");
    assert_eq!(value["error"]["type"], "invalid_request_error");
    assert!(value["error"]["message"]
        .as_str()
        .unwrap()
        .contains("max_completion_tokens=128000 cannot be greater than max_model_len"));
}

#[test]
fn test_messages_input_length_overflow_returns_400() {
    let (status, value, _) = answer(
        "/v1/messages",
        500,
        anthropic_error(
            "internal_error",
            "Input length (270000 tokens) exceeds model's maximum context length (262144 tokens).",
        ),
    );
    assert_eq!(status, 400, "body: {value}");
    assert_eq!(value["error"]["type"], "invalid_request_error");
    assert!(value["error"]["message"]
        .as_str()
        .unwrap()
        .contains("exceeds model's maximum context length"));
}

#[test]
fn test_messages_worker_crashed_stays_500() {
    let (status, value, _) = answer(
        "/v1/messages",
        500,
        anthropic_error("internal_error", "worker crashed while processing request"),
    );
    assert_eq!(status, 500, "body: {value}");
    assert_eq!(value["type"], "error");
    assert_eq!(value["error"]["type"], "internal_error");
    assert_eq!(
        value["error"]["message"],
        "worker crashed while processing request"
    );
}

#[test]
fn test_messages_upstream_400_passes_through_unchanged() {
    let message = "This model's maximum context length is 262144 tokens. However, you requested 128000 output tokens.";
    let (status, value, _) = answer(
        "/v1/messages",
        400,
        anthropic_error("invalid_request_error", message),
    );
    assert_eq!(status, 400, "body: {value}");
    assert_eq!(value["type"], "error");
    assert_eq!(value["error"]["type"], "invalid_request_error");
    assert_eq!(value["error"]["message"], message);
}

#[test]
fn test_messages_success_passes_through() {
    let (status, value, _) = answer(
        "/v1/messages",
        200,
        object(vec![
            ("type", text("message")),
            ("role", text("assistant")),
        ]),
    );
    assert_eq!(status, 200, "body: {value}");
    assert_eq!(value["type"], "message");
    assert_eq!(value["role"], "assistant");
}

#[test]
fn test_chat_completions_context_overflow_keeps_400() {
    let body = object(vec![(
        "error",
        object(vec![
            ("type", text("BadRequestError")),
            ("code", Value::from(400)),
            ("message", text(&overflow_message())),
        ]),
    )]);
    let (status, value, _) = answer("/v1/chat/completions", 400, body);
    assert_eq!(status, 400, "body: {value}");
    assert_eq!(value["error"]["type"], "BadRequestError");
    assert_eq!(value["error"]["code"], 400);
    assert_eq!(value["error"]["message"], overflow_message());
}

#[test]
fn openai_envelopes_are_read_like_anthropic_ones() {
    let body = object(vec![(
        "error",
        object(vec![
            ("type", text("BadRequestError")),
            ("message", text(&overflow_message())),
        ]),
    )]);
    let (status, value, _) = answer("/v1/messages", 503, body);
    assert_eq!(status, 400);
    assert_eq!(value["error"]["message"], overflow_message());
}
