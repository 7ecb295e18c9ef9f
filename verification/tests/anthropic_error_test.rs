//! The error mapping on whole responses.

use axum::http::{header, HeaderMap, HeaderValue, StatusCode};
use serde_json::Value;
use vllm_router_rs::protocols::anthropic_error::{
    rewrite_context_overflow, Body, Response, MAX_INSPECTED_BODY_BYTES,
};

/// The exact message observed from a vLLM worker when a request asked for
/// 128000 output tokens on top of a 134145-token prompt.
const VLLM_CONTEXT_OVERFLOW: &str = "This model's maximum context length is 262144 tokens. However, you requested 128000 output tokens and your prompt contains at least 134145 input tokens, for a total of at least 262145 tokens. Please reduce the length of the input prompt or the number of requested output tokens. (parameter=input_tokens, value=134145)";

fn text(value: &str) -> Value {
    Value::String(value.to_string())
}

fn object(members: Vec<(&str, Value)>) -> Value {
    let mut map = serde_json::Map::new();
    for (name, value) in members {
        map.insert(name.to_string(), value);
    }
    Value::Object(map)
}

fn error_body(kind: &str, message: &str) -> String {
    object(vec![
        ("type", text("error")),
        (
            "error",
            object(vec![("type", text(kind)), ("message", text(message))]),
        ),
    ])
    .to_string()
}

fn vllm_context_overflow_body() -> String {
    error_body("internal_error", VLLM_CONTEXT_OVERFLOW)
}

fn json_response(status: StatusCode, content_type: &str, body: String) -> Response {
    let mut headers = HeaderMap::new();
    headers.insert(
        header::CONTENT_TYPE,
        HeaderValue::from_str(content_type).unwrap(),
    );
    Response {
        status: status.as_u16(),
        headers,
        body: Body::Complete(body.into_bytes()),
    }
}

fn body_string(response: Response) -> String {
    match response.body {
        Body::Complete(bytes) => String::from_utf8(bytes).unwrap(),
        Body::Interrupted => panic!("interrupted body"),
    }
}

fn body_json(response: Response) -> Value {
    serde_json::from_str(&body_string(response)).unwrap()
}

#[test]
fn rewrites_worker_context_overflow_500_to_invalid_request_400() {
    let response = json_response(
        StatusCode::INTERNAL_SERVER_ERROR,
        "application/json",
        vllm_context_overflow_body(),
    );

    let response = rewrite_context_overflow("/v1/messages", response);
    assert_eq!(response.status, StatusCode::BAD_REQUEST.as_u16());

    let value = body_json(response);
    assert_eq!(value["type"], "error");
    assert_eq!(value["error"]["type"], "invalid_request_error");
    assert!(value["error"]["message"]
        .as_str()
        .unwrap()
        .starts_with("This model's maximum context length is 262144 tokens"));
    assert!(value["error"]["message"]
        .as_str()
        .unwrap()
        .ends_with("(parameter=input_tokens, value=134145)"));
}

#[test]
fn rewrites_max_completion_tokens_marker() {
    let body = error_body(
        "internal_error",
        "max_completion_tokens=128000 cannot be greater than max_model_len=max_total_tokens=262144. Please reduce the number of requested output tokens.",
    );
    let response = json_response(StatusCode::INTERNAL_SERVER_ERROR, "application/json", body);

    let response = rewrite_context_overflow("/v1/messages", response);
    assert_eq!(response.status, StatusCode::BAD_REQUEST.as_u16());
    let value = body_json(response);
    assert_eq!(value["error"]["type"], "invalid_request_error");
    assert!(value["error"]["message"]
        .as_str()
        .unwrap()
        .contains("max_completion_tokens=128000"));
}

#[test]
fn rewrites_input_length_marker() {
    let body = error_body(
        "internal_error",
        "Input length (270000 tokens) exceeds model's maximum context length (262144 tokens).",
    );
    let response = json_response(StatusCode::INTERNAL_SERVER_ERROR, "application/json", body);

    let response = rewrite_context_overflow("/v1/messages", response);
    assert_eq!(response.status, StatusCode::BAD_REQUEST.as_u16());
    let value = body_json(response);
    assert_eq!(value["error"]["type"], "invalid_request_error");
}

#[test]
fn emits_canonical_anthropic_field_order() {
    let response = json_response(
        StatusCode::INTERNAL_SERVER_ERROR,
        "application/json",
        vllm_context_overflow_body(),
    );

    let response = rewrite_context_overflow("/v1/messages", response);
    assert_eq!(response.status, StatusCode::BAD_REQUEST.as_u16());
    let raw = body_string(response);
    assert!(
        raw.starts_with(r#"{"type":"error","error":{"type":"invalid_request_error","message":"#),
        "unexpected body: {raw}"
    );
}

#[test]
fn keeps_worker_crashed_500_untouched() {
    let body = error_body("internal_error", "worker crashed while processing request");
    let response = json_response(
        StatusCode::INTERNAL_SERVER_ERROR,
        "application/json",
        body.clone(),
    );

    let response = rewrite_context_overflow("/v1/messages", response);
    assert_eq!(response.status, StatusCode::INTERNAL_SERVER_ERROR.as_u16());
    assert_eq!(body_string(response), body);
}

#[test]
fn keeps_other_5xx_untouched() {
    let body = error_body(
        "internal_error",
        "CUDA out of memory. Tried to allocate 2.00 GiB",
    );
    let response = json_response(
        StatusCode::INTERNAL_SERVER_ERROR,
        "application/json",
        body.clone(),
    );

    let response = rewrite_context_overflow("/v1/messages", response);
    assert_eq!(response.status, StatusCode::INTERNAL_SERVER_ERROR.as_u16());
    assert_eq!(body_string(response), body);
}

#[test]
fn keeps_upstream_400_untouched() {
    // A fixed worker already mapping the violation to Anthropic semantics
    // must not be re-wrapped by the router.
    let body = error_body(
        "invalid_request_error",
        "This model's maximum context length is 262144 tokens. However, you requested 128000 output tokens.",
    );
    let response = json_response(StatusCode::BAD_REQUEST, "application/json", body.clone());

    let response = rewrite_context_overflow("/v1/messages", response);
    assert_eq!(response.status, StatusCode::BAD_REQUEST.as_u16());
    assert_eq!(body_string(response), body);
}

#[test]
fn keeps_success_response_quoting_the_error() {
    // A model answer may quote the error text; successful replies must
    // never be rewritten.
    let body = object(vec![
        ("id", text("chatcmpl-1")),
        ("type", text("message")),
        ("role", text("assistant")),
        (
            "content",
            Value::Array(vec![object(vec![
                ("type", text("text")),
                (
                    "text",
                    text("This model's maximum context length is 262144 tokens."),
                ),
            ])]),
        ),
    ])
    .to_string();
    let response = json_response(StatusCode::OK, "application/json", body.clone());

    let response = rewrite_context_overflow("/v1/messages", response);
    assert_eq!(response.status, StatusCode::OK.as_u16());
    assert_eq!(body_string(response), body);
}

#[test]
fn ignores_other_paths() {
    for path in [
        "/generate",
        "/v1/chat/completions",
        "/v1/messages/count_tokens",
    ] {
        let response = rewrite_context_overflow(
            path,
            json_response(
                StatusCode::INTERNAL_SERVER_ERROR,
                "application/json",
                vllm_context_overflow_body(),
            ),
        );
        assert_eq!(
            response.status,
            StatusCode::INTERNAL_SERVER_ERROR.as_u16(),
            "{path}"
        );
    }
}

#[test]
fn requires_json_content_type() {
    // SSE replies are streamed; inspecting them could stall on a hung
    // upstream, so they are never rewritten.
    let response = json_response(
        StatusCode::INTERNAL_SERVER_ERROR,
        "text/event-stream",
        vllm_context_overflow_body(),
    );

    let response = rewrite_context_overflow("/v1/messages", response);
    assert_eq!(response.status, StatusCode::INTERNAL_SERVER_ERROR.as_u16());
}

#[test]
fn accepts_content_type_with_charset_parameter() {
    let response = json_response(
        StatusCode::INTERNAL_SERVER_ERROR,
        "application/json; charset=utf-8",
        vllm_context_overflow_body(),
    );

    let response = rewrite_context_overflow("/v1/messages", response);
    assert_eq!(response.status, StatusCode::BAD_REQUEST.as_u16());
}

#[test]
fn falls_back_to_raw_text_when_body_is_not_json() {
    let body = "This model's maximum context length is 262144 tokens".to_string();
    let response = json_response(
        StatusCode::INTERNAL_SERVER_ERROR,
        "application/json",
        body.clone(),
    );

    let response = rewrite_context_overflow("/v1/messages", response);
    assert_eq!(response.status, StatusCode::BAD_REQUEST.as_u16());
    let value = body_json(response);
    assert_eq!(value["error"]["type"], "invalid_request_error");
    assert_eq!(value["error"]["message"], body);
}

#[test]
fn preserves_upstream_status_when_body_exceeds_cap() {
    let large_body = format!(
        "This model's maximum context length is 262144 tokens. {}",
        "x".repeat(MAX_INSPECTED_BODY_BYTES)
    );
    let response = json_response(StatusCode::BAD_GATEWAY, "application/json", large_body);

    let response = rewrite_context_overflow("/v1/messages", response);
    assert_eq!(response.status, StatusCode::BAD_GATEWAY.as_u16());
    assert_eq!(body_string(response), "");
}

#[test]
fn inspects_a_body_of_exactly_the_cap() {
    assert_eq!(MAX_INSPECTED_BODY_BYTES, 65536);
    let marker = "This model's maximum context length is";
    let body = format!(
        "{}{}",
        marker,
        "x".repeat(MAX_INSPECTED_BODY_BYTES - marker.len())
    );
    let response = json_response(StatusCode::BAD_GATEWAY, "application/json", body.clone());
    let response = rewrite_context_overflow("/v1/messages", response);
    assert_eq!(response.status, 400);
    assert_eq!(body_json(response)["error"]["message"], body);

    let response = json_response(StatusCode::BAD_GATEWAY, "application/json", body + "x");
    let response = rewrite_context_overflow("/v1/messages", response);
    assert_eq!(response.status, 502);
    assert_eq!(body_string(response), "");
}

#[test]
fn an_interrupted_body_is_dropped_where_it_is_inspected() {
    let mut response = json_response(
        StatusCode::BAD_GATEWAY,
        "application/json",
        String::new(),
    );
    response.body = Body::Interrupted;
    response
        .headers
        .insert("x-worker", HeaderValue::from_static("w1"));
    let response = rewrite_context_overflow("/v1/messages", response);
    assert_eq!(response.status, 502);
    assert_eq!(response.headers["x-worker"], "w1");
    assert_eq!(response.headers["content-type"], "application/json");
    assert_eq!(body_string(response), "");

    let mut response = json_response(
        StatusCode::BAD_GATEWAY,
        "application/json",
        String::new(),
    );
    response.body = Body::Interrupted;
    let response = rewrite_context_overflow("/generate", response);
    assert!(matches!(response.body, Body::Interrupted));
}

#[test]
fn only_the_whole_server_error_class_is_rewritten() {
    for (status, expected) in [
        (100u16, 100u16),
        (200, 200),
        (404, 404),
        (499, 499),
        (500, 400),
        (503, 400),
        (599, 400),
        (600, 600),
        (999, 999),
    ] {
        let mut response = json_response(
            StatusCode::OK,
            "application/json",
            vllm_context_overflow_body(),
        );
        response.status = status;
        let response = rewrite_context_overflow("/v1/messages", response);
        assert_eq!(response.status, expected);
    }
}

#[test]
fn a_rewritten_reply_only_says_that_it_is_json() {
    let mut response = json_response(
        StatusCode::INTERNAL_SERVER_ERROR,
        "application/json",
        vllm_context_overflow_body(),
    );
    response
        .headers
        .insert("x-worker", HeaderValue::from_static("w1"));
    let response = rewrite_context_overflow("/v1/messages", response);
    assert_eq!(response.headers.len(), 1);
    assert_eq!(response.headers["content-type"], "application/json");
}

#[test]
fn a_rewritten_reply_is_not_rewritten_again() {
    let response = json_response(
        StatusCode::INTERNAL_SERVER_ERROR,
        "application/json",
        vllm_context_overflow_body(),
    );
    let once = rewrite_context_overflow("/v1/messages", response);
    let (status, headers, bytes) = match once.body {
        Body::Complete(bytes) => (once.status, once.headers, bytes),
        Body::Interrupted => panic!("interrupted body"),
    };
    let twice = rewrite_context_overflow(
        "/v1/messages",
        Response {
            status,
            headers: headers.clone(),
            body: Body::Complete(bytes.clone()),
        },
    );
    assert_eq!(twice.status, status);
    assert_eq!(twice.headers, headers);
    assert_eq!(body_string(twice).into_bytes(), bytes);
}

#[test]
fn a_reply_without_its_body_is_not_rewritten_again() {
    let response = json_response(
        StatusCode::BAD_GATEWAY,
        "application/json",
        "x".repeat(MAX_INSPECTED_BODY_BYTES + 1),
    );
    let once = rewrite_context_overflow("/v1/messages", response);
    let twice = rewrite_context_overflow("/v1/messages", once);
    assert_eq!(twice.status, 502);
    assert_eq!(body_string(twice), "");
}

#[test]
fn raw_text_is_trimmed_and_repaired() {
    let mut body = b" \n\xc2\xa0".to_vec();
    body.extend_from_slice(b"bad \xff byte cannot be greater than max_model_len\t\r\n");
    let mut response = json_response(
        StatusCode::INTERNAL_SERVER_ERROR,
        "application/json",
        String::new(),
    );
    response.body = Body::Complete(body);
    let response = rewrite_context_overflow("/v1/messages", response);
    assert_eq!(response.status, 400);
    assert_eq!(
        body_json(response)["error"]["message"],
        "bad \u{fffd} byte cannot be greater than max_model_len"
    );
}

#[test]
fn json_without_a_message_is_reported_as_it_stands() {
    let body = r#" {"detail":"exceeds model's maximum context length"} "#.to_string();
    let response = json_response(
        StatusCode::INTERNAL_SERVER_ERROR,
        "application/json",
        body.clone(),
    );
    let response = rewrite_context_overflow("/v1/messages", response);
    assert_eq!(body_json(response)["error"]["message"], body.trim());
}

#[test]
fn the_marker_may_stand_outside_the_message() {
    let body = r#"{"error":{"message":"short"},"hint":"cannot be greater than max_model_len"}"#;
    let response = json_response(
        StatusCode::INTERNAL_SERVER_ERROR,
        "application/json",
        body.to_string(),
    );
    let response = rewrite_context_overflow("/v1/messages", response);
    assert_eq!(
        body_string(response),
        r#"{"type":"error","error":{"type":"invalid_request_error","message":"short"}}"#
    );
}
