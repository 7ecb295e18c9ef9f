//! Status-code mapping for the Anthropic Messages endpoint (`/v1/messages`).
//!
//! vLLM workers expose a native `/v1/messages` endpoint, and the router
//! forwards such requests to them through the transparent proxy. When the
//! prompt plus the requested output tokens exceed the model context window, the
//! worker answers a client mistake with HTTP 500 `internal_error`:
//!
//! ```json
//! {"type": "error", "error": {"type": "internal_error", "message": "This model's maximum context length is ..."}}
//! ```
//!
//! Clients then take it for a server fault, pollute 5xx alerting, and retry
//! requests that can never succeed.
//!
//! [`rewrite_context_overflow`] repairs exactly this case on the router side: a
//! 5xx from `/v1/messages` whose JSON body reports a context-length violation
//! is answered as HTTP 400 `invalid_request_error` with the original message
//! preserved. Every other response passes through unchanged.
//!
//! A router that streams bodies takes the same decision in two steps:
//! [`needs_inspection`] on the head of the response, then [`inspect_body`] on
//! the body, read up to [`MAX_INSPECTED_BODY_BYTES`].

use crate::headers::{self, content_type, json_headers};
use crate::json::{self, member, read_document, Json};
use crate::protocols::envelope::{self, error_envelope};
use crate::protocols::laws;
use crate::text::{
    self, contains_text, decode_lossy, equals_ignoring_ascii_case, same_text, text_before,
    trim_text,
};
use axum::http::HeaderMap;
use serde_json::Value;
use vstd::prelude::*;
use vstd::utf8::*;

verus! {

/// Upstream error bodies larger than this are not inspected; they are passed
/// through with their original status. Real validation errors are a few
/// hundred bytes, so the cap never engages in practice.
pub const MAX_INSPECTED_BODY_BYTES: usize = 64 * 1024;

/// The body of a response.
pub enum Body {
    /// All of the body.
    Complete(Vec<u8>),
    /// A body whose transfer fails before its end.
    Interrupted,
}

/// A response on its way from a worker to a client.
pub struct Response {
    /// The HTTP status code.
    pub status: u16,
    /// The header fields.
    pub headers: HeaderMap,
    /// The body.
    pub body: Body,
}

/// What a response says: its status, the values of its header fields, and its
/// body, `None` for a body that fails before its end.
pub struct ResponseView {
    pub status: u16,
    pub fields: Map<Seq<char>, Seq<Seq<u8>>>,
    pub body: Option<Seq<u8>>,
}

impl View for Body {
    type V = Option<Seq<u8>>;

    open spec fn view(&self) -> Option<Seq<u8>> {
        match self {
            Body::Complete(bytes) => Some(bytes@),
            Body::Interrupted => None,
        }
    }
}

impl View for Response {
    type V = ResponseView;

    open spec fn view(&self) -> ResponseView {
        ResponseView {
            status: self.status,
            fields: headers::header_values(self.headers),
            body: self.body@,
        }
    }
}

/// What the body of a response on the Messages endpoint calls for.
pub enum Verdict {
    /// The response is handed on as it came.
    Keep,
    /// The body could not be read: the response is handed on without it.
    DropBody,
    /// The body reports a context-length violation: this is answered instead.
    Answer(Response),
}

/// Whether a status code is in the server-error class.
pub open spec fn is_server_error(status: u16) -> bool {
    500 <= status < 600
}

/// Whether the text of a `Content-Type` field names JSON: the part before any
/// parameters, without the white space around it, in any case.
pub open spec fn names_json(content_type: Seq<char>) -> bool {
    text::same_ignoring_ascii_case(
        text::trimmed(text::before_first(content_type, ';')),
        "application/json"@,
    )
}

/// Whether header fields announce a JSON body.
pub open spec fn announces_json(fields: Map<Seq<char>, Seq<Seq<u8>>>) -> bool {
    match headers::content_type_text(fields) {
        Some(text) => names_json(text),
        None => false,
    }
}

/// Whether the head of a response to a request for `path` calls for a look at
/// its body.
pub open spec fn is_inspected(
    path: Seq<char>,
    status: u16,
    fields: Map<Seq<char>, Seq<Seq<u8>>>,
) -> bool {
    &&& path == "/v1/messages"@
    &&& is_server_error(status)
    &&& announces_json(fields)
}

/// The body of a response, where it arrives whole and within the cap.
pub open spec fn inspectable(body: Option<Seq<u8>>) -> Option<Seq<u8>> {
    match body {
        Some(bytes) if bytes.len() <= MAX_INSPECTED_BODY_BYTES => Some(bytes),
        _ => None,
    }
}

/// Whether error text reports a client-side context-length violation. The match
/// is deliberately narrow so that unrelated server failures never qualify.
pub open spec fn reports_overflow(text: Seq<char>) -> bool {
    ||| text::occurs_in(text, "This model's maximum context length is"@)
    ||| text::occurs_in(text, "cannot be greater than max_model_len"@)
    ||| text::occurs_in(text, "exceeds model's maximum context length"@)
}

/// The value that a JSON value holds under a member name.
pub open spec fn json_member(value: Json, name: Seq<char>) -> Option<Json> {
    match value {
        Json::Object(members) if members.contains_key(name) => Some(members[name]),
        _ => None,
    }
}

/// The human-readable message in an error body: the text at `error.message`.
pub open spec fn message_in(document: Json) -> Option<Seq<char>> {
    match json_member(document, "error"@) {
        Some(error) => match json_member(error, "message"@) {
            Some(Json::Text(message)) => Some(message),
            _ => None,
        },
        None => None,
    }
}

/// The message that a JSON error body carries; `None` where the bytes are not
/// JSON or carry none.
pub open spec fn carried_message(bytes: Seq<u8>) -> Option<Seq<char>> {
    match json::json_document(bytes) {
        Some(document) => message_in(document),
        None => None,
    }
}

/// The message to report: the one that the body carries, else its raw text
/// without the white space around it.
pub open spec fn message_to_report(text: Seq<char>, carried: Option<Seq<char>>) -> Seq<char> {
    match carried {
        Some(message) => message,
        None => text::trimmed(text),
    }
}

/// The reply that reports `message` as a client mistake.
pub open spec fn invalid_request(message: Seq<char>) -> ResponseView {
    ResponseView {
        status: 400,
        fields: headers::json_fields(),
        body: Some(envelope::envelope_bytes(message)),
    }
}

/// Whether a response to a request for `path` is answered anew: it is
/// inspected, and its body reports a context-length violation.
pub open spec fn is_rewritten(path: Seq<char>, response: ResponseView) -> bool {
    &&& is_inspected(path, response.status, response.fields)
    &&& inspectable(response.body) matches Some(bytes)
    &&& reports_overflow(text::lossy_text(bytes))
}

/// Whether a response to a request for `path` loses its body: it is inspected,
/// and its body cannot be read within the cap.
pub open spec fn loses_body(path: Seq<char>, response: ResponseView) -> bool {
    &&& is_inspected(path, response.status, response.fields)
    &&& inspectable(response.body) is None
}

/// The message that a body in need of rewriting reports.
pub open spec fn reported_message(bytes: Seq<u8>) -> Seq<char> {
    message_to_report(text::lossy_text(bytes), carried_message(bytes))
}

/// What the client receives for a response to a request for `path`.
pub open spec fn rewritten(path: Seq<char>, response: ResponseView) -> ResponseView {
    if is_rewritten(path, response) {
        invalid_request(reported_message(response.body->0))
    } else if loses_body(path, response) {
        ResponseView { body: Some(Seq::empty()), ..response }
    } else {
        response
    }
}

/// Whether header fields announce a JSON body. Error replies that stream SSE
/// are never inspected, so a stalled upstream cannot hold the rewrite open.
pub fn is_json_response(headers: &HeaderMap) -> (json: bool)
    ensures
        json == announces_json(headers::header_values(*headers)),
{
    match content_type(headers) {
        Some(value) => {
            let mime = text_before(value, ';');
            equals_ignoring_ascii_case(trim_text(mime), "application/json")
        },
        None => false,
    }
}

/// Whether error text reports a client-side context-length violation.
pub fn is_context_overflow_message(text: &str) -> (overflow: bool)
    ensures
        overflow == reports_overflow(text@),
        overflow <==> exists|at: int|
            #![trigger text@.skip(at)]
            0 <= at <= text@.len() && {
                ||| "This model's maximum context length is"@.is_prefix_of(text@.skip(at))
                ||| "cannot be greater than max_model_len"@.is_prefix_of(text@.skip(at))
                ||| "exceeds model's maximum context length"@.is_prefix_of(text@.skip(at))
            },
{
    proof {
        laws::law_overflow_is_one_of_three_fragments(text@);
    }
    contains_text(text, "This model's maximum context length is")
        || contains_text(text, "cannot be greater than max_model_len")
        || contains_text(text, "exceeds model's maximum context length")
}

/// The message in a worker error that is already read as JSON. Both the
/// Anthropic envelope (`{"type":"error","error":{...}}`) and the OpenAI
/// envelope (`{"error":{...}}`) nest the message at `error.message`.
pub fn error_message(document: &Value) -> (message: Option<String>)
    ensures
        message is Some <==> message_in(json::json_content(*document)) is Some,
        message matches Some(m) ==> message_in(json::json_content(*document)) == Some(m@),
{
    let error = match member(document, "error") {
        Some(error) => error,
        None => return None,
    };
    let message = match member(error, "message") {
        Some(message) => message,
        None => return None,
    };
    match message.as_str() {
        Some(text) => Some(text.to_owned()),
        None => None,
    }
}

/// Pull the human-readable message out of a worker error body.
pub fn extract_error_message(bytes: &[u8]) -> (message: Option<String>)
    ensures
        message is Some <==> carried_message(bytes@) is Some,
        message matches Some(m) ==> carried_message(bytes@) == Some(m@),
        json::json_document(bytes@) is None ==> message is None,
        json::json_document(bytes@) matches Some(document) ==> (message is Some <==> (
        document matches Json::Object(members) && members.contains_key("error"@) && (
        members["error"@] matches Json::Object(error) && error.contains_key("message"@)
            && error["message"@] is Text))),
        message matches Some(m) ==> json::json_document(
            bytes@,
        )->0->Object_0["error"@]->Object_0["message"@] == Json::Text(m@),
{
    match read_document(bytes) {
        Some(document) => error_message(&document),
        None => None,
    }
}

/// The message to report for an error body with this text, of which `carried`
/// is the message found in it.
pub fn choose_message(text: &str, carried: Option<String>) -> (message: String)
    ensures
        message@ == message_to_report(
            text@,
            match carried {
                Some(m) => Some(m@),
                None => None,
            },
        ),
{
    match carried {
        Some(message) => message,
        None => trim_text(text).to_owned(),
    }
}

/// An Anthropic-style 400 `invalid_request_error` reply.
pub fn invalid_request_reply(message: &str) -> (reply: Response)
    ensures
        reply@ == invalid_request(message@),
        reply.status == 400,
        headers::header_values(reply.headers).dom() == set!["content-type"@],
        headers::header_values(reply.headers)["content-type"@] == seq![
            encode_utf8("application/json"@),
        ],
        reply.body is Complete,
        reply@.body->0 == encode_utf8(
            "{\"type\":\"error\",\"error\":{\"type\":\"invalid_request_error\",\"message\":"@
                + envelope::json_quoted(message@) + "}}"@,
        ),
        json::json_document(reply@.body->0) == Some(
            envelope::envelope(message@),
        ),
        carried_message(reply@.body->0) == Some(message@),
{
    let body = error_envelope(message);
    proof {
        reveal_strlit("type");
        reveal_strlit("error");
        reveal_strlit("message");
        assert("type"@.len() != "error"@.len());
        assert("type"@.len() != "message"@.len());
    }
    Response { status: 400, headers: json_headers(), body: Body::Complete(body) }
}

/// Whether the body of a response to a request for `path` has to be looked at:
/// only JSON server errors of the Messages endpoint are affected by the
/// worker-side mapping, and everything else passes through as it is.
pub fn needs_inspection(path: &str, status: u16, headers: &HeaderMap) -> (needed: bool)
    ensures
        needed == is_inspected(path@, status, headers::header_values(*headers)),
{
    same_text(path, "/v1/messages") && 500 <= status && status < 600 && is_json_response(headers)
}

/// What the body of an inspected response calls for. `read` is `None` for a
/// body that exceeds the cap or fails before its end: it cannot be recovered,
/// and the upstream status and headers are kept instead of guessing a class.
pub fn inspect_body(read: Option<&[u8]>) -> (verdict: Verdict)
    ensures
        verdict is DropBody <==> read is None,
        verdict is Answer <==> (read matches Some(bytes) && reports_overflow(
            text::lossy_text(bytes@),
        )),
        verdict matches Verdict::Answer(reply) ==> {
            let message = reported_message(read->0@);
            &&& reply@ == invalid_request(message)
            &&& carried_message(reply@.body->0) == Some(message)
        },
{
    let bytes = match read {
        Some(bytes) => bytes,
        None => return Verdict::DropBody,
    };
    let text = decode_lossy(bytes);
    if !is_context_overflow_message(text.as_str()) {
        return Verdict::Keep;
    }
    let message = choose_message(text.as_str(), extract_error_message(bytes));
    Verdict::Answer(invalid_request_reply(message.as_str()))
}

/// The body of a response, where it arrives whole and within the cap.
fn read_within_cap(body: &Body) -> (read: Option<&[u8]>)
    ensures
        read is Some <==> inspectable(body@) is Some,
        read matches Some(bytes) ==> inspectable(body@) == Some(bytes@),
{
    match body {
        Body::Complete(bytes) => if bytes.len() <= MAX_INSPECTED_BODY_BYTES {
            Some(bytes.as_slice())
        } else {
            None
        },
        Body::Interrupted => None,
    }
}

/// Rewrite worker-side context-overflow `internal_error` responses from
/// `/v1/messages` into Anthropic-style 400 `invalid_request_error` replies.
///
/// A reply that is written anew carries the message that the worker reported,
/// for whoever reads it as JSON. Everything else is handed on as the same
/// value, and a response that loses its body keeps its status and headers.
pub fn rewrite_context_overflow(path: &str, response: Response) -> (reply: Response)
    ensures
        reply@ == rewritten(path@, response@),
        !is_rewritten(path@, response@) && !loses_body(path@, response@) ==> reply == response,
        loses_body(path@, response@) ==> reply.headers == response.headers,
        is_rewritten(path@, response@) ==> {
            &&& reply.status == 400
            &&& headers::header_values(reply.headers).dom() == set!["content-type"@]
            &&& headers::header_values(reply.headers)["content-type"@] == seq![
                encode_utf8("application/json"@),
            ]
        },
        is_rewritten(path@, response@) ==> carried_message(reply@.body->0) == Some(
            reported_message(response@.body->0),
        ),
{
    if !needs_inspection(path, response.status, &response.headers) {
        return response;
    }
    let verdict = inspect_body(read_within_cap(&response.body));
    match verdict {
        Verdict::Keep => response,
        Verdict::DropBody => Response {
            status: response.status,
            headers: response.headers,
            body: Body::Complete(Vec::new()),
        },
        Verdict::Answer(reply) => reply,
    }
}

} // verus!
