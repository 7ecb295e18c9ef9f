//! What holds of the error mapping for every path and every response.

use crate::headers;
use crate::json::{self, Json};
use crate::protocols::anthropic_error::{
    self, Body, Response, ResponseView, MAX_INSPECTED_BODY_BYTES,
};
use crate::protocols::envelope;
use crate::text;
use vstd::prelude::*;
use vstd::utf8::*;

verus! {

/// Only the Messages endpoint is affected: a response to a request for any
/// other path passes through unchanged.
pub proof fn law_other_paths_pass_through(path: Seq<char>, response: ResponseView)
    requires
        path != "/v1/messages"@,
    ensures
        anthropic_error::rewritten(path, response) == response,
{
}

/// Only server errors are affected: upstream 4xx and successful replies pass
/// through unchanged, whatever they quote.
pub proof fn law_other_statuses_pass_through(path: Seq<char>, response: ResponseView)
    requires
        response.status < 500 || response.status >= 600,
    ensures
        anthropic_error::rewritten(path, response) == response,
{
}

/// Only JSON is inspected: a response whose header fields announce anything
/// else, an event stream for one, passes through unchanged.
pub proof fn law_other_media_types_pass_through(path: Seq<char>, response: ResponseView)
    requires
        !anthropic_error::announces_json(response.fields),
    ensures
        anthropic_error::rewritten(path, response) == response,
{
}

/// Genuine server failures pass through unchanged: without one of the marker
/// fragments in the text of its body, no response is touched.
pub proof fn law_other_errors_pass_through(
    path: Seq<char>,
    response: ResponseView,
    bytes: Seq<u8>,
)
    requires
        response.body == Some(bytes),
        bytes.len() <= MAX_INSPECTED_BODY_BYTES,
        !anthropic_error::reports_overflow(text::lossy_text(bytes)),
    ensures
        anthropic_error::rewritten(path, response) == response,
{
}

/// A context-length violation that a JSON server error of the Messages
/// endpoint reports is answered as an `invalid_request_error` with status 400
/// and a JSON body, and the message is the one that the worker's body carries.
pub proof fn law_overflow_is_answered_as_invalid_request(
    response: ResponseView,
    bytes: Seq<u8>,
    message: Seq<char>,
)
    requires
        500 <= response.status < 600,
        anthropic_error::announces_json(response.fields),
        response.body == Some(bytes),
        bytes.len() <= MAX_INSPECTED_BODY_BYTES,
        anthropic_error::reports_overflow(text::lossy_text(bytes)),
        anthropic_error::carried_message(bytes) == Some(message),
    ensures
        anthropic_error::rewritten("/v1/messages"@, response)
            == anthropic_error::invalid_request(message),
{
}

/// A violation reported in a body that carries no message is answered with the
/// body's text, without the white space around it.
pub proof fn law_plain_overflow_is_answered_with_its_text(response: ResponseView, bytes: Seq<u8>)
    requires
        500 <= response.status < 600,
        anthropic_error::announces_json(response.fields),
        response.body == Some(bytes),
        bytes.len() <= MAX_INSPECTED_BODY_BYTES,
        anthropic_error::reports_overflow(text::lossy_text(bytes)),
        anthropic_error::carried_message(bytes) is None,
    ensures
        anthropic_error::rewritten("/v1/messages"@, response)
            == anthropic_error::invalid_request(
            text::trimmed(text::lossy_text(bytes)),
        ),
{
}

/// A body that exceeds the cap or fails before its end never changes the class
/// of a response: status and header fields are those of the worker.
pub proof fn law_unreadable_body_keeps_status_and_headers(path: Seq<char>, response: ResponseView)
    requires
        anthropic_error::inspectable(response.body) is None,
    ensures
        ({
            let reply = anthropic_error::rewritten(path, response);
            &&& reply.status == response.status
            &&& reply.fields == response.fields
            &&& reply.body == response.body || reply.body == Some(Seq::<u8>::empty())
        }),
{
}

/// The status stays as it was or becomes 400, and it becomes 400 only on a
/// server error of the Messages endpoint.
pub proof fn law_status_is_kept_or_becomes_400(path: Seq<char>, response: ResponseView)
    ensures
        ({
            let reply = anthropic_error::rewritten(path, response);
            ||| reply.status == response.status
            ||| reply.status == 400 && 500 <= response.status < 600 && path == "/v1/messages"@
        }),
{
}

proof fn lemma_empty_body_reports_nothing()
    ensures
        !anthropic_error::reports_overflow(
            text::lossy_text(Seq::<u8>::empty()),
        ),
{
    reveal_strlit("This model's maximum context length is");
    reveal_strlit("cannot be greater than max_model_len");
    reveal_strlit("exceeds model's maximum context length");
    assert(text::lossy_text(Seq::<u8>::empty()).len() == 0);
}

/// A response that has been through the mapping passes through unchanged when
/// it goes through again, on whatever path: no reply is wrapped twice.
pub proof fn law_mapping_twice_is_mapping_once(path: Seq<char>, response: ResponseView)
    ensures
        ({
            let reply = anthropic_error::rewritten(path, response);
            anthropic_error::rewritten(path, reply) == reply
        }),
{
    lemma_empty_body_reports_nothing();
}

/// Text that reports a violation reports it with any text around it.
pub proof fn law_marker_is_found_in_any_surroundings(
    before: Seq<char>,
    text: Seq<char>,
    after: Seq<char>,
)
    requires
        anthropic_error::reports_overflow(text),
    ensures
        anthropic_error::reports_overflow(before + text + after),
{
    lemma_occurs_in_any_surroundings(before, text, after, "This model's maximum context length is"@);
    lemma_occurs_in_any_surroundings(before, text, after, "cannot be greater than max_model_len"@);
    lemma_occurs_in_any_surroundings(before, text, after, "exceeds model's maximum context length"@);
}

proof fn lemma_occurs_in_any_surroundings(
    before: Seq<char>,
    text: Seq<char>,
    after: Seq<char>,
    pattern: Seq<char>,
)
    ensures
        text::occurs_in(text, pattern) ==> text::occurs_in(
            before + text + after,
            pattern,
        ),
{
    if text::occurs_in(text, pattern) {
        let at = choose|at: int| text::occurs_at(text, pattern, at);
        let whole = before + text + after;
        let from = before.len() + at;
        assert(whole.subrange(from, from + pattern.len()) == text.subrange(at, at + pattern.len()));
        assert(text::occurs_at(whole, pattern, from));
    }
}

/// The message is found at `error.message` whatever else the document holds,
/// so the Anthropic envelope and the OpenAI envelope are read alike.
pub proof fn law_message_is_found_in_either_envelope(
    document: Map<Seq<char>, Json>,
    error: Map<Seq<char>, Json>,
    message: Seq<char>,
)
    ensures
        anthropic_error::message_in(
            Json::Object(
                document.insert("error"@, Json::Object(error.insert("message"@, Json::Text(message)))),
            ),
        ) == Some(message),
{
}

/// The parameters of a media type, a charset for one, do not matter.
pub proof fn law_media_type_parameters_do_not_matter(media_type: Seq<char>, parameters: Seq<char>)
    ensures
        anthropic_error::names_json(media_type + seq![';'] + parameters)
            == anthropic_error::names_json(media_type),
{
    lemma_before_first_ignores_the_rest(media_type, ';', parameters);
}

proof fn lemma_before_first_ignores_the_rest(head: Seq<char>, mark: char, rest: Seq<char>)
    ensures
        text::before_first(head + seq![mark] + rest, mark) == text::before_first(
            head,
            mark,
        ),
    decreases head.len(),
{
    let whole = head + seq![mark] + rest;
    if head.len() > 0 {
        assert(whole.drop_first() == head.drop_first() + seq![mark] + rest);
        lemma_before_first_ignores_the_rest(head.drop_first(), mark, rest);
    }
}

/// The case of ASCII letters in a media type does not matter.
pub proof fn law_media_type_case_does_not_matter(a: Seq<char>, b: Seq<char>)
    requires
        text::same_ignoring_ascii_case(a, b),
    ensures
        anthropic_error::names_json(a)
            == anthropic_error::names_json(b),
{
    lemma_before_first_ignores_case(a, b);
    let x = text::before_first(a, ';');
    let y = text::before_first(b, ';');
    lemma_without_leading_space_ignores_case(x, y);
    lemma_without_trailing_space_ignores_case(
        text::without_leading_space(x),
        text::without_leading_space(y),
    );
    let s = text::trimmed(x);
    let t = text::trimmed(y);
    let json = "application/json"@;
    if text::same_ignoring_ascii_case(s, json) {
        assert forall|i: int| 0 <= i < t.len() implies text::folded(#[trigger] t[i])
            == text::folded(json[i]) by {
            assert(text::folded(s[i]) == text::folded(t[i]));
        }
    }
    if text::same_ignoring_ascii_case(t, json) {
        assert forall|i: int| 0 <= i < s.len() implies text::folded(#[trigger] s[i])
            == text::folded(json[i]) by {
            assert(text::folded(t[i]) == text::folded(json[i]));
        }
    }
}

proof fn lemma_folding_keeps_marks(c: char, d: char)
    requires
        text::folded(c) == text::folded(d),
    ensures
        c == ';' <==> d == ';',
        text::is_white_space(c) == text::is_white_space(d),
{
    assert(c as u32 == d as u32 || text::folded(c) >= 97 && text::folded(c) <= 122);
}

proof fn lemma_before_first_ignores_case(a: Seq<char>, b: Seq<char>)
    requires
        text::same_ignoring_ascii_case(a, b),
    ensures
        text::same_ignoring_ascii_case(
            text::before_first(a, ';'),
            text::before_first(b, ';'),
        ),
    decreases a.len(),
{
    if a.len() > 0 {
        assert(text::folded(a[0]) == text::folded(b[0]));
        lemma_folding_keeps_marks(a[0], b[0]);
        lemma_same_on_the_rest(a, b);
        lemma_before_first_ignores_case(a.drop_first(), b.drop_first());
        let x = text::before_first(a, ';');
        let y = text::before_first(b, ';');
        let x1 = text::before_first(a.drop_first(), ';');
        let y1 = text::before_first(b.drop_first(), ';');
        assert forall|i: int| 0 <= i < x.len() implies text::folded(#[trigger] x[i])
            == text::folded(y[i]) by {
            if i > 0 {
                assert(x[i] == x1[i - 1] && y[i] == y1[i - 1]);
            }
        }
    }
}

proof fn lemma_same_on_the_rest(a: Seq<char>, b: Seq<char>)
    requires
        text::same_ignoring_ascii_case(a, b),
        a.len() > 0,
    ensures
        text::same_ignoring_ascii_case(a.drop_first(), b.drop_first()),
        text::same_ignoring_ascii_case(a.drop_last(), b.drop_last()),
{
    assert forall|i: int| 0 <= i < a.len() - 1 implies text::folded(
        #[trigger] a.drop_first()[i],
    ) == text::folded(b.drop_first()[i]) by {
        assert(text::folded(a[i + 1]) == text::folded(b[i + 1]));
    }
    assert forall|i: int| 0 <= i < a.len() - 1 implies text::folded(
        #[trigger] a.drop_last()[i],
    ) == text::folded(b.drop_last()[i]) by {
        assert(text::folded(a[i]) == text::folded(b[i]));
    }
}

proof fn lemma_without_leading_space_ignores_case(a: Seq<char>, b: Seq<char>)
    requires
        text::same_ignoring_ascii_case(a, b),
    ensures
        text::same_ignoring_ascii_case(
            text::without_leading_space(a),
            text::without_leading_space(b),
        ),
    decreases a.len(),
{
    if a.len() > 0 {
        assert(text::folded(a[0]) == text::folded(b[0]));
        lemma_folding_keeps_marks(a[0], b[0]);
        lemma_same_on_the_rest(a, b);
        lemma_without_leading_space_ignores_case(a.drop_first(), b.drop_first());
    }
}

proof fn lemma_without_trailing_space_ignores_case(a: Seq<char>, b: Seq<char>)
    requires
        text::same_ignoring_ascii_case(a, b),
    ensures
        text::same_ignoring_ascii_case(
            text::without_trailing_space(a),
            text::without_trailing_space(b),
        ),
    decreases a.len(),
{
    if a.len() > 0 {
        assert(text::folded(a[a.len() - 1]) == text::folded(b[b.len() - 1]));
        lemma_folding_keeps_marks(a.last(), b.last());
        lemma_same_on_the_rest(a, b);
        lemma_without_trailing_space_ignores_case(a.drop_last(), b.drop_last());
    }
}

/// A text reports a violation exactly where one of the three fragments stands
/// somewhere in it: nothing else qualifies, and each of them does anywhere.
pub proof fn law_overflow_is_one_of_three_fragments(text: Seq<char>)
    ensures
        anthropic_error::reports_overflow(text) <==> exists|at: int|
            #![trigger text.skip(at)]
            0 <= at <= text.len() && {
                ||| "This model's maximum context length is"@.is_prefix_of(text.skip(at))
                ||| "cannot be greater than max_model_len"@.is_prefix_of(text.skip(at))
                ||| "exceeds model's maximum context length"@.is_prefix_of(text.skip(at))
            },
{
    text::law_occurrence_is_at_some_position(text, "This model's maximum context length is"@);
    text::law_occurrence_is_at_some_position(text, "cannot be greater than max_model_len"@);
    text::law_occurrence_is_at_some_position(text, "exceeds model's maximum context length"@);
}

/// A text in which none of the three fragments stands at any position reports
/// no violation, so a crashed worker is never blamed on the client.
pub proof fn law_text_without_a_fragment_is_no_overflow(text: Seq<char>)
    requires
        forall|at: int|
            #![trigger text.skip(at)]
            0 <= at <= text.len() ==> {
                &&& !"This model's maximum context length is"@.is_prefix_of(text.skip(at))
                &&& !"cannot be greater than max_model_len"@.is_prefix_of(text.skip(at))
                &&& !"exceeds model's maximum context length"@.is_prefix_of(text.skip(at))
            },
    ensures
        !anthropic_error::reports_overflow(text),
{
    law_overflow_is_one_of_three_fragments(text);
}

/// A response whose body, read in full, holds none of the three fragments at
/// any position passes through unchanged, on every path and with every status.
pub proof fn law_body_without_a_fragment_passes_through(
    path: Seq<char>,
    response: ResponseView,
    bytes: Seq<u8>,
    text: Seq<char>,
)
    requires
        response.body == Some(bytes),
        bytes.len() <= 65536,
        valid_utf8(bytes) ==> text == decode_utf8(bytes),
        !valid_utf8(bytes) ==> text == text::repaired_text(bytes),
        forall|at: int|
            #![trigger text.skip(at)]
            0 <= at <= text.len() ==> {
                &&& !"This model's maximum context length is"@.is_prefix_of(text.skip(at))
                &&& !"cannot be greater than max_model_len"@.is_prefix_of(text.skip(at))
                &&& !"exceeds model's maximum context length"@.is_prefix_of(text.skip(at))
            },
    ensures
        anthropic_error::rewritten(path, response) == response,
{
    law_text_without_a_fragment_is_no_overflow(text);
}

/// Wherever in the full text of its body a fragment stands, a JSON server
/// error of the Messages endpoint is answered with status 400, and the reply
/// has one header field, with one value, that says that it is JSON.
pub proof fn law_fragment_anywhere_is_answered_400(
    response: ResponseView,
    bytes: Seq<u8>,
    text: Seq<char>,
    at: int,
    fragment: Seq<char>,
)
    requires
        500 <= response.status <= 599,
        anthropic_error::announces_json(response.fields),
        response.body == Some(bytes),
        bytes.len() <= 65536,
        valid_utf8(bytes) ==> text == decode_utf8(bytes),
        !valid_utf8(bytes) ==> text == text::repaired_text(bytes),
        fragment == "This model's maximum context length is"@ || fragment == "cannot be greater than max_model_len"@ || fragment == "exceeds model's maximum context length"@,
        0 <= at <= text.len(),
        fragment.is_prefix_of(text.skip(at)),
    ensures
        ({
            let reply = anthropic_error::rewritten("/v1/messages"@, response);
            &&& reply.status == 400
            &&& reply.fields.dom() == set!["content-type"@]
            &&& reply.fields["content-type"@] == seq![encode_utf8("application/json"@)]
            &&& reply.body is Some
        }),
{
    law_overflow_is_one_of_three_fragments(text);
    headers::law_json_fields_hold_one_value();
}

/// Where the body of such an error is JSON with a text at `error.message`,
/// whatever else it holds on either level, the reply reports that text.
pub proof fn law_carried_message_is_reported(
    response: ResponseView,
    bytes: Seq<u8>,
    text: Seq<char>,
    at: int,
    fragment: Seq<char>,
    document: Map<Seq<char>, Json>,
    error: Map<Seq<char>, Json>,
    message: Seq<char>,
)
    requires
        500 <= response.status <= 599,
        anthropic_error::announces_json(response.fields),
        response.body == Some(bytes),
        bytes.len() <= 65536,
        valid_utf8(bytes) ==> text == decode_utf8(bytes),
        !valid_utf8(bytes) ==> text == text::repaired_text(bytes),
        fragment == "This model's maximum context length is"@ || fragment == "cannot be greater than max_model_len"@ || fragment == "exceeds model's maximum context length"@,
        0 <= at <= text.len(),
        fragment.is_prefix_of(text.skip(at)),
        json::json_document(bytes) == Some(Json::Object(document)),
        document.contains_key("error"@),
        document["error"@] == Json::Object(error),
        error.contains_key("message"@),
        error["message"@] == Json::Text(message),
    ensures
        anthropic_error::rewritten("/v1/messages"@, response).body == Some(
            encode_utf8(
                "{\"type\":\"error\",\"error\":{\"type\":\"invalid_request_error\",\"message\":"@
                    + envelope::json_quoted(message) + "}}"@,
            ),
        ),
{
    law_overflow_is_one_of_three_fragments(text);
}

/// Where the body of such an error carries no message, the reply reports the
/// full text of the body, whatever white space is put around it.
pub proof fn law_raw_text_is_reported_without_padding(
    response: ResponseView,
    bytes: Seq<u8>,
    before: Seq<char>,
    message: Seq<char>,
    after: Seq<char>,
    at: int,
    fragment: Seq<char>,
)
    requires
        500 <= response.status <= 599,
        anthropic_error::announces_json(response.fields),
        response.body == Some(bytes),
        bytes.len() <= 65536,
        valid_utf8(bytes) ==> before + message + after == decode_utf8(bytes),
        !valid_utf8(bytes) ==> before + message + after == text::repaired_text(bytes),
        fragment == "This model's maximum context length is"@ || fragment == "cannot be greater than max_model_len"@ || fragment == "exceeds model's maximum context length"@,
        0 <= at <= (before + message + after).len(),
        fragment.is_prefix_of((before + message + after).skip(at)),
        anthropic_error::carried_message(bytes) is None,
        forall|i: int| 0 <= i < before.len() ==> text::is_white_space(#[trigger] before[i]),
        forall|i: int| 0 <= i < after.len() ==> text::is_white_space(#[trigger] after[i]),
        message.len() > 0 ==> !text::is_white_space(message[0]) && !text::is_white_space(
            message[message.len() - 1],
        ),
    ensures
        anthropic_error::rewritten("/v1/messages"@, response).body == Some(
            encode_utf8(
                "{\"type\":\"error\",\"error\":{\"type\":\"invalid_request_error\",\"message\":"@
                    + envelope::json_quoted(message) + "}}"@,
            ),
        ),
{
    law_overflow_is_one_of_three_fragments(before + message + after);
    text::law_trimming_undoes_padding(before, message, after);
}

/// A body of more than 64 KiB, or one that fails before its end, costs a JSON
/// server error of the Messages endpoint its body and nothing else.
pub proof fn law_unreadable_body_is_dropped(response: ResponseView)
    requires
        500 <= response.status <= 599,
        anthropic_error::announces_json(response.fields),
        response.body matches Some(bytes) ==> bytes.len() > 65536,
    ensures
        ({
            let reply = anthropic_error::rewritten("/v1/messages"@, response);
            &&& reply.status == response.status
            &&& reply.fields == response.fields
            &&& reply.body == Some(Seq::<u8>::empty())
        }),
{
}

/// The message of a JSON document is the text at `error.message`: it is found
/// exactly in an object whose member `error` is an object whose member
/// `message` is that text, whatever other members there are.
pub proof fn law_message_is_the_text_at_error_message(document: Json, message: Seq<char>)
    ensures
        anthropic_error::message_in(document) == Some(message) <==> (document matches Json::Object(
            members,
        ) && members.contains_key("error"@) && (members["error"@] matches Json::Object(error)
            && error.contains_key("message"@) && error["message"@] == Json::Text(message))),
{
}

/// The message carried by bytes is the one at `error.message` of the document
/// that they spell out; bytes that spell out none carry no message.
pub proof fn law_carried_message_is_the_text_at_error_message(bytes: Seq<u8>, message: Seq<char>)
    ensures
        anthropic_error::carried_message(bytes) == Some(message) <==> (json::json_document(
            bytes,
        ) matches Some(document) && (document matches Json::Object(members)
            && members.contains_key("error"@) && (members["error"@] matches Json::Object(error)
            && error.contains_key("message"@) && error["message"@] == Json::Text(message)))),
{
}

/// The message to report is the carried one, else the text without padding.
pub proof fn law_carried_message_comes_first(
    before: Seq<char>,
    inner: Seq<char>,
    after: Seq<char>,
    carried: Seq<char>,
)
    requires
        forall|i: int| 0 <= i < before.len() ==> text::is_white_space(#[trigger] before[i]),
        forall|i: int| 0 <= i < after.len() ==> text::is_white_space(#[trigger] after[i]),
        inner.len() > 0 ==> !text::is_white_space(inner[0]) && !text::is_white_space(
            inner[inner.len() - 1],
        ),
    ensures
        anthropic_error::message_to_report(before + inner + after, Some(carried)) == carried,
        anthropic_error::message_to_report(before + inner + after, None) == inner,
{
    text::law_trimming_undoes_padding(before, inner, after);
}

/// What a body reports is the message that it carries, and where it carries
/// none its full text without padding.
pub proof fn law_reported_message_is_carried_or_the_full_text(
    bytes: Seq<u8>,
    before: Seq<char>,
    inner: Seq<char>,
    after: Seq<char>,
)
    requires
        valid_utf8(bytes) ==> before + inner + after == decode_utf8(bytes),
        !valid_utf8(bytes) ==> before + inner + after == text::repaired_text(bytes),
        forall|i: int| 0 <= i < before.len() ==> text::is_white_space(#[trigger] before[i]),
        forall|i: int| 0 <= i < after.len() ==> text::is_white_space(#[trigger] after[i]),
        inner.len() > 0 ==> !text::is_white_space(inner[0]) && !text::is_white_space(
            inner[inner.len() - 1],
        ),
    ensures
        anthropic_error::carried_message(bytes) matches Some(m)
            ==> anthropic_error::reported_message(bytes) == m,
        anthropic_error::carried_message(bytes) is None ==> anthropic_error::reported_message(bytes)
            == inner,
{
    text::law_trimming_undoes_padding(before, inner, after);
}

/// For every message the reply that reports it has status 400, one header
/// field with the one value `application/json`, and the framed message.
pub proof fn law_every_reply_is_a_json_400(message: Seq<char>)
    ensures
        ({
            let reply = anthropic_error::invalid_request(message);
            &&& reply.status == 400
            &&& reply.fields.dom() == set!["content-type"@]
            &&& reply.fields["content-type"@] == seq![encode_utf8("application/json"@)]
            &&& reply.body == Some(
                encode_utf8(
                    "{\"type\":\"error\",\"error\":{\"type\":\"invalid_request_error\",\"message\":"@
                        + envelope::json_quoted(message) + "}}"@,
                ),
            )
        }),
{
    headers::law_json_fields_hold_one_value();
}

/// Replies to different messages differ in their bodies alone.
pub proof fn law_replies_differ_in_their_bodies_alone(a: Seq<char>, b: Seq<char>)
    ensures
        anthropic_error::invalid_request(a).status == anthropic_error::invalid_request(b).status,
        anthropic_error::invalid_request(a).fields == anthropic_error::invalid_request(b).fields,
{
}

proof fn lemma_media_type_is_json(value: Seq<u8>, from: int, to: int, end: int)
    requires
        0 <= from <= to <= end <= value.len(),
        to - from == 16,
        forall|i: int|
            0 <= i < value.len() ==> 32 <= #[trigger] value[i] <= 126 || value[i] == 9,
        forall|i: int| 0 <= i < from ==> #[trigger] value[i] == 32 || value[i] == 9,
        forall|i: int| to <= i < end ==> #[trigger] value[i] == 32 || value[i] == 9,
        end < value.len() ==> value[end] == 59,
        forall|i: int|
            0 <= i < 16 ==> {
                ||| value[from + i] as int == #[trigger] "application/json"@[i] as int
                ||| 97 <= "application/json"@[i] as int <= 122 && value[from + i] as int + 32
                    == "application/json"@[i] as int
            },
    ensures
        anthropic_error::names_json(headers::ascii_text(value)),
{
    reveal_strlit("application/json");
    let json = "application/json"@;
    let all = headers::ascii_text(value);
    let head = all.take(end);
    let rest = all.skip(end);
    assert(head + rest == all);
    assert forall|i: int| 0 <= i < head.len() implies #[trigger] head[i] != ';' by {
        assert(head[i] as int == value[i] as int);
        if from <= i < to {
            let k = i - from;
            assert(value[from + k] as int == json[k] as int || value[from + k] as int + 32
                == json[k] as int);
        }
    }
    text::law_head_ends_at_the_first_mark(head, ';', rest);
    let before = all.take(from);
    let name = all.subrange(from, to);
    let after = all.subrange(to, end);
    assert(before + name + after == head);
    assert forall|i: int| 0 <= i < after.len() implies text::is_white_space(#[trigger] after[i]) by {
        assert(after[i] as int == value[to + i] as int);
    }
    assert(name[0] as int == value[from + 0] as int);
    assert(name[15] as int == value[from + 15] as int);
    assert(json[0] == 'a' && json[15] == 'n');
    text::law_trimming_undoes_padding(before, name, after);
    assert forall|i: int| #![trigger name[i]] 0 <= i < name.len() implies {
        ||| name[i] == json[i]
        ||| 97 <= name[i] as int <= 122 && name[i] as int == json[i] as int + 32
        ||| 97 <= json[i] as int <= 122 && json[i] as int == name[i] as int + 32
    } by {
        assert(name[i] as int == value[from + i] as int);
        assert(json[i] as int == "application/json"@[i] as int);
    }
    text::law_only_ascii_letters_have_case(name, json);
}

/// JSON is announced by a printable first `Content-Type` value that is
/// `application/json` in any case, with blanks and tabs around it, and then
/// nothing or a semicolon and anything at all.
pub proof fn law_json_is_announced_by_its_media_type(
    fields: Map<Seq<char>, Seq<Seq<u8>>>,
    before: Seq<u8>,
    name: Seq<u8>,
    after: Seq<u8>,
    parameters: Seq<u8>,
)
    requires
        fields.contains_key("content-type"@),
        fields["content-type"@][0] == before + name + after + parameters,
        forall|i: int| 0 <= i < before.len() ==> #[trigger] before[i] == 32 || before[i] == 9,
        forall|i: int| 0 <= i < after.len() ==> #[trigger] after[i] == 32 || after[i] == 9,
        forall|i: int|
            0 <= i < parameters.len() ==> 32 <= #[trigger] parameters[i] <= 126 || parameters[i]
                == 9,
        parameters.len() > 0 ==> parameters[0] == 59,
        name.len() == 16,
        forall|i: int|
            0 <= i < 16 ==> {
                ||| #[trigger] name[i] as int == "application/json"@[i] as int
                ||| 97 <= "application/json"@[i] as int <= 122 && name[i] as int + 32
                    == "application/json"@[i] as int
            },
    ensures
        anthropic_error::announces_json(fields),
{
    reveal_strlit("application/json");
    let value = before + name + after + parameters;
    let from = before.len() as int;
    let to = from + 16;
    let end = to + after.len();
    assert forall|i: int| 0 <= i < 16 implies {
        ||| value[from + i] as int == #[trigger] "application/json"@[i] as int
        ||| 97 <= "application/json"@[i] as int <= 122 && value[from + i] as int + 32
            == "application/json"@[i] as int
    } by {
        assert(value[from + i] == name[i]);
    }
    assert forall|i: int| 0 <= i < value.len() implies 32 <= #[trigger] value[i] <= 126 || value[i]
        == 9 by {
        if i < from {
            assert(value[i] == before[i]);
        } else if i < to {
            assert(value[i] == name[i - from]);
        } else if i < end {
            assert(value[i] == after[i - to]);
        } else {
            assert(value[i] == parameters[i - end]);
        }
    }
    assert forall|i: int| to <= i < end implies #[trigger] value[i] == 32 || value[i] == 9 by {
        assert(value[i] == after[i - to]);
    }
    assert forall|i: int| 0 <= i < from implies #[trigger] value[i] == 32 || value[i] == 9 by {
        assert(value[i] == before[i]);
    }
    lemma_media_type_is_json(value, from, to, end);
    headers::law_printable_content_type_is_read_byte_for_byte(fields, value);
    assert(headers::content_type_text(fields)->0 == headers::ascii_text(value));
}

/// Nothing else announces JSON: where JSON is announced, the first
/// `Content-Type` value is there, is printable, and has that form, of which
/// the result says where the parts end.
pub proof fn law_nothing_else_announces_json(fields: Map<Seq<char>, Seq<Seq<u8>>>) -> (cut: (
    int,
    int,
    int,
))
    requires
        anthropic_error::announces_json(fields),
    ensures
        fields.contains_key("content-type"@),
        ({
            let value = fields["content-type"@][0];
            let (from, to, end) = cut;
            &&& 0 <= from <= to <= end <= value.len()
            &&& to - from == 16
            &&& forall|i: int|
                0 <= i < value.len() ==> 32 <= #[trigger] value[i] <= 126 || value[i] == 9
            &&& forall|i: int| 0 <= i < from ==> #[trigger] value[i] == 32 || value[i] == 9
            &&& forall|i: int| to <= i < end ==> #[trigger] value[i] == 32 || value[i] == 9
            &&& end < value.len() ==> value[end] == 59
            &&& forall|i: int|
                0 <= i < 16 ==> {
                    ||| value[from + i] as int == #[trigger] "application/json"@[i] as int
                    ||| 97 <= "application/json"@[i] as int <= 122 && value[from + i] as int + 32
                        == "application/json"@[i] as int
                }
        }),
{
    reveal_strlit("application/json");
    let json = "application/json"@;
    let value = fields["content-type"@][0];
    headers::law_printable_content_type_is_read_byte_for_byte(fields, value);
    let all = headers::content_type_text(fields)->0;
    let end = text::law_head_is_a_prefix(all, ';');
    let head = all.take(end);
    let (from, to) = text::law_trimming_takes_white_space_alone(head);
    let name = head.subrange(from, to);
    text::law_only_ascii_letters_have_case(name, json);
    assert forall|i: int| 0 <= i < from implies #[trigger] value[i] == 32 || value[i] == 9 by {
        assert(head[i] as int == value[i] as int);
    }
    assert forall|i: int| to <= i < end implies #[trigger] value[i] == 32 || value[i] == 9 by {
        assert(head[i] as int == value[i] as int);
    }
    assert forall|i: int| 0 <= i < 16 implies {
        ||| value[from + i] as int == #[trigger] "application/json"@[i] as int
        ||| 97 <= "application/json"@[i] as int <= 122 && value[from + i] as int + 32
            == "application/json"@[i] as int
    } by {
        assert(name[i] as int == value[from + i] as int);
        assert(json[i] as int == "application/json"@[i] as int);
    }
    (from, to, end)
}

/// Header fields whose first `Content-Type` values are printable and differ
/// only after the first semicolon are treated alike: either response is
/// answered like the other, in status and body.
pub proof fn law_what_follows_the_semicolon_does_not_matter(
    path: Seq<char>,
    a: ResponseView,
    b: ResponseView,
    head: Seq<u8>,
    a_rest: Seq<u8>,
    b_rest: Seq<u8>,
)
    requires
        a.status == b.status,
        a.body == b.body,
        a.fields.contains_key("content-type"@),
        b.fields.contains_key("content-type"@),
        a.fields["content-type"@][0] == head + seq![59u8] + a_rest,
        b.fields["content-type"@][0] == head + seq![59u8] + b_rest,
        forall|i: int|
            0 <= i < a_rest.len() ==> 32 <= #[trigger] a_rest[i] <= 126 || a_rest[i] == 9,
        forall|i: int|
            0 <= i < b_rest.len() ==> 32 <= #[trigger] b_rest[i] <= 126 || b_rest[i] == 9,
    ensures
        anthropic_error::announces_json(a.fields) == anthropic_error::announces_json(b.fields),
        anthropic_error::rewritten(path, a).status == anthropic_error::rewritten(path, b).status,
        anthropic_error::rewritten(path, a).body == anthropic_error::rewritten(path, b).body,
{
    if anthropic_error::announces_json(a.fields) {
        lemma_rest_does_not_matter(a.fields, b.fields, head, a_rest, b_rest);
    }
    if anthropic_error::announces_json(b.fields) {
        lemma_rest_does_not_matter(b.fields, a.fields, head, b_rest, a_rest);
    }
}

proof fn lemma_rest_does_not_matter(
    a: Map<Seq<char>, Seq<Seq<u8>>>,
    b: Map<Seq<char>, Seq<Seq<u8>>>,
    head: Seq<u8>,
    a_rest: Seq<u8>,
    b_rest: Seq<u8>,
)
    requires
        anthropic_error::announces_json(a),
        b.contains_key("content-type"@),
        a["content-type"@][0] == head + seq![59u8] + a_rest,
        b["content-type"@][0] == head + seq![59u8] + b_rest,
        forall|i: int|
            0 <= i < b_rest.len() ==> 32 <= #[trigger] b_rest[i] <= 126 || b_rest[i] == 9,
    ensures
        anthropic_error::announces_json(b),
{
    reveal_strlit("application/json");
    let (from, to, end) = law_nothing_else_announces_json(a);
    let v = a["content-type"@][0];
    let w = b["content-type"@][0];
    assert(end <= head.len()) by {
        if end > head.len() {
            assert(v[head.len() as int] == 59);
            if from <= head.len() < to {
                let k = head.len() - from;
                assert(v[from + k] as int == "application/json"@[k] as int || v[from + k] as int + 32
                    == "application/json"@[k] as int);
            }
        }
    }
    let before = w.take(from);
    let name = w.subrange(from, to);
    let after = w.subrange(to, end);
    let parameters = w.skip(end);
    assert(before + name + after + parameters == w);
    assert forall|i: int| 0 <= i < before.len() implies #[trigger] before[i] == 32 || before[i]
        == 9 by {
        assert(before[i] == v[i]);
    }
    assert forall|i: int| 0 <= i < after.len() implies #[trigger] after[i] == 32 || after[i]
        == 9 by {
        assert(after[i] == v[to + i]);
    }
    assert forall|i: int| 0 <= i < parameters.len() implies 32 <= #[trigger] parameters[i] <= 126
        || parameters[i] == 9 by {
        let k = end + i;
        if k <= head.len() {
            assert(parameters[i] == v[k]);
        } else {
            assert(parameters[i] == b_rest[k - head.len() - 1]);
        }
    }
    assert(parameters[0] == v[end]);
    assert forall|i: int| 0 <= i < 16 implies {
        ||| #[trigger] name[i] as int == "application/json"@[i] as int
        ||| 97 <= "application/json"@[i] as int <= 122 && name[i] as int + 32
            == "application/json"@[i] as int
    } by {
        assert(name[i] == v[from + i]);
        assert("application/json"@[i] as int >= 0);
    }
    law_json_is_announced_by_its_media_type(b, before, name, after, parameters);
}

/// The head of a response calls for a look at the body exactly on the Messages
/// path, with a status from 500 to 599 and header fields that announce JSON.
pub proof fn law_inspection_needs_path_status_and_media_type(
    path: Seq<char>,
    status: u16,
    fields: Map<Seq<char>, Seq<Seq<u8>>>,
)
    ensures
        anthropic_error::is_inspected(path, status, fields) <==> path == "/v1/messages"@ && 500
            <= status <= 599 && anthropic_error::announces_json(fields),
{
}

/// A body is read where it arrives whole and has at most 64 KiB, and it is
/// read as it is.
pub proof fn law_body_is_read_up_to_the_cap(body: Option<Seq<u8>>)
    ensures
        anthropic_error::inspectable(body) == if body is Some && body->0.len() <= 65536 {
            body
        } else {
            None
        },
{
}

/// A response is answered anew exactly where its status changes, and it loses
/// its body exactly where it is a JSON server error of the Messages endpoint
/// whose body is broken or has more than 64 KiB.
pub proof fn law_what_changes_a_response(path: Seq<char>, response: ResponseView)
    ensures
        anthropic_error::is_rewritten(path, response) <==> anthropic_error::rewritten(
            path,
            response,
        ).status != response.status,
        anthropic_error::loses_body(path, response) <==> path == "/v1/messages"@ && 500
            <= response.status <= 599 && anthropic_error::announces_json(response.fields) && (
        response.body is None || response.body->0.len() > 65536),
{
}

/// The view of a response says what the response says.
pub proof fn law_view_says_what_the_response_says(response: Response, bytes: Vec<u8>)
    ensures
        response@.status == response.status,
        response@.fields == headers::header_values(response.headers),
        response.body == Body::Complete(bytes) ==> response@.body == Some(bytes@),
        response.body == Body::Interrupted ==> response@.body is None,
{
}

} // verus!
