//! Character-level operations on text: searching, trimming, ASCII case.

use vstd::prelude::*;
use vstd::string::*;
use vstd::utf8::*;

verus! {

/// The characters with the Unicode `White_Space` property.
pub open spec fn is_white_space(c: char) -> bool {
    ||| '\u{9}' <= c <= '\u{d}'
    ||| c == '\u{20}'
    ||| c == '\u{85}'
    ||| c == '\u{a0}'
    ||| c == '\u{1680}'
    ||| '\u{2000}' <= c <= '\u{200a}'
    ||| c == '\u{2028}'
    ||| c == '\u{2029}'
    ||| c == '\u{202f}'
    ||| c == '\u{205f}'
    ||| c == '\u{3000}'
}

/// `char::is_whitespace` of std: true of exactly the characters that Unicode
/// gives the `White_Space` property.
pub assume_specification[ char::is_whitespace ](c: char) -> (white: bool)
    ensures
        white == is_white_space(c),
;

/// `s` without the white space that it starts with.
pub open spec fn without_leading_space(s: Seq<char>) -> Seq<char>
    decreases s.len(),
{
    if s.len() > 0 && is_white_space(s.first()) {
        without_leading_space(s.drop_first())
    } else {
        s
    }
}

/// `s` without the white space that it ends with.
pub open spec fn without_trailing_space(s: Seq<char>) -> Seq<char>
    decreases s.len(),
{
    if s.len() > 0 && is_white_space(s.last()) {
        without_trailing_space(s.drop_last())
    } else {
        s
    }
}

/// `s` without the white space around it.
pub open spec fn trimmed(s: Seq<char>) -> Seq<char> {
    without_trailing_space(without_leading_space(s))
}

/// Whether `pattern` stands in `s` at position `at`.
pub open spec fn occurs_at(s: Seq<char>, pattern: Seq<char>, at: int) -> bool {
    &&& 0 <= at
    &&& at + pattern.len() <= s.len()
    &&& s.subrange(at, at + pattern.len()) == pattern
}

/// Whether `pattern` stands in `s` somewhere.
pub open spec fn occurs_in(s: Seq<char>, pattern: Seq<char>) -> bool {
    exists|at: int| occurs_at(s, pattern, at)
}

/// The part of `s` before the first `mark`; all of `s` where there is none.
pub open spec fn before_first(s: Seq<char>, mark: char) -> Seq<char>
    decreases s.len(),
{
    if s.len() == 0 || s.first() == mark {
        Seq::empty()
    } else {
        seq![s.first()] + before_first(s.drop_first(), mark)
    }
}

/// The code of `c`, an ASCII upper-case letter read as the lower-case one.
pub open spec fn folded(c: char) -> u32 {
    if 'A' <= c <= 'Z' {
        (c as u32 + 32) as u32
    } else {
        c as u32
    }
}

/// Whether two texts differ at most in the case of ASCII letters.
pub open spec fn same_ignoring_ascii_case(a: Seq<char>, b: Seq<char>) -> bool {
    &&& a.len() == b.len()
    &&& forall|i: int| 0 <= i < a.len() ==> folded(#[trigger] a[i]) == folded(b[i])
}

/// What `String::from_utf8_lossy` makes of bytes that are not UTF-8: the text
/// with `U+FFFD` in place of what could not be decoded.
pub uninterp spec fn repaired_text(bytes: Seq<u8>) -> Seq<char>;

/// `bytes` as text: decoded where they are UTF-8, repaired where they are not.
pub open spec fn lossy_text(bytes: Seq<u8>) -> Seq<char> {
    if valid_utf8(bytes) {
        decode_utf8(bytes)
    } else {
        repaired_text(bytes)
    }
}

/// `String::from_utf8_lossy` of std: valid UTF-8 is decoded as it stands, and
/// on other bytes the text depends on the bytes alone.
#[verifier::external_body]
pub(crate) fn decode_lossy(bytes: &[u8]) -> (text: String)
    ensures
        valid_utf8(bytes@) ==> text@ == decode_utf8(bytes@),
        !valid_utf8(bytes@) ==> text@ == repaired_text(bytes@),
{
    String::from_utf8_lossy(bytes).into_owned()
}

/// The characters of `text`, in order.
pub fn characters(text: &str) -> (chars: Vec<char>)
    ensures
        chars@ == text@,
{
    let mut chars: Vec<char> = Vec::new();
    for c in iter: text.chars()
        invariant
            iter.seq() == text@,
            chars@ == text@.take(iter.index() as int),
    {
        chars.push(c);
    }
    assert(text@.take(text@.len() as int) == text@);
    chars
}

/// Whether two texts are the same.
pub fn same_text(a: &str, b: &str) -> (same: bool)
    ensures
        same == (a@ == b@),
{
    let a_chars = characters(a);
    let b_chars = characters(b);
    assert(a@.subrange(0, a@.len() as int) == a@);
    a_chars.len() == b_chars.len() && stands_at(&a_chars, &b_chars, 0)
}

/// Whether `pattern` stands in `s` at position `at`.
fn stands_at(s: &Vec<char>, pattern: &Vec<char>, at: usize) -> (found: bool)
    requires
        at + pattern.len() <= s.len(),
    ensures
        found == occurs_at(s@, pattern@, at as int),
{
    let mut i: usize = 0;
    while i < pattern.len()
        invariant
            i <= pattern.len(),
            at + pattern.len() <= s.len(),
            forall|j: int| 0 <= j < i ==> s@[at + j] == #[trigger] pattern@[j],
        decreases pattern.len() - i,
    {
        if s[at + i] != pattern[i] {
            assert(s@.subrange(at as int, at + pattern@.len())[i as int] != pattern@[i as int]);
            return false;
        }
        i += 1;
    }
    assert(s@.subrange(at as int, at + pattern@.len()) == pattern@);
    true
}

/// Whether `pattern` stands somewhere in `text`.
pub fn contains_text(text: &str, pattern: &str) -> (found: bool)
    ensures
        found == occurs_in(text@, pattern@),
{
    let s = characters(text);
    let p = characters(pattern);
    if p.len() > s.len() {
        return false;
    }
    let last: usize = s.len() - p.len();
    let mut at: usize = 0;
    loop
        invariant
            s@ == text@,
            p@ == pattern@,
            last + p.len() == s.len(),
            at <= last,
            forall|k: int| k < at ==> !occurs_at(text@, pattern@, k),
        decreases last - at,
    {
        if stands_at(&s, &p, at) {
            return true;
        }
        if at == last {
            assert(forall|k: int| !occurs_at(text@, pattern@, k));
            return false;
        }
        at += 1;
    }
}

proof fn lemma_without_leading_space(s: Seq<char>, from: int)
    requires
        0 <= from <= s.len(),
        forall|i: int| 0 <= i < from ==> is_white_space(#[trigger] s[i]),
        from < s.len() ==> !is_white_space(s[from]),
    ensures
        without_leading_space(s) == s.skip(from),
    decreases from,
{
    if from > 0 {
        lemma_without_leading_space(s.drop_first(), from - 1);
        assert(s.drop_first().skip(from - 1) == s.skip(from));
    } else {
        assert(s.skip(0) == s);
    }
}

proof fn lemma_without_trailing_space(s: Seq<char>, to: int)
    requires
        0 <= to <= s.len(),
        forall|i: int| to <= i < s.len() ==> is_white_space(#[trigger] s[i]),
        to > 0 ==> !is_white_space(s[to - 1]),
    ensures
        without_trailing_space(s) == s.take(to),
    decreases s.len() - to,
{
    if to < s.len() {
        lemma_without_trailing_space(s.drop_last(), to);
        assert(s.drop_last().take(to) == s.take(to));
    } else {
        assert(s.take(to) == s);
    }
}

/// `text` without the white space around it.
pub fn trim_text(text: &str) -> (inner: &str)
    ensures
        inner@ == trimmed(text@),
{
    let s = characters(text);
    let mut from: usize = 0;
    while from < s.len() && s[from].is_whitespace()
        invariant
            from <= s.len(),
            forall|i: int| 0 <= i < from ==> is_white_space(#[trigger] s@[i]),
        decreases s.len() - from,
    {
        from += 1;
    }
    let mut to: usize = s.len();
    while to > from && s[to - 1].is_whitespace()
        invariant
            from <= to <= s.len(),
            forall|i: int| to <= i < s.len() ==> is_white_space(#[trigger] s@[i]),
        decreases to,
    {
        to -= 1;
    }
    proof {
        let rest = text@.skip(from as int);
        lemma_without_leading_space(text@, from as int);
        assert forall|i: int| to - from <= i < rest.len() implies is_white_space(
            #[trigger] rest[i],
        ) by {
            assert(rest[i] == s@[i + from]);
        }
        if to > from {
            assert(rest[to - from - 1] == s@[to - 1]);
        }
        lemma_without_trailing_space(rest, to - from);
        assert(rest.take(to - from) == text@.subrange(from as int, to as int));
    }
    text.substring_char(from, to)
}

/// `text` up to its first `mark`; all of it where there is none.
pub fn text_before(text: &str, mark: char) -> (head: &str)
    ensures
        head@ == before_first(text@, mark),
{
    let s = characters(text);
    let mut end: usize = 0;
    while end < s.len() && s[end] != mark
        invariant
            end <= s.len(),
            forall|i: int| 0 <= i < end ==> #[trigger] s@[i] != mark,
        decreases s.len() - end,
    {
        end += 1;
    }
    proof {
        lemma_before_first(text@, mark, end as int);
        assert(text@.take(end as int) == text@.subrange(0, end as int));
    }
    text.substring_char(0, end)
}

proof fn lemma_before_first(s: Seq<char>, mark: char, end: int)
    requires
        0 <= end <= s.len(),
        forall|i: int| 0 <= i < end ==> #[trigger] s[i] != mark,
        end < s.len() ==> s[end] == mark,
    ensures
        before_first(s, mark) == s.take(end),
    decreases end,
{
    if end > 0 {
        lemma_before_first(s.drop_first(), mark, end - 1);
        assert(seq![s.first()] + s.drop_first().take(end - 1) == s.take(end));
    } else {
        assert(s.take(0) == Seq::<char>::empty());
    }
}

/// The code of `c`, an ASCII upper-case letter read as the lower-case one.
fn fold(c: char) -> (code: u32)
    ensures
        code == folded(c),
{
    if 'A' <= c && c <= 'Z' {
        c as u32 + 32
    } else {
        c as u32
    }
}

/// Whether two texts differ at most in the case of ASCII letters.
pub fn equals_ignoring_ascii_case(a: &str, b: &str) -> (same: bool)
    ensures
        same == same_ignoring_ascii_case(a@, b@),
{
    let s = characters(a);
    let t = characters(b);
    if s.len() != t.len() {
        return false;
    }
    let mut i: usize = 0;
    while i < s.len()
        invariant
            i <= s.len() == t.len(),
            s@ == a@,
            t@ == b@,
            forall|j: int| 0 <= j < i ==> folded(#[trigger] a@[j]) == folded(b@[j]),
        decreases s.len() - i,
    {
        if fold(s[i]) != fold(t[i]) {
            assert(folded(a@[i as int]) != folded(b@[i as int]));
            return false;
        }
        i += 1;
    }
    true
}

/// White space is what Unicode lists as such, by code point.
pub proof fn law_white_space_is_the_unicode_property(c: char)
    ensures
        is_white_space(c) <==> ({
            let code = c as u32;
            ||| 0x9 <= code <= 0xd
            ||| code == 0x20
            ||| code == 0x85
            ||| code == 0xa0
            ||| code == 0x1680
            ||| 0x2000 <= code <= 0x200a
            ||| code == 0x2028
            ||| code == 0x2029
            ||| code == 0x202f
            ||| code == 0x205f
            ||| code == 0x3000
        }),
{
}

/// Trimming undoes any padding: white space put around a text that neither
/// starts nor ends with any leaves that text.
pub proof fn law_trimming_undoes_padding(before: Seq<char>, inner: Seq<char>, after: Seq<char>)
    requires
        forall|i: int| 0 <= i < before.len() ==> is_white_space(#[trigger] before[i]),
        forall|i: int| 0 <= i < after.len() ==> is_white_space(#[trigger] after[i]),
        inner.len() > 0 ==> !is_white_space(inner[0]) && !is_white_space(inner[inner.len() - 1]),
    ensures
        trimmed(before + inner + after) == inner,
{
    let s = before + inner + after;
    if inner.len() > 0 {
        lemma_without_leading_space(s, before.len() as int);
        let rest = s.skip(before.len() as int);
        assert(rest == inner + after);
        lemma_without_trailing_space(rest, inner.len() as int);
        assert(rest.take(inner.len() as int) == inner);
    } else {
        assert forall|i: int| 0 <= i < s.len() implies is_white_space(#[trigger] s[i]) by {
            if i < before.len() {
                assert(s[i] == before[i]);
            } else {
                assert(s[i] == after[i - before.len()]);
            }
        }
        lemma_without_leading_space(s, s.len() as int);
        assert(s.skip(s.len() as int) == inner);
    }
}

/// Every text is white space, then what trimming leaves of it, then white
/// space; and what trimming leaves neither starts nor ends with any.
pub proof fn law_trimming_takes_white_space_alone(s: Seq<char>) -> (cut: (int, int))
    ensures
        0 <= cut.0 <= cut.1 <= s.len(),
        trimmed(s) == s.subrange(cut.0, cut.1),
        forall|i: int| 0 <= i < cut.0 ==> is_white_space(#[trigger] s[i]),
        forall|i: int| cut.1 <= i < s.len() ==> is_white_space(#[trigger] s[i]),
        cut.0 < cut.1 ==> !is_white_space(s[cut.0]) && !is_white_space(s[cut.1 - 1]),
{
    let from = leading_space(s);
    let rest = s.skip(from);
    let kept = rest.len() - trailing_space(rest);
    lemma_without_leading_space(s, from);
    lemma_without_trailing_space(rest, kept);
    assert(rest.take(kept) == s.subrange(from, from + kept));
    assert forall|i: int| from + kept <= i < s.len() implies is_white_space(#[trigger] s[i]) by {
        assert(s[i] == rest[i - from]);
    }
    if kept > 0 {
        assert(rest[0] == s[from]);
        assert(rest[kept - 1] == s[from + kept - 1]);
    }
    (from, from + kept)
}

proof fn leading_space(s: Seq<char>) -> (from: int)
    ensures
        0 <= from <= s.len(),
        forall|i: int| 0 <= i < from ==> is_white_space(#[trigger] s[i]),
        from < s.len() ==> !is_white_space(s[from]),
    decreases s.len(),
{
    if s.len() > 0 && is_white_space(s[0]) {
        let from = 1 + leading_space(s.drop_first());
        assert forall|i: int| 0 <= i < from implies is_white_space(#[trigger] s[i]) by {
            if i > 0 {
                assert(s[i] == s.drop_first()[i - 1]);
            }
        }
        from
    } else {
        0
    }
}

proof fn trailing_space(s: Seq<char>) -> (count: int)
    ensures
        0 <= count <= s.len(),
        forall|i: int| s.len() - count <= i < s.len() ==> is_white_space(#[trigger] s[i]),
        count < s.len() ==> !is_white_space(s[s.len() - count - 1]),
    decreases s.len(),
{
    if s.len() > 0 && is_white_space(s[s.len() - 1]) {
        let count = 1 + trailing_space(s.drop_last());
        assert forall|i: int| s.len() - count <= i < s.len() implies is_white_space(
            #[trigger] s[i],
        ) by {
            if i < s.len() - 1 {
                assert(s[i] == s.drop_last()[i]);
            }
        }
        count
    } else {
        0
    }
}

/// What stands before the first mark is a head without the mark, whatever
/// follows the mark; a text without the mark is all head.
pub proof fn law_head_ends_at_the_first_mark(head: Seq<char>, mark: char, rest: Seq<char>)
    requires
        forall|i: int| 0 <= i < head.len() ==> #[trigger] head[i] != mark,
        rest.len() > 0 ==> rest[0] == mark,
    ensures
        before_first(head + rest, mark) == head,
{
    let s = head + rest;
    assert forall|i: int| 0 <= i < head.len() implies #[trigger] s[i] != mark by {
        assert(s[i] == head[i]);
    }
    lemma_before_first(s, mark, head.len() as int);
    assert(s.take(head.len() as int) == head);
}

/// Every text is a head without the mark, and then nothing or the mark and
/// whatever follows it.
pub proof fn law_head_is_a_prefix(s: Seq<char>, mark: char) -> (end: int)
    ensures
        0 <= end <= s.len(),
        before_first(s, mark) == s.take(end),
        forall|i: int| 0 <= i < end ==> #[trigger] s[i] != mark,
        end < s.len() ==> s[end] == mark,
    decreases s.len(),
{
    if s.len() == 0 || s[0] == mark {
        lemma_before_first(s, mark, 0);
        0
    } else {
        let end = 1 + law_head_is_a_prefix(s.drop_first(), mark);
        assert forall|i: int| 0 <= i < end implies #[trigger] s[i] != mark by {
            if i > 0 {
                assert(s[i] == s.drop_first()[i - 1]);
            }
        }
        lemma_before_first(s, mark, end);
        end
    }
}

/// A pattern occurs in a text exactly where some end of the text starts with it.
pub proof fn law_occurrence_is_at_some_position(s: Seq<char>, pattern: Seq<char>)
    ensures
        occurs_in(s, pattern) <==> exists|at: int|
            0 <= at <= s.len() && pattern.is_prefix_of(#[trigger] s.skip(at)),
{
    if occurs_in(s, pattern) {
        let at = choose|at: int| occurs_at(s, pattern, at);
        assert(s.skip(at).subrange(0, pattern.len() as int) == s.subrange(at, at + pattern.len()));
        assert(pattern.is_prefix_of(s.skip(at)));
    }
    if exists|at: int| 0 <= at <= s.len() && pattern.is_prefix_of(#[trigger] s.skip(at)) {
        let at = choose|at: int| 0 <= at <= s.len() && pattern.is_prefix_of(#[trigger] s.skip(at));
        assert(s.skip(at).subrange(0, pattern.len() as int) == s.subrange(at, at + pattern.len()));
        assert(occurs_at(s, pattern, at));
    }
}

/// Two texts are the same up to ASCII case exactly where they have one length
/// and each pair of characters is equal or the two cases of one ASCII letter.
pub proof fn law_only_ascii_letters_have_case(a: Seq<char>, b: Seq<char>)
    ensures
        same_ignoring_ascii_case(a, b) <==> a.len() == b.len() && forall|i: int|
            #![trigger a[i]]
            0 <= i < a.len() ==> {
                ||| a[i] == b[i]
                ||| 97 <= a[i] as int <= 122 && a[i] as int == b[i] as int + 32
                ||| 97 <= b[i] as int <= 122 && b[i] as int == a[i] as int + 32
            },
{
    if a.len() == b.len() {
        assert forall|i: int| #![trigger a[i]] 0 <= i < a.len() implies (folded(a[i]) == folded(b[i])
            <==> {
            ||| a[i] == b[i]
            ||| 97 <= a[i] as int <= 122 && a[i] as int == b[i] as int + 32
            ||| 97 <= b[i] as int <= 122 && b[i] as int == a[i] as int + 32
        }) by {
            lemma_folded(a[i], b[i]);
        }
    }
}

proof fn lemma_folded(c: char, d: char)
    ensures
        folded(c) == folded(d) <==> {
            ||| c == d
            ||| 97 <= c as int <= 122 && c as int == d as int + 32
            ||| 97 <= d as int <= 122 && d as int == c as int + 32
        },
{
    assert(folded(c) == c as int || folded(c) == c as int + 32);
    assert(folded(d) == d as int || folded(d) == d as int + 32);
}

/// UTF-8 is read in full and as it stands; other bytes are repaired in full.
pub proof fn law_bytes_are_read_in_full(bytes: Seq<u8>)
    ensures
        valid_utf8(bytes) ==> lossy_text(bytes) == decode_utf8(bytes),
        !valid_utf8(bytes) ==> lossy_text(bytes) == repaired_text(bytes),
{
}

} // verus!
