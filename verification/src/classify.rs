//! Classification of a newly accepted stream's payload: a session in relay
//! mode hands every stream to the relay engine; otherwise the payload is a
//! command when it is UTF-8 text whose trimmed form starts with `"DOH "`,
//! and opaque echo data in every other case.

use vstd::prelude::*;
use vstd::utf8::{valid_utf8, decode_utf8};
use crate::frame::copy_range;

verus! {

/// How a session treats the streams it accepts: every stream is a packet
/// relay, or each stream's first payload is inspected.
#[derive(Clone, Copy, Debug, PartialEq, Eq, Structural)]
pub enum SessionMode {
    /// Every stream on the session carries framed packets.
    RelayOnly,
    /// Each stream is classified by the content of its first payload.
    Sniffing,
}

/// Where a stream's payload is routed after classification.
#[derive(Clone, Debug, PartialEq, Eq)]
pub enum Dispatch {
    /// Hand the stream to the relay engine.
    Relay,
    /// Run the lookup command; the field is the text after the `"DOH "`
    /// prefix, not yet trimmed.
    Command(Vec<char>),
    /// Write the payload back unchanged.
    Echo,
}

/// Whitespace as the classifier trims it: the Unicode `White_Space`
/// characters.
pub open spec fn is_ws(c: char) -> bool {
    c == '\u{09}' || c == '\u{0a}' || c == '\u{0b}' || c == '\u{0c}' || c == '\u{0d}' || c == ' '
        || c == '\u{85}' || c == '\u{a0}' || c == '\u{1680}' || ('\u{2000}' <= c && c
        <= '\u{200a}') || c == '\u{2028}' || c == '\u{2029}' || c == '\u{202f}' || c == '\u{205f}'
        || c == '\u{3000}'
}

/// Text with its leading whitespace removed.
pub open spec fn drop_leading_ws(s: Seq<char>) -> Seq<char>
    decreases s.len(),
{
    if s.len() > 0 && is_ws(s[0]) {
        drop_leading_ws(s.drop_first())
    } else {
        s
    }
}

/// Text with its trailing whitespace removed.
pub open spec fn drop_trailing_ws(s: Seq<char>) -> Seq<char>
    decreases s.len(),
{
    if s.len() > 0 && is_ws(s[s.len() - 1]) {
        drop_trailing_ws(s.drop_last())
    } else {
        s
    }
}

/// Text with both leading and trailing whitespace removed.
pub open spec fn trim_spec(s: Seq<char>) -> Seq<char> {
    drop_trailing_ws(drop_leading_ws(s))
}

/// True when the text starts with the four command characters `"DOH "`.
pub open spec fn has_command_prefix(t: Seq<char>) -> bool {
    t.len() >= 4 && t[0] == 'D' && t[1] == 'O' && t[2] == 'H' && t[3] == ' '
}

/// True when a payload is a command request: UTF-8 text that, trimmed,
/// starts with `"DOH "`.
pub open spec fn is_command_payload(b: Seq<u8>) -> bool {
    valid_utf8(b) && has_command_prefix(trim_spec(decode_utf8(b)))
}

/// The command's argument text: what follows the `"DOH "` prefix of the
/// trimmed payload, exactly as written there.
pub open spec fn command_rest(b: Seq<u8>) -> Seq<char>
    recommends
        is_command_payload(b),
{
    trim_spec(decode_utf8(b)).skip(4)
}

/// The prefix test asks exactly that the text start with the four
/// characters of the literal `"DOH "`.
pub proof fn lemma_prefix_is_doh_literal(t: Seq<char>)
    ensures
        has_command_prefix(t) <==> (t.len() >= 4 && t.subrange(0, 4) == "DOH "@),
{
    reveal_strlit("DOH ");
    if t.len() >= 4 {
        if has_command_prefix(t) {
            assert(t.subrange(0, 4) =~= "DOH "@);
        }
        if t.subrange(0, 4) == "DOH "@ {
            assert(t[0] == t.subrange(0, 4)[0]);
            assert(t[1] == t.subrange(0, 4)[1]);
            assert(t[2] == t.subrange(0, 4)[2]);
            assert(t[3] == t.subrange(0, 4)[3]);
        }
    }
}

/// Relies on str::from_utf8: it succeeds exactly on valid UTF-8 input, and
/// the characters of the resulting text are the UTF-8 decoding of the
/// input bytes.
#[verifier::external_body]
fn utf8_chars(b: &Vec<u8>) -> (r: Option<Vec<char>>)
    ensures
        match r {
            Some(cs) => valid_utf8(b@) && cs@ == decode_utf8(b@),
            None => !valid_utf8(b@),
        },
{
    match std::str::from_utf8(b.as_slice()) {
        Ok(s) => Some(s.chars().collect()),
        Err(_) => None,
    }
}

/// Decides whether one character counts as whitespace for trimming.
fn is_whitespace_char(c: char) -> (r: bool)
    ensures
        r == is_ws(c),
{
    c == '\u{09}' || c == '\u{0a}' || c == '\u{0b}' || c == '\u{0c}' || c == '\u{0d}' || c == ' '
        || c == '\u{85}' || c == '\u{a0}' || c == '\u{1680}' || ('\u{2000}' <= c && c
        <= '\u{200a}') || c == '\u{2028}' || c == '\u{2029}' || c == '\u{202f}' || c == '\u{205f}'
        || c == '\u{3000}'
}

proof fn lemma_drop_leading_is_subrange(s: Seq<char>, i: int)
    requires
        0 <= i <= s.len(),
        forall|j: int| 0 <= j < i ==> is_ws(s[j]),
        i < s.len() ==> !is_ws(s[i]),
    ensures
        drop_leading_ws(s) == s.subrange(i, s.len() as int),
    decreases i,
{
    if i == 0 {
        assert(s.subrange(0, s.len() as int) =~= s);
    } else {
        assert(is_ws(s[0]));
        lemma_drop_leading_is_subrange(s.drop_first(), i - 1);
        assert(s.drop_first().subrange(i - 1, s.drop_first().len() as int) =~= s.subrange(
            i,
            s.len() as int,
        ));
    }
}

proof fn lemma_drop_trailing_is_subrange(s: Seq<char>, k: int)
    requires
        0 <= k <= s.len(),
        forall|j: int| k <= j < s.len() ==> is_ws(s[j]),
        k > 0 ==> !is_ws(s[k - 1]),
    ensures
        drop_trailing_ws(s) == s.subrange(0, k),
    decreases s.len() - k,
{
    if k == s.len() {
        if s.len() > 0 && is_ws(s[s.len() - 1]) {
            assert(!is_ws(s[k - 1]));
            assert(false);
        }
        assert(s.subrange(0, k) =~= s);
    } else {
        assert(is_ws(s[s.len() - 1]));
        lemma_drop_trailing_is_subrange(s.drop_last(), k);
        assert(s.drop_last().subrange(0, k) =~= s.subrange(0, k));
    }
}

/// Removes leading and trailing whitespace from the characters of a text.
pub fn trim_chars(s: &Vec<char>) -> (r: Vec<char>)
    ensures
        r@ == trim_spec(s@),
{
    let mut start: usize = 0;
    while start < s.len() && is_whitespace_char(s[start])
        invariant
            start <= s@.len(),
            forall|j: int| 0 <= j < start ==> is_ws(s@[j]),
        decreases s@.len() - start,
    {
        start = start + 1;
    }
    proof {
        lemma_drop_leading_is_subrange(s@, start as int);
    }
    let ghost t = s@.subrange(start as int, s@.len() as int);
    let mut end: usize = s.len();
    while end > start && is_whitespace_char(s[end - 1])
        invariant
            start <= end <= s@.len(),
            forall|j: int| end <= j < s@.len() ==> is_ws(s@[j]),
        decreases end,
    {
        end = end - 1;
    }
    proof {
        lemma_drop_trailing_is_subrange(t, end - start);
        assert(t.subrange(0, end - start) =~= s@.subrange(start as int, end as int));
    }
    copy_range(s, start, end)
}

/// Classifies one stream's first payload for a session in the given mode:
/// in relay mode every stream is a relay; otherwise the payload is a
/// command exactly when it is UTF-8 text whose trimmed form starts with
/// `"DOH "`, and echo data in every other case. The command's argument is
/// handed on exactly as it follows the prefix.
pub fn dispatch_stream(mode: SessionMode, data: &Vec<u8>) -> (r: Dispatch)
    ensures
        mode == SessionMode::RelayOnly ==> r is Relay,
        mode == SessionMode::Sniffing && is_command_payload(data@) ==> (r matches Dispatch::Command(
            q,
        ) && q@ == command_rest(data@)),
        mode == SessionMode::Sniffing && !is_command_payload(data@) ==> r is Echo,
{
    match mode {
        SessionMode::RelayOnly => Dispatch::Relay,
        SessionMode::Sniffing => {
            match utf8_chars(data) {
                None => Dispatch::Echo,
                Some(cs) => {
                    let t = trim_chars(&cs);
                    if t.len() >= 4 && t[0] == 'D' && t[1] == 'O' && t[2] == 'H' && t[3] == ' ' {
                        let rest = copy_range(&t, 4, t.len());
                        proof {
                            assert(rest@ =~= trim_spec(decode_utf8(data@)).skip(4));
                        }
                        Dispatch::Command(rest)
                    } else {
                        Dispatch::Echo
                    }
                },
            }
        },
    }
}

/// The echo reply for a payload: the same bytes, unchanged.
pub fn echo_response(data: &Vec<u8>) -> (r: Vec<u8>)
    ensures
        r@ == data@,
{
    let r = copy_range(data, 0, data.len());
    proof {
        assert(data@.subrange(0, data@.len() as int) =~= data@);
    }
    r
}

} // verus!
