//! The lookup command: building the resolver query URL from the command's
//! argument, and serializing the reply that goes back on the stream. The
//! HTTP call itself is the caller's collaborator; this module computes the
//! exact bytes around it.

use vstd::prelude::*;
use vstd::string::{StrSliceExecFns, StringExecFns};
use vstd::utf8::{decode_utf8, encode_utf8, valid_utf8};
use crate::classify::{command_rest, has_command_prefix, is_command_payload, trim_chars, trim_spec};

verus! {

/// True for the bytes that percent-encoding passes through unchanged:
/// ASCII digits, letters, and `-`, `.`, `_`, `~`.
pub open spec fn is_unreserved(b: u8) -> bool {
    (0x30 <= b && b <= 0x39) || (0x41 <= b && b <= 0x5a) || (0x61 <= b && b <= 0x7a) || b == 0x2d
        || b == 0x2e || b == 0x5f || b == 0x7e
}

/// The upper-case hexadecimal digit for a value below 16.
pub open spec fn hex_digit(d: u8) -> char
    recommends
        d < 16,
{
    if d == 0 {
        '0'
    } else if d == 1 {
        '1'
    } else if d == 2 {
        '2'
    } else if d == 3 {
        '3'
    } else if d == 4 {
        '4'
    } else if d == 5 {
        '5'
    } else if d == 6 {
        '6'
    } else if d == 7 {
        '7'
    } else if d == 8 {
        '8'
    } else if d == 9 {
        '9'
    } else if d == 10 {
        'A'
    } else if d == 11 {
        'B'
    } else if d == 12 {
        'C'
    } else if d == 13 {
        'D'
    } else if d == 14 {
        'E'
    } else {
        'F'
    }
}

/// How one byte appears in a percent-encoded text: unchanged when
/// unreserved, else `%` and two upper-case hex digits.
pub open spec fn pct_byte(b: u8) -> Seq<char> {
    if is_unreserved(b) {
        seq![b as char]
    } else {
        seq!['%', hex_digit(b / 16), hex_digit(b % 16)]
    }
}

/// The percent-encoded text of a byte sequence.
pub open spec fn pct_encode(bs: Seq<u8>) -> Seq<char>
    decreases bs.len(),
{
    if bs.len() == 0 {
        Seq::empty()
    } else {
        pct_byte(bs[0]) + pct_encode(bs.drop_first())
    }
}

/// Relies on urlencoding::encode: every byte of the argument's UTF-8 form
/// except ASCII alphanumerics and `-`, `.`, `_`, `~` becomes `%` followed
/// by two upper-case hexadecimal digits, and the remaining bytes pass
/// through unchanged.
#[verifier::external_body]
fn percent_encode(s: &Vec<char>) -> (r: String)
    ensures
        r@ == pct_encode(encode_utf8(s@)),
{
    let text: String = s.iter().collect();
    urlencoding::encode(&text).into_owned()
}

/// The decimal digit character for a value below 10.
pub open spec fn digit_char(d: nat) -> char
    recommends
        d < 10,
{
    if d == 0 {
        '0'
    } else if d == 1 {
        '1'
    } else if d == 2 {
        '2'
    } else if d == 3 {
        '3'
    } else if d == 4 {
        '4'
    } else if d == 5 {
        '5'
    } else if d == 6 {
        '6'
    } else if d == 7 {
        '7'
    } else if d == 8 {
        '8'
    } else {
        '9'
    }
}

/// The decimal digits of a number, most significant first, with no sign
/// and no leading zero except for the number zero itself.
pub open spec fn dec_str(n: nat) -> Seq<char>
    decreases n,
{
    if n < 10 {
        seq![digit_char(n)]
    } else {
        dec_str(n / 10) + seq![digit_char(n % 10)]
    }
}

fn digit_str(d: u16) -> (s: &'static str)
    requires
        d < 10,
    ensures
        s@ == seq![digit_char(d as nat)],
{
    if d == 0 {
        proof {
            reveal_strlit("0");
        }
        assert("0"@ =~= seq![digit_char(0)]);
        "0"
    } else if d == 1 {
        proof {
            reveal_strlit("1");
        }
        assert("1"@ =~= seq![digit_char(1)]);
        "1"
    } else if d == 2 {
        proof {
            reveal_strlit("2");
        }
        assert("2"@ =~= seq![digit_char(2)]);
        "2"
    } else if d == 3 {
        proof {
            reveal_strlit("3");
        }
        assert("3"@ =~= seq![digit_char(3)]);
        "3"
    } else if d == 4 {
        proof {
            reveal_strlit("4");
        }
        assert("4"@ =~= seq![digit_char(4)]);
        "4"
    } else if d == 5 {
        proof {
            reveal_strlit("5");
        }
        assert("5"@ =~= seq![digit_char(5)]);
        "5"
    } else if d == 6 {
        proof {
            reveal_strlit("6");
        }
        assert("6"@ =~= seq![digit_char(6)]);
        "6"
    } else if d == 7 {
        proof {
            reveal_strlit("7");
        }
        assert("7"@ =~= seq![digit_char(7)]);
        "7"
    } else if d == 8 {
        proof {
            reveal_strlit("8");
        }
        assert("8"@ =~= seq![digit_char(8)]);
        "8"
    } else {
        proof {
            reveal_strlit("9");
        }
        assert("9"@ =~= seq![digit_char(9)]);
        "9"
    }
}

/// Writes a number in decimal.
pub fn dec_string(n: u16) -> (s: String)
    ensures
        s@ == dec_str(n as nat),
    decreases n,
{
    if n < 10 {
        let d = digit_str(n);
        d.to_owned()
    } else {
        assert(n / 10 < n) by (nonlinear_arith)
            requires
                n >= 10,
        ;
        let q = dec_string(n / 10);
        q.concat(digit_str(n % 10))
    }
}

/// The full resolver query URL for a command argument: the fixed endpoint,
/// the argument trimmed and percent-encoded, and the record-type suffix.
pub open spec fn doh_url_spec(q: Seq<char>) -> Seq<char> {
    "https://cloudflare-dns.com/dns-query?name="@ + pct_encode(encode_utf8(trim_spec(q)))
        + "&type=A"@
}

/// Builds the resolver query URL for a command argument. The argument is
/// trimmed of surrounding whitespace and percent-encoded into the query.
pub fn doh_url(query: &Vec<char>) -> (u: String)
    ensures
        u@ == doh_url_spec(query@),
{
    let trimmed = trim_chars(query);
    let enc = percent_encode(&trimmed);
    let mut u = "https://cloudflare-dns.com/dns-query?name=".to_owned();
    u.append(enc.as_str());
    u.append("&type=A");
    u
}

/// The reply text for a lookup that came back: the status code in decimal
/// and the upstream body inserted verbatim, with no escaping of the body.
pub open spec fn doh_response_chars(status: nat, body: Seq<char>) -> Seq<char> {
    "{\"status\":"@ + dec_str(status) + ",\"body\":"@ + body + "}"@
}

/// Serializes the reply for a lookup that returned a status and a body.
/// The body is inserted verbatim, not escaped; a body that itself holds
/// quotes or control characters makes the reply malformed as JSON.
pub fn doh_response(status: u16, body: &str) -> (r: Vec<u8>)
    ensures
        r@ == encode_utf8(doh_response_chars(status as nat, body@)),
{
    let mut s = "{\"status\":".to_owned();
    let d = dec_string(status);
    s.append(d.as_str());
    s.append(",\"body\":");
    s.append(body);
    s.append("}");
    s.as_str().as_bytes_vec()
}

/// Serializes the reply for a lookup that failed: the bytes of the error's
/// text alone, with no surrounding structure.
pub fn doh_error_response(message: &str) -> (r: Vec<u8>)
    ensures
        r@ == encode_utf8(message@),
{
    message.as_bytes_vec()
}

/// For every payload whose trimmed text starts with `"DOH "`,
/// classification yields the command whose argument is that text minus the
/// prefix, and the query URL embeds exactly that argument, trimmed and
/// percent-encoded.
pub proof fn lemma_command_classification(b: Seq<u8>)
    requires
        valid_utf8(b),
        has_command_prefix(trim_spec(decode_utf8(b))),
    ensures
        is_command_payload(b),
        command_rest(b) == trim_spec(decode_utf8(b)).skip(4),
        doh_url_spec(command_rest(b)) == "https://cloudflare-dns.com/dns-query?name="@
            + pct_encode(encode_utf8(trim_spec(trim_spec(decode_utf8(b)).skip(4)))) + "&type=A"@,
{
}

} // verus!
