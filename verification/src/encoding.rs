//! Base64 decoding for token payloads and percent-encoding for query values.

use crate::text::{find_char, from_chars, lemma_find_char_is, to_chars};
use vstd::prelude::*;
use vstd::string::*;

verus! {

// ---------------------------------------------------------------------------
// Base64
// ---------------------------------------------------------------------------

/// The six-bit value of a character of the standard base64 alphabet.
pub open spec fn base64_value(c: char) -> Option<int> {
    if 'A' <= c && c <= 'Z' {
        Some(c as int - 'A' as int)
    } else if 'a' <= c && c <= 'z' {
        Some(c as int - 'a' as int + 26)
    } else if '0' <= c && c <= '9' {
        Some(c as int - '0' as int + 52)
    } else if c == '+' {
        Some(62)
    } else if c == '/' {
        Some(63)
    } else {
        None
    }
}

/// What is decoded: the characters in front of the first `=`.
pub open spec fn base64_body(s: Seq<char>) -> Seq<char> {
    s.take(find_char(s, '='))
}

/// Whether every character of `body` belongs to the alphabet.
pub open spec fn base64_alphabet_only(body: Seq<char>) -> bool {
    forall|i: int| 0 <= i < body.len() ==> base64_value(#[trigger] body[i]) is Some
}

/// Number of whole bytes that `n` six-bit characters hold.
pub open spec fn base64_decoded_len(n: int) -> int {
    (n / 4) * 3 + if n % 4 >= 2 {
        n % 4 - 1
    } else {
        0
    }
}

/// Byte `k` of the decoded text: every four characters hold three bytes,
/// most significant bits first.
pub open spec fn base64_byte(body: Seq<char>, k: int) -> int {
    let j = (k / 3) * 4 + k % 3;
    let hi = base64_value(body[j])->0;
    let lo = base64_value(body[j + 1])->0;
    if k % 3 == 0 {
        hi * 4 + lo / 16
    } else if k % 3 == 1 {
        (hi % 16) * 16 + lo / 4
    } else {
        (hi % 4) * 64 + lo
    }
}

/// The bytes that `s` holds in base64. Decoding stops at the first `=`;
/// bits that fill no whole byte are dropped. A character outside the
/// alphabet in front of the first `=` makes the text undecodable.
pub open spec fn base64_decoded(s: Seq<char>) -> Option<Seq<u8>> {
    let body = base64_body(s);
    if base64_alphabet_only(body) {
        Some(Seq::new(base64_decoded_len(body.len() as int) as nat, |k: int| base64_byte(body, k) as u8))
    } else {
        None
    }
}

/// A character of the URL-safe alphabet as its standard counterpart.
pub open spec fn url_safe_to_standard(c: char) -> char {
    if c == '-' {
        '+'
    } else if c == '_' {
        '/'
    } else {
        c
    }
}

/// The bytes that `s` holds in URL-safe base64, padded or not.
pub open spec fn base64_url_decoded(s: Seq<char>) -> Option<Seq<u8>> {
    base64_decoded(s.map_values(|c: char| url_safe_to_standard(c)))
}

/// The six-bit value of `c`, if it belongs to the standard alphabet.
pub fn base64_value_of(c: char) -> (r: Option<u8>)
    ensures
        match r {
            Some(v) => base64_value(c) == Some(v as int) && v < 64,
            None => base64_value(c) is None,
        },
{
    if c >= 'A' && c <= 'Z' {
        Some((c as u32 - 'A' as u32) as u8)
    } else if c >= 'a' && c <= 'z' {
        Some((c as u32 - 'a' as u32 + 26) as u8)
    } else if c >= '0' && c <= '9' {
        Some((c as u32 - '0' as u32 + 52) as u8)
    } else if c == '+' {
        Some(62)
    } else if c == '/' {
        Some(63)
    } else {
        None
    }
}

/// Decodes standard base64, leniently: padding is not checked.
pub fn base64_decode_simple(input: &str) -> (r: Result<Vec<u8>, ()>)
    ensures
        match r {
            Ok(bytes) => base64_decoded(input@) == Some(bytes@),
            Err(_) => base64_decoded(input@) is None,
        },
{
    let chars = to_chars(input);
    let mut output: Vec<u8> = Vec::new();
    let mut held: u8 = 0;
    let mut i: usize = 0;
    while i < chars.len() && chars[i] != '='
        invariant
            i <= chars.len(),
            chars@ == input@,
            forall|j: int| 0 <= j < i ==> chars@[j] != '=',
            base64_alphabet_only(chars@.take(i as int)),
            output@.len() == base64_decoded_len(i as int),
            forall|k: int|
                0 <= k < output@.len() ==> output@[k] == base64_byte(chars@, k),
            held < 64,
            i % 4 == 2 ==> held < 16,
            i % 4 == 3 ==> held < 4,
            i % 4 == 0 ==> held == 0,
            i % 4 == 1 ==> held == base64_value(chars@[i - 1])->0,
            i % 4 == 2 ==> held == base64_value(chars@[i - 1])->0 % 16,
            i % 4 == 3 ==> held == base64_value(chars@[i - 1])->0 % 4,
        decreases chars.len() - i,
    {
        match base64_value_of(chars[i]) {
            None => {
                proof {
                    lemma_body_reaches(chars@, i as int);
                    assert(base64_body(chars@)[i as int] == chars@[i as int]);
                }
                return Err(());
            },
            Some(v) => {
                proof {
                    assert forall|j: int| 0 <= j < i + 1 implies base64_value(
                        #[trigger] chars@.take(i + 1)[j],
                    ) is Some by {
                        if j < i {
                            assert(chars@.take(i as int)[j] == chars@[j]);
                        }
                    }
                }
                let phase = i % 4;
                if phase == 0 {
                    held = v;
                } else if phase == 1 {
                    output.push(held * 4 + v / 16);
                    held = v % 16;
                } else if phase == 2 {
                    output.push(held * 16 + v / 4);
                    held = v % 4;
                } else {
                    output.push(held * 64 + v);
                    held = 0;
                }
            },
        }
        i += 1;
    }
    proof {
        lemma_find_char_is(chars@, '=', i as int);
        let body = base64_body(chars@);
        assert(body == chars@.take(i as int));
        assert forall|k: int| 0 <= k < output@.len() implies output@[k] == base64_byte(
            body,
            k,
        ) as u8 by {
            let j = (k / 3) * 4 + k % 3;
            assert(body[j] == chars@[j]);
            assert(body[j + 1] == chars@[j + 1]);
        }
        assert(output@ =~= Seq::new(
            base64_decoded_len(body.len() as int) as nat,
            |k: int| base64_byte(body, k) as u8,
        ));
    }
    Ok(output)
}

/// The body of `s` reaches at least to `i` when no `=` stands in front of `i`.
proof fn lemma_body_reaches(s: Seq<char>, i: int)
    requires
        0 <= i < s.len(),
        forall|j: int| 0 <= j <= i ==> s[j] != '=',
    ensures
        i < base64_body(s).len(),
        base64_body(s)[i] == s[i],
{
    crate::text::lemma_find_char(s, '=');
    let f = find_char(s, '=');
    if f <= i {
        assert(s[f] == '=');
    }
}

/// Decodes URL-safe base64 as it stands in tokens, with or without padding.
pub fn base64_url_decode(input: &str) -> (r: Option<Vec<u8>>)
    ensures
        match r {
            Some(bytes) => base64_url_decoded(input@) == Some(bytes@),
            None => base64_url_decoded(input@) is None,
        },
{
    let chars = to_chars(input);
    let mut standard: Vec<char> = Vec::new();
    let mut i: usize = 0;
    while i < chars.len()
        invariant
            i <= chars.len(),
            standard@ == chars@.take(i as int).map_values(|c: char| url_safe_to_standard(c)),
        decreases chars.len() - i,
    {
        let c = chars[i];
        let mapped = if c == '-' {
            '+'
        } else if c == '_' {
            '/'
        } else {
            c
        };
        proof {
            assert(chars@.take(i + 1) == chars@.take(i as int).push(c));
            assert(chars@.take(i as int).push(c).map_values(|c: char| url_safe_to_standard(c))
                =~= chars@.take(i as int).map_values(|c: char| url_safe_to_standard(c)).push(
                mapped,
            ));
        }
        standard.push(mapped);
        i += 1;
    }
    proof {
        assert(chars@.take(chars.len() as int) == chars@);
    }
    let text = from_chars(&standard);
    match base64_decode_simple(text.as_str()) {
        Ok(bytes) => Some(bytes),
        Err(_) => None,
    }
}

// ---------------------------------------------------------------------------
// Percent-encoding
// ---------------------------------------------------------------------------

/// Bytes that stay as they are: ASCII letters, digits, `-`, `.`, `_`, `~`.
pub open spec fn is_unreserved(b: u8) -> bool {
    ||| (0x30 <= b && b <= 0x39)
    ||| (0x41 <= b && b <= 0x5a)
    ||| (0x61 <= b && b <= 0x7a)
    ||| b == 0x2d
    ||| b == 0x2e
    ||| b == 0x5f
    ||| b == 0x7e
}

/// The upper-case hexadecimal digit for `d < 16`.
pub open spec fn hex_upper(d: int) -> char {
    if d < 10 {
        (d + 48) as u8 as char
    } else {
        (d + 55) as u8 as char
    }
}

/// One byte, percent-encoded.
pub open spec fn percent_encoded_byte(b: u8) -> Seq<char> {
    if is_unreserved(b) {
        seq![b as char]
    } else {
        seq!['%', hex_upper(b as int / 16), hex_upper(b as int % 16)]
    }
}

/// A run of bytes, percent-encoded byte by byte.
pub open spec fn percent_encoded(bytes: Seq<u8>) -> Seq<char>
    decreases bytes.len(),
{
    if bytes.len() == 0 {
        Seq::<char>::empty()
    } else {
        percent_encoded(bytes.drop_last()) + percent_encoded_byte(bytes.last())
    }
}

/// The percent-encoding of a text: that of its UTF-8 bytes.
pub open spec fn url_encoded(s: Seq<char>) -> Seq<char> {
    percent_encoded(vstd::utf8::encode_utf8(s))
}

/// Percent-encodes `s` for use as a query value. Calls `urlencoding::encode`,
/// which walks the UTF-8 bytes of its argument, keeps ASCII letters, digits
/// and `-`, `.`, `_`, `~`, and writes every other byte as `%` and two
/// upper-case hexadecimal digits.
#[verifier::external_body]
pub(crate) fn url_encode(s: &str) -> (r: String)
    ensures
        r@ == url_encoded(s@),
{
    urlencoding::encode(s).into_owned()
}

} // verus!
