//! Percent-decoding of the URL carried by an action.
use vstd::prelude::*;
use vstd::utf8::{decode_utf8, encode_utf8, valid_utf8, encode_utf8_valid_utf8, encode_utf8_decode_utf8};

verus! {

/// An ASCII hexadecimal digit, either case.
pub open spec fn is_hex_digit(b: u8) -> bool {
    (0x30 <= b <= 0x39) || (0x41 <= b <= 0x46) || (0x61 <= b <= 0x66)
}

/// The value of a hexadecimal digit.
pub open spec fn hex_value(b: u8) -> int {
    if b <= 0x39 {
        b - 0x30
    } else if b <= 0x46 {
        b - 0x41 + 10
    } else {
        b - 0x61 + 10
    }
}

/// Percent-decoding of bytes: `%` followed by two hexadecimal digits stands for
/// the byte they spell; every other byte, a lone `%` included, stands for itself.
pub open spec fn percent_decode_bytes(b: Seq<u8>) -> Seq<u8>
    decreases b.len(),
{
    if b.len() == 0 {
        seq![]
    } else if b[0] == 0x25 && b.len() >= 3 && is_hex_digit(b[1]) && is_hex_digit(b[2]) {
        seq![(hex_value(b[1]) * 16 + hex_value(b[2])) as u8] + percent_decode_bytes(b.skip(3))
    } else {
        seq![b[0]] + percent_decode_bytes(b.drop_first())
    }
}

/// What decoding `url` gives: the characters whose UTF-8 encoding is its
/// percent-decoded bytes, or `None` where those bytes are not UTF-8.
pub open spec fn decoded(url: Seq<char>) -> Option<Seq<char>> {
    let bytes = percent_decode_bytes(encode_utf8(url));
    if valid_utf8(bytes) {
        Some(decode_utf8(bytes))
    } else {
        None
    }
}

/// The upper-case hexadecimal digit of `n`, for `n < 16`.
pub open spec fn hex_digit(n: u8) -> u8 {
    if n < 10 {
        (0x30 + n) as u8
    } else {
        (0x41 + n - 10) as u8
    }
}

/// Percent-encoding of bytes: a byte that `keep` admits and that is not `%`
/// stays as it is, every other byte becomes `%` and two hexadecimal digits.
pub open spec fn percent_encode_bytes(b: Seq<u8>, keep: spec_fn(u8) -> bool) -> Seq<u8>
    decreases b.len(),
{
    if b.len() == 0 {
        seq![]
    } else {
        let head = if keep(b[0]) && b[0] != 0x25 {
            seq![b[0]]
        } else {
            seq![0x25u8, hex_digit(b[0] / 16), hex_digit(b[0] % 16)]
        };
        head + percent_encode_bytes(b.drop_first(), keep)
    }
}

/// Relies on percent_encoding::percent_decode_str, which yields each byte of
/// the string with every `%` and two hexadecimal digits replaced by the byte
/// they spell, and on its `decode_utf8`, which fails exactly when those bytes
/// are not UTF-8.
#[verifier::external_body]
fn percent_decode_utf8(s: &str) -> (r: Option<String>)
    ensures
        match r {
            Some(t) => valid_utf8(percent_decode_bytes(encode_utf8(s@))) && t@ == decode_utf8(
                percent_decode_bytes(encode_utf8(s@)),
            ),
            None => !valid_utf8(percent_decode_bytes(encode_utf8(s@))),
        },
{
    match percent_encoding::percent_decode_str(s).decode_utf8() {
        Ok(c) => Some(c.into_owned()),
        Err(_) => None,
    }
}

/// Percent-decodes a URL; `None` where the decoded bytes are not UTF-8.
pub fn decode_url(url: &str) -> (r: Option<String>)
    ensures
        match r {
            Some(t) => decoded(url@) == Some(t@),
            None => decoded(url@) == None::<Seq<char>>,
        },
{
    percent_decode_utf8(url)
}

proof fn lemma_hex_digit(n: u8)
    requires
        n < 16,
    ensures
        is_hex_digit(hex_digit(n)),
        hex_value(hex_digit(n)) == n,
{
}

proof fn lemma_decode_encode_bytes(b: Seq<u8>, keep: spec_fn(u8) -> bool)
    ensures
        percent_decode_bytes(percent_encode_bytes(b, keep)) == b,
    decreases b.len(),
{
    if b.len() > 0 {
        let rest = percent_encode_bytes(b.drop_first(), keep);
        let enc = percent_encode_bytes(b, keep);
        lemma_decode_encode_bytes(b.drop_first(), keep);
        if keep(b[0]) && b[0] != 0x25 {
            assert(enc.drop_first() =~= rest);
        } else {
            let hi = (b[0] / 16) as u8;
            let lo = (b[0] % 16) as u8;
            lemma_hex_digit(hi);
            lemma_hex_digit(lo);
            assert(enc.skip(3) =~= rest);
            assert(hi * 16 + lo == b[0]);
        }
        assert(percent_decode_bytes(enc) =~= b);
    }
}

/// Decoding a URL gives back the text it was percent-encoded from, whichever
/// bytes the encoder chose to leave as they were.
pub proof fn law_percent_round_trip(text: Seq<char>, keep: spec_fn(u8) -> bool, url: Seq<char>)
    requires
        encode_utf8(url) == percent_encode_bytes(encode_utf8(text), keep),
    ensures
        decoded(url) == Some(text),
{
    lemma_decode_encode_bytes(encode_utf8(text), keep);
    encode_utf8_valid_utf8(text);
    encode_utf8_decode_utf8(text);
}

} // verus!
