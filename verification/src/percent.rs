//! Percent-decoding of URL components.
//!
//! A component is a sequence of bytes. `%` followed by two hexadecimal digits
//! stands for the byte with that value, `+` stands for a space, and every
//! other byte stands for itself. A `%` that is not followed by two
//! hexadecimal digits is no escape and stands for itself too: decoding never
//! fails.

use vstd::prelude::*;
use vstd::string::StringSliceAdditionalSpecFns;
use vstd::utf8::{decode_utf8, encode_utf8, is_ascii_chars, valid_utf8};
use crate::text::{string_from_utf8_lossy, text_of_bytes};

verus! {

/// The byte `%`.
pub const PERCENT: u8 = 0x25;

/// The byte `+`.
pub const PLUS: u8 = 0x2b;

/// The byte of a space.
pub const SPACE: u8 = 0x20;

/// The value of a hexadecimal digit, in either case.
pub open spec fn hex_value(byte: u8) -> Option<u8> {
    if 0x30 <= byte <= 0x39 {
        Some((byte - 0x30) as u8)
    } else if 0x41 <= byte <= 0x46 {
        Some((byte - 0x41 + 10) as u8)
    } else if 0x61 <= byte <= 0x66 {
        Some((byte - 0x61 + 10) as u8)
    } else {
        None
    }
}

/// Reads a hexadecimal digit.
pub fn hex_digit(byte: u8) -> (value: Option<u8>)
    ensures
        value == hex_value(byte),
        value is Some ==> value->0 < 16,
{
    if 0x30 <= byte && byte <= 0x39 {
        Some(byte - 0x30)
    } else if 0x41 <= byte && byte <= 0x46 {
        Some(byte - 0x41 + 10)
    } else if 0x61 <= byte && byte <= 0x66 {
        Some(byte - 0x61 + 10)
    } else {
        None
    }
}

/// Whether `bytes` begins with a well-formed escape.
pub open spec fn escape_at(bytes: Seq<u8>) -> bool {
    &&& bytes.len() >= 3
    &&& bytes[0] == PERCENT
    &&& hex_value(bytes[1]) is Some
    &&& hex_value(bytes[2]) is Some
}

/// The byte that the escape at the beginning of `bytes` stands for.
pub open spec fn escaped_byte(bytes: Seq<u8>) -> u8
    recommends
        escape_at(bytes),
{
    (hex_value(bytes[1])->0 * 16 + hex_value(bytes[2])->0) as u8
}

/// The bytes that `bytes` stand for.
pub open spec fn unescape(bytes: Seq<u8>) -> Seq<u8>
    decreases bytes.len(),
{
    if bytes.len() == 0 {
        Seq::empty()
    } else if escape_at(bytes) {
        seq![escaped_byte(bytes)] + unescape(bytes.skip(3))
    } else if bytes[0] == PLUS {
        seq![SPACE] + unescape(bytes.skip(1))
    } else {
        seq![bytes[0]] + unescape(bytes.skip(1))
    }
}

/// The text that the percent-encoded text `encoded` stands for.
pub open spec fn percent_decoded(encoded: Seq<char>) -> Seq<char> {
    text_of_bytes(unescape(encode_utf8(encoded)))
}

/// Decodes the bytes from `from` up to `to`.
pub fn unescape_range(bytes: &[u8], from: usize, to: usize) -> (decoded: Vec<u8>)
    requires
        from <= to <= bytes@.len(),
    ensures
        decoded@ == unescape(bytes@.subrange(from as int, to as int)),
{
    let mut decoded: Vec<u8> = Vec::new();
    let mut i: usize = from;
    while i < to
        invariant
            from <= i <= to <= bytes@.len(),
            decoded@ + unescape(bytes@.subrange(i as int, to as int)) == unescape(
                bytes@.subrange(from as int, to as int),
            ),
        decreases to - i,
    {
        let ghost rest = bytes@.subrange(i as int, to as int);
        let ghost before = decoded@;
        let mut step: usize = 1;
        let mut byte: u8 = bytes[i];
        if byte == PERCENT && to - i >= 3 {
            match (hex_digit(bytes[i + 1]), hex_digit(bytes[i + 2])) {
                (Some(high), Some(low)) => {
                    byte = high * 16 + low;
                    step = 3;
                },
                _ => {},
            }
        } else if byte == PLUS {
            byte = SPACE;
        }
        decoded.push(byte);
        proof {
            assert(rest.skip(step as int) =~= bytes@.subrange(i + step, to as int));
            assert(unescape(rest) == seq![byte] + unescape(rest.skip(step as int)));
            assert(decoded@ =~= before + seq![byte]);
            assert(decoded@ + unescape(rest.skip(step as int)) =~= before + unescape(rest));
        }
        i += step;
    }
    assert(decoded@ + Seq::<u8>::empty() =~= decoded@);
    decoded
}

/// Decodes percent-encoded text. Bytes that do not form UTF-8 after decoding
/// are replaced as `String::from_utf8_lossy` replaces them.
pub fn percent_decode(encoded: &str) -> (decoded: String)
    ensures
        decoded@ == percent_decoded(encoded@),
{
    let bytes = encoded.as_bytes();
    let raw = unescape_range(bytes, 0, bytes.len());
    assert(bytes@.subrange(0, bytes@.len() as int) =~= bytes@);
    string_from_utf8_lossy(&raw)
}

/// Whether a byte is written as it stands when text is percent-encoded:
/// letters, digits, `-`, `.`, `_` and `~`.
pub open spec fn is_unreserved(byte: u8) -> bool {
    ||| 0x30 <= byte <= 0x39
    ||| 0x41 <= byte <= 0x5a
    ||| 0x61 <= byte <= 0x7a
    ||| byte == 0x2d
    ||| byte == 0x2e
    ||| byte == 0x5f
    ||| byte == 0x7e
}

/// The upper-case hexadecimal digit for a value below 16.
pub open spec fn hex_char(value: u8) -> u8
    recommends
        value < 16,
{
    if value < 10 {
        (0x30 + value) as u8
    } else {
        (0x41 + value - 10) as u8
    }
}

/// The percent-encoding of one byte.
pub open spec fn escape_byte(byte: u8) -> Seq<u8> {
    if is_unreserved(byte) {
        seq![byte]
    } else {
        seq![PERCENT, hex_char(byte / 16), hex_char(byte % 16)]
    }
}

/// The percent-encoding of `bytes`: every byte that is not unreserved is
/// written as an escape.
pub open spec fn escape(bytes: Seq<u8>) -> Seq<u8>
    decreases bytes.len(),
{
    if bytes.len() == 0 {
        Seq::empty()
    } else {
        escape_byte(bytes[0]) + escape(bytes.skip(1))
    }
}

/// The percent-encoding of `text`, as text.
pub open spec fn percent_encoded(text: Seq<char>) -> Seq<char> {
    escape(encode_utf8(text)).map_values(|byte: u8| byte as char)
}

fn hex_char_of(value: u8) -> (digit: u8)
    requires
        value < 16,
    ensures
        digit == hex_char(value),
{
    if value < 10 {
        0x30 + value
    } else {
        0x41 + value - 10
    }
}

fn is_unreserved_byte(byte: u8) -> (unreserved: bool)
    ensures
        unreserved == is_unreserved(byte),
{
    (0x30 <= byte && byte <= 0x39) || (0x41 <= byte && byte <= 0x5a) || (0x61 <= byte && byte
        <= 0x7a) || byte == 0x2d || byte == 0x2e || byte == 0x5f || byte == 0x7e
}

/// Encodes `bytes`.
pub fn escape_bytes(bytes: &[u8]) -> (encoded: Vec<u8>)
    ensures
        encoded@ == escape(bytes@),
{
    let mut encoded: Vec<u8> = Vec::new();
    let mut i: usize = 0;
    assert(bytes@.skip(0) =~= bytes@);
    assert(encoded@ + escape(bytes@) =~= escape(bytes@));
    while i < bytes.len()
        invariant
            i <= bytes@.len(),
            encoded@ + escape(bytes@.skip(i as int)) == escape(bytes@),
        decreases bytes.len() - i,
    {
        let ghost rest = bytes@.skip(i as int);
        let ghost before = encoded@;
        let byte = bytes[i];
        if is_unreserved_byte(byte) {
            encoded.push(byte);
        } else {
            encoded.push(PERCENT);
            encoded.push(hex_char_of(byte / 16));
            encoded.push(hex_char_of(byte % 16));
        }
        proof {
            assert(rest.skip(1) =~= bytes@.skip(i + 1));
            assert(encoded@ =~= before + escape_byte(byte));
            assert(encoded@ + escape(rest.skip(1)) =~= before + escape(rest));
        }
        i += 1;
    }
    assert(bytes@.skip(i as int) =~= Seq::<u8>::empty());
    assert(encoded@ + Seq::<u8>::empty() =~= encoded@);
    encoded
}

/// Percent-encodes text, so that [`percent_decode`] gives it back.
pub fn percent_encode(text: &str) -> (encoded: String)
    ensures
        encoded@ == percent_encoded(text@),
{
    let raw = escape_bytes(text.as_bytes());
    proof {
        lemma_ascii_text_of_escape(encode_utf8(text@));
    }
    string_from_utf8_lossy(&raw)
}

/// Encoded bytes are ASCII, so the text that they stand for has one
/// character per byte.
pub proof fn lemma_ascii_text_of_escape(bytes: Seq<u8>)
    ensures
        valid_utf8(escape(bytes)),
        text_of_bytes(escape(bytes)) == escape(bytes).map_values(|byte: u8| byte as char),
        encode_utf8(escape(bytes).map_values(|byte: u8| byte as char)) == escape(bytes),
{
    let encoded = escape(bytes);
    let text = encoded.map_values(|byte: u8| byte as char);
    lemma_escape_is_ascii(bytes);
    assert(is_ascii_chars(text)) by {
        assert forall|i: int| 0 <= i < text.len() implies (0 <= (#[trigger] text[i] as nat)
            < 128) by {
            assert(encoded[i] < 0x80);
        }
    }
    vstd::utf8::is_ascii_chars_encode_utf8(text);
    assert(encode_utf8(text) =~= encoded) by {
        assert forall|i: int| 0 <= i < text.len() implies text[i] as u8 == encoded[i] by {
            assert(encoded[i] < 0x80);
        }
    }
    vstd::utf8::encode_utf8_valid_utf8(text);
    vstd::utf8::encode_utf8_decode_utf8(text);
}

/// Whether `bytes` hold neither `%` nor `+`.
pub open spec fn is_plain(bytes: Seq<u8>) -> bool {
    forall|i: int| 0 <= i < bytes.len() ==> bytes[i] != PERCENT && bytes[i] != PLUS
}

/// A `%` that does not begin a well-formed escape stands for itself, and
/// decoding goes on with the byte behind it.
pub proof fn lemma_malformed_escape_is_literal(bytes: Seq<u8>)
    requires
        bytes.len() > 0,
        bytes[0] == PERCENT,
        !escape_at(bytes),
    ensures
        unescape(bytes) == seq![PERCENT] + unescape(bytes.skip(1)),
{
}

/// Decoding never makes a component longer.
pub proof fn lemma_unescape_is_no_longer(bytes: Seq<u8>)
    ensures
        unescape(bytes).len() <= bytes.len(),
    decreases bytes.len(),
{
    if bytes.len() > 0 {
        if escape_at(bytes) {
            lemma_unescape_is_no_longer(bytes.skip(3));
        } else {
            lemma_unescape_is_no_longer(bytes.skip(1));
        }
    }
}

/// Bytes without `%` and `+` stand for themselves.
pub proof fn lemma_unescape_plain(bytes: Seq<u8>)
    requires
        is_plain(bytes),
    ensures
        unescape(bytes) == bytes,
    decreases bytes.len(),
{
    if bytes.len() > 0 {
        assert(bytes[0] != PERCENT && bytes[0] != PLUS);
        lemma_unescape_plain(bytes.skip(1));
        assert(seq![bytes[0]] + bytes.skip(1) =~= bytes);
    }
}

/// Decoding undoes encoding, byte for byte.
pub proof fn lemma_unescape_escape(bytes: Seq<u8>)
    ensures
        unescape(escape(bytes)) == bytes,
    decreases bytes.len(),
{
    if bytes.len() > 0 {
        let byte = bytes[0];
        let rest = escape(bytes.skip(1));
        let encoded = escape(bytes);
        lemma_unescape_escape(bytes.skip(1));
        if is_unreserved(byte) {
            assert(encoded[0] == byte);
            assert(encoded.skip(1) =~= rest);
        } else {
            assert(encoded[0] == PERCENT);
            assert(encoded[1] == hex_char(byte / 16));
            assert(encoded[2] == hex_char(byte % 16));
            assert(hex_value(hex_char(byte / 16)) == Some((byte / 16) as u8));
            assert(hex_value(hex_char(byte % 16)) == Some((byte % 16) as u8));
            assert(escaped_byte(encoded) == byte);
            assert(encoded.skip(3) =~= rest);
        }
        assert(seq![byte] + bytes.skip(1) =~= bytes);
    }
}

/// Encoded bytes are ASCII.
pub proof fn lemma_escape_is_ascii(bytes: Seq<u8>)
    ensures
        forall|i: int| 0 <= i < escape(bytes).len() ==> (#[trigger] escape(bytes)[i]) < 0x80,
    decreases bytes.len(),
{
    if bytes.len() > 0 {
        lemma_escape_is_ascii(bytes.skip(1));
        let head = escape_byte(bytes[0]);
        let rest = escape(bytes.skip(1));
        assert forall|i: int| 0 <= i < escape(bytes).len() implies (#[trigger] escape(bytes)[i])
            < 0x80 by {
            if i < head.len() {
                assert(escape(bytes)[i] == head[i]);
            } else {
                assert(escape(bytes)[i] == rest[i - head.len()]);
            }
        }
    }
}

/// Text whose bytes hold neither `%` nor `+` is its own decoding.
pub proof fn lemma_percent_decode_plain(text: Seq<char>)
    requires
        is_plain(encode_utf8(text)),
    ensures
        percent_decoded(text) == text,
{
    lemma_unescape_plain(encode_utf8(text));
    vstd::utf8::encode_utf8_valid_utf8(text);
    vstd::utf8::encode_utf8_decode_utf8(text);
}

/// Decoding the percent-encoding of any text gives the text back.
pub proof fn lemma_percent_decode_encode(text: Seq<char>)
    ensures
        percent_decoded(percent_encoded(text)) == text,
{
    let bytes = encode_utf8(text);
    lemma_ascii_text_of_escape(bytes);
    lemma_unescape_escape(bytes);
    vstd::utf8::encode_utf8_valid_utf8(text);
    vstd::utf8::encode_utf8_decode_utf8(text);
}

} // verus!
