//! Hexadecimal text: what it means, and the calls that produce and read it.

use vstd::prelude::*;
use vstd::utf8::{encode_scalar, encode_utf8, has_width_1_encoding, has_width_2_encoding};
use vstd::utf8::{has_width_3_encoding, is_ascii_chars, is_ascii_chars_encode_utf8};

verus! {

/// Whether `b` is an ASCII hexadecimal digit, in either case.
pub open spec fn is_hex_digit(b: u8) -> bool {
    ||| 0x30 <= b <= 0x39
    ||| 0x41 <= b <= 0x46
    ||| 0x61 <= b <= 0x66
}

/// Whether `c` is one of `0`..`9`, `a`..`f`.
pub open spec fn is_lower_hex_char(c: char) -> bool {
    ||| '0' <= c <= '9'
    ||| 'a' <= c <= 'f'
}

/// Whether `c` is a hexadecimal digit, in either case.
pub open spec fn is_hex_digit_char(c: char) -> bool {
    ||| '0' <= c <= '9'
    ||| 'A' <= c <= 'F'
    ||| 'a' <= c <= 'f'
}

/// The number that the hexadecimal digit `b` stands for.
pub open spec fn digit_value(b: u8) -> int {
    if 0x30 <= b <= 0x39 {
        b - 0x30
    } else if 0x41 <= b <= 0x46 {
        b - 0x41 + 10
    } else {
        b - 0x61 + 10
    }
}

/// The lower-case digit for a number below sixteen.
pub open spec fn lower_digit(v: int) -> char {
    if v < 10 {
        ((0x30 + v) as u8) as char
    } else {
        ((0x61 + v - 10) as u8) as char
    }
}

/// Hexadecimal text: an even number of bytes, each a hexadecimal digit.
pub open spec fn is_hex(text: Seq<u8>) -> bool {
    &&& text.len() % 2 == 0
    &&& forall|i: int| 0 <= i < text.len() ==> is_hex_digit(#[trigger] text[i])
}

/// Hexadecimal text as characters: an even number of them, each a
/// hexadecimal digit.
pub open spec fn is_hex_text(text: Seq<char>) -> bool {
    &&& text.len() % 2 == 0
    &&& forall|i: int| 0 <= i < text.len() ==> is_hex_digit_char(#[trigger] text[i])
}

/// The bytes that hexadecimal text stands for: two digits a byte, the high
/// half first.
pub open spec fn decoded(text: Seq<u8>) -> Seq<u8> {
    Seq::new(
        text.len() / 2,
        |i: int| (16 * digit_value(text[2 * i]) + digit_value(text[2 * i + 1])) as u8,
    )
}

/// The character at place `i` of the text that stands for `bytes`.
pub open spec fn encoded_char(bytes: Seq<u8>, i: int) -> char {
    if i % 2 == 0 {
        lower_digit((bytes[i / 2] / 16) as int)
    } else {
        lower_digit((bytes[i / 2] % 16) as int)
    }
}

/// The lower-case hexadecimal text that stands for `bytes`.
pub open spec fn encoded(bytes: Seq<u8>) -> Seq<char> {
    Seq::new(2 * bytes.len(), |i: int| encoded_char(bytes, i))
}

/// ASCII text as bytes, one byte a character.
pub open spec fn ascii_bytes(text: Seq<char>) -> Seq<u8> {
    Seq::new(text.len(), |i: int| text[i] as u8)
}

/// Every character that `encoded_char` yields is a lower-case hexadecimal
/// digit, and its byte is the digit of the half it stands for.
pub proof fn lemma_encoded_char(bytes: Seq<u8>, i: int)
    ensures
        is_lower_hex_char(encoded_char(bytes, i)),
        is_hex_digit(encoded_char(bytes, i) as u8),
        i % 2 == 0 ==> digit_value(encoded_char(bytes, i) as u8) == bytes[i / 2] / 16,
        i % 2 != 0 ==> digit_value(encoded_char(bytes, i) as u8) == bytes[i / 2] % 16,
{
    let b = bytes[i / 2];
    let v: int = if i % 2 == 0 {
        (b / 16) as int
    } else {
        (b % 16) as int
    };
    assert(0 <= v < 16);
    assert(encoded_char(bytes, i) == lower_digit(v));
    if v < 10 {
        let n = (0x30 + v) as u8;
        assert(lower_digit(v) == n as char);
        assert((n as char) as u8 == n);
    } else {
        let n = (0x61 + v - 10) as u8;
        assert(lower_digit(v) == n as char);
        assert((n as char) as u8 == n);
    }
}

/// Encoded text is ASCII, is hexadecimal text, and decodes to the bytes it
/// was made from.
pub proof fn lemma_decode_encoded(bytes: Seq<u8>)
    ensures
        is_ascii_chars(encoded(bytes)),
        encode_utf8(encoded(bytes)) == ascii_bytes(encoded(bytes)),
        is_hex(ascii_bytes(encoded(bytes))),
        decoded(ascii_bytes(encoded(bytes))) == bytes,
{
    let text = encoded(bytes);
    let raw = ascii_bytes(text);
    assert forall|i: int| 0 <= i < text.len() implies '\0' <= #[trigger] text[i] <= '\u{7f}' by {
        lemma_encoded_char(bytes, i);
    }
    is_ascii_chars_encode_utf8(text);
    assert(encode_utf8(text) =~= raw);
    assert forall|i: int| 0 <= i < raw.len() implies is_hex_digit(#[trigger] raw[i]) by {
        lemma_encoded_char(bytes, i);
    }
    assert forall|k: int| 0 <= k < bytes.len() implies #[trigger] decoded(raw)[k] == bytes[k] by {
        lemma_encoded_char(bytes, 2 * k);
        lemma_encoded_char(bytes, 2 * k + 1);
        assert((2 * k) / 2 == k && (2 * k + 1) / 2 == k);
        let b = bytes[k];
        assert(16 * (b / 16) + b % 16 == b);
    }
    assert(decoded(raw) =~= bytes);
}

/// The UTF-8 encoding of a character is the character itself where that is
/// ASCII, and begins with a byte that is not ASCII where it is not.
proof fn lemma_first_byte(c: char)
    ensures
        '\0' <= c,
        encode_scalar(c as u32).len() > 0,
        c <= '\u{7f}' ==> encode_scalar(c as u32) == seq![c as u8],
        c > '\u{7f}' ==> encode_scalar(c as u32)[0] >= 0x80,
{
    let v = c as u32;
    if has_width_1_encoding(v) {
        assert((v & 0x7F) as u8 == v as u8) by (bit_vector)
            requires
                v <= 0x7F,
        ;
    } else if has_width_2_encoding(v) {
        assert(0xC0 | ((v >> 6) & 0x1F) as u8 >= 0x80) by (bit_vector);
    } else if has_width_3_encoding(v) {
        assert(0xE0 | ((v >> 12) & 0x0F) as u8 >= 0x80) by (bit_vector);
    } else {
        assert(0xF0 | ((v >> 18) & 0x7) as u8 >= 0x80) by (bit_vector);
    }
}

/// Characters whose UTF-8 bytes are all ASCII are ASCII themselves.
proof fn lemma_ascii_bytes_mean_ascii_text(text: Seq<char>)
    requires
        forall|i: int| 0 <= i < encode_utf8(text).len() ==> #[trigger] encode_utf8(text)[i] < 0x80,
    ensures
        is_ascii_chars(text),
    decreases text.len(),
{
    if text.len() > 0 {
        let head = encode_scalar(text[0] as u32);
        let tail = encode_utf8(text.drop_first());
        lemma_first_byte(text[0]);
        assert(encode_utf8(text) == head + tail);
        assert(encode_utf8(text)[0] == head[0]);
        assert forall|i: int| 0 <= i < tail.len() implies #[trigger] tail[i] < 0x80 by {
            assert(tail[i] == encode_utf8(text)[head.len() + i]);
        }
        lemma_ascii_bytes_mean_ascii_text(text.drop_first());
        assert forall|i: int| 0 <= i < text.len() implies '\0' <= #[trigger] text[i] <= '\u{7f}' by {
            if i > 0 {
                assert(text[i] == text.drop_first()[i - 1]);
            }
        }
    }
}

/// A string's UTF-8 bytes are hexadecimal text exactly when its characters
/// are, and then each byte is its character.
pub proof fn lemma_hex_text(text: Seq<char>)
    ensures
        is_hex(encode_utf8(text)) <==> is_hex_text(text),
        is_hex_text(text) ==> encode_utf8(text) == ascii_bytes(text),
{
    let bytes = encode_utf8(text);
    if is_hex(bytes) {
        lemma_ascii_bytes_mean_ascii_text(text);
    }
    if is_hex_text(text) {
        assert forall|i: int| 0 <= i < text.len() implies '\0' <= #[trigger] text[i] <= '\u{7f}' by {
            assert(is_hex_digit_char(text[i]));
        }
    }
    if is_ascii_chars(text) {
        is_ascii_chars_encode_utf8(text);
        assert(bytes =~= ascii_bytes(text));
        if is_hex(bytes) {
            assert forall|i: int| 0 <= i < text.len() implies is_hex_digit_char(
                #[trigger] text[i],
            ) by {
                assert(is_hex_digit(bytes[i]));
                assert(bytes[i] == text[i] as u8);
            }
        }
        if is_hex_text(text) {
            assert forall|i: int| 0 <= i < bytes.len() implies is_hex_digit(#[trigger] bytes[i]) by {
                assert(is_hex_digit_char(text[i]));
                assert(bytes[i] == text[i] as u8);
            }
        }
    }
}

/// `hex::FromHexError`: why `hex::decode` refused its input.
#[verifier::external_type_specification]
#[verifier::external_body]
pub struct ExFromHexError(hex::FromHexError);

/// `hex::encode`: the lower-case hexadecimal text of `data`, two characters
/// a byte, the high half first. The text must fit in a `String`.
#[verifier::external_body]
pub(crate) fn encode(data: &[u8]) -> (text: String)
    requires
        2 * data@.len() <= isize::MAX,
    ensures
        text@ == encoded(data@),
{
    hex::encode(data)
}

/// `hex::decode`: succeeds exactly on an even number of hexadecimal digits
/// of either case, and then returns the bytes they stand for.
#[verifier::external_body]
pub(crate) fn decode(text: &[u8]) -> (r: Result<Vec<u8>, hex::FromHexError>)
    ensures
        r is Ok <==> is_hex(text@),
        r is Ok ==> r->Ok_0@ == decoded(text@),
{
    hex::decode(text)
}

} // verus!
