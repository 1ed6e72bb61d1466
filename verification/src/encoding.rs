//! Percent-encoding of text for `application/x-www-form-urlencoded` bodies.
//!
//! Every byte of the UTF-8 encoding is escaped as `%XX`, in upper-case
//! hexadecimal, except letters, digits and `-`, `.`, `_`, `~`. The encoding
//! itself is done by the `urlencoding` crate.

use vstd::prelude::*;
use vstd::utf8::*;

verus! {

/// The bytes that are written as they are: ASCII letters and digits, and
/// `-`, `.`, `_`, `~`.
pub open spec fn is_unreserved(b: u8) -> bool {
    ||| 0x30 <= b <= 0x39
    ||| 0x41 <= b <= 0x5a
    ||| 0x61 <= b <= 0x7a
    ||| b == 0x2d
    ||| b == 0x2e
    ||| b == 0x5f
    ||| b == 0x7e
}

/// The ASCII code of the upper-case hexadecimal digit for `d`, `d` below 16.
pub open spec fn hex_digit(d: int) -> u8 {
    if d < 10 {
        (0x30 + d) as u8
    } else {
        (0x41 + d - 10) as u8
    }
}

/// One byte, written as itself or as `%` and two hexadecimal digits.
pub open spec fn encode_byte(b: u8) -> Seq<u8> {
    if is_unreserved(b) {
        seq![b]
    } else {
        seq![0x25u8, hex_digit(b as int / 16), hex_digit(b as int % 16)]
    }
}

/// The percent-encoding of a byte string.
pub open spec fn encode_bytes(data: Seq<u8>) -> Seq<u8>
    decreases data.len(),
{
    if data.len() == 0 {
        Seq::empty()
    } else {
        encode_byte(data.first()) + encode_bytes(data.drop_first())
    }
}

/// The percent-encoding of a text: the encoding of its UTF-8 bytes, read as
/// text again.
pub open spec fn percent_encoded(text: Seq<char>) -> Seq<char> {
    decode_utf8(encode_bytes(encode_utf8(text)))
}

/// Percent-encodes `text` with `urlencoding::encode`. Trusted: the result
/// is the input with every byte other than an ASCII letter, a digit, `-`,
/// `.`, `_` or `~` replaced by `%` and its two upper-case hexadecimal digits.
#[verifier::external_body]
pub(crate) fn percent_encode(text: &str) -> (r: String)
    ensures
        r@ == percent_encoded(text@),
{
    urlencoding::encode(text).into_owned()
}

/// Whether every byte is one that is written as it is.
pub open spec fn all_unreserved(data: Seq<u8>) -> bool {
    forall|i: int| 0 <= i < data.len() ==> is_unreserved(#[trigger] data[i])
}

/// Whether every byte is unreserved or `%`.
pub open spec fn all_safe(data: Seq<u8>) -> bool {
    forall|i: int| 0 <= i < data.len() ==> (is_unreserved(#[trigger] data[i]) || data[i] == 0x25)
}

proof fn lemma_encode_bytes_unreserved(data: Seq<u8>)
    requires
        all_unreserved(data),
    ensures
        encode_bytes(data) == data,
    decreases data.len(),
{
    if data.len() > 0 {
        assert(is_unreserved(data[0]));
        assert forall|i: int| 0 <= i < data.drop_first().len() implies is_unreserved(
            #[trigger] data.drop_first()[i],
        ) by {
            assert(data.drop_first()[i] == data[i + 1]);
        }
        lemma_encode_bytes_unreserved(data.drop_first());
        assert(seq![data[0]] + data.drop_first() =~= data);
    } else {
        assert(data =~= Seq::empty());
    }
}

proof fn lemma_encode_bytes_safe(data: Seq<u8>)
    ensures
        all_safe(encode_bytes(data)),
    decreases data.len(),
{
    if data.len() > 0 {
        lemma_encode_bytes_safe(data.drop_first());
        let head = encode_byte(data.first());
        let tail = encode_bytes(data.drop_first());
        assert forall|i: int| 0 <= i < (head + tail).len() implies (is_unreserved(
            #[trigger] (head + tail)[i],
        ) || (head + tail)[i] == 0x25) by {
            if i < head.len() {
                assert((head + tail)[i] == head[i]);
            } else {
                assert((head + tail)[i] == tail[i - head.len()]);
            }
        }
    }
}

/// Whether a character is an ASCII letter, a digit or one of `-`, `.`,
/// `_`, `~`.
pub open spec fn is_plain_char(c: char) -> bool {
    ||| '0' <= c <= '9'
    ||| 'A' <= c <= 'Z'
    ||| 'a' <= c <= 'z'
    ||| c == '-'
    ||| c == '.'
    ||| c == '_'
    ||| c == '~'
}

/// Whether a text holds nothing but letters, digits and `-`, `.`, `_`, `~`.
pub open spec fn is_plain(text: Seq<char>) -> bool {
    forall|i: int| 0 <= i < text.len() ==> is_plain_char(#[trigger] text[i])
}

/// A text of letters, digits and `-`, `.`, `_`, `~` is its own encoding.
pub proof fn lemma_plain_text_unchanged(text: Seq<char>)
    requires
        is_plain(text),
    ensures
        percent_encoded(text) == text,
{
    assert(is_ascii_chars(text)) by {
        assert forall|i: int| 0 <= i < text.len() implies '\0' <= #[trigger] text[i]
            <= '\u{7f}' by {
            assert(is_plain_char(text[i]));
        }
    }
    is_ascii_chars_encode_utf8(text);
    let bytes = encode_utf8(text);
    assert forall|i: int| 0 <= i < bytes.len() implies is_unreserved(#[trigger] bytes[i]) by {
        assert(is_plain_char(text[i]));
        assert(text[i] as u8 == bytes[i]);
    }
    lemma_encode_bytes_unreserved(bytes);
    encode_utf8_decode_utf8(text);
}

/// An encoded text holds nothing but letters, digits, `-`, `.`, `_`, `~`
/// and `%`: in particular no `&`, `=`, `:` or `/`.
pub proof fn lemma_percent_encoded_is_safe(text: Seq<char>)
    ensures
        all_safe(encode_utf8(percent_encoded(text))),
{
    let bytes = encode_bytes(encode_utf8(text));
    lemma_encode_bytes_safe(encode_utf8(text));
    lemma_safe_bytes_are_text(bytes);
}

proof fn lemma_safe_bytes_are_text(bytes: Seq<u8>)
    requires
        all_safe(bytes),
    ensures
        valid_utf8(bytes),
        encode_utf8(decode_utf8(bytes)) == bytes,
{
    assert forall|i: int| 0 <= i < bytes.len() implies #[trigger] bytes[i] < 0x80 by {
        assert(is_unreserved(bytes[i]) || bytes[i] == 0x25);
    }
    lemma_ascii_bytes_valid(bytes);
    decode_utf8_encode_utf8(bytes);
}

proof fn lemma_ascii_bytes_valid(bytes: Seq<u8>)
    requires
        forall|i: int| 0 <= i < bytes.len() ==> #[trigger] bytes[i] < 0x80,
    ensures
        valid_utf8(bytes),
    decreases bytes.len(),
{
    if bytes.len() > 0 {
        let b = bytes[0];
        assert(b < 0x80);
        assert(b & 0x80 == 0) by (bit_vector)
            requires
                b < 0x80,
        ;
        assert(is_leading_byte_width_1(b));
        assert(valid_first_scalar(bytes));
        let rest = pop_first_scalar(bytes);
        assert(rest == bytes.subrange(1, bytes.len() as int));
        assert forall|i: int| 0 <= i < rest.len() implies #[trigger] rest[i] < 0x80 by {
            assert(rest[i] == bytes[i + 1]);
        }
        lemma_ascii_bytes_valid(rest);
    }
}

} // verus!
