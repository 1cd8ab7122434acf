//! Percent-encoding of file names for the extended `filename*` parameter of RFC 5987.
//!
//! A name is written as the UTF-8 bytes of its characters; every byte that RFC 3986 does
//! not call unreserved is replaced by `%` and two upper-case hexadecimal digits.

use vstd::prelude::*;
use vstd::utf8::*;

verus! {

/// Whether `b` is unreserved in RFC 3986: an ASCII letter, a digit, `-`, `.`, `_` or `~`.
pub open spec fn is_unreserved(b: u8) -> bool {
    let c = b as char;
    ||| 'A' <= c <= 'Z'
    ||| 'a' <= c <= 'z'
    ||| '0' <= c <= '9'
    ||| c == '-'
    ||| c == '.'
    ||| c == '_'
    ||| c == '~'
}

/// The upper-case hexadecimal digit for a value below 16.
pub open spec fn hex_digit(n: u8) -> char
    recommends
        n < 16,
{
    if n < 10 {
        (('0' as u8 + n) as u8) as char
    } else {
        (('A' as u8 + n - 10) as u8) as char
    }
}

/// The value of a hexadecimal digit of either case, if `c` is one.
pub open spec fn hex_value(c: char) -> Option<u8> {
    if '0' <= c <= '9' {
        Some((c as u8 - '0' as u8) as u8)
    } else if 'A' <= c <= 'F' {
        Some((c as u8 - 'A' as u8 + 10) as u8)
    } else if 'a' <= c <= 'f' {
        Some((c as u8 - 'a' as u8 + 10) as u8)
    } else {
        None
    }
}

/// What stands for one byte: the byte itself where it is unreserved, else `%` and two
/// hexadecimal digits.
pub open spec fn escaped_byte(b: u8) -> Seq<char> {
    if is_unreserved(b) {
        seq![b as char]
    } else {
        seq!['%', hex_digit(b / 16), hex_digit(b % 16)]
    }
}

/// The percent-encoded text of a byte string.
pub open spec fn percent_encoded(bytes: Seq<u8>) -> Seq<char>
    decreases bytes.len(),
{
    if bytes.len() == 0 {
        Seq::empty()
    } else {
        escaped_byte(bytes[0]) + percent_encoded(bytes.drop_first())
    }
}

/// Whether `text` begins with `%` and two hexadecimal digits.
pub open spec fn starts_with_escape(text: Seq<char>) -> bool {
    &&& text.len() >= 3
    &&& text[0] == '%'
    &&& hex_value(text[1]) is Some
    &&& hex_value(text[2]) is Some
}

/// The bytes that an ASCII text stands for under percent-decoding: `%XY` gives the byte
/// with the hexadecimal value `XY`, any other character gives its own byte.
pub open spec fn percent_decoded(text: Seq<char>) -> Seq<u8>
    recommends
        is_ascii_chars(text),
    decreases text.len(),
{
    if text.len() == 0 {
        Seq::empty()
    } else if starts_with_escape(text) {
        seq![(hex_value(text[1])->0 * 16 + hex_value(text[2])->0) as u8] + percent_decoded(
            text.skip(3),
        )
    } else {
        seq![text[0] as u8] + percent_decoded(text.skip(1))
    }
}

/// Whether `text` is written in the way of this module, from its first character to its
/// last: each character is unreserved, or is the `%` of an escape with two hexadecimal
/// digits behind it. These are `value-chars` in the grammar of RFC 5987.
pub open spec fn is_escaped_text(text: Seq<char>) -> bool
    decreases text.len(),
{
    if text.len() == 0 {
        true
    } else if starts_with_escape(text) {
        is_escaped_text(text.skip(3))
    } else {
        text[0] <= '\u{7f}' && is_unreserved(text[0] as u8) && is_escaped_text(text.skip(1))
    }
}

/// Encoding distributes over concatenation.
pub proof fn lemma_percent_encoded_concat(a: Seq<u8>, b: Seq<u8>)
    ensures
        percent_encoded(a + b) == percent_encoded(a) + percent_encoded(b),
    decreases a.len(),
{
    if a.len() == 0 {
        assert(a + b == b);
    } else {
        assert((a + b).drop_first() == a.drop_first() + b);
        lemma_percent_encoded_concat(a.drop_first(), b);
    }
}

/// Decoding undoes encoding, for every byte string.
pub proof fn lemma_percent_round_trip(bytes: Seq<u8>)
    ensures
        percent_decoded(percent_encoded(bytes)) == bytes,
    decreases bytes.len(),
{
    if bytes.len() > 0 {
        let b: u8 = bytes[0];
        let rest = percent_encoded(bytes.drop_first());
        let text = percent_encoded(bytes);
        lemma_percent_round_trip(bytes.drop_first());
        if is_unreserved(b) {
            assert(text.skip(1) == rest);
        } else {
            assert(text.skip(3) == rest);
            assert(hex_value(hex_digit(b / 16)) == Some((b / 16) as u8));
            assert(hex_value(hex_digit(b % 16)) == Some((b % 16) as u8));
        }
        assert(percent_decoded(text) == seq![b] + bytes.drop_first());
    }
}

/// The encoded text of a name decodes to that name: its UTF-8 bytes come back, and they
/// read as the same characters.
pub proof fn lemma_name_round_trip(name: Seq<char>)
    ensures
        valid_utf8(percent_decoded(percent_encoded(encode_utf8(name)))),
        decode_utf8(percent_decoded(percent_encoded(encode_utf8(name)))) == name,
{
    lemma_percent_round_trip(encode_utf8(name));
    encode_utf8_valid_utf8(name);
    encode_utf8_decode_utf8(name);
}

/// An encoded text is well formed: unreserved characters and complete escapes, no more.
pub proof fn lemma_percent_encoded_is_escaped_text(bytes: Seq<u8>)
    ensures
        is_escaped_text(percent_encoded(bytes)),
    decreases bytes.len(),
{
    if bytes.len() > 0 {
        let b: u8 = bytes[0];
        let rest = percent_encoded(bytes.drop_first());
        let text = percent_encoded(bytes);
        lemma_percent_encoded_is_escaped_text(bytes.drop_first());
        if is_unreserved(b) {
            assert(text.skip(1) == rest);
        } else {
            assert(text.skip(3) == rest);
            assert(hex_value(hex_digit(b / 16)) is Some);
            assert(hex_value(hex_digit(b % 16)) is Some);
        }
    }
}

/// Nothing but unreserved characters and `%` occurs in an encoded text.
pub proof fn lemma_percent_encoded_chars(bytes: Seq<u8>)
    ensures
        is_ascii_chars(percent_encoded(bytes)),
        forall|i: int|
            0 <= i < percent_encoded(bytes).len() ==> ({
                let c = #[trigger] percent_encoded(bytes)[i];
                c == '%' || is_unreserved(c as u8)
            }),
    decreases bytes.len(),
{
    if bytes.len() > 0 {
        lemma_percent_encoded_chars(bytes.drop_first());
    }
}

/// The upper-case hexadecimal digit for `n`.
fn hex_digit_for(n: u8) -> (c: char)
    requires
        n < 16,
    ensures
        c == hex_digit(n),
{
    if n < 10 {
        ('0' as u8 + n) as char
    } else {
        ('A' as u8 + (n - 10)) as char
    }
}

/// Whether `b` is unreserved.
fn unreserved(b: u8) -> (yes: bool)
    ensures
        yes == is_unreserved(b),
{
    let c = b as char;
    ('A' <= c && c <= 'Z') || ('a' <= c && c <= 'z') || ('0' <= c && c <= '9') || c == '-' || c
        == '.' || c == '_' || c == '~'
}

/// Appends what stands for the byte `b` to `out`.
fn push_escaped(out: &mut String, b: u8)
    ensures
        final(out)@ == old(out)@ + escaped_byte(b),
{
    if unreserved(b) {
        out.push(b as char);
    } else {
        out.push('%');
        out.push(hex_digit_for(b / 16));
        out.push(hex_digit_for(b % 16));
    }
}

/// Appends the percent-encoded text of `name` to `out`.
pub fn percent_encode_into(name: &str, out: &mut String)
    ensures
        final(out)@ == old(out)@ + percent_encoded(encode_utf8(name@)),
{
    let bytes = name.as_bytes();
    let n: usize = bytes.len();
    let mut i: usize = 0;
    while i < n
        invariant
            n == bytes@.len(),
            i <= n,
            out@ == old(out)@ + percent_encoded(bytes@.take(i as int)),
        decreases n - i,
    {
        proof {
            let done = bytes@.take(i as int);
            let next = seq![bytes@[i as int]];
            assert(bytes@.take(i + 1) == done + next);
            lemma_percent_encoded_concat(done, next);
            assert(percent_encoded(next) == escaped_byte(bytes@[i as int])) by {
                reveal_with_fuel(percent_encoded, 2);
            }
        }
        push_escaped(out, bytes[i]);
        i += 1;
    }
    assert(bytes@.take(n as int) == bytes@);
}

/// The percent-encoded text of `name`.
pub fn percent_encode(name: &str) -> (out: String)
    ensures
        out@ == percent_encoded(encode_utf8(name@)),
{
    let mut out = String::new();
    percent_encode_into(name, &mut out);
    out
}

} // verus!
