//! Standard base64 (RFC 4648, section 4, with `=` padding): what an
//! encoding is, and that decoding gives the bytes back.

use vstd::prelude::*;

verus! {

/// The character of the standard alphabet for a six-bit value.
pub open spec fn base64_digit(value: int) -> char {
    if value < 26 {
        (65 + value) as char
    } else if value < 52 {
        (97 + value - 26) as char
    } else if value < 62 {
        (48 + value - 52) as char
    } else if value == 62 {
        '+'
    } else {
        '/'
    }
}

/// The six-bit value of a character of the standard alphabet.
pub open spec fn base64_value(c: char) -> int {
    if 'A' <= c && c <= 'Z' {
        c as int - 65
    } else if 'a' <= c && c <= 'z' {
        c as int - 97 + 26
    } else if '0' <= c && c <= '9' {
        c as int - 48 + 52
    } else if c == '+' {
        62
    } else {
        63
    }
}

/// The four characters that encode three bytes.
pub open spec fn base64_group(b0: int, b1: int, b2: int) -> Seq<char> {
    seq![
        base64_digit(b0 / 4),
        base64_digit((b0 % 4) * 16 + b1 / 16),
        base64_digit((b1 % 16) * 4 + b2 / 64),
        base64_digit(b2 % 64),
    ]
}

/// The padded standard base64 text of `bytes`: four characters for every
/// three bytes; a last group of one or two bytes is completed with zero bits
/// and padded with `=` to four characters.
pub open spec fn base64_encode(bytes: Seq<u8>) -> Seq<char>
    decreases bytes.len(),
{
    if bytes.len() == 0 {
        Seq::empty()
    } else if bytes.len() == 1 {
        let b0 = bytes[0] as int;
        seq![base64_digit(b0 / 4), base64_digit((b0 % 4) * 16), '=', '=']
    } else if bytes.len() == 2 {
        let b0 = bytes[0] as int;
        let b1 = bytes[1] as int;
        seq![
            base64_digit(b0 / 4),
            base64_digit((b0 % 4) * 16 + b1 / 16),
            base64_digit((b1 % 16) * 4),
            '=',
        ]
    } else {
        base64_group(bytes[0] as int, bytes[1] as int, bytes[2] as int) + base64_encode(
            bytes.subrange(3, bytes.len() as int),
        )
    }
}

/// The bytes that padded standard base64 text encodes.
pub open spec fn base64_decode(text: Seq<char>) -> Seq<u8>
    decreases text.len(),
{
    if text.len() < 4 {
        Seq::empty()
    } else {
        let v0 = base64_value(text[0]);
        let v1 = base64_value(text[1]);
        let v2 = base64_value(text[2]);
        let v3 = base64_value(text[3]);
        let first = (v0 * 4 + v1 / 16) as u8;
        let second = ((v1 % 16) * 16 + v2 / 4) as u8;
        let third = ((v2 % 4) * 64 + v3) as u8;
        let group = if text[2] == '=' {
            seq![first]
        } else if text[3] == '=' {
            seq![first, second]
        } else {
            seq![first, second, third]
        };
        group + base64_decode(text.subrange(4, text.len() as int))
    }
}

/// A character of the standard base64 alphabet, or its padding `'='`.
pub open spec fn is_base64_char(c: char) -> bool {
    ('A' <= c && c <= 'Z') || ('a' <= c && c <= 'z') || ('0' <= c && c <= '9') || c == '+'
        || c == '/' || c == '='
}

/// Each six-bit value has its own character, and reads back from it.
pub proof fn lemma_base64_digit(value: int)
    requires
        0 <= value < 64,
    ensures
        is_base64_char(base64_digit(value)),
        base64_digit(value) != '=',
        base64_value(base64_digit(value)) == value,
{
}

/// The characters of an encoding are of the alphabet, or padding.
pub proof fn lemma_base64_encode_chars(bytes: Seq<u8>)
    ensures
        forall|i: int|
            0 <= i < base64_encode(bytes).len() ==> is_base64_char(
                #[trigger] base64_encode(bytes)[i],
            ),
    decreases bytes.len(),
{
    if bytes.len() == 0 {
    } else if bytes.len() <= 2 {
        let b0 = bytes[0] as int;
        lemma_base64_digit(b0 / 4);
        if bytes.len() == 1 {
            lemma_base64_digit((b0 % 4) * 16);
        } else {
            let b1 = bytes[1] as int;
            lemma_base64_digit((b0 % 4) * 16 + b1 / 16);
            lemma_base64_digit((b1 % 16) * 4);
        }
    } else {
        let b0 = bytes[0] as int;
        let b1 = bytes[1] as int;
        let b2 = bytes[2] as int;
        let rest = bytes.subrange(3, bytes.len() as int);
        lemma_base64_encode_chars(rest);
        lemma_base64_digit(b0 / 4);
        lemma_base64_digit((b0 % 4) * 16 + b1 / 16);
        lemma_base64_digit((b1 % 16) * 4 + b2 / 64);
        lemma_base64_digit(b2 % 64);
        assert forall|i: int|
            0 <= i < base64_encode(bytes).len() implies is_base64_char(
                #[trigger] base64_encode(bytes)[i],
            ) by {
            if i >= 4 {
                assert(base64_encode(bytes)[i] == base64_encode(rest)[i - 4]);
            }
        }
    }
}

/// Decoding an encoding gives the bytes back.
pub proof fn lemma_base64_roundtrip(bytes: Seq<u8>)
    ensures
        base64_decode(base64_encode(bytes)) == bytes,
    decreases bytes.len(),
{
    if bytes.len() == 0 {
    } else if bytes.len() == 1 {
        let b0 = bytes[0] as int;
        lemma_base64_digit(b0 / 4);
        lemma_base64_digit((b0 % 4) * 16);
        assert((b0 / 4) * 4 + ((b0 % 4) * 16) / 16 == b0) by (nonlinear_arith)
            requires
                0 <= b0 < 256,
        ;
        let text = base64_encode(bytes);
        assert(text.subrange(4, 4) =~= Seq::<char>::empty());
        assert(base64_decode(text.subrange(4, 4)) =~= Seq::<u8>::empty());
        assert(base64_decode(text) =~= bytes);
    } else if bytes.len() == 2 {
        let b0 = bytes[0] as int;
        let b1 = bytes[1] as int;
        lemma_base64_digit(b0 / 4);
        lemma_base64_digit((b0 % 4) * 16 + b1 / 16);
        lemma_base64_digit((b1 % 16) * 4);
        assert((b0 / 4) * 4 + ((b0 % 4) * 16 + b1 / 16) / 16 == b0) by (nonlinear_arith)
            requires
                0 <= b0 < 256,
                0 <= b1 < 256,
        ;
        assert((((b0 % 4) * 16 + b1 / 16) % 16) * 16 + ((b1 % 16) * 4) / 4 == b1)
            by (nonlinear_arith)
            requires
                0 <= b0 < 256,
                0 <= b1 < 256,
        ;
        let text = base64_encode(bytes);
        assert(text.subrange(4, 4) =~= Seq::<char>::empty());
        assert(base64_decode(text.subrange(4, 4)) =~= Seq::<u8>::empty());
        assert(base64_decode(text) =~= bytes);
    } else {
        let b0 = bytes[0] as int;
        let b1 = bytes[1] as int;
        let b2 = bytes[2] as int;
        let rest = bytes.subrange(3, bytes.len() as int);
        lemma_base64_roundtrip(rest);
        let d0 = b0 / 4;
        let d1 = (b0 % 4) * 16 + b1 / 16;
        let d2 = (b1 % 16) * 4 + b2 / 64;
        let d3 = b2 % 64;
        assert(0 <= d0 < 64 && 0 <= d1 < 64 && 0 <= d2 < 64 && 0 <= d3 < 64) by (nonlinear_arith)
            requires
                0 <= b0 < 256,
                0 <= b1 < 256,
                0 <= b2 < 256,
                d0 == b0 / 4,
                d1 == (b0 % 4) * 16 + b1 / 16,
                d2 == (b1 % 16) * 4 + b2 / 64,
                d3 == b2 % 64,
        ;
        lemma_base64_digit(d0);
        lemma_base64_digit(d1);
        lemma_base64_digit(d2);
        lemma_base64_digit(d3);
        assert(d0 * 4 + d1 / 16 == b0) by (nonlinear_arith)
            requires
                0 <= b0 < 256,
                0 <= b1 < 256,
                d0 == b0 / 4,
                d1 == (b0 % 4) * 16 + b1 / 16,
        ;
        assert((d1 % 16) * 16 + d2 / 4 == b1) by (nonlinear_arith)
            requires
                0 <= b0 < 256,
                0 <= b1 < 256,
                0 <= b2 < 256,
                d1 == (b0 % 4) * 16 + b1 / 16,
                d2 == (b1 % 16) * 4 + b2 / 64,
        ;
        assert((d2 % 4) * 64 + d3 == b2) by (nonlinear_arith)
            requires
                0 <= b1 < 256,
                0 <= b2 < 256,
                d2 == (b1 % 16) * 4 + b2 / 64,
                d3 == b2 % 64,
        ;
        let text = base64_encode(bytes);
        let group = base64_group(b0, b1, b2);
        assert(text == group + base64_encode(rest));
        assert(text.subrange(4, text.len() as int) =~= base64_encode(rest));
        assert(seq![bytes[0], bytes[1], bytes[2]] + rest =~= bytes);
        assert(base64_decode(text) =~= bytes);
    }
}

} // verus!
