//! The text that the output instructions produce.

use vstd::prelude::*;

verus! {

/// Decimal digits of a natural number, most significant first, in ASCII.
pub open spec fn digits(n: nat) -> Seq<u8>
    decreases n,
{
    if n < 10 {
        seq![(48 + n) as u8]
    } else {
        digits(n / 10).push((48 + n % 10) as u8)
    }
}

/// Decimal text of an integer: a minus sign if it is negative, then the
/// digits of its absolute value.
pub open spec fn decimal(v: int) -> Seq<u8> {
    if v < 0 {
        seq![45u8] + digits((-v) as nat)
    } else {
        digits(v as nat)
    }
}

/// UTF-8 encoding of the character whose code point is `b`.
pub open spec fn character(b: u8) -> Seq<u8> {
    if b < 128 {
        seq![b]
    } else {
        seq![(192 + b / 64) as u8, (128 + b % 64) as u8]
    }
}

/// The bytes of a character are its encoding in UTF-8.
pub proof fn lemma_character_is_utf8(b: u8)
    ensures
        character(b) == vstd::utf8::encode_scalar(b as u32),
{
    let scalar = b as u32;
    if b < 128 {
        assert((scalar & 0x7F) as u8 == b) by (bit_vector)
            requires
                scalar == b as u32,
                b < 128,
        ;
    } else {
        assert(0xC0u8 | ((scalar >> 6) & 0x1F) as u8 == (192 + b / 64) as u8) by (bit_vector)
            requires
                scalar == b as u32,
                b >= 128,
        ;
        assert(0x80u8 | (scalar & 0x3F) as u8 == (128 + b % 64) as u8) by (bit_vector)
            requires
                scalar == b as u32,
        ;
    }
    assert(character(b) =~= vstd::utf8::encode_scalar(b as u32));
}

/// Writes the decimal text of `v`.
pub fn format_decimal(v: i32) -> (text: Vec<u8>)
    ensures
        text@ == decimal(v as int),
{
    let mut text: Vec<u8> = Vec::new();
    let wide: i64 = v as i64;
    let magnitude: u32 = if v < 0 {
        text.push(45u8);
        (0 - wide) as u32
    } else {
        v as u32
    };
    push_digits(&mut text, magnitude);
    text
}

/// Appends the decimal digits of `n` to `text`.
fn push_digits(text: &mut Vec<u8>, n: u32)
    ensures
        final(text)@ == old(text)@ + digits(n as nat),
    decreases n,
{
    if n >= 10 {
        push_digits(text, n / 10);
    }
    let digit: u8 = (48 + n % 10) as u8;
    text.push(digit);
    assert(text@ =~= old(text)@ + digits(n as nat));
}

/// Writes the UTF-8 encoding of the character with code point `b`.
pub fn format_character(b: u8) -> (text: Vec<u8>)
    ensures
        text@ == character(b),
{
    let mut text: Vec<u8> = Vec::new();
    if b < 128 {
        text.push(b);
    } else {
        text.push(192 + b / 64);
        text.push(128 + b % 64);
    }
    assert(text@ =~= character(b));
    text
}

} // verus!
