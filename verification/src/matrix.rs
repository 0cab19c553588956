//! What the driver of the LED matrix decides: the levels of its lines.

use vstd::prelude::*;
use crate::image::{Color, SIDE};

verus! {

/// Number of bytes that initialise bank 0 of the matrix.
pub const BANK0_BYTES: usize = 18;

/// The level of the data line while bit `bit` of `pixel` is sent, the bits
/// being numbered from the most significant: the line is high where `pixel`
/// masked with that bit equals 1, which is for the last bit of an odd byte.
pub open spec fn data_level(pixel: u8, bit: int) -> bool {
    bit == 7 && pixel % 2 == 1
}

/// The eight levels of the data line for one byte, in the order in which
/// they are sent.
pub open spec fn data_levels(pixel: u8) -> Seq<bool> {
    Seq::new(8, |bit: int| data_level(pixel, bit))
}

/// The bytes that one pixel puts on the wire: blue, green, red.
pub open spec fn wire_bytes(pixel: Color) -> Seq<u8> {
    seq![pixel.b, pixel.g, pixel.r]
}

/// The bytes that a row of pixels puts on the wire, pixel by pixel.
pub open spec fn row_wire_bytes(pixels: Seq<Color>) -> Seq<u8> {
    Seq::new(3 * pixels.len(), |i: int| wire_bytes(pixels[i / 3])[i % 3])
}

/// The row that is lit before `row`: the one above it, and the last row
/// for the first.
pub open spec fn row_before(row: int) -> int {
    if row == 0 {
        SIDE - 1
    } else {
        row - 1
    }
}

/// Computes the level of the data line for bit `bit` of `pixel`.
pub fn sda_level(pixel: u8, bit: u8) -> (high: bool)
    requires
        bit < 8,
    ensures
        high == data_level(pixel, bit as int),
{
    let shift: u8 = 7 - bit;
    let mask: u8 = 1u8 << shift;
    assert((pixel & (1u8 << shift)) == 1u8 <==> (shift == 0 && pixel % 2 == 1)) by (bit_vector)
        requires
            shift < 8,
    ;
    pixel & mask == 1
}

/// Computes the eight levels of the data line for one byte.
pub fn sda_levels(pixel: u8) -> (levels: Vec<bool>)
    ensures
        levels@ == data_levels(pixel),
{
    let mut levels: Vec<bool> = Vec::new();
    let mut bit: u8 = 0;
    while bit < 8
        invariant
            bit <= 8,
            levels@.len() == bit,
            forall|i: int| 0 <= i < bit ==> levels@[i] == data_level(pixel, i),
        decreases 8 - bit,
    {
        levels.push(sda_level(pixel, bit));
        bit = bit + 1;
    }
    assert(levels@ =~= data_levels(pixel));
    levels
}

/// Computes the bytes to send for a row of pixels: for each pixel its blue,
/// green and red part.
pub fn row_bytes(pixels: &[Color]) -> (bytes: Vec<u8>)
    ensures
        bytes@ == row_wire_bytes(pixels@),
{
    let mut bytes: Vec<u8> = Vec::new();
    let mut i: usize = 0;
    while i < pixels.len()
        invariant
            i <= pixels@.len(),
            bytes@.len() == 3 * i,
            forall|j: int| 0 <= j < 3 * i ==> bytes@[j] == row_wire_bytes(pixels@)[j],
        decreases pixels@.len() - i,
    {
        let pixel = pixels[i];
        bytes.push(pixel.b);
        bytes.push(pixel.g);
        bytes.push(pixel.r);
        i = i + 1;
    }
    assert(bytes@ =~= row_wire_bytes(pixels@));
    bytes
}

/// Computes the row to switch off when `row` is switched on.
pub fn previous_row(row: usize) -> (previous: usize)
    ensures
        previous == row_before(row as int),
        row < SIDE ==> previous < SIDE,
{
    if row == 0 {
        7
    } else {
        row - 1
    }
}

} // verus!
