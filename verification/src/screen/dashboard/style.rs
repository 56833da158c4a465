//! The integer side of the dashboard's colours; the window code turns the
//! channels into its own (floating-point) colours.

use vstd::prelude::*;

verus! {

/// A colour packed in a `u32`, red in the lowest byte, then green, blue and
/// alpha in the highest byte.
pub type Hex = u32;

/// The channels of a packed colour: red, green, blue and alpha, each a byte.
pub fn hex_channels(hex: Hex) -> (res: (u8, u8, u8, u8))
    ensures
        res.0 == hex % 256,
        res.1 == (hex / 256) % 256,
        res.2 == (hex / 65536) % 256,
        res.3 == hex / 16777216,
{
    let r = (hex & 0xff) as u8;
    let g = ((hex >> 8u32) & 0xff) as u8;
    let b = ((hex >> 16u32) & 0xff) as u8;
    let a = (hex >> 24u32) as u8;
    assert(hex & 0xff == hex % 256) by (bit_vector);
    assert((hex >> 8u32) & 0xff == (hex / 256) % 256) by (bit_vector);
    assert((hex >> 16u32) & 0xff == (hex / 65536) % 256) by (bit_vector);
    assert(hex >> 24u32 == hex / 16777216) by (bit_vector);
    (r, g, b, a)
}

} // verus!
