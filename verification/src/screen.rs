//! The 16x2 character display behind a PCF8574 I2C expander. Text goes to
//! the display byte by byte; a character is sent as the low byte of its
//! code point.
use vstd::prelude::*;

verus! {

/// The byte that the display receives for `c`: the low 8 bits of its code
/// point.
pub fn lcd_byte(c: char) -> (b: u8)
    ensures
        b == (c as u32) % 256,
{
    let code: u32 = c as u32;
    let b: u8 = c as u8;
    assert(b == code % 256) by (bit_vector)
        requires
            b == code as u8,
    ;
    b
}

} // verus!
