//! The arithmetic of the BH1750 light intensity sensor.
//! <https://www.alldatasheet.com/datasheet-pdf/view/338083/ROHM/BH1750FVI.html>

use vstd::prelude::*;

verus! {

/// I2C address for BH1750FVI.
pub const ADDR: u8 = 0x23;

/// Command to enable the module.
pub const CMD_POWER_ON: u8 = 0x01;

/// Set high resolution mode.
pub const CMD_CONT_HIGH_RES: u8 = 0x10;

/// The raw light reading held big-endian in the two bytes read from the
/// sensor; one count is 1/1.2 lux.
pub fn raw_light(buf: [u8; 2]) -> (res: u16)
    ensures
        res == buf[0] * 256 + buf[1],
{
    let (hi, lo) = (buf[0], buf[1]);
    let raw = ((hi as u16) << 8) | lo as u16;
    assert(((hi as u16) << 8) | lo as u16 == hi * 256 + lo) by (bit_vector);
    raw
}

} // verus!
