//! Register addresses and fixed values of the sensor.
use vstd::prelude::*;

verus! {

/// Seven-bit bus address of the sensor.
pub const OV5640_ADDR: u8 = 0x3c;

/// Register that holds the high byte of the chip identity.
pub const OV5640_REG_ID: u16 = 0x300a;

/// Value that the identity register of a genuine sensor holds.
pub const OV5640_ID: u8 = 0x56;

/// Format control register: output family and channel ordering.
pub const OV5640_REG_FORMAT_00: u16 = 0x4300;

/// ISP format multiplexer control register.
pub const OV5640_REG_ISP_FORMAT_MUX_CTRL: u16 = 0x501f;

/// Multiplexer setting that routes YUV422 data to the output.
pub const OV5640_FMT_MUX_YUV422: u8 = 0x00;

/// Multiplexer setting that routes RGB data to the output.
pub const OV5640_FMT_MUX_RGB: u8 = 0x01;

/// Multiplexer setting that routes raw data after defect correction to the output.
pub const OV5640_FMT_MUX_RAW_DPC: u8 = 0x03;

/// High byte of a 16-bit value.
pub open spec fn hi(x: u16) -> u8 {
    (x / 256) as u8
}

/// Low byte of a 16-bit value.
pub open spec fn lo(x: u16) -> u8 {
    (x % 256) as u8
}

/// The high byte of `x`, sent first on the bus.
pub fn high_byte(x: u16) -> (r: u8)
    ensures
        r == hi(x),
{
    assert((x >> 8u16) as u8 == (x / 256) as u8) by (bit_vector);
    (x >> 8) as u8
}

/// The low byte of `x`.
pub fn low_byte(x: u16) -> (r: u8)
    ensures
        r == lo(x),
{
    assert((x & 0xffu16) as u8 == (x % 256) as u8) by (bit_vector);
    (x & 0xff) as u8
}

} // verus!
