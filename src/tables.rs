//! Register tables written during start-up: the baseline applied to every
//! sensor, and one table per output resolution.
//!
//! These are reduced tables of this crate's own. The baseline sets the clock
//! source, resets the sensor, sets up the PLL and output pins and wakes it;
//! each resolution table sets only the output width and height. Vendor
//! start-up tables, with timing, scaling and ISP settings, are longer; the
//! driver writes whatever these tables hold, in order.
use vstd::prelude::*;

use crate::format::Resolution;
use crate::regs::{hi, lo, high_byte, low_byte};

verus! {

/// Horizontal output width, high and low byte.
pub const OV5640_REG_TIMING_DVPHO: u16 = 0x3808;

/// Vertical output height, high and low byte.
pub const OV5640_REG_TIMING_DVPVO: u16 = 0x380a;

/// The baseline settings: clock source, software reset, PLL and output
/// pin setup, then wake from software power-down.
pub open spec fn baseline_table() -> Seq<(u16, u8)> {
    seq![
        (0x3103u16, 0x11u8),
        (0x3008u16, 0x82u8),
        (0x3008u16, 0x42u8),
        (0x3103u16, 0x03u8),
        (0x3017u16, 0xffu8),
        (0x3018u16, 0xffu8),
        (0x3034u16, 0x1au8),
        (0x3035u16, 0x11u8),
        (0x3036u16, 0x46u8),
        (0x3037u16, 0x13u8),
        (0x3108u16, 0x01u8),
        (0x3008u16, 0x02u8),
    ]
}

/// Output width and height in pixels of a resolution.
pub open spec fn output_size(res: Resolution) -> (u16, u16) {
    match res {
        Resolution::Qcifz176_144 => (176, 144),
        Resolution::Qvga320_240 => (320, 240),
        Resolution::Vga640_480 => (640, 480),
        Resolution::Ntsc720_480 => (720, 480),
        Resolution::Pal720_576 => (720, 576),
        Resolution::Xga1024_768 => (1024, 768),
        Resolution::P720_1280_720 => (1280, 720),
        Resolution::P1080_1920_1080 => (1920, 1080),
        Resolution::Qsxga2592_1944 => (2592, 1944),
    }
}

/// The table of a resolution: its width and height, each high byte first,
/// into the output size registers.
pub open spec fn resolution_table(res: Resolution) -> Seq<(u16, u8)> {
    let (w, h) = output_size(res);
    seq![
        (OV5640_REG_TIMING_DVPHO, hi(w)),
        ((OV5640_REG_TIMING_DVPHO + 1) as u16, lo(w)),
        (OV5640_REG_TIMING_DVPVO, hi(h)),
        ((OV5640_REG_TIMING_DVPVO + 1) as u16, lo(h)),
    ]
}

/// The baseline table, in the order it is written.
pub fn initial_settings() -> (r: Vec<(u16, u8)>)
    ensures
        r@ == baseline_table(),
{
    vec![
        (0x3103u16, 0x11u8),
        (0x3008u16, 0x82u8),
        (0x3008u16, 0x42u8),
        (0x3103u16, 0x03u8),
        (0x3017u16, 0xffu8),
        (0x3018u16, 0xffu8),
        (0x3034u16, 0x1au8),
        (0x3035u16, 0x11u8),
        (0x3036u16, 0x46u8),
        (0x3037u16, 0x13u8),
        (0x3108u16, 0x01u8),
        (0x3008u16, 0x02u8),
    ]
}

/// Output width and height in pixels.
pub fn resolution_size(res: &Resolution) -> (r: (u16, u16))
    ensures
        r == output_size(*res),
{
    match res {
        Resolution::Qcifz176_144 => (176, 144),
        Resolution::Qvga320_240 => (320, 240),
        Resolution::Vga640_480 => (640, 480),
        Resolution::Ntsc720_480 => (720, 480),
        Resolution::Pal720_576 => (720, 576),
        Resolution::Xga1024_768 => (1024, 768),
        Resolution::P720_1280_720 => (1280, 720),
        Resolution::P1080_1920_1080 => (1920, 1080),
        Resolution::Qsxga2592_1944 => (2592, 1944),
    }
}

/// The table of a resolution, in the order it is written.
pub fn resolution_settings(res: &Resolution) -> (r: Vec<(u16, u8)>)
    ensures
        r@ == resolution_table(*res),
{
    let (w, h) = resolution_size(res);
    vec![
        (OV5640_REG_TIMING_DVPHO, high_byte(w)),
        (OV5640_REG_TIMING_DVPHO + 1, low_byte(w)),
        (OV5640_REG_TIMING_DVPVO, high_byte(h)),
        (OV5640_REG_TIMING_DVPVO + 1, low_byte(h)),
    ]
}

} // verus!
