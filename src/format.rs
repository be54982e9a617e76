//! Output formats and their encoding into the two format registers.
use vstd::prelude::*;

use crate::regs::{OV5640_FMT_MUX_RAW_DPC, OV5640_FMT_MUX_RGB, OV5640_FMT_MUX_YUV422};

verus! {

/// Output geometry of the sensor.
pub enum Resolution {
    Qcifz176_144,
    Qvga320_240,
    Vga640_480,
    Ntsc720_480,
    Pal720_576,
    Xga1024_768,
    P720_1280_720,
    P1080_1920_1080,
    Qsxga2592_1944,
}

/// Pixel encoding family, with the channel ordering inside it.
pub enum Format {
    Raw(RawOrder),
    Rgb565(Rgb565Order),
    Yuv422(Yuv422Order),
}

/// Bayer pattern of raw output.
pub enum RawOrder {
    SBGGR8,
    SGBRG8,
    SGRBG8,
    SRGGB8,
}

/// Channel ordering of RGB565 output.
pub enum Rgb565Order {
    Bggr,
    Rggb,
    Grrb,
    Brrg,
    Gbbr,
    Rbbg,
}

/// Byte ordering of YUV422 output.
pub enum Yuv422Order {
    Yuyv,
    Yvyu,
    Uyvy,
    Vyuy,
}

impl RawOrder {
    /// The ordering code, dense from zero in declaration order.
    pub open spec fn code(&self) -> u8 {
        match self {
            RawOrder::SBGGR8 => 0,
            RawOrder::SGBRG8 => 1,
            RawOrder::SGRBG8 => 2,
            RawOrder::SRGGB8 => 3,
        }
    }

    /// The ordering with the given code; codes past the last map to the last ordering.
    pub open spec fn from_code(c: u8) -> RawOrder {
        match c {
            0 => RawOrder::SBGGR8,
            1 => RawOrder::SGBRG8,
            2 => RawOrder::SGRBG8,
            _ => RawOrder::SRGGB8,
        }
    }

    /// The ordering code, for the low bits of the format control byte.
    pub fn to_hex(&self) -> (r: u8)
        ensures
            r == self.code(),
    {
        match self {
            RawOrder::SBGGR8 => 0,
            RawOrder::SGBRG8 => 1,
            RawOrder::SGRBG8 => 2,
            RawOrder::SRGGB8 => 3,
        }
    }
}

impl Rgb565Order {
    /// The ordering code, dense from zero in declaration order.
    pub open spec fn code(&self) -> u8 {
        match self {
            Rgb565Order::Bggr => 0,
            Rgb565Order::Rggb => 1,
            Rgb565Order::Grrb => 2,
            Rgb565Order::Brrg => 3,
            Rgb565Order::Gbbr => 4,
            Rgb565Order::Rbbg => 5,
        }
    }

    /// The ordering with the given code; codes past the last map to the last ordering.
    pub open spec fn from_code(c: u8) -> Rgb565Order {
        match c {
            0 => Rgb565Order::Bggr,
            1 => Rgb565Order::Rggb,
            2 => Rgb565Order::Grrb,
            3 => Rgb565Order::Brrg,
            4 => Rgb565Order::Gbbr,
            _ => Rgb565Order::Rbbg,
        }
    }

    /// The ordering code, for the low bits of the format control byte.
    pub fn to_hex(&self) -> (r: u8)
        ensures
            r == self.code(),
    {
        match self {
            Rgb565Order::Bggr => 0,
            Rgb565Order::Rggb => 1,
            Rgb565Order::Grrb => 2,
            Rgb565Order::Brrg => 3,
            Rgb565Order::Gbbr => 4,
            Rgb565Order::Rbbg => 5,
        }
    }
}

impl Yuv422Order {
    /// The ordering code, dense from zero in declaration order.
    pub open spec fn code(&self) -> u8 {
        match self {
            Yuv422Order::Yuyv => 0,
            Yuv422Order::Yvyu => 1,
            Yuv422Order::Uyvy => 2,
            Yuv422Order::Vyuy => 3,
        }
    }

    /// The ordering with the given code; codes past the last map to the last ordering.
    pub open spec fn from_code(c: u8) -> Yuv422Order {
        match c {
            0 => Yuv422Order::Yuyv,
            1 => Yuv422Order::Yvyu,
            2 => Yuv422Order::Uyvy,
            _ => Yuv422Order::Vyuy,
        }
    }

    /// The ordering code, for the low bits of the format control byte.
    pub fn to_hex(&self) -> (r: u8)
        ensures
            r == self.code(),
    {
        match self {
            Yuv422Order::Yuyv => 0,
            Yuv422Order::Yvyu => 1,
            Yuv422Order::Uyvy => 2,
            Yuv422Order::Vyuy => 3,
        }
    }
}

/// Base of the format control byte for the raw family.
pub const RAW_BASE: u8 = 0x00;

/// Base of the format control byte for the RGB565 family.
pub const RGB565_BASE: u8 = 0x60;

/// Base of the format control byte for the YUV422 family.
pub const YUV422_BASE: u8 = 0x30;

impl Format {
    /// The format control byte: the family's base with the ordering code in the low bits.
    pub open spec fn control_byte(&self) -> u8 {
        match self {
            Format::Raw(o) => RAW_BASE | o.code(),
            Format::Rgb565(o) => RGB565_BASE | o.code(),
            Format::Yuv422(o) => YUV422_BASE | o.code(),
        }
    }

    /// The format multiplexer byte, chosen by the family alone.
    pub open spec fn mux_byte(&self) -> u8 {
        match self {
            Format::Raw(_) => OV5640_FMT_MUX_RAW_DPC,
            Format::Rgb565(_) => OV5640_FMT_MUX_RGB,
            Format::Yuv422(_) => OV5640_FMT_MUX_YUV422,
        }
    }

    /// The value of the format control register.
    pub fn format_bits(&self) -> (r: u8)
        ensures
            r == self.control_byte(),
    {
        match self {
            Format::Raw(order) => RAW_BASE | order.to_hex(),
            Format::Rgb565(order) => RGB565_BASE | order.to_hex(),
            Format::Yuv422(order) => YUV422_BASE | order.to_hex(),
        }
    }

    /// The value of the format multiplexer register.
    pub fn mux_bits(&self) -> (r: u8)
        ensures
            r == self.mux_byte(),
    {
        match self {
            Format::Raw(_) => OV5640_FMT_MUX_RAW_DPC,
            Format::Rgb565(_) => OV5640_FMT_MUX_RGB,
            Format::Yuv422(_) => OV5640_FMT_MUX_YUV422,
        }
    }

    /// Both format bytes, control byte first.
    pub fn encode_format(&self) -> (r: (u8, u8))
        ensures
            r == (self.control_byte(), self.mux_byte()),
    {
        (self.format_bits(), self.mux_bits())
    }
}

/// Encoding is a function of the format alone: equal formats give equal
/// control and multiplexer bytes.
pub proof fn lemma_encoding_deterministic(a: Format, b: Format)
    requires
        a == b,
    ensures
        a.control_byte() == b.control_byte(),
        a.mux_byte() == b.mux_byte(),
{
}

/// Every raw ordering selects the raw (defect-corrected) multiplexer path, and
/// the ordering shows only in the low nibble of the control byte, as its code 0 to 3.
pub proof fn lemma_raw_encoding(o: RawOrder)
    ensures
        Format::Raw(o).mux_byte() == OV5640_FMT_MUX_RAW_DPC,
        Format::Raw(o).control_byte() & 0xf0 == 0,
        Format::Raw(o).control_byte() & 0x0f == o.code(),
        o.code() < 4,
{
    let c = o.code();
    assert(c < 4);
    assert((0x00u8 | c) & 0xf0 == 0 && (0x00u8 | c) & 0x0f == c) by (bit_vector)
        requires
            c < 4,
    ;
}

/// Every RGB565 ordering sets the bits 0x60 of the control byte, and its low
/// nibble is exactly the ordering code.
pub proof fn lemma_rgb565_encoding(o: Rgb565Order)
    ensures
        Format::Rgb565(o).mux_byte() == OV5640_FMT_MUX_RGB,
        Format::Rgb565(o).control_byte() & 0x60 == 0x60,
        Format::Rgb565(o).control_byte() & 0x0f == o.code(),
        o.code() < 6,
{
    let c = o.code();
    assert(c < 6);
    assert((0x60u8 | c) & 0x60 == 0x60 && (0x60u8 | c) & 0x0f == c) by (bit_vector)
        requires
            c < 6,
    ;
}

/// Every YUV422 ordering sets the bits 0x30 of the control byte, and its low
/// nibble is exactly the ordering code.
pub proof fn lemma_yuv422_encoding(o: Yuv422Order)
    ensures
        Format::Yuv422(o).mux_byte() == OV5640_FMT_MUX_YUV422,
        Format::Yuv422(o).control_byte() & 0x30 == 0x30,
        Format::Yuv422(o).control_byte() & 0x0f == o.code(),
        o.code() < 4,
{
    let c = o.code();
    assert(c < 4);
    assert((0x30u8 | c) & 0x30 == 0x30 && (0x30u8 | c) & 0x0f == c) by (bit_vector)
        requires
            c < 4,
    ;
}

/// Raw ordering codes are a bijection between the 4 orderings and 0 to 3:
/// distinct orderings have distinct codes, and every code below 4 has an ordering.
pub proof fn lemma_raw_codes_bijective()
    ensures
        forall|a: RawOrder, b: RawOrder| #[trigger] a.code() == #[trigger] b.code() <==> a == b,
        forall|o: RawOrder| #[trigger] o.code() < 4 && RawOrder::from_code(o.code()) == o,
        forall|c: u8| c < 4 ==> #[trigger] RawOrder::from_code(c).code() == c,
{
}

/// RGB565 ordering codes are a bijection between the 6 orderings and 0 to 5:
/// distinct orderings have distinct codes, and every code below 6 has an ordering.
pub proof fn lemma_rgb565_codes_bijective()
    ensures
        forall|a: Rgb565Order, b: Rgb565Order| #[trigger] a.code() == #[trigger] b.code() <==> a == b,
        forall|o: Rgb565Order| #[trigger] o.code() < 6 && Rgb565Order::from_code(o.code()) == o,
        forall|c: u8| c < 6 ==> #[trigger] Rgb565Order::from_code(c).code() == c,
{
}

/// YUV422 ordering codes are a bijection between the 4 orderings and 0 to 3:
/// distinct orderings have distinct codes, and every code below 4 has an ordering.
pub proof fn lemma_yuv422_codes_bijective()
    ensures
        forall|a: Yuv422Order, b: Yuv422Order| #[trigger] a.code() == #[trigger] b.code() <==> a == b,
        forall|o: Yuv422Order| #[trigger] o.code() < 4 && Yuv422Order::from_code(o.code()) == o,
        forall|c: u8| c < 4 ==> #[trigger] Yuv422Order::from_code(c).code() == c,
{
}

} // verus!
