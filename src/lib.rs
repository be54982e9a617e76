//! Driver for the OV5640 image sensor: register access over its two-wire
//! control bus, the power-down and reset lines, and the start-up sequence.
pub mod regs;
pub mod format;
pub mod tables;
pub mod bus;
pub mod driver;

pub use bus::{BusEvent, I2cBus, OutputLine};
pub use driver::{Ov5640, SccbError};
pub use format::{Format, RawOrder, Resolution, Rgb565Order, Yuv422Order};
