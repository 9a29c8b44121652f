//! Verified core of a full-duplex SPI transaction tool.
//!
//! The library covers the logic of one invocation: translating user-level
//! bus parameters into an ordered list of device configuration steps,
//! building a one- or two-segment transfer plan that realizes an optional
//! pre-transfer delay while keeping the chip-select line asserted, and
//! rendering captured bytes in raw, hexadecimal or decimal form.
//! Opening the device, running the transfers and writing to the sink are
//! left to an unverified shell around the library.

pub mod config;
pub mod errors;
pub mod format;
pub mod plan;
