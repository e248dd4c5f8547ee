//! A platform-agnostic driver for the MCP3425 family of delta-sigma
//! analog-to-digital converters (including the multi-channel MCP3426/7/8),
//! spoken to over a two-wire serial bus.
//!
//! The device has a 16-bit interface and an on-board ±2048 mV reference. The
//! driver exposes a typed configuration surface (resolution / sample rate,
//! programmable gain, input channel) and two operating modes — one-shot and
//! continuous conversion — translating raw device register bytes into
//! calibrated millivolt readings while detecting saturation and staleness.
//!
//! The crate is split into small pieces:
//!
//! - [`config`]: the configuration types and their command bitmasks.
//! - [`codec`]: packing a configuration into the single command byte and
//!   decoding the three-byte response.
//! - [`voltage`]: turning a signed raw measurement code into a calibrated
//!   voltage, with saturation detection.
//! - [`bus`]: the capabilities the driver consumes — a byte-oriented bus
//!   transport and a millisecond sleep — to be implemented by the embedding
//!   platform.
//! - [`driver`]: the [`MCP3425`] handle itself, generic over the bus, the
//!   delay and the conversion mode.

pub mod bus;
pub mod codec;
pub mod config;
pub mod driver;
pub mod voltage;

pub use bus::{DelayMs, I2cBus};
pub use codec::ConfigRegister;
pub use config::{Channel, Config, Gain, Resolution};
pub use driver::{interpret_response, ContinuousMode, ConversionMode, Error, OneShotMode, MCP3425};
pub use voltage::Voltage;
