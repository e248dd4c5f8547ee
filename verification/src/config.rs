//! The typed configuration surface of the converter: conversion resolution /
//! sample rate, programmable gain, input channel, and the [`Config`] value
//! that bundles them.
//!
//! Every setting carries a bitmask occupying its own disjoint range of the
//! command byte (bits 6–5: channel, bits 3–2: resolution, bits 1–0: gain), so
//! a configuration is always representable as exactly one command byte.

use vstd::arithmetic::power2::*;
use vstd::prelude::*;

verus! {

/// Conversion bit resolution and sample rate.
///
/// * 15 SPS -> 16 bits
/// * 60 SPS -> 14 bits
/// * 240 SPS -> 12 bits
///
/// Defaults to 12 bits / 240 SPS (`Bits12Sps240`),
/// matching the power-on defaults of the device.
#[derive(Debug, Copy, Clone, PartialEq, Eq, Structural)]
pub enum Resolution {
    /// 16 bits / 15 SPS. This allows you to measure voltage in 62.5 µV steps.
    Bits16Sps15,
    /// 14 bits / 60 SPS. This allows you to measure voltage in 250 µV steps.
    Bits14Sps60,
    /// 12 bits / 240 SPS. This allows you to measure voltage in 1 mV steps.
    Bits12Sps240,
}

impl Resolution {
    /// The command bitmask for this sample rate (bits 3–2 of the command byte).
    pub open spec fn spec_bits(self) -> u8 {
        match self {
            Resolution::Bits16Sps15 => 0b0000_1000,
            Resolution::Bits14Sps60 => 0b0000_0100,
            Resolution::Bits12Sps240 => 0b0000_0000,
        }
    }

    /// The number of bits of accuracy this sample rate gives you.
    pub open spec fn spec_res_bits(self) -> u8 {
        match self {
            Resolution::Bits16Sps15 => 16,
            Resolution::Bits14Sps60 => 14,
            Resolution::Bits12Sps240 => 12,
        }
    }

    /// The maximum output code at this bit depth.
    pub open spec fn spec_max(self) -> i16 {
        match self {
            Resolution::Bits16Sps15 => 32767,
            Resolution::Bits14Sps60 => 8191,
            Resolution::Bits12Sps240 => 2047,
        }
    }

    /// The minimum output code at this bit depth.
    pub open spec fn spec_min(self) -> i16 {
        match self {
            Resolution::Bits16Sps15 => -32768i16,
            Resolution::Bits14Sps60 => -8192i16,
            Resolution::Bits12Sps240 => -2048i16,
        }
    }

    /// Return the bitmask for this sample rate.
    pub fn bits(&self) -> (r: u8)
        ensures
            r == self.spec_bits(),
    {
        match *self {
            Resolution::Bits16Sps15 => 0b0000_1000,
            Resolution::Bits14Sps60 => 0b0000_0100,
            Resolution::Bits12Sps240 => 0b0000_0000,
        }
    }

    /// Return the number of bits of accuracy this sample rate gives you.
    pub fn res_bits(&self) -> (r: u8)
        ensures
            r == self.spec_res_bits(),
    {
        match *self {
            Resolution::Bits16Sps15 => 16,
            Resolution::Bits14Sps60 => 14,
            Resolution::Bits12Sps240 => 12,
        }
    }

    /// Return the maximum output code.
    pub fn max(&self) -> (r: i16)
        ensures
            r == self.spec_max(),
    {
        match *self {
            Resolution::Bits16Sps15 => 32767,
            Resolution::Bits14Sps60 => 8191,
            Resolution::Bits12Sps240 => 2047,
        }
    }

    /// Return the minimum output code.
    pub fn min(&self) -> (r: i16)
        ensures
            r == self.spec_min(),
    {
        match *self {
            Resolution::Bits16Sps15 => -32768,
            Resolution::Bits14Sps60 => -8192,
            Resolution::Bits12Sps240 => -2048,
        }
    }
}

impl Default for Resolution {
    /// Default implementation matching the power-on defaults of the device.
    fn default() -> (r: Self)
        ensures
            r == Resolution::Bits12Sps240,
    {
        Resolution::Bits12Sps240
    }
}

/// The saturation codes of every resolution are the exact two's-complement
/// bounds for its bit depth: the maximum code is `2^(depth - 1) - 1` and the
/// minimum code is `-2^(depth - 1)`.
pub proof fn lemma_code_bounds(res: Resolution)
    ensures
        res.spec_max() as int == pow2((res.spec_res_bits() - 1) as nat) - 1,
        res.spec_min() as int == -(pow2((res.spec_res_bits() - 1) as nat) as int),
{
    lemma2_to64();
}

/// Programmable gain amplifier (PGA).
///
/// Defaults to no amplification (`Gain1`),
/// matching the power-on defaults of the device.
#[derive(Debug, Copy, Clone, PartialEq, Eq, Structural)]
pub enum Gain {
    /// Amplification factor 1.
    Gain1,
    /// Amplification factor 2.
    Gain2,
    /// Amplification factor 4.
    Gain4,
    /// Amplification factor 8.
    Gain8,
}

impl Gain {
    /// The command bitmask for this gain (bits 1–0 of the command byte).
    pub open spec fn spec_bits(self) -> u8 {
        match self {
            Gain::Gain1 => 0b0000_0000,
            Gain::Gain2 => 0b0000_0001,
            Gain::Gain4 => 0b0000_0010,
            Gain::Gain8 => 0b0000_0011,
        }
    }

    /// Return the bitmask for this gain configuration.
    pub fn bits(&self) -> (r: u8)
        ensures
            r == self.spec_bits(),
    {
        match *self {
            Gain::Gain1 => 0b0000_0000,
            Gain::Gain2 => 0b0000_0001,
            Gain::Gain4 => 0b0000_0010,
            Gain::Gain8 => 0b0000_0011,
        }
    }
}

impl Default for Gain {
    /// Default implementation matching the power-on defaults of the device.
    fn default() -> (r: Self)
        ensures
            r == Gain::Gain1,
    {
        Gain::Gain1
    }
}

/// Selected ADC input channel.
///
/// Channels 2–4 are only meaningful on the multi-channel device variants
/// (MCP3426/7/8); the single-channel MCP3425 always converts channel 1.
///
/// Defaults to channel 1.
#[derive(Debug, Copy, Clone, PartialEq, Eq, Structural)]
pub enum Channel {
    /// First channel (default).
    Channel1,
    /// Second channel (MCP3426/7/8 only).
    Channel2,
    /// Third channel (MCP3428 only).
    Channel3,
    /// Fourth channel (MCP3428 only).
    Channel4,
}

impl Channel {
    /// The command bitmask for this channel (bits 6–5 of the command byte).
    pub open spec fn spec_bits(self) -> u8 {
        match self {
            Channel::Channel1 => 0b0000_0000,
            Channel::Channel2 => 0b0010_0000,
            Channel::Channel3 => 0b0100_0000,
            Channel::Channel4 => 0b0110_0000,
        }
    }

    /// Return the bitmask for this channel configuration.
    pub fn bits(&self) -> (r: u8)
        ensures
            r == self.spec_bits(),
    {
        match *self {
            Channel::Channel1 => 0b0000_0000,
            Channel::Channel2 => 0b0010_0000,
            Channel::Channel3 => 0b0100_0000,
            Channel::Channel4 => 0b0110_0000,
        }
    }
}

impl Default for Channel {
    fn default() -> (r: Self)
        ensures
            r == Channel::Channel1,
    {
        Channel::Channel1
    }
}

/// Device configuration: resolution, gain and input channel.
///
/// A `Config` is an immutable value; the `with_*` methods build a new value
/// with one setting replaced. Creating or changing a `Config` has no effect on
/// the device — it is only written when a measurement is triggered or when the
/// configuration is written explicitly.
#[derive(Debug, Copy, Clone, PartialEq, Eq, Structural)]
pub struct Config {
    /// Conversion bit resolution and sample rate.
    pub resolution: Resolution,
    /// Programmable gain amplifier (PGA).
    pub gain: Gain,
    /// Selected input channel.
    pub channel: Channel,
}

impl Config {
    /// The combined bitmask of the three settings. Their bit ranges are
    /// disjoint, so the combination is lossless.
    pub open spec fn spec_bits(self) -> u8 {
        self.channel.spec_bits() | self.resolution.spec_bits() | self.gain.spec_bits()
    }

    /// Create a new configuration where the resolution has been replaced
    /// with the specified value.
    pub fn with_resolution(&self, resolution: Resolution) -> (r: Self)
        ensures
            r == (Config { resolution, ..*self }),
    {
        Config { resolution, gain: self.gain, channel: self.channel }
    }

    /// Create a new configuration where the gain has been replaced
    /// with the specified value.
    pub fn with_gain(&self, gain: Gain) -> (r: Self)
        ensures
            r == (Config { gain, ..*self }),
    {
        Config { resolution: self.resolution, gain, channel: self.channel }
    }

    /// Create a new configuration where the channel has been replaced
    /// with the specified value.
    pub fn with_channel(&self, channel: Channel) -> (r: Self)
        ensures
            r == (Config { channel, ..*self }),
    {
        Config { resolution: self.resolution, gain: self.gain, channel }
    }

    /// Return the bitmask for the combined configuration values.
    pub fn bits(&self) -> (r: u8)
        ensures
            r == self.spec_bits(),
    {
        self.channel.bits() | self.resolution.bits() | self.gain.bits()
    }
}

impl Default for Config {
    /// The power-on defaults of the device: 12 bits / 240 SPS, gain 1,
    /// channel 1.
    fn default() -> (r: Self)
        ensures
            r == (Config {
                resolution: Resolution::Bits12Sps240,
                gain: Gain::Gain1,
                channel: Channel::Channel1,
            }),
    {
        Config {
            resolution: Resolution::Bits12Sps240,
            gain: Gain::Gain1,
            channel: Channel::Channel1,
        }
    }
}

} // verus!
