//! The register codec: packing a configuration into the single command byte
//! that is written to the device, and decoding the status/configuration byte
//! that comes back as the third byte of every response.
//!
//! Command byte layout (write direction):
//!
//! * bit 7 — begin a conversion (one-shot mode only); on read-back this same
//!   bit is the "not ready" flag
//! * bits 6–5 — input channel
//! * bit 4 — conversion mode (0 = one-shot, 1 = continuous)
//! * bits 3–2 — resolution / sample rate
//! * bits 1–0 — gain
//!
//! The bit ranges are disjoint, so combining the masks with `|` is lossless:
//! every field of the configuration can be read back out of the command byte
//! ([`lemma_command_roundtrip`]).

use vstd::prelude::*;

use crate::config::{Channel, Config, Gain, Resolution};

verus! {

/// The "begin conversion" bit of a written command byte, which doubles as the
/// "not ready" flag of the status byte read back from the device.
pub const NOT_READY: u8 = 0b1000_0000;

/// The conversion-mode bit: clear for one-shot, set for continuous.
pub const MODE_CONTINUOUS: u8 = 0b0001_0000;

/// The command byte for the given conversion-mode bitmask and configuration.
pub open spec fn spec_command(mode_bits: u8, config: Config) -> u8 {
    mode_bits | config.spec_bits()
}

/// The command byte that also sets the "begin conversion" bit (used only for
/// one-shot triggering, where the mode bit is clear).
pub open spec fn spec_command_start(config: Config) -> u8 {
    NOT_READY | config.spec_bits()
}

/// Encode a conversion-mode bitmask and a configuration into a command byte.
pub fn encode(mode_bits: u8, config: &Config) -> (r: u8)
    ensures
        r == spec_command(mode_bits, *config),
{
    mode_bits | config.bits()
}

/// Encode a configuration into a one-shot command byte with the
/// "begin conversion" bit set.
pub fn encode_start(config: &Config) -> (r: u8)
    ensures
        r == spec_command_start(*config),
{
    NOT_READY | config.bits()
}

/// The signed 16-bit measurement value that the first two response bytes
/// carry big-endian: the two's-complement reading of `b0 * 256 + b1`.
pub open spec fn raw_of_bytes(b0: u8, b1: u8) -> int {
    if b0 * 256 + b1 >= 32768 {
        b0 * 256 + b1 - 65536
    } else {
        b0 * 256 + b1
    }
}

/// Decode the two big-endian measurement bytes of a response into the signed
/// raw measurement code.
pub fn decode_measurement(b0: u8, b1: u8) -> (r: i16)
    ensures
        r as int == raw_of_bytes(b0, b1),
{
    let high: u16 = (b0 as u16) * 256;
    let unsigned: u16 = high + (b1 as u16);
    if unsigned >= 32768 {
        let offset: u16 = unsigned - 32768;
        (offset as i16) - 32767 - 1
    } else {
        unsigned as i16
    }
}

/// The decoded status/configuration register: the third byte of every
/// three-byte response. Only the "not ready" flag (bit 7) is of interest.
#[derive(Debug, Copy, Clone, PartialEq, Eq, Structural)]
pub struct ConfigRegister {
    bits: u8,
}

impl ConfigRegister {
    /// Whether the register says the latest conversion result is ready,
    /// i.e. its "not ready" flag (bit 7) is clear.
    pub closed spec fn spec_is_ready(self) -> bool {
        self.bits & NOT_READY == 0
    }

    /// Whether the latest conversion result is ready (the "not ready" flag
    /// is clear).
    pub fn is_ready(&self) -> (r: bool)
        ensures
            r == self.spec_is_ready(),
    {
        self.bits & NOT_READY == 0
    }
}

/// Decode the status/configuration byte of a response.
pub fn decode_status(byte: u8) -> (r: ConfigRegister)
    ensures
        r.spec_is_ready() <==> byte & NOT_READY == 0,
{
    ConfigRegister { bits: byte }
}

/// Every field of a configuration, the conversion mode, and the
/// "begin conversion" bit occupy disjoint ranges of the command byte, so each
/// one can be extracted back out of it with its own mask.
pub proof fn lemma_command_fields(mode_bits: u8, config: Config)
    requires
        mode_bits == 0 || mode_bits == MODE_CONTINUOUS,
    ensures
        spec_command(mode_bits, config) & 0b0110_0000 == config.channel.spec_bits(),
        spec_command(mode_bits, config) & 0b0001_0000 == mode_bits,
        spec_command(mode_bits, config) & 0b0000_1100 == config.resolution.spec_bits(),
        spec_command(mode_bits, config) & 0b0000_0011 == config.gain.spec_bits(),
        spec_command(mode_bits, config) & 0b1000_0000 == 0,
        spec_command_start(config) & 0b0110_0000 == config.channel.spec_bits(),
        spec_command_start(config) & 0b0001_0000 == 0,
        spec_command_start(config) & 0b0000_1100 == config.resolution.spec_bits(),
        spec_command_start(config) & 0b0000_0011 == config.gain.spec_bits(),
        spec_command_start(config) & 0b1000_0000 == NOT_READY,
{
    let ch = config.channel.spec_bits();
    let re = config.resolution.spec_bits();
    let ga = config.gain.spec_bits();
    assert(ch == 0x00 || ch == 0x20 || ch == 0x40 || ch == 0x60);
    assert(re == 0x00 || re == 0x04 || re == 0x08);
    assert(ga == 0x00 || ga == 0x01 || ga == 0x02 || ga == 0x03);
    assert(spec_command(mode_bits, config) == mode_bits | ((ch | re) | ga));
    assert(spec_command_start(config) == 0x80u8 | ((ch | re) | ga));
    assert((mode_bits | ((ch | re) | ga)) & 0x60 == ch && (mode_bits | ((ch | re) | ga)) & 0x10
        == mode_bits && (mode_bits | ((ch | re) | ga)) & 0x0c == re && (mode_bits | ((ch | re)
        | ga)) & 0x03 == ga && (mode_bits | ((ch | re) | ga)) & 0x80 == 0 && (0x80u8 | ((ch
        | re) | ga)) & 0x60 == ch && (0x80u8 | ((ch | re) | ga)) & 0x10 == 0 && (0x80u8 | ((ch
        | re) | ga)) & 0x0c == re && (0x80u8 | ((ch | re) | ga)) & 0x03 == ga && (0x80u8 | ((ch
        | re) | ga)) & 0x80 == 0x80) by (bit_vector)
        requires
            (mode_bits == 0 || mode_bits == 0x10) && (ch == 0x00 || ch == 0x20 || ch == 0x40
                || ch == 0x60) && (re == 0x00 || re == 0x04 || re == 0x08) && (ga == 0x00
                || ga == 0x01 || ga == 0x02 || ga == 0x03),
    ;
}

/// Round trip: the command byte determines the conversion mode and every
/// configuration field. Two encodings agree only when they were built from
/// the same mode and the same configuration.
pub proof fn lemma_command_roundtrip(m1: u8, c1: Config, m2: u8, c2: Config)
    requires
        m1 == 0 || m1 == MODE_CONTINUOUS,
        m2 == 0 || m2 == MODE_CONTINUOUS,
        spec_command(m1, c1) == spec_command(m2, c2),
    ensures
        m1 == m2,
        c1 == c2,
{
    lemma_command_fields(m1, c1);
    lemma_command_fields(m2, c2);
}

} // verus!
