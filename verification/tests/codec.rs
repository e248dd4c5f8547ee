//! Register codec: command byte composition and response decoding on
//! concrete values.

use mcp3425::codec::{decode_measurement, decode_status, encode, encode_start};
use mcp3425::{Channel, Config, Gain, Resolution};

/// The bitmasks of the individual settings.
#[test]
fn test_setting_bitmasks() {
    assert_eq!(Resolution::Bits12Sps240.bits(), 0b0000_0000);
    assert_eq!(Resolution::Bits14Sps60.bits(), 0b0000_0100);
    assert_eq!(Resolution::Bits16Sps15.bits(), 0b0000_1000);
    assert_eq!(Gain::Gain1.bits(), 0b0000_0000);
    assert_eq!(Gain::Gain2.bits(), 0b0000_0001);
    assert_eq!(Gain::Gain4.bits(), 0b0000_0010);
    assert_eq!(Gain::Gain8.bits(), 0b0000_0011);
    assert_eq!(Channel::Channel1.bits(), 0b0000_0000);
    assert_eq!(Channel::Channel2.bits(), 0b0010_0000);
    assert_eq!(Channel::Channel3.bits(), 0b0100_0000);
    assert_eq!(Channel::Channel4.bits(), 0b0110_0000);
}

/// The resolutions' bit depths.
#[test]
fn test_res_bits() {
    assert_eq!(Resolution::Bits12Sps240.res_bits(), 12);
    assert_eq!(Resolution::Bits14Sps60.res_bits(), 14);
    assert_eq!(Resolution::Bits16Sps15.res_bits(), 16);
}

/// The default configuration encodes to all-zero command bits, and the
/// one-shot start variant only adds the begin-conversion bit.
#[test]
fn test_encode_default() {
    let config = Config::default();
    assert_eq!(encode(0b0000_0000, &config), 0b0000_0000);
    assert_eq!(encode(0b0001_0000, &config), 0b0001_0000);
    assert_eq!(encode_start(&config), 0b1000_0000);
}

/// The command byte for resolution 14 bit / 60 SPS, gain 8, channel 1,
/// mode one-shot-start equals `0b10000111`.
#[test]
fn test_encode_oneshot_start() {
    let config = Config::default()
        .with_resolution(Resolution::Bits14Sps60)
        .with_gain(Gain::Gain8);
    assert_eq!(encode_start(&config), 0b1000_0111);
}

/// Every setting lands in its own bit range, so the composed command byte is
/// the sum of the parts and each part can be read back out with its mask.
#[test]
fn test_encode_disjoint_fields() {
    let config = Config::default()
        .with_resolution(Resolution::Bits16Sps15)
        .with_gain(Gain::Gain4)
        .with_channel(Channel::Channel3);
    let command = encode(0b0001_0000, &config);
    assert_eq!(command, 0b0101_1010);
    assert_eq!(command & 0b0110_0000, Channel::Channel3.bits());
    assert_eq!(command & 0b0001_0000, 0b0001_0000);
    assert_eq!(command & 0b0000_1100, Resolution::Bits16Sps15.bits());
    assert_eq!(command & 0b0000_0011, Gain::Gain4.bits());
}

/// The `with_*` methods replace exactly one setting each.
#[test]
fn test_with_methods() {
    let config = Config::default();
    let high_res = config.with_resolution(Resolution::Bits16Sps15);
    let high_gain = high_res.with_gain(Gain::Gain8);
    let other_channel = high_gain.with_channel(Channel::Channel2);
    assert!(matches!(config.resolution, Resolution::Bits12Sps240));
    assert!(matches!(high_res.resolution, Resolution::Bits16Sps15));
    assert!(matches!(high_res.gain, Gain::Gain1));
    assert!(matches!(high_gain.gain, Gain::Gain8));
    assert!(matches!(high_gain.channel, Channel::Channel1));
    assert!(matches!(other_channel.channel, Channel::Channel2));
    assert!(matches!(other_channel.resolution, Resolution::Bits16Sps15));
}

/// The status byte's bit 7 is the not-ready flag; `is_ready` is its negation.
#[test]
fn test_decode_status() {
    assert!(decode_status(0b0000_0000).is_ready());
    assert!(decode_status(0b0111_1111).is_ready());
    assert!(!decode_status(0b1000_0000).is_ready());
    assert!(!decode_status(0b1111_1111).is_ready());
}

/// The measurement bytes are a big-endian signed 16-bit value.
#[test]
fn test_decode_measurement() {
    assert_eq!(decode_measurement(0x00, 0x00), 0);
    assert_eq!(decode_measurement(0x00, 0x07), 7);
    assert_eq!(decode_measurement(0xff, 0xff), -1);
    assert_eq!(decode_measurement(0xf8, 0x01), -2047);
    assert_eq!(decode_measurement(0xf8, 0x00), -2048);
    assert_eq!(decode_measurement(0x7f, 0xff), 32767);
    assert_eq!(decode_measurement(0x80, 0x00), -32768);
}
