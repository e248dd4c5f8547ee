//! The voltage wrapper and the raw-code-to-millivolt calculation on concrete
//! values.

use mcp3425::voltage::calculate;
use mcp3425::{Error, Resolution, Voltage};

#[test]
fn test_voltage_wrapper() {
    let a = Voltage::from_millivolts(2500);
    assert_eq!(a.as_millivolts(), 2500i16);

    let b = Voltage::from_millivolts(-100);
    assert_eq!(b.as_millivolts(), -100i16);
}

/// The saturation bounds are the exact two's-complement bounds of each bit
/// depth.
#[test]
fn test_code_bounds() {
    assert_eq!(Resolution::Bits12Sps240.max(), 2047);
    assert_eq!(Resolution::Bits12Sps240.min(), -2048);
    assert_eq!(Resolution::Bits14Sps60.max(), 8191);
    assert_eq!(Resolution::Bits14Sps60.min(), -8192);
    assert_eq!(Resolution::Bits16Sps15.max(), 32767);
    assert_eq!(Resolution::Bits16Sps15.min(), -32768);
}

/// A raw code of zero reads as zero millivolts at every resolution.
#[test]
fn test_calculate_zero() {
    let v = calculate::<()>(0, Resolution::Bits12Sps240).unwrap();
    assert_eq!(v.as_millivolts(), 0);
    let v = calculate::<()>(0, Resolution::Bits14Sps60).unwrap();
    assert_eq!(v.as_millivolts(), 0);
    let v = calculate::<()>(0, Resolution::Bits16Sps15).unwrap();
    assert_eq!(v.as_millivolts(), 0);
}

/// Exact scaling: at 12 bits one step is 1 mV, at 14 bits 250 µV, at 16 bits
/// 62.5 µV, with the quotient rounded towards zero.
#[test]
fn test_calculate_exact_values() {
    // 12 bits: raw * 4096 / 4096.
    let v = calculate::<()>(7, Resolution::Bits12Sps240).unwrap();
    assert_eq!(v.as_millivolts(), 7);
    let v = calculate::<()>(-1, Resolution::Bits12Sps240).unwrap();
    assert_eq!(v.as_millivolts(), -1);
    let v = calculate::<()>(2046, Resolution::Bits12Sps240).unwrap();
    assert_eq!(v.as_millivolts(), 2046);
    // 14 bits: raw * 4096 / 16384.
    let v = calculate::<()>(4, Resolution::Bits14Sps60).unwrap();
    assert_eq!(v.as_millivolts(), 1);
    let v = calculate::<()>(-3, Resolution::Bits14Sps60).unwrap();
    assert_eq!(v.as_millivolts(), 0, "rounding is towards zero");
    let v = calculate::<()>(8190, Resolution::Bits14Sps60).unwrap();
    assert_eq!(v.as_millivolts(), 2047);
    // 16 bits: raw * 4096 / 65536.
    let v = calculate::<()>(16, Resolution::Bits16Sps15).unwrap();
    assert_eq!(v.as_millivolts(), 1);
    let v = calculate::<()>(-17, Resolution::Bits16Sps15).unwrap();
    assert_eq!(v.as_millivolts(), -1);
    let v = calculate::<()>(32766, Resolution::Bits16Sps15).unwrap();
    assert_eq!(v.as_millivolts(), 2047);
}

/// The calculation is monotonic in the raw code (sampled).
#[test]
fn test_calculate_monotonic_samples() {
    let mut previous = i16::MIN;
    let raws: Vec<i16> = vec![-8191, -4096, -1, 0, 1, 100, 4095, 8190];
    for raw in raws {
        let v = calculate::<()>(raw, Resolution::Bits14Sps60).unwrap();
        assert!(v.as_millivolts() >= previous);
        previous = v.as_millivolts();
    }
}

/// The saturation codes of every resolution fail with the matching error.
#[test]
fn test_calculate_saturation() {
    let err = calculate::<()>(2047, Resolution::Bits12Sps240).unwrap_err();
    assert!(matches!(err, Error::VoltageTooHigh));
    let err = calculate::<()>(-2048, Resolution::Bits12Sps240).unwrap_err();
    assert!(matches!(err, Error::VoltageTooLow));
    let err = calculate::<()>(8191, Resolution::Bits14Sps60).unwrap_err();
    assert!(matches!(err, Error::VoltageTooHigh));
    let err = calculate::<()>(-8192, Resolution::Bits14Sps60).unwrap_err();
    assert!(matches!(err, Error::VoltageTooLow));
    let err = calculate::<()>(32767, Resolution::Bits16Sps15).unwrap_err();
    assert!(matches!(err, Error::VoltageTooHigh));
    let err = calculate::<()>(-32768, Resolution::Bits16Sps15).unwrap_err();
    assert!(matches!(err, Error::VoltageTooLow));
}

/// A code that saturates a lower resolution is an ordinary reading at a
/// higher one.
#[test]
fn test_saturation_depends_on_resolution() {
    let v = calculate::<()>(2047, Resolution::Bits14Sps60).unwrap();
    assert_eq!(v.as_millivolts(), 511);
    let v = calculate::<()>(-2048, Resolution::Bits16Sps15).unwrap();
    assert_eq!(v.as_millivolts(), -128);
}
