//! The driver handle and its two conversion modes.
//!
//! The handle owns the bus connection, the device address and the delay
//! primitive. Constructing a handle performs no bus traffic; the first I/O
//! happens on an explicit measurement or configuration call.
//!
//! * In [`OneShotMode`], every [`measure`](MCP3425::measure) call is
//!   self-contained: it writes the command byte with the "begin conversion"
//!   bit, sleeps a resolution-dependent nominal conversion time plus a 2 ms
//!   safety margin, reads the three-byte response and turns it into a voltage.
//! * In [`ContinuousMode`], [`set_config`](MCP3425::set_config) writes the
//!   configuration, stores it, and blocks (polling) until the first conversion
//!   is ready; [`read_measurement`](MCP3425::read_measurement) then reads the
//!   free-running results.

use vstd::prelude::*;

use crate::bus::{DelayMs, I2cBus};
use crate::codec;
use crate::config::{Config, Resolution};
use crate::voltage::{calculate, millivolts_of, Voltage};

verus! {

/// All possible errors in this crate.
#[derive(Debug)]
pub enum Error<E> {
    /// Bus error on the two-wire transport.
    I2c(E),
    /// Voltage is too high to be measured: the raw code sits at the positive
    /// saturation bound of the configured resolution.
    VoltageTooHigh,
    /// Voltage is too low to be measured: the raw code sits at the negative
    /// saturation bound of the configured resolution.
    VoltageTooLow,
    /// A measurement in continuous mode has been triggered without previously
    /// writing the configuration to the device.
    NotInitialized,
    /// A measurement returned a stale result.
    ///
    /// In continuous mode, this can happen when polling faster than the
    /// configured sample rate; backing off and reading again recovers.
    ///
    /// In one-shot mode it signals that the conversion delay was too short,
    /// which would be a defect in this driver.
    NotReady,
}

/// The two conversion mode structs implement this trait.
///
/// This allows the [`MCP3425`] instance to be generic over the conversion
/// mode.
pub trait ConversionMode {
    /// The bitmask for this conversion mode (bit 4 of the command byte).
    spec fn spec_bits(&self) -> u8;

    /// Return the bitmask for this conversion mode.
    fn bits(&self) -> (r: u8)
        ensures
            r == self.spec_bits(),
    ;
}

/// Use the converter in one-shot mode: each measurement is triggered, awaited
/// and read on its own.
pub struct OneShotMode;

impl ConversionMode for OneShotMode {
    open spec fn spec_bits(&self) -> u8 {
        0b0000_0000
    }

    fn bits(&self) -> (r: u8) {
        0b0000_0000
    }
}

/// Use the converter in continuous conversion mode: once configured, the
/// device converts at its sample rate and the driver reads the latest result.
pub struct ContinuousMode;

impl ConversionMode for ContinuousMode {
    open spec fn spec_bits(&self) -> u8 {
        codec::MODE_CONTINUOUS
    }

    fn bits(&self) -> (r: u8) {
        codec::MODE_CONTINUOUS
    }
}

/// Driver handle for the converter.
///
/// It exclusively owns the bus connection and the delay primitive, holds the
/// 7-bit device address, and — only used in continuous mode — the last
/// configuration written to the device.
pub struct MCP3425<I2C, D, M> {
    /// The concrete bus transport implementation.
    i2c: I2C,
    /// The device address on the bus.
    address: u8,
    /// The concrete delay implementation.
    delay: D,
    /// The conversion mode.
    mode: M,
    /// The configuration written by the last `set_config` call, if any.
    config: Option<Config>,
}

impl<I2C, D, M> MCP3425<I2C, D, M> {
    /// The bus connection the handle owns.
    pub closed spec fn spec_bus(self) -> I2C {
        self.i2c
    }

    /// The device address the handle was constructed with.
    pub closed spec fn spec_address(self) -> u8 {
        self.address
    }

    /// The delay primitive the handle owns.
    pub closed spec fn spec_delay(self) -> D {
        self.delay
    }

    /// The conversion mode of the handle.
    pub closed spec fn spec_mode(self) -> M {
        self.mode
    }

    /// The configuration written by the last successful `set_config` call,
    /// or `None` if none was ever written.
    pub closed spec fn spec_config(self) -> Option<Config> {
        self.config
    }
}

impl<I2C, D, M> MCP3425<I2C, D, M> where I2C: I2cBus, D: DelayMs, M: ConversionMode {
    /// Initialize the driver.
    ///
    /// This constructor is side-effect free: it performs no bus traffic, and
    /// no configuration is written to the device until a first measurement or
    /// configuration call.
    pub fn new(i2c: I2C, address: u8, delay: D, mode: M) -> (r: Self)
        ensures
            r.spec_bus() == i2c,
            r.spec_address() == address,
            r.spec_delay() == delay,
            r.spec_mode() == mode,
            r.spec_config() is None,
    {
        MCP3425 { i2c, address, delay, mode, config: None }
    }

    /// Destroy the driver instance and return the owned bus connection.
    pub fn destroy(self) -> (r: I2C)
        ensures
            r == self.spec_bus(),
    {
        self.i2c
    }

    /// Read one three-byte response from the device, surfacing a bus error
    /// as [`Error::I2c`]. What the bytes mean is fixed by
    /// [`interpret_response`].
    fn read_response(&mut self) -> (r: Result<(u8, u8, u8), Error<I2C::BusError>>)
        ensures
            final(self).spec_address() == old(self).spec_address(),
            final(self).spec_config() == old(self).spec_config(),
            final(self).spec_mode() == old(self).spec_mode(),
            r matches Err(e) ==> e is I2c,
    {
        let address: u8 = self.address;
        match self.i2c.read_three(address) {
            Ok(response) => Ok(response),
            Err(e) => Err(Error::I2c(e)),
        }
    }
}

/// Interpret one three-byte device response at the given resolution, fixing
/// the driver's result for every possible response.
///
/// Staleness comes first: a response whose not-ready bit is set fails with
/// [`Error::NotReady`], whatever the measurement bytes hold. A fresh
/// response whose raw code sits at a saturation bound of the resolution
/// fails with the matching saturation error, and every other fresh response
/// yields the exact millivolt value of its raw code.
pub fn interpret_response<E>(b0: u8, b1: u8, b2: u8, resolution: Resolution) -> (r: Result<
    Voltage,
    Error<E>,
>)
    ensures
        (r matches Err(Error::NotReady)) <==> b2 & codec::NOT_READY != 0,
        b2 & codec::NOT_READY == 0 ==> ((r matches Err(Error::VoltageTooHigh))
            <==> codec::raw_of_bytes(b0, b1) == resolution.spec_max() as int),
        b2 & codec::NOT_READY == 0 ==> ((r matches Err(Error::VoltageTooLow))
            <==> codec::raw_of_bytes(b0, b1) == resolution.spec_min() as int),
        (b2 & codec::NOT_READY == 0 && codec::raw_of_bytes(b0, b1) != resolution.spec_max() as int
            && codec::raw_of_bytes(b0, b1) != resolution.spec_min() as int) ==> (r matches Ok(v)
            && v@ as int == millivolts_of(codec::raw_of_bytes(b0, b1), resolution)),
{
    let status = codec::decode_status(b2);
    if !status.is_ready() {
        return Err(Error::NotReady);
    }
    let measurement: i16 = codec::decode_measurement(b0, b1);
    calculate(measurement, resolution)
}

/// The nominal time one conversion takes at this sample rate, in
/// milliseconds. These values are calibrated empirically; the datasheet does
/// not specify them.
pub open spec fn spec_conversion_delay_ms(res: Resolution) -> u32 {
    match res {
        Resolution::Bits12Sps240 => 4,
        Resolution::Bits14Sps60 => 15,
        Resolution::Bits16Sps15 => 57,
    }
}

/// The nominal conversion time for the resolution, as an executable value.
fn conversion_delay_ms(res: Resolution) -> (r: u32)
    ensures
        r == spec_conversion_delay_ms(res),
{
    match res {
        Resolution::Bits12Sps240 => 4,
        Resolution::Bits14Sps60 => 15,
        Resolution::Bits16Sps15 => 57,
    }
}

impl<I2C, D> MCP3425<I2C, D, OneShotMode> where I2C: I2cBus, D: DelayMs {
    /// Initialize the driver in one-shot mode.
    ///
    /// This constructor is side-effect free: it performs no bus traffic, and
    /// no configuration is written to the device until a measurement is
    /// triggered.
    pub fn oneshot(i2c: I2C, address: u8, delay: D) -> (r: Self)
        ensures
            r.spec_bus() == i2c,
            r.spec_address() == address,
            r.spec_delay() == delay,
            r.spec_config() is None,
    {
        MCP3425 { i2c, address, delay, mode: OneShotMode, config: None }
    }

    /// Change the conversion mode to continuous.
    ///
    /// The change is side-effect free: nothing is written to the device until
    /// [`set_config`](MCP3425::set_config) is called, and any stored
    /// configuration is discarded.
    pub fn into_continuous(self) -> (r: MCP3425<I2C, D, ContinuousMode>)
        ensures
            r.spec_bus() == self.spec_bus(),
            r.spec_address() == self.spec_address(),
            r.spec_delay() == self.spec_delay(),
            r.spec_config() is None,
    {
        MCP3425::continuous(self.i2c, self.address, self.delay)
    }

    /// Do a one-shot voltage measurement: write the command byte with the
    /// "begin conversion" bit, sleep the nominal conversion time plus a 2 ms
    /// safety margin, read the response and turn it into a voltage.
    ///
    /// Each call is self-contained and supplies its own configuration;
    /// nothing is stored on the handle.
    ///
    /// What each response means is fixed by [`interpret_response`]:
    /// staleness is checked before the voltage calculation, so a stale
    /// response fails with [`Error::NotReady`] even when it is also
    /// saturated — in one-shot mode that would mean the safety margin was
    /// insufficient, a driver defect. Whatever the device answers, the call
    /// never fails with [`Error::NotInitialized`], and a successful result
    /// is the exact millivolt value of some non-saturating raw code at the
    /// requested resolution.
    pub fn measure(&mut self, config: &Config) -> (r: Result<Voltage, Error<I2C::BusError>>)
        ensures
            final(self).spec_address() == old(self).spec_address(),
            final(self).spec_config() == old(self).spec_config(),
            r matches Err(e) ==> !(e is NotInitialized),
            r matches Ok(v) ==> exists|raw: i16|
                raw != config.resolution.spec_max() && raw != config.resolution.spec_min() && (
                #[trigger] millivolts_of(raw as int, config.resolution)) == v@ as int,
    {
        let command: u8 = codec::encode_start(config);
        let address: u8 = self.address;
        match self.i2c.write_byte(address, command) {
            Ok(()) => (),
            Err(e) => {
                return Err(Error::I2c(e));
            },
        }
        let sleep_ms: u32 = conversion_delay_ms(config.resolution);
        // Two additional milliseconds as safety margin: one-shot mode has no
        // retry, so the delay alone must cover the conversion.
        self.delay.delay_ms(sleep_ms + 2);
        let (b0, b1, b2) = match self.read_response() {
            Ok(response) => response,
            Err(e) => {
                return Err(e);
            },
        };
        let result = interpret_response(b0, b1, b2, config.resolution);
        proof {
            let raw = codec::raw_of_bytes(b0, b1);
            let raw16 = raw as i16;
            assert(raw16 as int == raw);
            assert(millivolts_of(raw16 as int, config.resolution) == millivolts_of(
                raw,
                config.resolution,
            ));
        }
        result
    }
}

impl<I2C, D> MCP3425<I2C, D, ContinuousMode> where I2C: I2cBus, D: DelayMs {
    /// Initialize the driver in continuous measurement mode.
    ///
    /// This constructor is side-effect free: it performs no bus traffic, and
    /// no configuration is written to the device until
    /// [`set_config`](MCP3425::set_config) is called.
    pub fn continuous(i2c: I2C, address: u8, delay: D) -> (r: Self)
        ensures
            r.spec_bus() == i2c,
            r.spec_address() == address,
            r.spec_delay() == delay,
            r.spec_config() is None,
    {
        MCP3425 { i2c, address, delay, mode: ContinuousMode, config: None }
    }

    /// Change the conversion mode to one-shot.
    ///
    /// The change is side-effect free: nothing is written to the device until
    /// a first one-shot measurement is triggered, and any stored
    /// configuration is discarded.
    pub fn into_oneshot(self) -> (r: MCP3425<I2C, D, OneShotMode>)
        ensures
            r.spec_bus() == self.spec_bus(),
            r.spec_address() == self.spec_address(),
            r.spec_delay() == self.spec_delay(),
            r.spec_config() is None,
    {
        MCP3425::oneshot(self.i2c, self.address, self.delay)
    }

    /// Write the specified configuration to the device and block until the
    /// first conversion is ready.
    ///
    /// After the bus write succeeds the configuration is stored on the
    /// handle, arming [`read_measurement`](MCP3425::read_measurement) — even
    /// if a later step of the same call fails. If the write itself fails,
    /// the previously stored configuration (if any) is kept.
    ///
    /// The wait for the first conversion sleeps the nominal conversion time
    /// and then polls the device, sleeping one more millisecond after each
    /// stale answer. A bus error aborts the wait at once. The poll carries a
    /// retry budget of `2^64 - 1` reads purely so that it provably
    /// terminates; at one millisecond per stale answer the budget outlasts
    /// any hardware, and a device that never reports ready would exhaust it
    /// into [`Error::NotReady`].
    pub fn set_config(&mut self, config: &Config) -> (r: Result<(), Error<I2C::BusError>>)
        ensures
            final(self).spec_address() == old(self).spec_address(),
            r matches Ok(()) ==> final(self).spec_config() == Some(*config),
            final(self).spec_config() == Some(*config) || final(self).spec_config() == old(
                self,
            ).spec_config(),
            r matches Err(e) ==> e is I2c || e is NotReady,
            r matches Err(Error::NotReady) ==> final(self).spec_config() == Some(*config),
    {
        let mode_bits: u8 = self.mode.bits();
        let command: u8 = codec::encode(mode_bits, config);
        let address: u8 = self.address;
        match self.i2c.write_byte(address, command) {
            Ok(()) => {
                self.config = Some(*config);
            },
            Err(e) => {
                return Err(Error::I2c(e));
            },
        }
        let sleep_ms: u32 = conversion_delay_ms(config.resolution);
        self.delay.delay_ms(sleep_ms);
        let mut remaining: u64 = u64::MAX;
        loop
            invariant
                address == old(self).spec_address(),
                self.spec_address() == address,
                self.spec_config() == Some(*config),
            decreases remaining,
        {
            match self.i2c.read_three(address) {
                Ok((_b0, _b1, b2)) => {
                    let status = codec::decode_status(b2);
                    if status.is_ready() {
                        break;
                    }
                    if remaining == 0 {
                        return Err(Error::NotReady);
                    }
                    remaining = remaining - 1;
                    // Not yet ready: wait some more time before polling
                    // again.
                    self.delay.delay_ms(1);
                },
                Err(e) => {
                    return Err(Error::I2c(e));
                },
            }
        }
        Ok(())
    }

    /// Read a measurement from the device.
    ///
    /// [`set_config`](MCP3425::set_config) must have been called before:
    /// without a stored configuration this fails immediately with
    /// [`Error::NotInitialized`] and touches neither the bus nor the handle.
    ///
    /// With a stored configuration, what each response means is fixed by
    /// [`interpret_response`]: staleness is checked before the voltage
    /// calculation, so a stale response fails with [`Error::NotReady`] even
    /// when it is also saturated — in continuous mode that only means the
    /// device was polled faster than the configured sample rate, and the
    /// caller should back off. Whatever the device answers, the call never
    /// fails with [`Error::NotInitialized`], and a successful result is the
    /// exact millivolt value of some non-saturating raw code at the stored
    /// resolution.
    pub fn read_measurement(&mut self) -> (r: Result<Voltage, Error<I2C::BusError>>)
        ensures
            final(self).spec_address() == old(self).spec_address(),
            final(self).spec_config() == old(self).spec_config(),
            old(self).spec_config() is None ==> (r matches Err(Error::NotInitialized)
                && *final(self) == *old(self)),
            old(self).spec_config() is Some ==> !(r matches Err(Error::NotInitialized)),
            r matches Ok(v) ==> (old(self).spec_config() matches Some(c) && exists|raw: i16|
                raw != c.resolution.spec_max() && raw != c.resolution.spec_min() && (
                #[trigger] millivolts_of(raw as int, c.resolution)) == v@ as int),
    {
        let config = match self.config {
            Some(config) => config,
            None => {
                return Err(Error::NotInitialized);
            },
        };
        let (b0, b1, b2) = match self.read_response() {
            Ok(response) => response,
            Err(e) => {
                return Err(e);
            },
        };
        let result = interpret_response(b0, b1, b2, config.resolution);
        proof {
            let raw = codec::raw_of_bytes(b0, b1);
            let raw16 = raw as i16;
            assert(raw16 as int == raw);
            assert(millivolts_of(raw16 as int, config.resolution) == millivolts_of(
                raw,
                config.resolution,
            ));
        }
        result
    }
}

} // verus!
