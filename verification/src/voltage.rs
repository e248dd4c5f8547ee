//! The voltage calculator: turning a signed raw measurement code into a
//! calibrated millivolt reading.
//!
//! The device has an on-board ±2048 mV reference, so a raw code `x` read at a
//! resolution of `n` bits stands for `x * (2 * 2048) / 2^n` millivolts,
//! computed in exact integer arithmetic with the quotient rounded towards
//! zero. A raw code at either two's-complement bound of the resolution's bit
//! depth means the input is saturated and is reported as an error instead of
//! a voltage.

use vstd::arithmetic::div_mod::{
    lemma_div_by_multiple, lemma_div_is_ordered, lemma_div_is_ordered_by_denominator,
    lemma_div_pos_is_pos,
};
use vstd::arithmetic::power2::*;
use vstd::prelude::*;

use crate::config::Resolution;
use crate::driver::Error;

verus! {

/// The reference voltage of the device: ±2048 mV.
pub const REF_MILLIVOLTS: i16 = 2048;

/// Integer division rounded towards zero (the rounding the device's scaling
/// uses), for a positive divisor.
pub open spec fn div_trunc(a: int, d: int) -> int
    recommends
        0 < d,
{
    if a >= 0 {
        a / d
    } else {
        -((-a) / d)
    }
}

/// The number of distinct output codes at this resolution: `2^n` for `n` bits.
pub open spec fn resolution_steps(res: Resolution) -> int {
    pow2(res.spec_res_bits() as nat) as int
}

/// The millivolt value a raw code stands for at the given resolution:
/// `raw * (2 * 2048) / 2^n`, rounded towards zero.
pub open spec fn millivolts_of(raw: int, res: Resolution) -> int {
    div_trunc(raw * (2 * REF_MILLIVOLTS as int), resolution_steps(res))
}

/// A voltage measurement.
#[derive(Debug, Copy, Clone, PartialEq, Eq, Structural)]
pub struct Voltage {
    millivolts: i16,
}

impl View for Voltage {
    type V = i16;

    closed spec fn view(&self) -> i16 {
        self.millivolts
    }
}

impl Voltage {
    /// Create a new `Voltage` instance from a millivolt measurement.
    pub fn from_millivolts(millivolts: i16) -> (r: Self)
        ensures
            r@ == millivolts,
    {
        Voltage { millivolts }
    }

    /// Return the voltage in millivolts.
    pub fn as_millivolts(&self) -> (r: i16)
        ensures
            r == self@,
    {
        self.millivolts
    }
}

/// The number of output codes of the resolution, as an executable value.
fn resolution_steps_u32(res: Resolution) -> (r: u32)
    ensures
        r as int == resolution_steps(res),
        4096 <= r <= 65536,
{
    proof {
        lemma2_to64();
    }
    match res {
        Resolution::Bits16Sps15 => 65536,
        Resolution::Bits14Sps60 => 16384,
        Resolution::Bits12Sps240 => 4096,
    }
}

/// Calculate the voltage for a raw measurement code at the given resolution.
///
/// A raw code at the resolution's positive saturation bound fails with
/// [`Error::VoltageTooHigh`], one at the negative bound with
/// [`Error::VoltageTooLow`]; every other code yields its exact millivolt
/// value.
pub fn calculate<E>(raw: i16, resolution: Resolution) -> (r: Result<Voltage, Error<E>>)
    ensures
        (r matches Err(Error::VoltageTooHigh)) <==> raw == resolution.spec_max(),
        (r matches Err(Error::VoltageTooLow)) <==> raw == resolution.spec_min(),
        (r matches Ok(v) && v@ as int == millivolts_of(raw as int, resolution)) <==> (raw
            != resolution.spec_max() && raw != resolution.spec_min()),
{
    if raw == resolution.max() {
        return Err(Error::VoltageTooHigh);
    }
    if raw == resolution.min() {
        return Err(Error::VoltageTooLow);
    }
    let steps: u32 = resolution_steps_u32(resolution);
    let negative: bool = raw < 0;
    let magnitude: u32 = if negative {
        (-(raw as i32)) as u32
    } else {
        raw as u32
    };
    let scaled: u32 = magnitude * (2 * REF_MILLIVOLTS as u32);
    let quotient: u32 = scaled / steps;
    proof {
        // The quotient is at most the magnitude: dividing by at least 4096
        // undoes the scaling by 4096.
        lemma_div_is_ordered_by_denominator(magnitude as int * 4096, 4096, steps as int);
        lemma_div_by_multiple(magnitude as int, 4096);
    }
    let millivolts: i16 = if negative {
        (-(quotient as i32)) as i16
    } else {
        quotient as i16
    };
    Ok(Voltage::from_millivolts(millivolts))
}

/// Rounding towards zero preserves order: for a positive divisor, a larger
/// numerator never yields a smaller quotient.
proof fn lemma_div_trunc_ordered(a: int, b: int, d: int)
    requires
        a <= b,
        0 < d,
    ensures
        div_trunc(a, d) <= div_trunc(b, d),
{
    if a >= 0 {
        lemma_div_is_ordered(a, b, d);
    } else if b >= 0 {
        lemma_div_pos_is_pos(-a, d);
        lemma_div_pos_is_pos(b, d);
    } else {
        lemma_div_is_ordered(-b, -a, d);
    }
}

/// For all non-saturating raw codes at a resolution, the calculated millivolt
/// value is monotonic in the raw code, and a raw code of zero reads as zero
/// millivolts.
pub proof fn lemma_calculate_monotonic(x1: i16, x2: i16, res: Resolution)
    requires
        x1 <= x2,
        x1 != res.spec_max(),
        x1 != res.spec_min(),
        x2 != res.spec_max(),
        x2 != res.spec_min(),
    ensures
        millivolts_of(x1 as int, res) <= millivolts_of(x2 as int, res),
        millivolts_of(0, res) == 0,
{
    lemma2_to64();
    lemma_div_trunc_ordered(x1 as int * 4096, x2 as int * 4096, resolution_steps(res));
}

} // verus!
