//! Power, and the rate at which power may change.

use vstd::prelude::*;
use crate::quantity::{
    clamp_i64, clamp_u64, saturate_i64, scale_signed, scale_unsigned, Quantity, Ratio,
};

verus! {

/// A power in microwatts. On the grid a positive power is drawn and a
/// negative one is fed in.
#[derive(Clone, Copy, Debug, PartialEq, Eq, Structural)]
pub struct Power {
    /// Microwatts.
    pub microwatts: i64,
}

/// A bound on how fast a power may change, in microwatts per millisecond.
#[derive(Clone, Copy, Debug, PartialEq, Eq, Structural)]
pub struct PowerRate {
    /// Microwatts per millisecond, which is milliwatts per second.
    pub microwatts_per_milli: u64,
}

impl Power {
    /// The power of `microwatts` microwatts.
    pub fn new(microwatts: i64) -> (r: Power)
        ensures
            r.microwatts == microwatts,
    {
        Power { microwatts }
    }

    /// No power at all.
    pub fn zero() -> (r: Power)
        ensures
            r.microwatts == 0,
    {
        Power { microwatts: 0 }
    }

    /// The sum of two powers, brought into the representable range.
    pub fn saturating_add(self, other: Power) -> (r: Power)
        ensures
            r.microwatts == clamp_i64(self.microwatts + other.microwatts),
    {
        Power { microwatts: saturate_i64(self.microwatts as i128 + other.microwatts as i128) }
    }

    /// The difference of two powers, brought into the representable range.
    pub fn saturating_sub(self, other: Power) -> (r: Power)
        ensures
            r.microwatts == clamp_i64(self.microwatts - other.microwatts),
    {
        Power { microwatts: saturate_i64(self.microwatts as i128 - other.microwatts as i128) }
    }

    /// The opposite power, brought into the representable range.
    pub fn saturating_neg(self) -> (r: Power)
        ensures
            r.microwatts == clamp_i64(-self.microwatts),
    {
        Power { microwatts: saturate_i64(-(self.microwatts as i128)) }
    }
}

impl PowerRate {
    /// The rate of `microwatts_per_milli` microwatts per millisecond.
    pub fn new(microwatts_per_milli: u64) -> (r: PowerRate)
        ensures
            r.microwatts_per_milli == microwatts_per_milli,
    {
        PowerRate { microwatts_per_milli }
    }
}

impl Quantity for Power {
    open spec fn raw(self) -> int {
        self.microwatts as int
    }

    open spec fn saturate(v: int) -> int {
        clamp_i64(v)
    }

    fn scaled_by(self, ratio: Ratio) -> (r: Self) {
        Power { microwatts: scale_signed(self.microwatts, ratio.ppb) }
    }

    proof fn lemma_saturate_toward_zero(self, v: int) {
    }
}

impl Quantity for PowerRate {
    open spec fn raw(self) -> int {
        self.microwatts_per_milli as int
    }

    open spec fn saturate(v: int) -> int {
        clamp_u64(v)
    }

    fn scaled_by(self, ratio: Ratio) -> (r: Self) {
        PowerRate { microwatts_per_milli: scale_unsigned(self.microwatts_per_milli, ratio.ppb) }
    }

    proof fn lemma_saturate_toward_zero(self, v: int) {
    }
}

} // verus!
