//! Degradation of a piece of equipment.

use vstd::prelude::*;
use crate::quantity::{
    lemma_scaled_toward_zero, max_int, min_int, scaled, Quantity, Ratio, RATIO_ONE,
};

verus! {

/// How far a piece of equipment is degraded: a ratio between 0 (as new) and
/// 1 (out of service).
#[derive(Debug, Clone, Copy, PartialEq, Eq)]
pub struct Damage {
    value: Ratio,
}

impl Damage {
    /// The degradation in parts per billion.
    pub closed spec fn ratio(self) -> int {
        self.value.ppb as int
    }

    /// The damage whose degradation is `ppb` parts per billion.
    pub closed spec fn with_ratio(ppb: int) -> Damage {
        Damage { value: Ratio { ppb: ppb as u64 } }
    }

    /// The degradation lies between 0 and 1. Every damage that the program
    /// holds is so.
    #[verifier::type_invariant]
    pub open spec fn wf(self) -> bool {
        0 <= self.ratio() <= RATIO_ONE
    }

    /// What `apply` leaves of a magnitude `x`: the share `1 - ratio`.
    pub open spec fn applied(self, x: int) -> int {
        scaled(x, RATIO_ONE - self.ratio())
    }

    /// What `inverse_apply` takes of a magnitude `x`: the share `ratio`.
    pub open spec fn inverse_applied(self, x: int) -> int {
        scaled(x, self.ratio())
    }

    /// The damage made of a degradation between 0 and 1 has that degradation.
    pub proof fn lemma_with_ratio(ppb: int)
        requires
            0 <= ppb <= RATIO_ONE,
        ensures
            Damage::with_ratio(ppb).ratio() == ppb,
            Damage::with_ratio(ppb).wf(),
    {
    }

    /// Total damage: the equipment is out of service.
    pub fn offline() -> (r: Damage)
        ensures
            r == Damage::with_ratio(RATIO_ONE as int),
            r.ratio() == RATIO_ONE,
    {
        Damage { value: Ratio { ppb: RATIO_ONE } }
    }

    /// The damage of degradation `value`, or total damage where `value` is
    /// above 1.
    pub fn new(value: Ratio) -> (r: Damage)
        ensures
            r == Damage::with_ratio(min_int(value.ppb as int, RATIO_ONE as int)),
            r.ratio() == min_int(value.ppb as int, RATIO_ONE as int),
    {
        if value.ppb > RATIO_ONE {
            Damage { value: Ratio { ppb: RATIO_ONE } }
        } else {
            Damage { value }
        }
    }

    /// The degradation as a ratio.
    pub fn inner(&self) -> (r: Ratio)
        ensures
            r.ppb == self.ratio(),
            r.ppb <= RATIO_ONE,
    {
        proof {
            use_type_invariant(self);
        }
        self.value
    }

    /// Degrades the equipment by `amount` more, up to total damage.
    pub fn damage(&mut self, amount: Ratio)
        ensures
            *final(self) == Damage::with_ratio(
                min_int(old(self).ratio() + amount.ppb, RATIO_ONE as int),
            ),
            final(self).ratio() == min_int(old(self).ratio() + amount.ppb, RATIO_ONE as int),
    {
        proof {
            use_type_invariant(&*self);
        }
        let room: u64 = RATIO_ONE - self.value.ppb;
        if amount.ppb > room {
            self.value = Ratio { ppb: RATIO_ONE };
        } else {
            self.value = Ratio { ppb: self.value.ppb + amount.ppb };
        }
    }

    /// Restores the equipment by `amount`, down to no damage.
    pub fn repair(&mut self, amount: Ratio)
        ensures
            *final(self) == Damage::with_ratio(max_int(old(self).ratio() - amount.ppb, 0)),
            final(self).ratio() == max_int(old(self).ratio() - amount.ppb, 0),
    {
        proof {
            use_type_invariant(&*self);
        }
        if amount.ppb > self.value.ppb {
            self.value = Ratio { ppb: 0 };
        } else {
            self.value = Ratio { ppb: self.value.ppb - amount.ppb };
        }
    }

    /// Whether the damage is total.
    pub fn is_offline(&self) -> (r: bool)
        ensures
            r == (self.ratio() == RATIO_ONE),
    {
        self.value.ppb == RATIO_ONE
    }

    /// Whether there is no damage.
    pub fn is_undamaged(&self) -> (r: bool)
        ensures
            r == (self.ratio() == 0),
    {
        self.value.ppb == 0
    }

    /// Derates `value` by the damage: the share `1 - ratio` of it, rounded
    /// toward zero.
    pub fn apply<Q: Quantity>(&self, value: Q) -> (r: Q)
        ensures
            r.raw() == self.applied(value.raw()),
    {
        proof {
            use_type_invariant(self);
        }
        let share: Ratio = Ratio { ppb: RATIO_ONE - self.value.ppb };
        proof {
            lemma_scaled_toward_zero(value.raw(), share.ppb as int);
            value.lemma_saturate_toward_zero(scaled(value.raw(), share.ppb as int));
        }
        value.scaled_by(share)
    }

    /// The part of `value` that the damage takes away: the share `ratio` of
    /// it, rounded toward zero.
    pub fn inverse_apply<Q: Quantity>(&self, value: Q) -> (r: Q)
        ensures
            r.raw() == self.inverse_applied(value.raw()),
    {
        proof {
            use_type_invariant(self);
            lemma_scaled_toward_zero(value.raw(), self.value.ppb as int);
            value.lemma_saturate_toward_zero(scaled(value.raw(), self.value.ppb as int));
        }
        value.scaled_by(self.value)
    }
}

impl Default for Damage {
    /// No damage.
    fn default() -> (r: Damage)
        ensures
            r == Damage::with_ratio(0),
            r.ratio() == 0,
    {
        Damage { value: Ratio { ppb: 0 } }
    }
}

} // verus!
