//! The random-encounter countdown carried by the player.
//!
//! The countdown is measured in movement distance, in position units: each
//! tick subtracts the distance the player just moved, and the encounter fires
//! once the remaining amount drops below zero. A reset draws a fresh uniform
//! value from `[min_range, max_range)`.

use vstd::prelude::*;

use crate::rng::gen_range_i64;

verus! {

/// Largest allowed encounter range bound, in position units.
pub const RANGE_LIMIT: i64 = 1000000000;

/// Countdown until the next random encounter, in movement units.
#[derive(Debug, Clone, Copy)]
pub struct CombatTimer {
    remaining: i64,
    max_range: i64,
    min_range: i64,
}

impl CombatTimer {
    /// The range bounds are ordered and capped, and the remaining amount
    /// never exceeds the reset range. The remaining amount may be negative:
    /// that is how expiry is signalled.
    pub open spec fn wf(self) -> bool {
        &&& 0 <= self.spec_min_range() < self.spec_max_range() <= RANGE_LIMIT
        &&& self@ < self.spec_max_range()
    }

    /// How much movement distance remains until the next encounter.
    pub fn remaining(&self) -> (r: i64)
        ensures
            r == self@,
    {
        self.remaining
    }

    /// The remaining amount, as the timer's mathematical content.
    pub closed spec fn view(&self) -> int {
        self.remaining as int
    }

    /// The lower bound of the reset range.
    pub closed spec fn spec_min_range(&self) -> int {
        self.min_range as int
    }

    /// The upper bound of the reset range.
    pub closed spec fn spec_max_range(&self) -> int {
        self.max_range as int
    }

    /// A countdown whose first value is drawn uniformly from
    /// `[min_range, max_range)`.
    pub fn new(min_range: i64, max_range: i64) -> (t: Self)
        requires
            0 <= min_range < max_range <= RANGE_LIMIT,
        ensures
            t.wf(),
            t.spec_min_range() == min_range,
            t.spec_max_range() == max_range,
            min_range <= t@ < max_range,
    {
        CombatTimer { max_range, min_range, remaining: gen_range_i64(min_range, max_range) }
    }

    /// Advances the countdown by a just-travelled distance: the remaining
    /// amount drops by exactly that distance, and may go negative.
    pub fn tick(&mut self, distance: i64)
        requires
            old(self).wf(),
            distance >= 0,
            old(self)@ - distance >= i64::MIN,
        ensures
            final(self).wf(),
            final(self)@ == old(self)@ - distance,
            final(self).spec_min_range() == old(self).spec_min_range(),
            final(self).spec_max_range() == old(self).spec_max_range(),
    {
        self.remaining = self.remaining - distance;
    }

    /// Whether the countdown has expired: the remaining amount is negative.
    pub fn is_done(&self) -> (r: bool)
        ensures
            r == (self@ < 0),
    {
        self.remaining < 0
    }

    /// Restarts the countdown with a fresh uniform draw from
    /// `[min_range, max_range)`.
    pub fn reset(&mut self)
        requires
            old(self).wf(),
        ensures
            final(self).wf(),
            old(self).spec_min_range() <= final(self)@ < old(self).spec_max_range(),
            final(self).spec_min_range() == old(self).spec_min_range(),
            final(self).spec_max_range() == old(self).spec_max_range(),
    {
        self.remaining = gen_range_i64(self.min_range, self.max_range);
    }
}

} // verus!
