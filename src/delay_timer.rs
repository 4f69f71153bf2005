use vstd::prelude::*;

use crate::consts;

use std::time::{Duration, Instant};

verus! {

/// `std::time::Instant`, a reading of the monotonic clock, carried as an opaque value.
#[verifier::external_type_specification]
#[verifier::external_body]
pub struct ExInstant(Instant);

/// Relies on `Instant::now`: a reading of the monotonic clock; nothing is known of its value.
pub assume_specification[ Instant::now ]() -> Instant;

/// Relies on `Instant::elapsed`: the time since the instant (zero if the clock reads earlier);
/// nothing is known of its value.
pub assume_specification[ Instant::elapsed ](this: &Instant) -> Duration;

/// Relies on `Duration::as_millis`: the whole milliseconds of a duration, whose value Verus
/// does not see.
pub assume_specification[ Duration::as_millis ](this: &Duration) -> u128;

/// Whole ticks in `elapsed_millis` milliseconds, at 255 ticks a second.
pub open spec fn ticks_in(elapsed_millis: u128) -> int {
    elapsed_millis * consts::DELAY_TIMER_TICKS_PER_SECOND / 1000
}

/// What a timer set to `value` reads after `elapsed_millis`: it goes down one per tick and
/// stops at zero.
pub open spec fn decayed(value: u8, elapsed_millis: u128) -> u8 {
    if ticks_in(elapsed_millis) >= value {
        0
    } else {
        (value - ticks_in(elapsed_millis)) as u8
    }
}

/// The timer's next reading: the decayed value, never above the last reading.
pub open spec fn next_reading(set_to: u8, last_read: u8, elapsed_millis: u128) -> u8 {
    if decayed(set_to, elapsed_millis) < last_read {
        decayed(set_to, elapsed_millis)
    } else {
        last_read
    }
}

/// A timer that counts down lazily: its value is computed from the time since it was set.
pub struct DelayTimer {
    timer_value: u8,
    last_read_value: u8,
    last_set_time: Instant,
}

impl DelayTimer {
    /// The value the timer was last set to.
    pub closed spec fn set_to(&self) -> u8 {
        self.timer_value
    }

    /// The value the timer holds now, as of its last reading.
    pub closed spec fn stored(&self) -> u8 {
        self.last_read_value
    }

    pub open spec fn wf(&self) -> bool {
        self.stored() <= self.set_to()
    }

    pub fn init_timer() -> (t: DelayTimer)
        ensures
            t.wf(),
            t.set_to() == 0,
            t.stored() == 0,
    {
        DelayTimer { timer_value: 0, last_read_value: 0, last_set_time: Instant::now() }
    }

    /// Sets the timer to `value` and restarts its clock.
    pub fn set_value(&mut self, value: u8)
        ensures
            final(self).wf(),
            final(self).set_to() == value,
            final(self).stored() == value,
    {
        self.timer_value = value;
        self.last_read_value = value;
        self.last_set_time = Instant::now();
    }

    /// Milliseconds since the timer was last set, from the clock.
    pub(crate) fn elapsed_millis(&self) -> (r: u128) {
        self.last_set_time.elapsed().as_millis()
    }

    /// Reads the timer as it stands `elapsed_millis` milliseconds after it was set, and keeps
    /// that reading.
    pub fn get_value_at(&mut self, elapsed_millis: u128) -> (r: u8)
        requires
            old(self).wf(),
        ensures
            r == next_reading(old(self).set_to(), old(self).stored(), elapsed_millis),
            final(self).wf(),
            final(self).set_to() == old(self).set_to(),
            final(self).stored() == r,
    {
        let value: u8;
        if elapsed_millis >= 4000 {
            assert(ticks_in(elapsed_millis) >= 1020) by (nonlinear_arith)
                requires
                    elapsed_millis >= 4000,
            ;
            value = 0;
        } else {
            let ticks: u128 = elapsed_millis * consts::DELAY_TIMER_TICKS_PER_SECOND / 1000;
            if ticks >= self.timer_value as u128 {
                value = 0;
            } else {
                value = self.timer_value - ticks as u8;
            }
        }
        if value < self.last_read_value {
            self.last_read_value = value;
        }
        self.last_read_value
    }

    /// Reads the timer from the clock. The reading never goes up, and once zero stays zero.
    pub fn get_value(&mut self) -> (r: u8)
        requires
            old(self).wf(),
        ensures
            r <= old(self).stored(),
            old(self).stored() == 0 ==> r == 0,
            final(self).wf(),
            final(self).set_to() == old(self).set_to(),
            final(self).stored() == r,
    {
        let elapsed = self.elapsed_millis();
        self.get_value_at(elapsed)
    }
}

/// Right after `set_value(v)` the timer reads `v`; once `v` ticks of 1000/255 ms have
/// gone by, it reads zero.
pub proof fn lemma_delay_timer_counts_down(v: u8, elapsed_millis: u128)
    ensures
        next_reading(v, v, 0) == v,
        elapsed_millis * 255 >= v * 1000 ==> next_reading(v, v, elapsed_millis) == 0,
{
    if elapsed_millis * 255 >= v * 1000 {
        assert(ticks_in(elapsed_millis) >= v) by (nonlinear_arith)
            requires
                elapsed_millis * 255 >= v * 1000,
        ;
    }
}

} // verus!
