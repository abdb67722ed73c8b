//! Fixed-length game ticks counted from a monotonic high-resolution timer.

use vstd::prelude::*;

verus! {

pub const US_PER_SECOND: u64 = 1_000_000;

/// Converts timer counts into whole ticks, carrying the remainder over to the
/// next update so that no time is lost.
#[derive(Clone, Copy, Debug, PartialEq, Eq, Structural)]
pub struct GameTime {
    /// Timer count at the last update.
    pub previous_timer: u64,
    /// Counts elapsed since the last whole tick.
    pub partial_tick_counter: u64,
    /// Counts per tick.
    pub tick_length_counter: u64,
}

impl GameTime {
    pub open spec fn wf(self) -> bool {
        self.tick_length_counter > 0 && self.partial_tick_counter < self.tick_length_counter
    }

    /// A tick of `tick_length_us` microseconds on a timer counting
    /// `timer_frequency` times a second, starting at `initial_time`.
    pub fn new(timer_frequency: u64, tick_length_us: u64, initial_time: u64) -> (r: GameTime)
        requires
            0 < (timer_frequency / US_PER_SECOND) * tick_length_us <= u64::MAX,
        ensures
            r.wf(),
            r.previous_timer == initial_time,
            r.partial_tick_counter == 0,
            r.tick_length_counter == (timer_frequency / US_PER_SECOND) * tick_length_us,
    {
        let counter_per_us: u64 = timer_frequency / US_PER_SECOND;
        GameTime {
            tick_length_counter: counter_per_us * tick_length_us,
            previous_timer: initial_time,
            partial_tick_counter: 0,
        }
    }

    /// The whole ticks elapsed up to `timer`; what is left of a tick is kept.
    pub fn update_ticks(&mut self, timer: u64) -> (ticks: u64)
        requires
            old(self).wf(),
            old(self).previous_timer <= timer,
            old(self).partial_tick_counter + (timer - old(self).previous_timer) <= u64::MAX,
        ensures
            final(self).wf(),
            final(self).previous_timer == timer,
            final(self).tick_length_counter == old(self).tick_length_counter,
            ticks * old(self).tick_length_counter + final(self).partial_tick_counter == old(
                self,
            ).partial_tick_counter + (timer - old(self).previous_timer),
    {
        let time_passed_counter = self.partial_tick_counter + (timer - self.previous_timer);
        let ticks = time_passed_counter / self.tick_length_counter;
        self.partial_tick_counter = time_passed_counter % self.tick_length_counter;
        self.previous_timer = timer;
        proof {
            vstd::arithmetic::div_mod::lemma_fundamental_div_mod(
                time_passed_counter as int,
                self.tick_length_counter as int,
            );
            assert(ticks * self.tick_length_counter == self.tick_length_counter * ticks)
                by (nonlinear_arith);
        }
        ticks
    }
}

} // verus!
