//! The system clock: a tick counter advanced by the timer interrupt, and
//! instants measured in ticks. The clock converts ticks to wall time through
//! its fixed rate of ticks per second.

use vstd::prelude::*;

verus! {

/// Ticks per second of the kernel timer.
pub const CLOCK_RATE: usize = 10;

/// A point in time, counted in clock ticks.
#[derive(Debug, Clone, Copy, PartialEq, Eq, Structural, PartialOrd, Ord)]
pub struct Instant(usize);

impl View for Instant {
    type V = nat;

    closed spec fn view(&self) -> nat {
        self.0 as nat
    }
}

impl Instant {
    /// The clock's current instant.
    pub fn now(clock: &SystemClock) -> (r: Instant)
        ensures
            r@ == clock.spec_tick(),
    {
        clock.now()
    }

    /// The zero instant.
    pub fn zero() -> (r: Instant)
        ensures
            r@ == 0,
    {
        Instant(0)
    }

    /// The raw tick count of this instant.
    pub fn ticks(&self) -> (r: usize)
        ensures
            r == self@,
    {
        self.0
    }

    /// This instant moved forward by `rhs` ticks, unless that overflows.
    pub fn checked_add(&self, rhs: usize) -> (r: Option<Instant>)
        ensures
            match r {
                Some(t) => self@ + rhs <= usize::MAX && t@ == self@ + rhs,
                None => self@ + rhs > usize::MAX,
            },
    {
        match self.0.checked_add(rhs) {
            Some(v) => Some(Instant(v)),
            None => None,
        }
    }

    /// Whole seconds elapsed at this instant, at the given clock's rate.
    pub fn seconds(&self, clock: &SystemClock) -> (r: usize)
        requires
            clock.spec_rate() >= 1,
        ensures
            r == self@ / clock.spec_rate(),
    {
        let tick = self.0;
        tick / clock.rate()
    }

    /// Seconds and whole minutes elapsed: `(seconds % 60, minutes)`.
    pub fn minutes(&self, clock: &SystemClock) -> (r: (usize, usize))
        requires
            clock.spec_rate() >= 1,
        ensures
            r.0 == (self@ / clock.spec_rate()) % 60,
            r.1 == (self@ / clock.spec_rate()) / 60,
    {
        let seconds = self.seconds(clock);
        let minutes = seconds / 60;
        proof {
            assert(seconds - 60 * (seconds / 60) == seconds % 60) by (nonlinear_arith);
        }
        (seconds - (60 * minutes), minutes)
    }

    /// Seconds, minutes and whole hours elapsed:
    /// `(seconds % 60, minutes % 60, hours)`.
    pub fn hours(&self, clock: &SystemClock) -> (r: (usize, usize, usize))
        requires
            clock.spec_rate() >= 1,
        ensures
            r.0 == (self@ / clock.spec_rate()) % 60,
            r.1 == ((self@ / clock.spec_rate()) / 60) % 60,
            r.2 == ((self@ / clock.spec_rate()) / 60) / 60,
    {
        let (seconds, minutes) = self.minutes(clock);
        let hours = minutes / 60;
        proof {
            assert(minutes - 60 * (minutes / 60) == minutes % 60) by (nonlinear_arith);
        }
        (seconds, minutes - (60 * hours), hours)
    }
}

/// The clock: the current tick, how often the tick counter has wrapped, and
/// the tick rate in ticks per second.
pub struct SystemClock {
    tick: Instant,
    loops: usize,
    rate: usize,
}

impl SystemClock {
    /// The current tick count.
    pub closed spec fn spec_tick(&self) -> nat {
        self.tick@
    }

    /// How often the tick counter has wrapped around.
    pub closed spec fn spec_loops(&self) -> nat {
        self.loops as nat
    }

    /// Ticks per second.
    pub closed spec fn spec_rate(&self) -> nat {
        self.rate as nat
    }

    /// A clock at tick zero with the given rate.
    pub fn new(rate: usize) -> (c: SystemClock)
        requires
            rate >= 1,
        ensures
            c.spec_tick() == 0,
            c.spec_loops() == 0,
            c.spec_rate() == rate,
    {
        SystemClock { tick: Instant::zero(), loops: 0, rate }
    }

    /// Advances the clock by one tick; when the counter is exhausted it
    /// wraps to zero and the wrap is counted.
    pub fn tick(&mut self)
        requires
            old(self).spec_loops() < usize::MAX,
        ensures
            final(self).spec_rate() == old(self).spec_rate(),
            if old(self).spec_tick() < usize::MAX {
                final(self).spec_tick() == old(self).spec_tick() + 1 && final(self).spec_loops()
                    == old(self).spec_loops()
            } else {
                final(self).spec_tick() == 0 && final(self).spec_loops() == old(self).spec_loops()
                    + 1
            },
    {
        let now = self.tick.checked_add(1);
        match now {
            Some(t) => {
                self.tick = t;
            },
            None => {
                self.tick = Instant::zero();
                self.loops = self.loops + 1;
            },
        }
    }

    /// The current instant.
    pub fn now(&self) -> (r: Instant)
        ensures
            r@ == self.spec_tick(),
    {
        self.tick
    }

    /// The tick rate.
    pub fn rate(&self) -> (r: usize)
        ensures
            r == self.spec_rate(),
    {
        self.rate
    }

    /// Whole seconds since the last wrap.
    pub fn seconds(&self) -> (r: usize)
        requires
            self.spec_rate() >= 1,
        ensures
            r == self.spec_tick() / self.spec_rate(),
    {
        self.now().seconds(self)
    }

    /// Seconds and whole minutes since the last wrap.
    pub fn minutes(&self) -> (r: (usize, usize))
        requires
            self.spec_rate() >= 1,
        ensures
            r.0 == (self.spec_tick() / self.spec_rate()) % 60,
            r.1 == (self.spec_tick() / self.spec_rate()) / 60,
    {
        self.now().minutes(self)
    }

    /// Seconds, minutes and whole hours since the last wrap.
    pub fn hours(&self) -> (r: (usize, usize, usize))
        requires
            self.spec_rate() >= 1,
        ensures
            r.0 == (self.spec_tick() / self.spec_rate()) % 60,
            r.1 == ((self.spec_tick() / self.spec_rate()) / 60) % 60,
            r.2 == ((self.spec_tick() / self.spec_rate()) / 60) / 60,
    {
        self.now().hours(self)
    }
}

} // verus!
