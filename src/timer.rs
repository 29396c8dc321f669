//! A periodic trigger on a waitable timer: when started it fires at once and
//! then every period, calling its owner's timer function each time.
//!
//! Arming and cancelling the system timer is the caller's part: `start`
//! says how to arm it, and the caller reports back whether arming or
//! cancelling succeeded.
use vstd::prelude::*;

verus! {

/// What a periodic trigger calls on each tick.
pub trait TimerTrait {
    /// How many ticks the owner has taken. An implementation defines it: the
    /// default, always zero, cannot meet the contract of `timer_func`.
    closed spec fn ticks(&self) -> nat {
        0
    }

    fn timer_func(&mut self)
        ensures
            final(self).ticks() == old(self).ticks() + 1,
    ;
}

/// How to arm the waitable timer: a due time in 100-nanosecond units (a
/// negative value is relative to now) and a period in milliseconds.
#[derive(Debug, Clone, Copy, PartialEq, Eq, Structural)]
pub struct WaitableTimerSetting {
    pub due_time: i64,
    pub period_in_milliseconds: i32,
}

/// The largest period whose milliseconds fit the timer's signed 32-bit period.
pub const MAX_WAITABLE_PERIOD_IN_SECONDS: u32 = 2147483;

#[derive(Debug)]
pub struct PeriodicTimer<T> where T: TimerTrait {
    period_in_second: u32,
    timer: T,
    running: bool,
}

impl<T> PeriodicTimer<T> where T: TimerTrait {
    pub closed spec fn period(&self) -> nat {
        self.period_in_second as nat
    }

    pub closed spec fn running(&self) -> bool {
        self.running
    }

    /// The owner whose timer function is called on each tick.
    pub closed spec fn timer(&self) -> T {
        self.timer
    }

    /// The ticks that the owner has taken.
    pub closed spec fn ticks(&self) -> nat {
        self.timer.ticks()
    }

    pub fn new(period_in_second: u32, t: T) -> (r: Self)
        requires
            period_in_second <= MAX_WAITABLE_PERIOD_IN_SECONDS,
        ensures
            r.period() == period_in_second,
            !r.running(),
            r.timer() == t,
            r.ticks() == t.ticks(),
    {
        PeriodicTimer { period_in_second, timer: t, running: false }
    }

    pub fn is_running(&self) -> (r: bool)
        ensures
            r == self.running(),
    {
        self.running
    }

    pub fn seconds_to_millisecond(n: u32) -> (r: u32)
        requires
            n * 1000 <= u32::MAX,
        ensures
            r == n * 1000,
    {
        n * 1000
    }

    /// How to arm the timer so that it fires right away (a due time of one
    /// tick ago) and then every period.
    pub fn start(&self) -> (r: WaitableTimerSetting)
        requires
            self.period() <= MAX_WAITABLE_PERIOD_IN_SECONDS,
        ensures
            r.due_time == -1,
            r.period_in_milliseconds == self.period() * 1000,
    {
        let ms = Self::seconds_to_millisecond(self.period_in_second);
        WaitableTimerSetting { due_time: -1, period_in_milliseconds: ms as i32 }
    }

    /// Takes the outcome of arming the timer: it runs once arming succeeded.
    pub fn armed(&mut self, succeeded: bool)
        ensures
            final(self).running() == (old(self).running() || succeeded),
            final(self).period() == old(self).period(),
    {
        if succeeded {
            self.running = true;
        }
    }

    /// Takes the outcome of cancelling the timer: only a cancelled timer stops.
    pub fn stop(&mut self, cancelled: bool)
        ensures
            final(self).running() == (old(self).running() && !cancelled),
            final(self).period() == old(self).period(),
    {
        if cancelled {
            self.running = false;
        }
    }

    /// The owner whose timer function is called on each tick.
    pub fn owner(&self) -> (r: &T)
        ensures
            *r == self.timer(),
    {
        &self.timer
    }

    /// One tick: calls the owner's timer function.
    pub fn fire(&mut self)
        ensures
            final(self).ticks() == old(self).ticks() + 1,
            final(self).running() == old(self).running(),
            final(self).period() == old(self).period(),
    {
        self.timer.timer_func();
    }
}

} // verus!
