use record_usage::timer::{PeriodicTimer, TimerTrait, WaitableTimerSetting};

struct Counter {
    ticks: u32,
}

impl TimerTrait for Counter {
    fn timer_func(&mut self) {
        self.ticks += 1;
    }
}

#[test]
fn periodic_timer_arms_to_fire_at_once() {
    let mut t = PeriodicTimer::new(10, Counter { ticks: 0 });
    assert!(!t.is_running());
    assert_eq!(t.start(), WaitableTimerSetting { due_time: -1, period_in_milliseconds: 10_000 });
    t.armed(false);
    assert!(!t.is_running());
    t.armed(true);
    assert!(t.is_running());
    assert_eq!(t.owner().ticks, 0);
    t.fire();
    t.fire();
    assert_eq!(t.owner().ticks, 2);
    t.stop(false);
    assert!(t.is_running());
    t.stop(true);
    assert!(!t.is_running());
}

#[test]
fn seconds_to_milliseconds() {
    assert_eq!(PeriodicTimer::<Counter>::seconds_to_millisecond(15), 15_000);
}
