//! The sampling trigger, gated by power and session notifications.
//!
//! The trigger is a window timer. The frame decides when it is armed and
//! disarmed; its caller performs each [`TimerAction`] that it hands back.
//! The user leaving, the display going off or the session locking stops it;
//! the opposite events start it again. Starting a running trigger and
//! stopping a stopped one do nothing.
#![allow(non_snake_case)]
#![allow(non_camel_case_types)]

use vstd::prelude::*;

verus! {

/// A globally unique identifier, as power-setting notifications name a setting.
#[derive(Debug, Clone, Copy)]
pub struct GUID {
    pub Data1: u32,
    pub Data2: u16,
    pub Data3: u16,
    pub Data4: [u8; 8],
}

pub open spec fn same_guid(x: GUID, y: GUID) -> bool {
    &&& x.Data1 == y.Data1
    &&& x.Data2 == y.Data2
    &&& x.Data3 == y.Data3
    &&& x.Data4@ == y.Data4@
}

pub fn is_equal_guid(x: &GUID, y: &GUID) -> (r: bool)
    ensures
        r == same_guid(*x, *y),
{
    if x.Data1 != y.Data1 || x.Data2 != y.Data2 || x.Data3 != y.Data3 {
        return false;
    }
    let mut i: usize = 0;
    while i < 8
        invariant
            i <= 8,
            forall|j: int| 0 <= j < i ==> x.Data4@[j] == y.Data4@[j],
        decreases 8 - i,
    {
        if x.Data4[i] != y.Data4[i] {
            return false;
        }
        i = i + 1;
    }
    assert(x.Data4@ =~= y.Data4@);
    true
}

/// The user-presence power setting: 3C0F4548-C03F-4C4D-B9F2-237EDE686376.
pub open spec fn user_presence_guid() -> GUID {
    GUID {
        Data1: 0x3c0f4548,
        Data2: 0xc03f,
        Data3: 0x4c4d,
        Data4: [0xb9, 0xf2, 0x23, 0x7e, 0xde, 0x68, 0x63, 0x76],
    }
}

/// The display-status power setting: 2B84C20E-AD23-4DDF-93DB-05FFBD7EFCA5.
pub open spec fn display_status_guid() -> GUID {
    GUID {
        Data1: 0x2b84c20e,
        Data2: 0xad23,
        Data3: 0x4ddf,
        Data4: [0x93, 0xdb, 0x05, 0xff, 0xbd, 0x7e, 0xfc, 0xa5],
    }
}

pub fn guid_session_user_presence() -> (g: GUID)
    ensures
        g == user_presence_guid(),
{
    GUID {
        Data1: 0x3c0f4548,
        Data2: 0xc03f,
        Data3: 0x4c4d,
        Data4: [0xb9, 0xf2, 0x23, 0x7e, 0xde, 0x68, 0x63, 0x76],
    }
}

pub fn guid_session_display_status() -> (g: GUID)
    ensures
        g == display_status_guid(),
{
    GUID {
        Data1: 0x2b84c20e,
        Data2: 0xad23,
        Data3: 0x4ddf,
        Data4: [0x93, 0xdb, 0x05, 0xff, 0xbd, 0x7e, 0xfc, 0xa5],
    }
}

/// The head of a power-setting notification: which setting changed, the
/// length of its data, and the data's first four bytes as a number.
#[derive(Debug, Clone, Copy)]
pub struct POWERBROADCAST_SETTING {
    pub power_setting: GUID,
    pub length: u32,
    pub data: u32,
}

/// Session-change codes.
pub const WTS_SESSION_LOCK: usize = 7;

pub const WTS_SESSION_UNLOCK: usize = 8;

/// User-presence data.
pub const POWER_USER_PRESENT: u32 = 0;

pub const POWER_USER_INACTIVE: u32 = 2;

/// Display-status data.
pub const DISPLAY_OFF: u32 = 0;

pub const DISPLAY_ON: u32 = 1;

/// What a notification asks of the trigger.
#[derive(Debug, Clone, Copy, PartialEq, Eq, Structural)]
pub enum Signal {
    Resume,
    Suspend,
    Ignore,
}

pub open spec fn power_signal(setting: POWERBROADCAST_SETTING) -> Signal {
    if same_guid(setting.power_setting, user_presence_guid()) {
        if setting.data == POWER_USER_PRESENT {
            Signal::Resume
        } else if setting.data == POWER_USER_INACTIVE {
            Signal::Suspend
        } else {
            Signal::Ignore
        }
    } else if same_guid(setting.power_setting, display_status_guid()) {
        if setting.data == DISPLAY_ON {
            Signal::Resume
        } else if setting.data == DISPLAY_OFF {
            Signal::Suspend
        } else {
            Signal::Ignore
        }
    } else {
        Signal::Ignore
    }
}

pub open spec fn session_signal(data: usize) -> Signal {
    if data == WTS_SESSION_UNLOCK {
        Signal::Resume
    } else if data == WTS_SESSION_LOCK {
        Signal::Suspend
    } else {
        Signal::Ignore
    }
}

/// What the caller is asked to do with the window timer.
#[derive(Debug, Clone, Copy, PartialEq, Eq, Structural)]
pub enum TimerAction {
    /// Sample at once, then set timer `id` to fire every `elapse_in_milliseconds`.
    Arm { id: u32, elapse_in_milliseconds: u32 },
    /// Kill timer `id`.
    Disarm { id: u32 },
}

/// The largest period whose milliseconds fit the timer's 32-bit elapse.
pub const MAX_PERIOD_IN_SECONDS: u32 = 4294967;

pub struct TimerView {
    pub running: bool,
    pub period_in_second: nat,
    pub id: u32,
}

/// A window timer and whether it is armed.
#[derive(Debug)]
pub struct MyTimer {
    running: bool,
    period_in_second: u32,
    id: u32,
}

impl View for MyTimer {
    type V = TimerView;

    closed spec fn view(&self) -> TimerView {
        TimerView {
            running: self.running,
            period_in_second: self.period_in_second as nat,
            id: self.id,
        }
    }
}

pub open spec fn arm_action(t: TimerView) -> TimerAction {
    TimerAction::Arm { id: t.id, elapse_in_milliseconds: (t.period_in_second * 1000) as u32 }
}

pub open spec fn disarm_action(t: TimerView) -> TimerAction {
    TimerAction::Disarm { id: t.id }
}

impl MyTimer {
    pub fn new(period_in_second: u32, id: u32) -> (r: MyTimer)
        requires
            period_in_second <= MAX_PERIOD_IN_SECONDS,
        ensures
            r@ == (TimerView { running: false, period_in_second: period_in_second as nat, id }),
    {
        MyTimer { running: false, period_in_second, id }
    }

    /// Arms a stopped timer: the action to perform, with the period in
    /// milliseconds. Starting a running timer does nothing.
    pub fn start(&mut self) -> (r: Option<TimerAction>)
        requires
            old(self)@.period_in_second <= MAX_PERIOD_IN_SECONDS,
        ensures
            final(self)@ == (TimerView { running: true, ..old(self)@ }),
            !old(self)@.running ==> r == Some(arm_action(old(self)@)),
            old(self)@.running ==> r is None && final(self)@ == old(self)@,
            old(self)@.period_in_second * 1000 <= u32::MAX,
    {
        if self.running {
            return None;
        }
        self.running = true;
        Some(TimerAction::Arm { id: self.id, elapse_in_milliseconds: self.period_in_second * 1000 })
    }

    /// Disarms a running timer: the action to perform. Stopping a stopped
    /// timer does nothing.
    pub fn stop(&mut self) -> (r: Option<TimerAction>)
        ensures
            final(self)@ == (TimerView { running: false, ..old(self)@ }),
            old(self)@.running ==> r == Some(disarm_action(old(self)@)),
            !old(self)@.running ==> r is None && final(self)@ == old(self)@,
    {
        if !self.running {
            return None;
        }
        self.running = false;
        Some(TimerAction::Disarm { id: self.id })
    }

    pub fn is_running(&self) -> (r: bool)
        ensures
            r == self@.running,
    {
        self.running
    }
}

/// The running state after a signal.
pub open spec fn next_running(running: bool, s: Signal) -> bool {
    match s {
        Signal::Resume => true,
        Signal::Suspend => false,
        Signal::Ignore => running,
    }
}

/// The action that a signal calls for: only a change of state acts.
pub open spec fn signal_action(t: TimerView, s: Signal) -> Option<TimerAction> {
    match s {
        Signal::Resume => if !t.running {
            Some(arm_action(t))
        } else {
            None
        },
        Signal::Suspend => if t.running {
            Some(disarm_action(t))
        } else {
            None
        },
        Signal::Ignore => None,
    }
}

/// The owner of the sampling trigger.
#[derive(Debug)]
pub struct MainFrame {
    timer: MyTimer,
}

/// The timer id of the sampling trigger (any non-zero id).
pub const SAMPLING_TIMER_ID: u32 = 1;

impl MainFrame {
    pub open spec fn well_formed(t: TimerView) -> bool {
        t.period_in_second <= MAX_PERIOD_IN_SECONDS
    }

    pub closed spec fn timer_view(&self) -> TimerView {
        self.timer@
    }

    /// A frame whose trigger samples every `period_in_second`, not yet started.
    pub fn new(period_in_second: u32) -> (r: MainFrame)
        requires
            period_in_second <= MAX_PERIOD_IN_SECONDS,
        ensures
            r.timer_view() == (TimerView {
                running: false,
                period_in_second: period_in_second as nat,
                id: SAMPLING_TIMER_ID,
            }),
    {
        MainFrame { timer: MyTimer::new(period_in_second, SAMPLING_TIMER_ID) }
    }

    pub fn is_running(&self) -> (r: bool)
        ensures
            r == self.timer_view().running,
    {
        self.timer.is_running()
    }

    /// Applies a signal: arms a stopped trigger on `Resume`, disarms a running
    /// one on `Suspend`, and otherwise does nothing.
    pub fn handle(&mut self, signal: Signal) -> (r: Option<TimerAction>)
        requires
            Self::well_formed(old(self).timer_view()),
        ensures
            Self::well_formed(final(self).timer_view()),
            final(self).timer_view() == (TimerView {
                running: next_running(old(self).timer_view().running, signal),
                ..old(self).timer_view()
            }),
            r == signal_action(old(self).timer_view(), signal),
    {
        match signal {
            Signal::Resume => self.timer.start(),
            Signal::Suspend => self.timer.stop(),
            Signal::Ignore => None,
        }
    }

    /// Starts the trigger if it is stopped; the state at start-up.
    pub fn resume(&mut self) -> (r: Option<TimerAction>)
        requires
            Self::well_formed(old(self).timer_view()),
        ensures
            Self::well_formed(final(self).timer_view()),
            final(self).timer_view() == (TimerView { running: true, ..old(self).timer_view() }),
            r == signal_action(old(self).timer_view(), Signal::Resume),
    {
        self.handle(Signal::Resume)
    }

    /// Reacts to a power-setting change: user presence or display status.
    pub fn power_event(&mut self, setting: &POWERBROADCAST_SETTING) -> (r: Option<TimerAction>)
        requires
            Self::well_formed(old(self).timer_view()),
        ensures
            Self::well_formed(final(self).timer_view()),
            final(self).timer_view() == (TimerView {
                running: next_running(old(self).timer_view().running, power_signal(*setting)),
                ..old(self).timer_view()
            }),
            r == signal_action(old(self).timer_view(), power_signal(*setting)),
    {
        let signal = if is_equal_guid(&setting.power_setting, &guid_session_user_presence()) {
            if setting.data == POWER_USER_PRESENT {
                Signal::Resume
            } else if setting.data == POWER_USER_INACTIVE {
                Signal::Suspend
            } else {
                Signal::Ignore
            }
        } else if is_equal_guid(&setting.power_setting, &guid_session_display_status()) {
            if setting.data == DISPLAY_ON {
                Signal::Resume
            } else if setting.data == DISPLAY_OFF {
                Signal::Suspend
            } else {
                Signal::Ignore
            }
        } else {
            Signal::Ignore
        };
        self.handle(signal)
    }

    /// Reacts to a session change: lock or unlock.
    pub fn logon_event(&mut self, data: usize) -> (r: Option<TimerAction>)
        requires
            Self::well_formed(old(self).timer_view()),
        ensures
            Self::well_formed(final(self).timer_view()),
            final(self).timer_view() == (TimerView {
                running: next_running(old(self).timer_view().running, session_signal(data)),
                ..old(self).timer_view()
            }),
            r == signal_action(old(self).timer_view(), session_signal(data)),
    {
        let signal = if data == WTS_SESSION_UNLOCK {
            Signal::Resume
        } else if data == WTS_SESSION_LOCK {
            Signal::Suspend
        } else {
            Signal::Ignore
        };
        self.handle(signal)
    }
}

/// Whether the timer is armed after performing an action.
pub open spec fn armed_after(armed: bool, a: Option<TimerAction>) -> bool {
    match a {
        Some(TimerAction::Arm { .. }) => true,
        Some(TimerAction::Disarm { .. }) => false,
        None => armed,
    }
}

/// The trigger's state and whether the timer is armed, after a sequence of
/// signals whose actions were all performed.
pub open spec fn run_signals(t: TimerView, armed: bool, signals: Seq<Signal>) -> (TimerView, bool)
    decreases signals.len(),
{
    if signals.len() == 0 {
        (t, armed)
    } else {
        let (t0, a0) = run_signals(t, armed, signals.drop_last());
        let s = signals.last();
        (
            TimerView { running: next_running(t0.running, s), ..t0 },
            armed_after(a0, signal_action(t0, s)),
        )
    }
}

/// The state that the signals ask for: that of the last one that is not
/// ignored, or `initial` if there is none.
pub open spec fn net_state(initial: bool, signals: Seq<Signal>) -> bool
    decreases signals.len(),
{
    if signals.len() == 0 {
        initial
    } else if signals.last() == Signal::Ignore {
        net_state(initial, signals.drop_last())
    } else {
        signals.last() == Signal::Resume
    }
}

/// Whatever the order of start and stop signals, the timer is armed exactly
/// when the trigger is running, and that is the state that the last
/// effective signal asked for.
pub proof fn lemma_armed_iff_running(t: TimerView, signals: Seq<Signal>)
    ensures
        run_signals(t, t.running, signals).0.running == run_signals(t, t.running, signals).1,
        run_signals(t, t.running, signals).1 == net_state(t.running, signals),
    decreases signals.len(),
{
    if signals.len() > 0 {
        lemma_armed_iff_running(t, signals.drop_last());
    }
}

/// Starting a running trigger, or stopping a stopped one, does nothing.
pub proof fn lemma_repeated_signal_is_no_op(t: TimerView)
    ensures
        t.running ==> signal_action(t, Signal::Resume) is None && next_running(
            t.running,
            Signal::Resume,
        ) == t.running,
        !t.running ==> signal_action(t, Signal::Suspend) is None && next_running(
            t.running,
            Signal::Suspend,
        ) == t.running,
{
}

} // verus!
