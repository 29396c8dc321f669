use record_usage::mainframe::{
    guid_session_display_status, guid_session_user_presence, is_equal_guid, MainFrame, MyTimer,
    Signal, TimerAction, GUID, POWERBROADCAST_SETTING,
};

fn presence(data: u32) -> POWERBROADCAST_SETTING {
    POWERBROADCAST_SETTING { power_setting: guid_session_user_presence(), length: 4, data }
}

fn display(data: u32) -> POWERBROADCAST_SETTING {
    POWERBROADCAST_SETTING { power_setting: guid_session_display_status(), length: 4, data }
}

const ARM: Option<TimerAction> = Some(TimerAction::Arm { id: 1, elapse_in_milliseconds: 10_000 });
const DISARM: Option<TimerAction> = Some(TimerAction::Disarm { id: 1 });

fn running_frame() -> MainFrame {
    let mut frame = MainFrame::new(10);
    assert!(!frame.is_running());
    assert_eq!(frame.resume(), ARM);
    assert!(frame.is_running());
    frame
}

#[test]
fn my_timer_start_and_stop() {
    let mut t = MyTimer::new(10, 3);
    assert!(!t.is_running());
    assert_eq!(t.start(), Some(TimerAction::Arm { id: 3, elapse_in_milliseconds: 10_000 }));
    assert!(t.is_running());
    assert_eq!(t.start(), None);
    assert!(t.is_running());
    assert_eq!(t.stop(), Some(TimerAction::Disarm { id: 3 }));
    assert!(!t.is_running());
    assert_eq!(t.stop(), None);
    assert!(!t.is_running());
}

#[test]
fn user_presence_stops_and_starts() {
    let mut frame = running_frame();
    assert_eq!(frame.power_event(&presence(2)), DISARM);
    assert!(!frame.is_running());
    assert_eq!(frame.power_event(&presence(2)), None);
    assert_eq!(frame.power_event(&presence(0)), ARM);
    assert!(frame.is_running());
    assert_eq!(frame.power_event(&presence(0)), None);
}

#[test]
fn user_presence_other_data_is_ignored() {
    let mut frame = running_frame();
    assert_eq!(frame.power_event(&presence(1)), None);
    assert!(frame.is_running());
}

#[test]
fn display_off_and_on() {
    let mut frame = running_frame();
    assert_eq!(frame.power_event(&display(0)), DISARM);
    assert_eq!(frame.power_event(&display(0)), None);
    assert_eq!(frame.power_event(&display(2)), None);
    assert!(!frame.is_running());
    assert_eq!(frame.power_event(&display(1)), ARM);
    assert!(frame.is_running());
}

#[test]
fn unknown_power_setting_is_ignored() {
    let mut frame = running_frame();
    let mut other = guid_session_display_status();
    other.Data4[7] ^= 1;
    let setting = POWERBROADCAST_SETTING { power_setting: other, length: 4, data: 0 };
    assert_eq!(frame.power_event(&setting), None);
    assert!(frame.is_running());
}

#[test]
fn session_lock_and_unlock() {
    let mut frame = running_frame();
    assert_eq!(frame.logon_event(7), DISARM);
    assert_eq!(frame.logon_event(7), None);
    assert_eq!(frame.logon_event(5), None);
    assert_eq!(frame.logon_event(8), ARM);
    assert_eq!(frame.logon_event(8), None);
    assert!(frame.is_running());
}

#[test]
fn armed_iff_running_over_an_interleaving() {
    let mut frame = MainFrame::new(10);
    let mut armed = false;
    let events: Vec<Signal> = vec![
        Signal::Resume,
        Signal::Resume,
        Signal::Suspend,
        Signal::Ignore,
        Signal::Suspend,
        Signal::Resume,
        Signal::Suspend,
        Signal::Resume,
        Signal::Ignore,
    ];
    for e in events {
        match frame.handle(e) {
            Some(TimerAction::Arm { .. }) => {
                assert!(!armed, "armed twice");
                armed = true;
            }
            Some(TimerAction::Disarm { .. }) => {
                assert!(armed, "disarmed twice");
                armed = false;
            }
            None => {}
        }
        assert_eq!(armed, frame.is_running());
    }
    assert!(armed);
}

#[test]
fn guid_equality() {
    let a = guid_session_user_presence();
    let b = guid_session_display_status();
    assert!(is_equal_guid(&a, &a));
    assert!(!is_equal_guid(&a, &b));
    let c = GUID { Data1: a.Data1, Data2: a.Data2, Data3: a.Data3, Data4: a.Data4 };
    assert!(is_equal_guid(&a, &c));
    let mut d = c;
    d.Data4[0] = 0;
    assert!(!is_equal_guid(&a, &d));
    assert_eq!(a.Data1, 0x3c0f4548);
    assert_eq!(b.Data4, [0x93, 0xdb, 0x05, 0xff, 0xbd, 0x7e, 0xfc, 0xa5]);
}
