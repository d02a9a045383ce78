use evhz::evdev_source::{
    classify, device_label, is_event_node, is_motion, is_readable, on_input, EventKind,
    InputRecord, EV_ABS, EV_FF, EV_FF_STATUS, EV_KEY, EV_LED, EV_MSC, EV_REL, EV_SND, EV_SW,
    EV_SYN, EV_UINPUT, POLLIN,
};
use evhz::poll_source::{key_is_down, on_key, on_pointer, KeyScan, PointerScan, KEY_COUNT};
use evhz::session::{Session, KEYBOARD, MOUSE};
use evhz::tap_source::{on_tap, tap_target, watched_types};

fn record(event_type: u16) -> InputRecord {
    InputRecord { event_type, code: 1, value: -3 }
}

#[test]
fn classify_tells_the_event_types_apart() {
    assert_eq!(classify(&record(0x00)), EventKind::Synchronization);
    assert_eq!(classify(&record(0x01)), EventKind::Key);
    assert_eq!(classify(&record(0x02)), EventKind::RelAxis);
    assert_eq!(classify(&record(0x03)), EventKind::AbsAxis);
    assert_eq!(classify(&record(0x04)), EventKind::Misc);
    assert_eq!(classify(&record(0x05)), EventKind::Switch);
    assert_eq!(classify(&record(0x11)), EventKind::Led);
    assert_eq!(classify(&record(0x12)), EventKind::Sound);
    assert_eq!(classify(&record(0x15)), EventKind::ForceFeedback);
    assert_eq!(classify(&record(0x17)), EventKind::ForceFeedbackStatus);
    assert_eq!(classify(&record(0x0101)), EventKind::UInput);
    assert_eq!(classify(&record(0x14)), EventKind::Other);
    assert_eq!(classify(&record(0x16)), EventKind::Other);
    assert_eq!(classify(&record(0x06)), EventKind::Other);
    assert_eq!(classify(&record(u16::MAX)), EventKind::Other);
}

#[test]
fn classify_goes_by_the_type_alone() {
    for code in [0u16, 1, 8, 0x2ff, u16::MAX] {
        for value in [i32::MIN, -1, 0, 1, i32::MAX] {
            let rel = InputRecord { event_type: EV_REL, code, value };
            assert_eq!(classify(&rel), EventKind::RelAxis);
            let key = InputRecord { event_type: EV_KEY, code, value };
            assert_eq!(classify(&key), EventKind::Key);
        }
    }
}

#[test]
fn classify_agrees_with_evdev() {
    for event_type in 0..=0x0200u16 {
        let event = evdev::InputEvent::new(evdev::EventType(event_type), 2, 5);
        let expected = match event.kind() {
            evdev::InputEventKind::RelAxis(_) | evdev::InputEventKind::AbsAxis(_) => true,
            _ => false,
        };
        let ours = InputRecord { event_type, code: 2, value: 5 };
        assert_eq!(is_motion(&ours), expected);
    }
}

#[test]
fn only_axis_movements_are_motion() {
    assert!(is_motion(&record(EV_REL)));
    assert!(is_motion(&record(EV_ABS)));
    assert!(!is_motion(&record(EV_KEY)));
    assert!(!is_motion(&record(EV_SYN)));
    assert!(!is_motion(&record(0x04)));
    assert!(!is_motion(&record(0x0101)));
    assert!(!is_motion(&record(0x0203)));
}

#[test]
fn event_nodes_are_told_by_their_name() {
    assert!(is_event_node("event0"));
    assert!(is_event_node("event17"));
    assert!(is_event_node("event"));
    assert!(is_event_node("events"));
    assert!(!is_event_node("even"));
    assert!(!is_event_node(""));
    assert!(!is_event_node("mouse0"));
    assert!(!is_event_node("mice"));
    assert!(!is_event_node("js0"));
    assert!(!is_event_node("xevent0"));
    assert!(!is_event_node("Event0"));
    assert!(!is_event_node("evenT0"));
    assert!(!is_event_node("by-id"));
    assert!(!is_event_node("évent0"));
    assert!(is_event_node("eventé"));
}

#[test]
fn device_without_a_name_is_unknown() {
    assert_eq!(device_label(Some("USB Optical Mouse")), "USB Optical Mouse");
    assert_eq!(device_label(Some("")), "");
    assert_eq!(device_label(None), "Unknown");
}

#[test]
fn readable_when_the_input_bit_is_set() {
    assert_eq!(POLLIN, 1);
    assert!(is_readable(0x001));
    assert!(is_readable(0x011));
    assert!(is_readable(-1));
    assert!(!is_readable(0));
    assert!(!is_readable(0x010));
    assert!(!is_readable(0x008));
    assert!(!is_readable(i16::MIN));
}

#[test]
fn motion_events_update_the_device() {
    let mut session = Session::new(true);
    session.add_device("event4", String::from("Pad"));
    session.add_device("event5", String::from("Mouse"));
    assert_eq!(on_input(&mut session, 1, &record(EV_REL), 0), None);
    // Keys and synchronization events in between do not count.
    assert_eq!(on_input(&mut session, 1, &record(EV_KEY), 300), None);
    assert_eq!(on_input(&mut session, 1, &record(EV_SYN), 600), None);
    assert_eq!(
        on_input(&mut session, 1, &record(EV_ABS), 2_000),
        Some(String::from("Mouse: Latest   500Hz, Average   500Hz"))
    );
    assert_eq!(session.device(1).unwrap().recent_rates(), vec![500]);
    assert_eq!(session.device(0).unwrap().last_event_time(), None);
    assert_eq!(on_input(&mut session, 9, &record(EV_REL), 3_000), None);
    assert_eq!(session.device(1).unwrap().last_event_time(), Some(2_000));
}

#[test]
fn key_state_is_down_when_the_top_bit_is_set() {
    assert!(key_is_down(i16::MIN));
    assert!(key_is_down(-1));
    assert!(key_is_down(-32767));
    assert!(!key_is_down(0));
    assert!(!key_is_down(1));
    assert!(!key_is_down(i16::MAX));
}

#[test]
fn pointer_scan_reports_movement() {
    let mut scan = PointerScan::new(10, 20);
    assert!(!scan.observe(10, 20));
    assert!(scan.observe(11, 20));
    assert!(!scan.observe(11, 20));
    assert!(scan.observe(11, -20));
    assert!(scan.observe(10, 20));
}

#[test]
fn key_scan_reports_presses_once() {
    let mut scan = KeyScan::new();
    assert!(!scan.observe(65, 0));
    assert!(scan.observe(65, i16::MIN));
    // Still down: no new press.
    assert!(!scan.observe(65, i16::MIN));
    assert!(!scan.observe(65, -32767));
    // Released and pressed again.
    assert!(!scan.observe(65, 1));
    assert!(scan.observe(65, -1));
    // Keys are told apart.
    assert!(scan.observe(66, i16::MIN));
    assert!(scan.observe(0, i16::MIN));
    assert!(scan.observe(KEY_COUNT - 1, i16::MIN));
    // There is no key beyond the last.
    assert!(!scan.observe(KEY_COUNT, i16::MIN));
    assert!(!scan.observe(usize::MAX, i16::MIN));
}

#[test]
fn polled_pointer_movement_is_a_mouse_event() {
    let (mut session, _) = Session::fixed_pair(true);
    let mut scan = PointerScan::new(0, 0);
    assert_eq!(on_pointer(&mut session, &mut scan, 0, 0, 0), None);
    assert_eq!(session.device(MOUSE).unwrap().last_event_time(), None);
    assert_eq!(on_pointer(&mut session, &mut scan, 1, 0, 100), None);
    assert_eq!(on_pointer(&mut session, &mut scan, 1, 0, 200), None);
    assert_eq!(
        on_pointer(&mut session, &mut scan, 1, 1, 4_100),
        Some(String::from("Mouse: Latest   250Hz, Average   250Hz"))
    );
    assert_eq!(session.device(MOUSE).unwrap().last_event_time(), Some(4_100));
    assert_eq!(session.device(KEYBOARD).unwrap().last_event_time(), None);
}

#[test]
fn polled_key_press_is_a_keyboard_event() {
    let (mut session, _) = Session::fixed_pair(true);
    let mut scan = KeyScan::new();
    assert_eq!(on_key(&mut session, &mut scan, 32, i16::MIN, 0), None);
    assert_eq!(session.device(KEYBOARD).unwrap().last_event_time(), Some(0));
    // Held down: nothing happens.
    assert_eq!(on_key(&mut session, &mut scan, 32, i16::MIN, 1_000), None);
    assert_eq!(session.device(KEYBOARD).unwrap().last_event_time(), Some(0));
    assert_eq!(on_key(&mut session, &mut scan, 32, 0, 2_000), None);
    assert_eq!(
        on_key(&mut session, &mut scan, 33, i16::MIN, 10_000),
        Some(String::from("Keyboard: Latest   100Hz, Average   100Hz"))
    );
    assert_eq!(on_key(&mut session, &mut scan, 300, i16::MIN, 11_000), None);
    assert_eq!(session.device(KEYBOARD).unwrap().last_event_time(), Some(10_000));
    assert_eq!(session.device(MOUSE).unwrap().last_event_time(), None);
}

#[test]
fn tapped_events_go_to_mouse_or_keyboard() {
    assert_eq!(tap_target(5), Some(MOUSE));
    assert_eq!(tap_target(6), Some(MOUSE));
    assert_eq!(tap_target(7), Some(MOUSE));
    assert_eq!(tap_target(10), Some(KEYBOARD));
    assert_eq!(tap_target(11), Some(KEYBOARD));
    for other in [0u32, 1, 2, 3, 4, 8, 9, 12, 22, 27, 0xFFFF_FFFE, 0xFFFF_FFFF] {
        assert_eq!(tap_target(other), None);
    }
    assert_eq!(watched_types(), vec![5, 6, 7, 10, 11]);
}

#[test]
fn tap_updates_the_device_it_belongs_to() {
    let (mut session, _) = Session::fixed_pair(true);
    assert_eq!(on_tap(&mut session, 5, 0), None);
    assert_eq!(on_tap(&mut session, 10, 0), None);
    assert_eq!(on_tap(&mut session, 1, 500), None);
    assert_eq!(
        on_tap(&mut session, 6, 1_000),
        Some(String::from("Mouse: Latest  1000Hz, Average  1000Hz"))
    );
    assert_eq!(
        on_tap(&mut session, 11, 16_000),
        Some(String::from("Keyboard: Latest    62Hz, Average    62Hz"))
    );
    assert_eq!(
        session.summary(),
        vec![
            String::from("Average for Mouse:  1000Hz"),
            String::from("Average for Keyboard:    62Hz"),
        ]
    );
}

#[test]
fn constants_are_those_of_the_system() {
    assert_eq!(POLLIN, libc::POLLIN);
    assert_eq!(EV_SYN, evdev::EventType::SYNCHRONIZATION.0);
    assert_eq!(EV_KEY, evdev::EventType::KEY.0);
    assert_eq!(EV_REL, evdev::EventType::RELATIVE.0);
    assert_eq!(EV_ABS, evdev::EventType::ABSOLUTE.0);
    assert_eq!(EV_MSC, evdev::EventType::MISC.0);
    assert_eq!(EV_SW, evdev::EventType::SWITCH.0);
    assert_eq!(EV_LED, evdev::EventType::LED.0);
    assert_eq!(EV_SND, evdev::EventType::SOUND.0);
    assert_eq!(EV_FF, evdev::EventType::FORCEFEEDBACK.0);
    assert_eq!(EV_FF_STATUS, evdev::EventType::FORCEFEEDBACKSTATUS.0);
    assert_eq!(EV_UINPUT, evdev::EventType::UINPUT.0);
}
