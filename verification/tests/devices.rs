use tiny_dfr::action::{
    Edge, Key, KEY_ESC, KEY_FN, KEY_L, KEY_LEFT_CTRL, KEY_LEFT_SHIFT, KEY_M, KEY_TAB,
};
use tiny_dfr::backlight;
use tiny_dfr::backlight::{Activity, BacklightManager};
use tiny_dfr::context::ContextListener;
use tiny_dfr::crash::{error_line, expand_bitmap};
use tiny_dfr::input;
use tiny_dfr::input::InputEvent;
use tiny_dfr::touch;
use tiny_dfr::touch::{RawEvent, TouchPhase, TouchReader, TouchSample};
use tiny_dfr::volume::VolumeMixer;

const MS: u64 = 1_000_000;

#[test]
fn key_codes_are_those_of_the_kernel() {
    assert_eq!(KEY_ESC, input_linux::Key::Esc as u16);
    assert_eq!(KEY_TAB, input_linux::Key::Tab as u16);
    assert_eq!(KEY_LEFT_CTRL, input_linux::Key::LeftCtrl as u16);
    assert_eq!(KEY_LEFT_SHIFT, input_linux::Key::LeftShift as u16);
    assert_eq!(KEY_L, input_linux::Key::L as u16);
    assert_eq!(KEY_M, input_linux::Key::M as u16);
    assert_eq!(KEY_FN, input_linux::Key::Fn as u16);
    assert_eq!(input::EV_KEY, input_linux::EventKind::Key as u16);
    assert_eq!(input::EV_SYN, input_linux::EventKind::Synchronize as u16);
    assert_eq!(input::SYN_REPORT, input_linux::SynchronizeKind::Report as u16);
    assert_eq!(touch::EV_ABS, input_linux_sys::EV_ABS as i32);
    assert_eq!(touch::EV_KEY, input_linux_sys::EV_KEY as i32);
    assert_eq!(touch::EV_SYN, input_linux_sys::EV_SYN as i32);
    assert_eq!(touch::ABS_X, input_linux_sys::ABS_X as i32);
    assert_eq!(touch::BTN_TOUCH, input_linux_sys::BTN_TOUCH as i32);
    assert_eq!(touch::SYN_REPORT, input_linux_sys::SYN_REPORT as i32);
    assert_eq!(input::ACCESS_MODE, libc::O_ACCMODE);
}

#[test]
fn keys_become_events() {
    let keys = vec![Key { code: 29 }, Key { code: 38 }];
    let event = |kind: u16, code: u16, value: i32| InputEvent { kind, code, value };
    assert_eq!(
        input::toggle_keys(&keys, Edge::Press),
        vec![event(1, 29, 1), event(1, 38, 1), event(0, 0, 0)]
    );
    assert_eq!(
        input::toggle_keys(&keys, Edge::Release),
        vec![event(1, 29, 0), event(1, 38, 0), event(0, 0, 0)]
    );
    assert!(input::toggle_keys(&Vec::new(), Edge::Press).is_empty());
    assert_eq!(input::access(libc::O_RDONLY | libc::O_NONBLOCK), (true, false));
    assert_eq!(input::access(libc::O_WRONLY), (false, true));
    assert_eq!(input::access(libc::O_RDWR), (true, true));
    assert_eq!(input::access(3), (false, false));
}

fn abs(x: i32) -> RawEvent {
    RawEvent { kind: touch::EV_ABS, code: touch::ABS_X, value: x }
}

fn contact(on: i32) -> RawEvent {
    RawEvent { kind: touch::EV_KEY, code: touch::BTN_TOUCH, value: on }
}

fn end() -> RawEvent {
    RawEvent { kind: touch::EV_SYN, code: touch::SYN_REPORT, value: 0 }
}

fn sample(phase: TouchPhase, abs_x: i32) -> TouchSample {
    TouchSample { phase, abs_x }
}

#[test]
fn a_drag_survives_the_lost_contact() {
    let mut reader = TouchReader::new(10, 0);
    assert!(!reader.is_down());
    let events = vec![abs(50), contact(1), end(), abs(60), contact(0), end(), end()];
    assert_eq!(
        reader.poll(&events, 5 * MS),
        vec![sample(TouchPhase::Down, 50), sample(TouchPhase::Motion, 60)]
    );
    assert!(reader.is_down());
    assert_eq!(reader.check_release(155 * MS), None);
    assert_eq!(
        reader.check_release(155 * MS + 1),
        Some(sample(TouchPhase::Up, 60))
    );
    assert!(!reader.is_down());
    assert_eq!(reader.check_release(900 * MS), None);
}

#[test]
fn a_still_hold_is_never_released() {
    let mut reader = TouchReader::new(0, 0);
    reader.poll(&vec![abs(5), contact(1), end()], 0);
    assert_eq!(reader.check_release(10_000 * MS), None);
    reader.poll(&vec![end()], 10_000 * MS);
    reader.poll(&vec![contact(0)], 10_001 * MS);
    assert_eq!(reader.check_release(10_100 * MS), None);
    assert_eq!(
        reader.check_release(10_151 * MS),
        Some(sample(TouchPhase::Up, 5))
    );
}

#[test]
fn the_digitizer_is_known_by_name() {
    assert!(touch::is_event_device("event12"));
    assert!(!touch::is_event_device("mouse0"));
    assert!(touch::is_digitizer("Apple Inc. iBridge Touchpad\n"));
    assert!(!touch::is_digitizer("Apple Inc. iBridge"));
    assert_eq!(touch::device_path("event3"), "/dev/input/event3");
}

#[test]
fn the_bar_dims_and_turns_off() {
    let mut m = BacklightManager::new(100, 7, 0);
    assert_eq!(m.update_backlight(80, 0), Some(80));
    assert_eq!(m.current_bl(), 80);
    assert_eq!(m.update_backlight(80, 29_999 * MS), None);
    assert!(m.is_in_use(29_999 * MS));
    assert!(!m.is_in_use(30_000 * MS));
    assert_eq!(m.update_backlight(80, 30_000 * MS), Some(1));
    assert_eq!(m.update_backlight(80, 60_000 * MS), Some(0));
    m.wake(60_001 * MS);
    assert_eq!(m.update_backlight(200, 60_002 * MS), Some(100));
    m.process_event(Activity::LidClosed, 60_003 * MS);
    assert!(!m.is_in_use(60_004 * MS));
    assert_eq!(m.update_backlight(200, 60_004 * MS), Some(0));
    m.process_event(Activity::Other, 60_004 * MS);
    m.process_event(Activity::LidOpened, 60_005 * MS);
    assert_eq!(m.update_backlight(30, 60_006 * MS), Some(30));
    m.process_event(Activity::Input, 90_000 * MS);
    assert_eq!(m.update_backlight(30, 100_000 * MS), None);
    assert_eq!(BacklightManager::without_device(3).current_bl(), 255);
    assert_eq!(m.display_brightness(None), 50);
    assert_eq!(m.display_brightness(Some(9)), 9);
}

#[test]
fn brightness_values_are_bounded_and_written() {
    assert_eq!(backlight::display_to_touchbar(0), 1);
    assert_eq!(backlight::display_to_touchbar(100), 101);
    assert_eq!(backlight::display_to_touchbar(254), 255);
    assert_eq!(backlight::display_to_touchbar(4000), 255);
    assert_eq!(backlight::display_value(0), 1);
    assert_eq!(backlight::display_value(9), 9);
    assert_eq!(backlight::attr_text(42), "42\n");
    assert_eq!(backlight::parse_attr(" 509\n"), Some(509));
    assert_eq!(backlight::parse_attr("x"), None);
    assert!(backlight::is_touch_bar_backlight("appletb_backlight"));
    assert!(backlight::is_touch_bar_backlight("228600000.dsi.0"));
    assert!(backlight::is_display_backlight("intel_backlight"));
    assert!(!backlight::is_display_backlight("appletb_backlight"));
    assert!(backlight::is_kbd_backlight("smc::kbd_backlight"));
}

#[test]
fn focus_lines_are_read_in_any_pieces() {
    let mut l = ContextListener::new();
    l.buf.extend_from_slice(b"activewindow>>kitty,a, b\nworkspace>>2\nactivew");
    assert!(l.parse_lines());
    assert_eq!((l.class.as_str(), l.title.as_str()), ("kitty", "a, b"));
    assert_eq!(l.buf, b"activew");
    assert!(!l.parse_lines());
    l.buf.extend_from_slice(b"indow>>kitty,a, b\n");
    assert!(!l.parse_lines());
    l.buf.extend_from_slice(b"activewindow>>zen\n");
    assert!(l.parse_lines());
    assert_eq!((l.class.as_str(), l.title.as_str()), ("zen", ""));
    l.buf.extend_from_slice(b"activewindow>>,\n\nactivewindow>>zen,\xff\n");
    assert!(l.parse_lines());
    assert_eq!((l.class.as_str(), l.title.as_str()), ("zen", "\u{fffd}"));
    assert!(l.buf.is_empty());
}

#[test]
fn the_crash_picture_is_expanded() {
    let picture = expand_bitmap(&vec![0b0000_0001, 0x80]);
    assert_eq!(picture.len(), 64);
    assert_eq!(&picture[0..8], &[0, 0, 0, 0, 255, 255, 255, 255]);
    assert_eq!(&picture[56..64], &[255, 255, 255, 255, 0, 0, 0, 0]);
}

#[test]
fn the_mixer_holds_nothing() {
    assert_eq!(VolumeMixer::new(), VolumeMixer);
}

#[test]
fn an_error_is_told_on_one_short_line() {
    assert_eq!(error_line("mapping failed\nno memory"), "mapping failed | no memory");
    assert_eq!(error_line(""), "");
    let long = "x".repeat(200);
    assert_eq!(error_line(&long), "x".repeat(160));
    let wide = format!("{}éz", "x".repeat(159));
    assert_eq!(error_line(&wide), "x".repeat(159));
    let whole = format!("{}é", "x".repeat(158));
    assert_eq!(error_line(&whole), whole);
}
