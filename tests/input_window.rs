use mint2d::geometry::{Point, Size, ONE};
use mint2d::input::{Event, Input, InputError};
use mint2d::monitor::{find_monitor, name_or_empty, pick_monitor};
use mint2d::window::{Config, Fullscreen, WindowError, select_monitor, size_or_unit};

#[test]
fn input_starts_empty() {
    let input = Input::new();
    assert!(!input.get_key_state(7));
    assert!(!input.get_button_state(0));
    assert_eq!(input.get_cursor_point(), Point { x: 0, y: 0 });
}

#[test]
fn key_press_and_release() {
    let mut input = Input::new();
    assert!(input.handle_event(Event::Key { code: 57, pressed: true }));
    assert!(input.get_key_state(57));
    assert!(!input.get_key_state(58));
    assert!(input.handle_event(Event::Key { code: 57, pressed: true }));
    assert!(input.handle_event(Event::Key { code: 57, pressed: false }));
    assert!(!input.get_key_state(57));
}

#[test]
fn button_press_and_release() {
    let mut input = Input::new();
    assert!(input.handle_event(Event::Button { code: 1, pressed: true }));
    assert!(input.get_button_state(1));
    assert!(input.handle_event(Event::Button { code: 1, pressed: false }));
    assert!(!input.get_button_state(1));
    assert!(input.handle_event(Event::Button { code: 2, pressed: false }));
    assert!(!input.get_button_state(2));
}

#[test]
fn cursor_moves() {
    let mut input = Input::new();
    let p = Point { x: 3 * ONE, y: 4 * ONE };
    assert!(input.handle_event(Event::CursorMoved(p)));
    assert_eq!(input.get_cursor_point(), p);
    let q = Point { x: -ONE, y: 0 };
    input.set_cursor_point(q);
    assert_eq!(input.get_cursor_point(), q);
}

#[test]
fn close_request_ends_loop() {
    let mut input = Input::new();
    input.handle_event(Event::Key { code: 1, pressed: true });
    assert!(!input.handle_event(Event::CloseRequested));
    assert!(input.get_key_state(1));
}

#[test]
fn input_error_message() {
    let e = InputError::InternalError(String::from("no cursor"));
    assert_eq!(e.message(), "no cursor");
}

#[test]
fn window_error_messages() {
    assert_eq!(WindowError::UnknownMonitor.message(), "Unknown monitor");
    assert_eq!(WindowError::InternalError(String::from("lost context")).message(), "lost context");
}

#[test]
fn default_config() {
    let c = Config::default();
    assert_eq!(c.title, "");
    assert_eq!(c.size, Size { width: 640 * ONE, height: 480 * ONE });
    assert_eq!(c.min_size, None);
    assert_eq!(c.max_size, None);
    assert!(!c.maximized);
    assert!(c.resizable);
    assert_eq!(c.fullscreen, Fullscreen::Disabled);
    assert!(c.vsync);
    assert_eq!(c.msaa, 0);
}

fn names(v: &[Option<&str>]) -> Vec<Option<String>> {
    v.iter().map(|n| n.map(String::from)).collect()
}

#[test]
fn select_monitor_by_name() {
    let ns = names(&[Some("DP-1"), Some("HDMI-1"), None]);
    assert_eq!(select_monitor(&ns, &String::from("HDMI-1")), Ok(1));
    assert_eq!(select_monitor(&ns, &String::from("DP-1")), Ok(0));
}

#[test]
fn select_monitor_unknown() {
    let ns = names(&[Some("DP-1"), None]);
    assert_eq!(select_monitor(&ns, &String::from("not a monitor")), Err(WindowError::UnknownMonitor));
    assert_eq!(select_monitor(&ns, &String::new()), Err(WindowError::UnknownMonitor));
    assert_eq!(select_monitor(&Vec::new(), &String::from("DP-1")), Err(WindowError::UnknownMonitor));
}

#[test]
fn select_monitor_ties_pick_last() {
    let ns = names(&[Some("A"), Some("B"), Some("A"), Some("C")]);
    assert_eq!(select_monitor(&ns, &String::from("A")), Ok(2));
}

#[test]
fn find_monitor_among_none() {
    assert!(matches!(
        find_monitor(Vec::new(), &String::from("DP-1")),
        Err(WindowError::UnknownMonitor)
    ));
}

#[test]
fn name_or_empty_cases() {
    assert_eq!(name_or_empty(Some(String::from("DP-1"))), "DP-1");
    assert_eq!(name_or_empty(None), "");
}

#[test]
fn window_size_fallback() {
    let s = Size { width: 800 * ONE, height: 600 * ONE };
    assert_eq!(size_or_unit(Some(s)), s);
    assert_eq!(size_or_unit(None), Size { width: ONE, height: ONE });
}

#[test]
fn pick_monitor_among_none() {
    assert!(matches!(
        pick_monitor(Vec::new(), &Vec::new(), &String::from("DP-1")),
        Err(WindowError::UnknownMonitor)
    ));
}
