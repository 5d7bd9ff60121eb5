use mdviewer::instance::AppEvent;
use mdviewer::window::{react_to_window_event, LoopControl, WindowInput};

#[test]
fn focus_request_brings_window_forward() {
    let r = react_to_window_event(WindowInput::User(AppEvent::FocusWindow));
    assert_eq!(r.control, LoopControl::Wait);
    assert!(r.bring_to_front);
    assert_eq!(r.load, None);
}

#[test]
fn open_request_brings_forward_and_loads() {
    let r = react_to_window_event(WindowInput::User(AppEvent::OpenFile("/a.md".to_string())));
    assert_eq!(r.control, LoopControl::Wait);
    assert!(r.bring_to_front);
    assert_eq!(r.load.as_deref(), Some("/a.md"));
}

#[test]
fn dropped_file_loads_in_place() {
    let r = react_to_window_event(WindowInput::FileDropped("/b.md".to_string()));
    assert_eq!(r.control, LoopControl::Wait);
    assert!(!r.bring_to_front);
    assert_eq!(r.load.as_deref(), Some("/b.md"));
}

#[test]
fn close_request_ends_loop() {
    let r = react_to_window_event(WindowInput::CloseRequested);
    assert_eq!(r.control, LoopControl::Exit);
    assert_eq!(r.load, None);
    let r = react_to_window_event(WindowInput::Other);
    assert_eq!(r.control, LoopControl::Wait);
    assert!(!r.bring_to_front);
    assert_eq!(r.load, None);
}
