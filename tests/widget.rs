use rusty_editor::widget::{switch_window_state, WidgetHandle, WindowCommand};

#[test]
fn visible_window_is_closed() {
    let w = WidgetHandle::new(3, 1);
    assert_eq!(switch_window_state(w, true), WindowCommand::Close(w));
}

#[test]
fn hidden_window_is_opened() {
    let w = WidgetHandle::new(3, 1);
    assert_eq!(switch_window_state(w, false), WindowCommand::Open(w));
}

#[test]
fn handles_differ_by_generation() {
    let a = WidgetHandle::new(5, 1);
    let b = WidgetHandle::new(5, 2);
    assert!(!a.same(&b));
    assert!(a.same(&WidgetHandle::new(5, 1)));
    assert_eq!(a.index, 5);
    assert_eq!(b.generation, 2);
}
