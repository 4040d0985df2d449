use rebase_view::mock::MockBackend;
use rebase_view::mock::MockOp;
use rebase_view::terminal::KeyEvent;
use rebase_view::window::Window;

fn window_with_rows(rows: i32) -> Window<MockBackend> {
    Window::new(MockBackend::new(rows, true, Vec::new()))
}

#[test]
fn window_height_has_floor_of_four() {
    let mut w = window_with_rows(3);
    assert_eq!(w.get_window_height(), 4);
}

#[test]
fn window_height_reserves_four_rows() {
    let mut w = window_with_rows(10);
    assert_eq!(w.get_window_height(), 6);
}

#[test]
fn set_top_zero_when_list_fits() {
    // Viewport height 16; a 10-line list fits, so top returns to 0 whatever
    // the prior offset or selection.
    let mut w = window_with_rows(20);
    w.set_top(10, 8);
    assert_eq!(w.scroll_top(), 0);
    w.set_top(10, 1);
    assert_eq!(w.scroll_top(), 0);
}

#[test]
fn set_top_sentinel_scrolls_to_last_page() {
    // Rows 9 gives viewport height 5; selecting the end-of-list sentinel
    // (selected == length) scrolls to length - height.
    let mut w = window_with_rows(9);
    w.set_top(10, 10);
    assert_eq!(w.scroll_top(), 5);
}

#[test]
fn set_top_selection_above_window_scrolls_up() {
    let mut w = window_with_rows(9);
    w.set_top(10, 8);
    assert_eq!(w.scroll_top(), 4);
    w.set_top(10, 3);
    assert_eq!(w.scroll_top(), 2);
}

#[test]
fn set_top_selection_below_window_scrolls_down() {
    let mut w = window_with_rows(9);
    w.set_top(10, 6);
    assert_eq!(w.scroll_top(), 2);
}

#[test]
fn set_top_unchanged_when_selection_visible() {
    let mut w = window_with_rows(9);
    w.set_top(10, 6);
    assert_eq!(w.scroll_top(), 2);
    w.set_top(10, 4);
    assert_eq!(w.scroll_top(), 2);
}

#[test]
fn confirm_accepts_lowercase_y() {
    let mut w = Window::new(MockBackend::new(10, true, vec![KeyEvent::Character('y')]));
    assert!(w.confirm("Abort"));
}

#[test]
fn confirm_accepts_uppercase_y() {
    let mut w = Window::new(MockBackend::new(10, true, vec![KeyEvent::Character('Y')]));
    assert!(w.confirm("Abort"));
}

#[test]
fn confirm_rejects_other_characters() {
    let mut w = Window::new(MockBackend::new(10, true, vec![KeyEvent::Character('n')]));
    assert!(!w.confirm("Abort"));
    let mut w2 = Window::new(MockBackend::new(10, true, vec![KeyEvent::Character('\n')]));
    assert!(!w2.confirm("Abort"));
}

#[test]
fn confirm_rejects_special_keys_and_silence() {
    let mut w = Window::new(MockBackend::new(10, true, vec![KeyEvent::Other]));
    assert!(!w.confirm("Abort"));
    let mut w2 = Window::new(MockBackend::new(10, true, Vec::new()));
    assert!(!w2.confirm("Abort"));
}

#[test]
fn confirm_reads_exactly_one_event_per_call() {
    let mut w = Window::new(MockBackend::new(
        10,
        true,
        vec![KeyEvent::Character('y'), KeyEvent::Character('n')],
    ));
    assert!(w.confirm("First"));
    assert!(!w.confirm("Second"));
    assert!(!w.confirm("Third"));
}

#[test]
fn confirm_renders_message_with_suffix() {
    let mut w = Window::new(MockBackend::new(10, true, vec![KeyEvent::Character('y')]));
    w.confirm("Really abort");
    let ops = w.backend.recorded();
    let last = ops.last().unwrap();
    assert_eq!(*last, MockOp::Print("\nReally abort (y/n)? ".to_string()));
}
