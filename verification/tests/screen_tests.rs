use rebase_view::mock::MockBackend;
use rebase_view::mock::MockOp;
use rebase_view::window::Window;

fn fresh_window() -> Window<MockBackend> {
    Window::new(MockBackend::new(20, true, Vec::new()))
}

#[test]
fn help_screen_lists_the_bindings_in_padded_columns() {
    let mut w = fresh_window();
    w.draw_help();
    let ops = w.backend.recorded();
    assert!(ops.contains(&MockOp::Print(" Page Down    ".to_string())));
    assert!(ops.contains(&MockOp::Print("Move selection down 5 lines\n".to_string())));
    assert!(ops.contains(&MockOp::Print(" q            ".to_string())));
    assert!(ops.contains(&MockOp::Print("Abort interactive rebase\n".to_string())));
    let blue_keys = ops.iter().filter(|op| **op == MockOp::Pair(2)).count();
    assert_eq!(blue_keys, 18);
}

#[test]
fn help_screen_ends_with_the_close_prompt() {
    let mut w = fresh_window();
    w.draw_help();
    let ops = w.backend.recorded();
    let n = ops.len();
    assert_eq!(ops[n - 2], MockOp::Print("\n\nHit any key to close help".to_string()));
    assert_eq!(ops[n - 1], MockOp::Refresh);
}

#[test]
fn commit_screen_renders_parsed_metadata() {
    let raw = "John Doe\u{1e}john@example.com\u{1e}Sat Jan 1 00:00:00 2000\u{1e}Fix the bug\u{1e}A longer body\u{1e}\n1\t2\tsrc/main.rs\n";
    let mut w = fresh_window();
    w.draw_show_commit("abc123", &Ok(raw.to_string()));
    let ops = w.backend.recorded();
    assert!(ops.contains(&MockOp::Print("\nCommit: abc123\n".to_string())));
    assert!(ops.contains(&MockOp::Print("Author: John Doe <john@example.com>\n".to_string())));
    assert!(ops.contains(&MockOp::Print("Date: Sat Jan 1 00:00:00 2000\n".to_string())));
    assert!(ops.contains(&MockOp::Print("\nFix the bug\n\nA longer body\n".to_string())));
    assert!(ops.contains(&MockOp::Print("  src/main.rs\n".to_string())));
}

#[test]
fn commit_screen_aligns_both_numeric_columns_to_the_added_width() {
    // Added counts "1" and "100": both columns are padded to width 3, the
    // added count right-aligned, the removed count left-aligned.
    let raw = "a\u{1e}b\u{1e}c\u{1e}d\u{1e}e\u{1e}\n1\t22\tshort.rs\n100\t5\tlong.rs\n";
    let mut w = fresh_window();
    w.draw_show_commit("abc123", &Ok(raw.to_string()));
    let ops = w.backend.recorded();
    assert!(ops.contains(&MockOp::Print("  1".to_string())));
    assert!(ops.contains(&MockOp::Print("22 ".to_string())));
    assert!(ops.contains(&MockOp::Print("100".to_string())));
    assert!(ops.contains(&MockOp::Print("5  ".to_string())));
    assert!(ops.contains(&MockOp::Print(" | ".to_string())));
}

#[test]
fn commit_screen_shows_the_parse_failure_instead_of_failing() {
    let mut w = fresh_window();
    w.draw_show_commit("abc123", &Ok("not the expected format".to_string()));
    let ops = w.backend.recorded();
    assert!(ops.contains(&MockOp::Print(
        "Invalid commit data: expected author name, author email, author date, subject and body delimited by record separators".to_string()
    )));
    let red = ops.iter().filter(|op| **op == MockOp::Pair(6)).count();
    assert_eq!(red, 1);
}

#[test]
fn commit_screen_shows_the_spawn_failure_in_red() {
    let mut w = fresh_window();
    w.draw_show_commit("abc123", &Err("No such file or directory".to_string()));
    let ops = w.backend.recorded();
    assert!(ops.contains(&MockOp::Print("No such file or directory".to_string())));
    assert!(ops.contains(&MockOp::Pair(6)));
}

#[test]
fn commit_screen_ends_with_the_close_prompt() {
    let mut w = fresh_window();
    w.draw_show_commit("abc123", &Err("boom".to_string()));
    let ops = w.backend.recorded();
    let n = ops.len();
    assert_eq!(ops[n - 3], MockOp::Pair(1));
    assert_eq!(ops[n - 2], MockOp::Print("\n\nHit any key to close".to_string()));
    assert_eq!(ops[n - 1], MockOp::Refresh);
}
