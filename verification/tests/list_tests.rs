use rebase_view::action::Action;
use rebase_view::color::Color;
use rebase_view::line::Line;
use rebase_view::mock::MockBackend;
use rebase_view::mock::MockOp;
use rebase_view::window::Window;

fn sample_lines() -> Vec<Line> {
    vec![
        Line::new(Action::Pick, "aaa111".to_string(), "first change".to_string()),
        Line::new(Action::Squash, "bbb222".to_string(), "second change".to_string()),
        Line::new(Action::Drop, "ccc333".to_string(), "third change".to_string()),
    ]
}

fn markers(ops: &[MockOp]) -> Vec<String> {
    let mut out = Vec::new();
    for op in ops {
        if let MockOp::Print(s) = op {
            if s == " > " || s == "   " {
                out.push(s.clone());
            }
        }
    }
    out
}

#[test]
fn exactly_the_selected_row_carries_the_marker() {
    let mut w = Window::new(MockBackend::new(10, true, Vec::new()));
    w.draw(&sample_lines(), &2);
    let ops = w.backend.recorded();
    assert_eq!(markers(ops), vec!["   ", " > ", "   "]);
}

#[test]
fn no_row_is_marked_for_the_sentinel_selection() {
    let mut w = Window::new(MockBackend::new(10, true, Vec::new()));
    w.draw(&sample_lines(), &4);
    let ops = w.backend.recorded();
    assert_eq!(markers(ops), vec!["   ", "   ", "   "]);
}

fn action_rendering(action: Action) -> (u8, String) {
    let mut w = Window::new(MockBackend::new(10, true, Vec::new()));
    let lines = vec![Line::new(action, "abc123".to_string(), "subject".to_string())];
    w.draw(&lines, &1);
    let ops = w.backend.recorded();
    for (i, op) in ops.iter().enumerate() {
        if let MockOp::Print(s) = op {
            if s == " > " {
                if let (MockOp::Pair(p), MockOp::Print(label)) = (&ops[i + 1], &ops[i + 2]) {
                    return (*p, label.clone());
                }
                panic!("color pair and label expected after the marker");
            }
        }
    }
    panic!("no marker rendered");
}

#[test]
fn pick_renders_green_with_its_label() {
    assert_eq!(action_rendering(Action::Pick), (3, "pick  ".to_string()));
}

#[test]
fn reword_renders_yellow_with_its_label() {
    assert_eq!(action_rendering(Action::Reword), (1, "reword".to_string()));
}

#[test]
fn edit_renders_blue_with_its_label() {
    assert_eq!(action_rendering(Action::Edit), (2, "edit  ".to_string()));
}

#[test]
fn squash_renders_cyan_with_its_label() {
    assert_eq!(action_rendering(Action::Squash), (4, "squash".to_string()));
}

#[test]
fn fixup_renders_magenta_with_its_label() {
    assert_eq!(action_rendering(Action::Fixup), (5, "fixup ".to_string()));
}

#[test]
fn drop_renders_red_with_its_label() {
    assert_eq!(action_rendering(Action::Drop), (6, "drop  ".to_string()));
}

#[test]
fn row_prints_hash_and_comment() {
    let mut w = Window::new(MockBackend::new(10, true, Vec::new()));
    w.draw(&sample_lines(), &1);
    let ops = w.backend.recorded();
    assert!(ops.contains(&MockOp::Print(" aaa111 first change\n".to_string())));
}

#[test]
fn scrolled_list_shows_both_indicators_with_counts() {
    // Rows 9 gives viewport height 5.  Ten lines with the selection at 8
    // scroll to top = 4: four hidden above, one hidden below.
    let mut w = Window::new(MockBackend::new(9, true, Vec::new()));
    let mut lines = Vec::new();
    for i in 0..10 {
        lines.push(Line::new(Action::Pick, format!("hash{}", i), format!("c{}", i)));
    }
    w.set_top(10, 8);
    assert_eq!(w.scroll_top(), 4);
    w.draw(&lines, &8);
    let ops = w.backend.recorded();
    assert!(ops.contains(&MockOp::Print("  -- 4 --  ".to_string())));
    assert!(ops.contains(&MockOp::Print("  -- 1 --  ".to_string())));
}

#[test]
fn unscrolled_list_shows_no_indicator() {
    let mut w = Window::new(MockBackend::new(10, true, Vec::new()));
    w.draw(&sample_lines(), &1);
    let ops = w.backend.recorded();
    for op in ops.iter() {
        if let MockOp::Print(s) = op {
            assert!(!s.starts_with("  -- "));
        }
    }
}

#[test]
fn footer_is_drawn_dim_on_the_last_row() {
    let mut w = Window::new(MockBackend::new(9, true, Vec::new()));
    w.draw(&sample_lines(), &1);
    let ops = w.backend.recorded();
    assert!(ops.contains(&MockOp::PrintAt(
        8,
        0,
        "Actions: [ up, down, q/Q, w/W, c, j, k, p, r, e, s, f, d, ? ]".to_string()
    )));
}

#[test]
fn title_banner_is_drawn() {
    let mut w = Window::new(MockBackend::new(10, true, Vec::new()));
    w.draw(&sample_lines(), &1);
    let ops = w.backend.recorded();
    assert!(ops.contains(&MockOp::Print(
        "Git Interactive Rebase                       ? for help\n".to_string()
    )));
}

#[test]
fn construction_sets_up_keys_cursor_echo_and_pairs() {
    let w = Window::new(MockBackend::new(20, true, Vec::new()));
    let ops = w.backend.recorded();
    assert_eq!(ops[0], MockOp::Keypad(true));
    assert_eq!(ops[1], MockOp::Cursor(false));
    assert_eq!(ops[2], MockOp::EchoOff);
    assert_eq!(ops[3], MockOp::StartColor);
    assert_eq!(ops[4], MockOp::DefaultColors);
    let expected = [
        Color::White,
        Color::Yellow,
        Color::Blue,
        Color::Green,
        Color::Cyan,
        Color::Magenta,
        Color::Red,
    ];
    for (i, c) in expected.iter().enumerate() {
        assert_eq!(ops[5 + i], MockOp::DefinePair(i as u8, *c));
    }
    assert_eq!(ops.len(), 12);
}

#[test]
fn construction_without_color_support_skips_color_mode() {
    let w = Window::new(MockBackend::new(20, false, Vec::new()));
    let ops = w.backend.recorded();
    assert!(!ops.contains(&MockOp::StartColor));
    assert!(ops.contains(&MockOp::DefaultColors));
}

#[test]
fn full_session_restores_the_terminal() {
    // End to end: construct, draw a three-line list with no scrolling needed,
    // tear down; the teardown clears the screen and restores the cursor.
    let mut w = Window::new(MockBackend::new(10, true, Vec::new()));
    assert!(w.get_window_height() >= 3);
    w.draw(&sample_lines(), &1);
    w.end();
    let ops = w.backend.recorded();
    let n = ops.len();
    assert_eq!(ops[n - 4], MockOp::Clear);
    assert_eq!(ops[n - 3], MockOp::Refresh);
    assert_eq!(ops[n - 2], MockOp::Cursor(true));
    assert_eq!(ops[n - 1], MockOp::End);
}
