use rebase_view::text::pad_to_width;
use rebase_view::text::strip_nul;
use rebase_view::text::usize_to_string;

#[test]
fn decimal_formatting_matches_the_digits() {
    assert_eq!(usize_to_string(0), "0");
    assert_eq!(usize_to_string(7), "7");
    assert_eq!(usize_to_string(105), "105");
    assert_eq!(usize_to_string(98420), "98420");
}

#[test]
fn nul_characters_are_stripped_for_the_terminal() {
    assert_eq!(strip_nul("a\0b"), "ab");
    assert_eq!(strip_nul("\0\0"), "");
    assert_eq!(strip_nul("plain"), "plain");
}

#[test]
fn padding_fills_with_spaces_on_the_right() {
    assert_eq!(pad_to_width("pick", 6), "pick  ");
    assert_eq!(pad_to_width("squash", 6), "squash");
    assert_eq!(pad_to_width("toolong", 3), "toolong");
}
