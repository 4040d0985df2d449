use crate::color::Color;
use vstd::prelude::*;

verus! {

/// One of the six verbs a rebase-todo step can carry.
#[derive(Clone, Copy, PartialEq, Eq, Debug)]
pub enum Action {
    Pick,
    Reword,
    Edit,
    Squash,
    Fixup,
    Drop,
}

/// The rebase-todo keyword for each action, as it is rendered in the step
/// list (before padding to the 6-column action field).
pub open spec fn action_label(a: Action) -> Seq<char> {
    match a {
        Action::Pick => "pick"@,
        Action::Reword => "reword"@,
        Action::Edit => "edit"@,
        Action::Squash => "squash"@,
        Action::Fixup => "fixup"@,
        Action::Drop => "drop"@,
    }
}

/// The fixed display color for each action.
pub open spec fn action_color_spec(a: Action) -> Color {
    match a {
        Action::Pick => Color::Green,
        Action::Reword => Color::Yellow,
        Action::Edit => Color::Blue,
        Action::Squash => Color::Cyan,
        Action::Fixup => Color::Magenta,
        Action::Drop => Color::Red,
    }
}

/// Executable lookup of the rebase-todo keyword for an action.
pub fn action_to_str(action: &Action) -> (r: &'static str)
    ensures
        r@ == action_label(*action),
{
    match *action {
        Action::Pick => "pick",
        Action::Reword => "reword",
        Action::Edit => "edit",
        Action::Squash => "squash",
        Action::Fixup => "fixup",
        Action::Drop => "drop",
    }
}

/// Executable lookup of the display color for an action.
pub fn action_color(action: &Action) -> (r: Color)
    ensures
        r == action_color_spec(*action),
{
    match *action {
        Action::Pick => Color::Green,
        Action::Reword => Color::Yellow,
        Action::Edit => Color::Blue,
        Action::Squash => Color::Cyan,
        Action::Fixup => Color::Magenta,
        Action::Drop => Color::Red,
    }
}

} // verus!
