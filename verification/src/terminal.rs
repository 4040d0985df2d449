use crate::color::Color;
use vstd::prelude::*;

verus! {

/// A text attribute the window toggles while drawing.
#[derive(Clone, Copy, PartialEq, Eq, Debug)]
pub enum Attr {
    Dim,
    Underline,
    Reverse,
}

/// A key event handed back by the terminal: either a printable character or
/// any other (special or function) key.
#[derive(Clone, Copy, PartialEq, Eq, Debug)]
pub enum KeyEvent {
    Character(char),
    Other,
}

/// Mathematical record of one operation sent to the terminal.  The whole
/// rendering logic is specified as the exact sequence of these operations
/// that a call appends to the terminal's log.
pub enum TermOp {
    /// Erase the whole screen.
    Clear,
    /// Flush pending output to the display.
    Refresh,
    /// Write text at the current position.
    Print(Seq<char>),
    /// Write text at the given row and column.
    PrintAt(int, int, Seq<char>),
    /// Select the color pair with the given index.
    Pair(int),
    /// Switch a text attribute on.
    AttrOn(Attr),
    /// Switch a text attribute off.
    AttrOff(Attr),
    /// Show or hide the text cursor.
    Cursor(bool),
    /// Enable or disable special-key decoding.
    Keypad(bool),
    /// Disable input echo.
    EchoOff,
    /// Activate the terminal's color mode.
    StartColor,
    /// Request the terminal's native default background.
    DefaultColors,
    /// Register a color pair index with a foreground color.
    DefinePair(int, Color),
    /// Release the terminal session.
    End,
}

/// The terminal-control capability surface the window draws through.  The
/// ghost `log` records every operation sent to the terminal and the ghost
/// `reads` every answer of the input poll, so contracts can say exactly what
/// was drawn and how many blocking reads happened.  `screen_height` is the
/// row count as of the last geometry query (`max_y` queries the terminal
/// afresh and updates it), and `colors_supported` says whether the terminal
/// can do color.  A production backend drives a real curses session; the
/// recording backend keeps everything in memory for tests.
pub trait TerminalControl: Sized {
    spec fn log(&self) -> Seq<TermOp>;

    spec fn reads(&self) -> Seq<Option<KeyEvent>>;

    spec fn screen_height(&self) -> int;

    spec fn colors_supported(&self) -> bool;

    fn clear(&mut self)
        ensures
            final(self).log() == old(self).log().push(TermOp::Clear),
            final(self).screen_height() == old(self).screen_height(),
            final(self).colors_supported() == old(self).colors_supported(),
            final(self).reads() == old(self).reads(),
    ;

    fn refresh(&mut self)
        ensures
            final(self).log() == old(self).log().push(TermOp::Refresh),
            final(self).screen_height() == old(self).screen_height(),
            final(self).colors_supported() == old(self).colors_supported(),
            final(self).reads() == old(self).reads(),
    ;

    fn print(&mut self, s: &str)
        ensures
            final(self).log() == old(self).log().push(TermOp::Print(s@)),
            final(self).screen_height() == old(self).screen_height(),
            final(self).colors_supported() == old(self).colors_supported(),
            final(self).reads() == old(self).reads(),
    ;

    fn print_at(&mut self, y: i32, x: i32, s: &str)
        ensures
            final(self).log() == old(self).log().push(TermOp::PrintAt(y as int, x as int, s@)),
            final(self).screen_height() == old(self).screen_height(),
            final(self).colors_supported() == old(self).colors_supported(),
            final(self).reads() == old(self).reads(),
    ;

    fn set_pair(&mut self, index: u8)
        ensures
            final(self).log() == old(self).log().push(TermOp::Pair(index as int)),
            final(self).screen_height() == old(self).screen_height(),
            final(self).colors_supported() == old(self).colors_supported(),
            final(self).reads() == old(self).reads(),
    ;

    fn attr_on(&mut self, attr: Attr)
        ensures
            final(self).log() == old(self).log().push(TermOp::AttrOn(attr)),
            final(self).screen_height() == old(self).screen_height(),
            final(self).colors_supported() == old(self).colors_supported(),
            final(self).reads() == old(self).reads(),
    ;

    fn attr_off(&mut self, attr: Attr)
        ensures
            final(self).log() == old(self).log().push(TermOp::AttrOff(attr)),
            final(self).screen_height() == old(self).screen_height(),
            final(self).colors_supported() == old(self).colors_supported(),
            final(self).reads() == old(self).reads(),
    ;

    fn set_cursor_visible(&mut self, visible: bool)
        ensures
            final(self).log() == old(self).log().push(TermOp::Cursor(visible)),
            final(self).screen_height() == old(self).screen_height(),
            final(self).colors_supported() == old(self).colors_supported(),
            final(self).reads() == old(self).reads(),
    ;

    fn set_keypad(&mut self, on: bool)
        ensures
            final(self).log() == old(self).log().push(TermOp::Keypad(on)),
            final(self).screen_height() == old(self).screen_height(),
            final(self).colors_supported() == old(self).colors_supported(),
            final(self).reads() == old(self).reads(),
    ;

    fn disable_echo(&mut self)
        ensures
            final(self).log() == old(self).log().push(TermOp::EchoOff),
            final(self).screen_height() == old(self).screen_height(),
            final(self).colors_supported() == old(self).colors_supported(),
            final(self).reads() == old(self).reads(),
    ;

    fn supports_colors(&self) -> (r: bool)
        ensures
            r == self.colors_supported(),
    ;

    fn start_colors(&mut self)
        ensures
            final(self).log() == old(self).log().push(TermOp::StartColor),
            final(self).screen_height() == old(self).screen_height(),
            final(self).colors_supported() == old(self).colors_supported(),
            final(self).reads() == old(self).reads(),
    ;

    fn default_colors(&mut self)
        ensures
            final(self).log() == old(self).log().push(TermOp::DefaultColors),
            final(self).screen_height() == old(self).screen_height(),
            final(self).colors_supported() == old(self).colors_supported(),
            final(self).reads() == old(self).reads(),
    ;

    fn define_pair(&mut self, index: u8, color: Color)
        ensures
            final(self).log() == old(self).log().push(TermOp::DefinePair(index as int, color)),
            final(self).screen_height() == old(self).screen_height(),
            final(self).colors_supported() == old(self).colors_supported(),
            final(self).reads() == old(self).reads(),
    ;

    fn max_y(&mut self) -> (r: i32)
        ensures
            r as int == final(self).screen_height(),
            r >= 0,
            final(self).log() == old(self).log(),
            final(self).colors_supported() == old(self).colors_supported(),
            final(self).reads() == old(self).reads(),
    ;

    fn read_event(&mut self) -> (r: Option<KeyEvent>)
        ensures
            final(self).log() == old(self).log(),
            final(self).screen_height() == old(self).screen_height(),
            final(self).colors_supported() == old(self).colors_supported(),
            final(self).reads() == old(self).reads().push(r),
    ;

    fn end_session(&mut self)
        ensures
            final(self).log() == old(self).log().push(TermOp::End),
            final(self).screen_height() == old(self).screen_height(),
            final(self).colors_supported() == old(self).colors_supported(),
            final(self).reads() == old(self).reads(),
    ;
}

} // verus!
