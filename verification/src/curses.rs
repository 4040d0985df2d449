use crate::color::Color;
use crate::terminal::Attr;
use crate::terminal::KeyEvent;
use crate::terminal::TermOp;
use crate::terminal::TerminalControl;
use crate::text::lemma_without_nul_free;
use crate::text::strip_nul;
use vstd::prelude::*;

verus! {

/// The raw curses session (the pancurses crate's window handle), opaque to
/// verification.  Each method relies on one pancurses call; none of them
/// promises anything, so nothing is proved from them — the backend around
/// this struct maintains the ghost model itself.
#[verifier::external_body]
pub struct CursesSession {
    win: pancurses::Window,
}

impl CursesSession {
    /// Relies on pancurses::initscr: acquires the terminal session
    /// exclusively and hands back its window.
    #[verifier::external_body]
    fn init() -> CursesSession {
        CursesSession { win: pancurses::initscr() }
    }

    /// Relies on pancurses::Window::clear: erases the screen.
    #[verifier::external_body]
    fn clear(&self) {
        self.win.clear();
    }

    /// Relies on pancurses::Window::refresh: flushes output to the display.
    #[verifier::external_body]
    fn refresh(&self) {
        self.win.refresh();
    }

    /// Relies on pancurses::Window::addstr: writes the text at the current
    /// position.  The text must hold no NUL character: pancurses builds a C
    /// string from it and would panic on an interior NUL.
    #[verifier::external_body]
    fn addstr(&self, s: &str)
        requires
            forall|i: int| 0 <= i < s@.len() ==> s@[i] != '\0',
    {
        self.win.addstr(s);
    }

    /// Relies on pancurses::Window::mvaddstr: writes the text at the given
    /// row and column.  The text must hold no NUL character: pancurses builds
    /// a C string from it and would panic on an interior NUL.
    #[verifier::external_body]
    fn mvaddstr(&self, y: i32, x: i32, s: &str)
        requires
            forall|i: int| 0 <= i < s@.len() ==> s@[i] != '\0',
    {
        self.win.mvaddstr(y, x, s);
    }

    /// Relies on pancurses::Window::attrset with pancurses::COLOR_PAIR:
    /// selects the color pair with the given index.
    #[verifier::external_body]
    fn attrset_pair(&self, index: u8) {
        self.win.attrset(pancurses::COLOR_PAIR(index as pancurses::chtype));
    }

    /// Relies on pancurses::Window::attron: switches the attribute on.
    #[verifier::external_body]
    fn attron(&self, attr: Attr) {
        match attr {
            Attr::Dim => self.win.attron(pancurses::A_DIM),
            Attr::Underline => self.win.attron(pancurses::A_UNDERLINE),
            Attr::Reverse => self.win.attron(pancurses::A_REVERSE),
        };
    }

    /// Relies on pancurses::Window::attroff: switches the attribute off.
    #[verifier::external_body]
    fn attroff(&self, attr: Attr) {
        match attr {
            Attr::Dim => self.win.attroff(pancurses::A_DIM),
            Attr::Underline => self.win.attroff(pancurses::A_UNDERLINE),
            Attr::Reverse => self.win.attroff(pancurses::A_REVERSE),
        };
    }

    /// Relies on pancurses::curs_set: shows (1) or hides (0) the cursor.
    #[verifier::external_body]
    fn curs_set(&self, visible: bool) {
        pancurses::curs_set(
            if visible {
                1
            } else {
                0
            },
        );
    }

    /// Relies on pancurses::Window::keypad: toggles special-key decoding.
    #[verifier::external_body]
    fn keypad(&self, on: bool) {
        self.win.keypad(on);
    }

    /// Relies on pancurses::noecho: disables input echo.
    #[verifier::external_body]
    fn noecho(&self) {
        pancurses::noecho();
    }

    /// Relies on pancurses::has_colors: reports whether the terminal
    /// supports color.
    #[verifier::external_body]
    fn has_colors(&self) -> bool {
        pancurses::has_colors()
    }

    /// Relies on pancurses::start_color: activates color mode.
    #[verifier::external_body]
    fn start_color(&self) {
        pancurses::start_color();
    }

    /// Relies on pancurses::use_default_colors: requests the terminal's
    /// native default background.
    #[verifier::external_body]
    fn use_default_colors(&self) {
        pancurses::use_default_colors();
    }

    /// Relies on pancurses::init_pair: registers the pair index with the
    /// curses constant for the color, on the default background (-1).
    #[verifier::external_body]
    fn init_pair(&self, index: u8, color: Color) {
        let fg: i16 = match color {
            Color::White => pancurses::COLOR_WHITE,
            Color::Yellow => pancurses::COLOR_YELLOW,
            Color::Blue => pancurses::COLOR_BLUE,
            Color::Green => pancurses::COLOR_GREEN,
            Color::Cyan => pancurses::COLOR_CYAN,
            Color::Magenta => pancurses::COLOR_MAGENTA,
            Color::Red => pancurses::COLOR_RED,
        };
        pancurses::init_pair(index as i16, fg, -1);
    }

    /// Relies on pancurses::Window::get_max_y: the row count the terminal
    /// reports, which is never negative for a live window.
    #[verifier::external_body]
    fn get_max_y(&self) -> (r: i32)
        ensures
            r >= 0,
    {
        self.win.get_max_y()
    }

    /// Relies on pancurses::Window::getch: blocks for one key event; a
    /// printable character comes back as such, any other event as `Other`.
    #[verifier::external_body]
    fn getch(&self) -> Option<KeyEvent> {
        match self.win.getch() {
            Some(pancurses::Input::Character(c)) => Some(KeyEvent::Character(c)),
            Some(_) => Some(KeyEvent::Other),
            None => None,
        }
    }

    /// Relies on pancurses::endwin: releases the terminal session.
    #[verifier::external_body]
    fn endwin(&self) {
        pancurses::endwin();
    }
}

/// Production terminal-control backend over a real curses session.  The
/// ghost `ops` models the operations sent to the terminal and the ghost
/// `reads` the answers of the input poll; `height` holds the row count as of
/// the last geometry query, which `max_y` refreshes from the terminal on
/// every call.  Text handed to curses has its NUL characters stripped first,
/// since a C string cannot carry them; the log records the requested text.
pub struct CursesBackend {
    session: CursesSession,
    ops: Ghost<Seq<TermOp>>,
    reads: Ghost<Seq<Option<KeyEvent>>>,
    height: Ghost<int>,
    colors: bool,
}

impl CursesBackend {
    /// Acquire the terminal session and read its geometry and color support.
    pub fn new() -> (r: CursesBackend)
        ensures
            r.log() == Seq::<TermOp>::empty(),
            r.reads() == Seq::<Option<KeyEvent>>::empty(),
    {
        let session = CursesSession::init();
        let height = session.get_max_y();
        let colors = session.has_colors();
        CursesBackend {
            session,
            ops: Ghost(Seq::<TermOp>::empty()),
            reads: Ghost(Seq::<Option<KeyEvent>>::empty()),
            height: Ghost(height as int),
            colors,
        }
    }
}

impl TerminalControl for CursesBackend {
    closed spec fn log(&self) -> Seq<TermOp> {
        self.ops@
    }

    closed spec fn reads(&self) -> Seq<Option<KeyEvent>> {
        self.reads@
    }

    closed spec fn screen_height(&self) -> int {
        self.height@
    }

    closed spec fn colors_supported(&self) -> bool {
        self.colors
    }

    fn clear(&mut self) {
        self.session.clear();
        self.ops = Ghost(self.ops@.push(TermOp::Clear));
    }

    fn refresh(&mut self) {
        self.session.refresh();
        self.ops = Ghost(self.ops@.push(TermOp::Refresh));
    }

    fn print(&mut self, s: &str) {
        let clean = strip_nul(s);
        proof {
            lemma_without_nul_free(s@);
        }
        self.session.addstr(clean.as_str());
        self.ops = Ghost(self.ops@.push(TermOp::Print(s@)));
    }

    fn print_at(&mut self, y: i32, x: i32, s: &str) {
        let clean = strip_nul(s);
        proof {
            lemma_without_nul_free(s@);
        }
        self.session.mvaddstr(y, x, clean.as_str());
        self.ops = Ghost(self.ops@.push(TermOp::PrintAt(y as int, x as int, s@)));
    }

    fn set_pair(&mut self, index: u8) {
        self.session.attrset_pair(index);
        self.ops = Ghost(self.ops@.push(TermOp::Pair(index as int)));
    }

    fn attr_on(&mut self, attr: Attr) {
        self.session.attron(attr);
        self.ops = Ghost(self.ops@.push(TermOp::AttrOn(attr)));
    }

    fn attr_off(&mut self, attr: Attr) {
        self.session.attroff(attr);
        self.ops = Ghost(self.ops@.push(TermOp::AttrOff(attr)));
    }

    fn set_cursor_visible(&mut self, visible: bool) {
        self.session.curs_set(visible);
        self.ops = Ghost(self.ops@.push(TermOp::Cursor(visible)));
    }

    fn set_keypad(&mut self, on: bool) {
        self.session.keypad(on);
        self.ops = Ghost(self.ops@.push(TermOp::Keypad(on)));
    }

    fn disable_echo(&mut self) {
        self.session.noecho();
        self.ops = Ghost(self.ops@.push(TermOp::EchoOff));
    }

    fn supports_colors(&self) -> (r: bool) {
        self.colors
    }

    fn start_colors(&mut self) {
        self.session.start_color();
        self.ops = Ghost(self.ops@.push(TermOp::StartColor));
    }

    fn default_colors(&mut self) {
        self.session.use_default_colors();
        self.ops = Ghost(self.ops@.push(TermOp::DefaultColors));
    }

    fn define_pair(&mut self, index: u8, color: Color) {
        self.session.init_pair(index, color);
        self.ops = Ghost(self.ops@.push(TermOp::DefinePair(index as int, color)));
    }

    fn max_y(&mut self) -> (r: i32) {
        let y = self.session.get_max_y();
        self.height = Ghost(y as int);
        y
    }

    fn read_event(&mut self) -> (r: Option<KeyEvent>) {
        let e = self.session.getch();
        self.reads = Ghost(self.reads@.push(e));
        e
    }

    fn end_session(&mut self) {
        self.session.endwin();
        self.ops = Ghost(self.ops@.push(TermOp::End));
    }
}

} // verus!
