use crate::color::Color;
use crate::terminal::Attr;
use crate::terminal::KeyEvent;
use crate::terminal::TermOp;
use crate::terminal::TerminalControl;
use vstd::prelude::*;
use vstd::string::*;

verus! {

/// Executable record of one operation the recording backend received;
/// mirrors `TermOp` with owned strings.
#[derive(Clone, PartialEq, Eq, Debug)]
pub enum MockOp {
    Clear,
    Refresh,
    Print(String),
    PrintAt(i32, i32, String),
    Pair(u8),
    AttrOn(Attr),
    AttrOff(Attr),
    Cursor(bool),
    Keypad(bool),
    EchoOff,
    StartColor,
    DefaultColors,
    DefinePair(u8, Color),
    End,
}

impl View for MockOp {
    type V = TermOp;

    open spec fn view(&self) -> TermOp {
        match self {
            MockOp::Clear => TermOp::Clear,
            MockOp::Refresh => TermOp::Refresh,
            MockOp::Print(s) => TermOp::Print(s@),
            MockOp::PrintAt(y, x, s) => TermOp::PrintAt(*y as int, *x as int, s@),
            MockOp::Pair(i) => TermOp::Pair(*i as int),
            MockOp::AttrOn(a) => TermOp::AttrOn(*a),
            MockOp::AttrOff(a) => TermOp::AttrOff(*a),
            MockOp::Cursor(v) => TermOp::Cursor(*v),
            MockOp::Keypad(on) => TermOp::Keypad(*on),
            MockOp::EchoOff => TermOp::EchoOff,
            MockOp::StartColor => TermOp::StartColor,
            MockOp::DefaultColors => TermOp::DefaultColors,
            MockOp::DefinePair(i, c) => TermOp::DefinePair(*i as int, *c),
            MockOp::End => TermOp::End,
        }
    }
}

impl DeepView for MockOp {
    type V = TermOp;

    open spec fn deep_view(&self) -> TermOp {
        self.view()
    }
}

/// In-memory stand-in for the real terminal-control surface, for test
/// builds: it reports a configured viewport geometry, records every drawing
/// call, and answers the input poll from a caller-supplied list of key
/// events.  It holds no rendering logic of its own.
pub struct MockBackend {
    ops: Vec<MockOp>,
    events: Vec<KeyEvent>,
    next_event: usize,
    reads: Ghost<Seq<Option<KeyEvent>>>,
    height: i32,
    colors: bool,
}

impl MockBackend {
    pub fn new(height: i32, colors: bool, events: Vec<KeyEvent>) -> (r: MockBackend)
        requires
            height >= 0,
        ensures
            r.log() == Seq::<TermOp>::empty(),
            r.reads() == Seq::<Option<KeyEvent>>::empty(),
            r.screen_height() == height as int,
            r.colors_supported() == colors,
    {
        let r = MockBackend {
            ops: Vec::new(),
            events,
            next_event: 0,
            reads: Ghost(Seq::<Option<KeyEvent>>::empty()),
            height,
            colors,
        };
        proof {
            assert(r.ops.deep_view() =~= Seq::<TermOp>::empty());
        }
        r
    }

    /// The operations recorded so far, oldest first.
    pub fn recorded(&self) -> (r: &Vec<MockOp>)
        ensures
            r.deep_view() == self.log(),
    {
        &self.ops
    }
}

impl TerminalControl for MockBackend {
    closed spec fn log(&self) -> Seq<TermOp> {
        self.ops.deep_view()
    }

    closed spec fn reads(&self) -> Seq<Option<KeyEvent>> {
        self.reads@
    }

    closed spec fn screen_height(&self) -> int {
        if self.height >= 0 {
            self.height as int
        } else {
            0
        }
    }

    closed spec fn colors_supported(&self) -> bool {
        self.colors
    }

    fn clear(&mut self) {
        self.ops.push(MockOp::Clear);
        proof {
            assert(self.ops.deep_view() =~= old(self).ops.deep_view().push(TermOp::Clear));
        }
    }

    fn refresh(&mut self) {
        self.ops.push(MockOp::Refresh);
        proof {
            assert(self.ops.deep_view() =~= old(self).ops.deep_view().push(TermOp::Refresh));
        }
    }

    fn print(&mut self, s: &str) {
        let owned = String::from_str(s);
        self.ops.push(MockOp::Print(owned));
        proof {
            assert(self.ops.deep_view() =~= old(self).ops.deep_view().push(TermOp::Print(s@)));
        }
    }

    fn print_at(&mut self, y: i32, x: i32, s: &str) {
        let owned = String::from_str(s);
        self.ops.push(MockOp::PrintAt(y, x, owned));
        proof {
            assert(self.ops.deep_view() =~= old(self).ops.deep_view().push(
                TermOp::PrintAt(y as int, x as int, s@),
            ));
        }
    }

    fn set_pair(&mut self, index: u8) {
        self.ops.push(MockOp::Pair(index));
        proof {
            assert(self.ops.deep_view() =~= old(self).ops.deep_view().push(
                TermOp::Pair(index as int),
            ));
        }
    }

    fn attr_on(&mut self, attr: Attr) {
        self.ops.push(MockOp::AttrOn(attr));
        proof {
            assert(self.ops.deep_view() =~= old(self).ops.deep_view().push(TermOp::AttrOn(attr)));
        }
    }

    fn attr_off(&mut self, attr: Attr) {
        self.ops.push(MockOp::AttrOff(attr));
        proof {
            assert(self.ops.deep_view() =~= old(self).ops.deep_view().push(TermOp::AttrOff(attr)));
        }
    }

    fn set_cursor_visible(&mut self, visible: bool) {
        self.ops.push(MockOp::Cursor(visible));
        proof {
            assert(self.ops.deep_view() =~= old(self).ops.deep_view().push(
                TermOp::Cursor(visible),
            ));
        }
    }

    fn set_keypad(&mut self, on: bool) {
        self.ops.push(MockOp::Keypad(on));
        proof {
            assert(self.ops.deep_view() =~= old(self).ops.deep_view().push(TermOp::Keypad(on)));
        }
    }

    fn disable_echo(&mut self) {
        self.ops.push(MockOp::EchoOff);
        proof {
            assert(self.ops.deep_view() =~= old(self).ops.deep_view().push(TermOp::EchoOff));
        }
    }

    fn supports_colors(&self) -> (r: bool) {
        self.colors
    }

    fn start_colors(&mut self) {
        self.ops.push(MockOp::StartColor);
        proof {
            assert(self.ops.deep_view() =~= old(self).ops.deep_view().push(TermOp::StartColor));
        }
    }

    fn default_colors(&mut self) {
        self.ops.push(MockOp::DefaultColors);
        proof {
            assert(self.ops.deep_view() =~= old(self).ops.deep_view().push(TermOp::DefaultColors));
        }
    }

    fn define_pair(&mut self, index: u8, color: Color) {
        self.ops.push(MockOp::DefinePair(index, color));
        proof {
            assert(self.ops.deep_view() =~= old(self).ops.deep_view().push(
                TermOp::DefinePair(index as int, color),
            ));
        }
    }

    fn max_y(&mut self) -> (r: i32) {
        if self.height >= 0 {
            self.height
        } else {
            0
        }
    }

    fn read_event(&mut self) -> (r: Option<KeyEvent>) {
        let e = if self.next_event < self.events.len() {
            let c = self.events[self.next_event];
            self.next_event = self.next_event + 1;
            Some(c)
        } else {
            None
        };
        self.reads = Ghost(self.reads@.push(e));
        e
    }

    fn end_session(&mut self) {
        self.ops.push(MockOp::End);
        proof {
            assert(self.ops.deep_view() =~= old(self).ops.deep_view().push(TermOp::End));
        }
    }
}

} // verus!
