use crate::action::action_color;
use crate::action::action_color_spec;
use crate::action::action_label;
use crate::action::action_to_str;
use crate::color::color_pair;
use crate::color::color_pair_index;
use crate::color::index_color;
use crate::color::pair_color;
use crate::color::Color;
use crate::commit::parse_commit;
use crate::commit::parse_error_message;
use crate::commit::Commit;
use crate::commit::CommitView;
use crate::commit::StatView;
use crate::line::Line;
use crate::line::LineView;
use crate::terminal::Attr;
use crate::terminal::KeyEvent;
use crate::terminal::TermOp;
use crate::terminal::TerminalControl;
use crate::text::dec_str;
use crate::text::pad_aligned;
use crate::text::pad_to;
use crate::text::padded;
use crate::text::pad_to_width;
use crate::text::usize_to_string;
use vstd::prelude::*;
use vstd::string::*;

verus! {

/// The usable list-viewport height for a terminal of `max_y` rows: four rows
/// are reserved for the title line, the footer line and their blank
/// separators, with an explicit floor of four rows when the terminal reports
/// fewer than four rows in all.
pub open spec fn viewport_height(max_y: int) -> int {
    if max_y >= 4 {
        max_y - 4
    } else {
        4
    }
}

/// The scroll offset after an update, as an ordered rule set (first match
/// wins): the whole list fits; the end-of-list sentinel is selected; the
/// selection moved above the visible window; the selection moved below it;
/// otherwise the offset is unchanged.
pub open spec fn scrolled_top(top: int, length: int, height: int, selected: int) -> int {
    if length <= height {
        0
    } else if selected == length {
        length - height
    } else if top + 1 > selected {
        selected - 1
    } else if top + height <= selected {
        selected - height + 1
    } else {
        top
    }
}

/// The operations of the fixed title banner: dim underlined white text.
pub open spec fn title_ops() -> Seq<TermOp> {
    seq![
        TermOp::Pair(0),
        TermOp::AttrOn(Attr::Dim),
        TermOp::AttrOn(Attr::Underline),
        TermOp::Print("Git Interactive Rebase                       ? for help\n"@),
        TermOp::AttrOff(Attr::Underline),
        TermOp::AttrOff(Attr::Dim),
    ]
}

/// The operations of a "more above/below" indicator showing `count`, in dim
/// reverse-video white.
pub open spec fn indicator_ops(count: int) -> Seq<TermOp> {
    seq![
        TermOp::Pair(0),
        TermOp::AttrOn(Attr::Dim),
        TermOp::AttrOn(Attr::Reverse),
        TermOp::Print("  -- "@ + dec_str(if count >= 0 { count as nat } else { 0 }) + " --  "@),
        TermOp::AttrOff(Attr::Reverse),
        TermOp::AttrOff(Attr::Dim),
    ]
}

/// The operations of one rendered step row: the three-column selection
/// marker in white, the action's six-column label in the action's color,
/// then the hash and comment in white.
pub open spec fn row_ops(line: LineView, selected: bool) -> Seq<TermOp> {
    seq![
        TermOp::Pair(0),
        TermOp::Print(if selected { " > "@ } else { "   "@ }),
        TermOp::Pair(color_pair_index(action_color_spec(line.action))),
        TermOp::Print(pad_to(action_label(line.action), 6)),
        TermOp::Pair(0),
        TermOp::Print(" "@ + line.hash + " "@ + line.comment + "\n"@),
    ]
}

/// The operations of the first `count` visible rows starting at `top`; the
/// row with 1-based display index `selected` is rendered selected.
pub open spec fn rows_ops(lines: Seq<LineView>, selected: int, top: int, count: int) -> Seq<
    TermOp,
>
    decreases count,
{
    if count <= 0 {
        Seq::<TermOp>::empty()
    } else {
        rows_ops(lines, selected, top, count - 1) + row_ops(
            lines[top + count - 1],
            top + count == selected,
        )
    }
}

/// The operations of the fixed footer line, drawn dim on the last row.
pub open spec fn footer_ops(max_y: int) -> Seq<TermOp> {
    seq![
        TermOp::Pair(0),
        TermOp::AttrOn(Attr::Dim),
        TermOp::PrintAt(
            max_y - 1,
            0,
            "Actions: [ up, down, q/Q, w/W, c, j, k, p, r, e, s, f, d, ? ]"@,
        ),
        TermOp::AttrOff(Attr::Dim),
    ]
}

/// How many rows of the list are visible: everything from `top` on, capped
/// at the viewport height.
pub open spec fn visible_rows(len: int, top: int, height: int) -> int {
    if len - top <= height {
        len - top
    } else {
        height
    }
}

/// The full operation sequence of one list-screen redraw.
pub open spec fn draw_ops(
    lines: Seq<LineView>,
    selected: int,
    top: int,
    height: int,
    max_y: int,
) -> Seq<TermOp> {
    seq![TermOp::Clear] + title_ops() + (if top > 0 {
        indicator_ops(top)
    } else {
        Seq::<TermOp>::empty()
    }) + seq![TermOp::Print("\n"@)] + rows_ops(
        lines,
        selected,
        top,
        visible_rows(lines.len() as int, top, height),
    ) + (if height < lines.len() - top {
        indicator_ops(lines.len() - height - top)
    } else {
        Seq::<TermOp>::empty()
    }) + seq![TermOp::Print("\n"@)] + footer_ops(max_y) + seq![TermOp::Refresh]
}

/// The color-pair definitions issued at startup for indices `0 .. n`.
pub open spec fn define_pairs_ops(n: int) -> Seq<TermOp>
    decreases n,
{
    if n <= 0 {
        Seq::<TermOp>::empty()
    } else {
        define_pairs_ops(n - 1).push(TermOp::DefinePair(n - 1, pair_color(n - 1)))
    }
}

/// The operations of window construction: special-key decoding on, cursor
/// hidden, echo off, color mode when supported, default background, and the
/// seven color pairs.
pub open spec fn setup_ops(colors: bool) -> Seq<TermOp> {
    seq![TermOp::Keypad(true), TermOp::Cursor(false), TermOp::EchoOff] + (if colors {
        seq![TermOp::StartColor]
    } else {
        Seq::<TermOp>::empty()
    }) + seq![TermOp::DefaultColors] + define_pairs_ops(7)
}

/// The operations of teardown: clear, flush, restore the cursor, release the
/// session.
pub open spec fn end_ops() -> Seq<TermOp> {
    seq![TermOp::Clear, TermOp::Refresh, TermOp::Cursor(true), TermOp::End]
}

/// The operations of a confirmation prompt for `message`.
pub open spec fn confirm_ops(message: Seq<char>) -> Seq<TermOp> {
    seq![TermOp::Clear] + title_ops() + seq![TermOp::Print("\n"@ + message + " (y/n)? "@)]
}

/// A key event answers a confirmation prompt affirmatively exactly when it
/// is the character 'y' or 'Y'.
pub open spec fn event_confirms(e: Option<KeyEvent>) -> bool {
    match e {
        Some(KeyEvent::Character(c)) => c == 'y' || c == 'Y',
        _ => false,
    }
}

/// 'y' and 'Y' confirm; every other character, every special key and the
/// absence of an event decline.
pub fn key_confirms(event: &Option<KeyEvent>) -> (r: bool)
    ensures
        r == event_confirms(*event),
{
    match event {
        Some(KeyEvent::Character(c)) => *c == 'y' || *c == 'Y',
        _ => false,
    }
}

/// Scrolling never moves a list that fits in the viewport: whatever the
/// prior offset and the selection, the recomputed offset is the top.
pub proof fn lemma_short_list_scrolls_to_zero(top: int, length: int, height: int, selected: int)
    requires
        length <= height,
    ensures
        scrolled_top(top, length, height, selected) == 0,
{
}

/// Exactly the selected row carries the `" > "` marker: the marker slot of a
/// rendered row prints `" > "` when the row is selected and three plain
/// spaces otherwise, and the two never coincide.
pub proof fn lemma_selection_marker(line: LineView, selected: bool)
    ensures
        row_ops(line, selected)[1] == TermOp::Print(" > "@) <==> selected,
{
    reveal_strlit(" > ");
    reveal_strlit("   ");
    assert(" > "@[1] == '>');
    assert("   "@[1] == ' ');
    assert(" > "@ != "   "@);
}

/// Every action renders with its own fixed six-column label in its own fixed
/// color: the third and fourth operations of a rendered row are the color
/// pair of the action's color and the action's padded label.
pub proof fn lemma_action_rendering(line: LineView, selected: bool)
    ensures
        row_ops(line, selected)[2] == TermOp::Pair(color_pair_index(action_color_spec(line.action))),
        row_ops(line, selected)[3] == TermOp::Print(pad_to(action_label(line.action), 6)),
{
}

/// A rendered row is six operations long.
pub proof fn lemma_rows_ops_len(lines: Seq<LineView>, selected: int, top: int, count: int)
    ensures
        rows_ops(lines, selected, top, count).len() == 6 * (if count >= 0 { count } else { 0 }),
    decreases count,
{
    if count > 0 {
        lemma_rows_ops_len(lines, selected, top, count - 1);
    }
}

/// The rendered list is row after row: the six operations of the `j`-th
/// visible row stand at position `6 * j`, rendered selected exactly when the
/// row's 1-based display index equals the selection.
pub proof fn lemma_rows_ops_slice(
    lines: Seq<LineView>,
    selected: int,
    top: int,
    count: int,
    j: int,
)
    requires
        0 <= j < count,
    ensures
        rows_ops(lines, selected, top, count).subrange(6 * j, 6 * j + 6) == row_ops(
            lines[top + j],
            top + j + 1 == selected,
        ),
    decreases count,
{
    lemma_rows_ops_len(lines, selected, top, count - 1);
    lemma_rows_ops_len(lines, selected, top, count);
    if j == count - 1 {
        assert(rows_ops(lines, selected, top, count).subrange(6 * j, 6 * j + 6) =~= row_ops(
            lines[top + j],
            top + j + 1 == selected,
        ));
    } else {
        lemma_rows_ops_slice(lines, selected, top, count - 1, j);
        assert(rows_ops(lines, selected, top, count).subrange(6 * j, 6 * j + 6) =~= rows_ops(
            lines,
            selected,
            top,
            count - 1,
        ).subrange(6 * j, 6 * j + 6));
    }
}

/// The operations of one help-table row: the nine-column key name in blue,
/// its description in white.
pub open spec fn help_cmd_ops(command: Seq<char>, help: Seq<char>) -> Seq<TermOp> {
    seq![
        TermOp::Pair(2),
        TermOp::Print(" "@ + pad_to(command, 9) + "    "@),
        TermOp::Pair(0),
        TermOp::Print(help + "\n"@),
    ]
}

/// The full operation sequence of the help screen: title, table header, the
/// fifteen key bindings in their fixed order, and the closing prompt.
pub open spec fn help_ops() -> Seq<TermOp> {
    seq![TermOp::Clear] + title_ops() + seq![
        TermOp::Pair(0),
        TermOp::Print("\n Key        Action\n"@),
        TermOp::Print(" --------------------------------------------------\n"@),
    ] + help_cmd_ops("Up"@, "Move selection up"@) + help_cmd_ops("Down"@, "Move selection down"@)
        + help_cmd_ops("Page Up"@, "Move selection up 5 lines"@) + help_cmd_ops(
        "Page Down"@,
        "Move selection down 5 lines"@,
    ) + help_cmd_ops("q"@, "Abort interactive rebase"@) + help_cmd_ops(
        "Q"@,
        "Immediately abort interactive rebase"@,
    ) + help_cmd_ops("w"@, "Write interactive rebase file"@) + help_cmd_ops(
        "W"@,
        "Immediately write interactive rebase file"@,
    ) + help_cmd_ops("?"@, "Show help"@) + help_cmd_ops("c"@, "Show commit information"@)
        + help_cmd_ops("j"@, "Move selected commit down"@) + help_cmd_ops(
        "k"@,
        "Move selected commit up"@,
    ) + help_cmd_ops("p"@, "Set selected commit to be picked"@) + help_cmd_ops(
        "r"@,
        "Set selected commit to be reworded"@,
    ) + help_cmd_ops("e"@, "Set selected commit to be edited"@) + help_cmd_ops(
        "s"@,
        "Set selected commit to be squashed"@,
    ) + help_cmd_ops("f"@, "Set selected commit to be fixed-up"@) + help_cmd_ops(
        "d"@,
        "Set selected commit to be dropped"@,
    ) + seq![TermOp::Print("\n\nHit any key to close help"@), TermOp::Refresh]
}

/// The widest added-count text among the first `count` statistics rows; both
/// numeric columns of the commit-detail screen are padded to this width.
pub open spec fn max_added_len(stats: Seq<StatView>, count: int) -> int
    decreases count,
{
    if count <= 0 {
        0
    } else {
        let m = max_added_len(stats, count - 1);
        if stats[count - 1].added.len() > m {
            stats[count - 1].added.len() as int
        } else {
            m
        }
    }
}

/// The operations of one file-statistics row: the added count right-aligned
/// in green, the removed count left-aligned in red (both to the width of the
/// widest added count), and the file path in white.
pub open spec fn stat_row_ops(st: StatView, width: int) -> Seq<TermOp> {
    seq![
        TermOp::Pair(3),
        TermOp::Print(padded(st.added, width, true)),
        TermOp::Pair(0),
        TermOp::Print(" | "@),
        TermOp::Pair(6),
        TermOp::Print(padded(st.removed, width, false)),
        TermOp::Pair(0),
        TermOp::Print("  "@ + st.name + "\n"@),
    ]
}

/// The operations of the first `count` file-statistics rows.
pub open spec fn stats_ops(stats: Seq<StatView>, width: int, count: int) -> Seq<TermOp>
    decreases count,
{
    if count <= 0 {
        Seq::<TermOp>::empty()
    } else {
        stats_ops(stats, width, count - 1) + stat_row_ops(stats[count - 1], width)
    }
}

/// The operations of a successfully parsed commit-detail body: hash heading
/// in yellow, author, date, subject and body in white, then the statistics
/// rows.
pub open spec fn commit_detail_ops(hash: Seq<char>, c: CommitView) -> Seq<TermOp> {
    seq![
        TermOp::Pair(1),
        TermOp::Print("\nCommit: "@ + hash + "\n"@),
        TermOp::Pair(0),
        TermOp::Print("Author: "@ + c.author_name + " <"@ + c.author_email + ">\n"@),
        TermOp::Print("Date: "@ + c.date + "\n"@),
        TermOp::Print("\n"@ + c.subject + "\n\n"@ + c.body + "\n"@),
    ] + stats_ops(
        c.file_stats,
        max_added_len(c.file_stats, c.file_stats.len() as int),
        c.file_stats.len() as int,
    )
}

/// The raw query result as a mathematical value.
pub open spec fn query_view(q: Result<String, String>) -> Result<Seq<char>, Seq<char>> {
    match q {
        Ok(s) => Ok(s@),
        Err(e) => Err(e@),
    }
}

/// The full operation sequence of the commit-detail screen, for a given raw
/// query result: the parsed detail when the query succeeded and its output
/// parses, the parser's description in red when it does not, the operating
/// system's error description in red when the query could not run, and
/// always the closing prompt.
pub open spec fn show_commit_ops(hash: Seq<char>, query: Result<Seq<char>, Seq<char>>) -> Seq<
    TermOp,
> {
    seq![TermOp::Clear] + title_ops() + (match query {
        Ok(out) => seq![TermOp::Pair(0)] + (match parse_commit(out) {
            Some(c) => commit_detail_ops(hash, c),
            None => seq![TermOp::Pair(6), TermOp::Print(parse_error_message(out))],
        }),
        Err(e) => seq![TermOp::Pair(6), TermOp::Print(e)],
    }) + seq![TermOp::Pair(1), TermOp::Print("\n\nHit any key to close"@), TermOp::Refresh]
}

/// The terminal window: it owns the terminal-control backend exclusively and
/// tracks `top`, the index of the first visible list row, which only
/// `set_top` recomputes.
pub struct Window<B: TerminalControl> {
    pub backend: B,
    top: usize,
    live: Ghost<bool>,
}

impl<B: TerminalControl> Window<B> {
    /// The scroll offset as a mathematical value.
    pub closed spec fn top_spec(&self) -> int {
        self.top as int
    }

    /// The backend as a mathematical value, for contracts.
    pub closed spec fn term(&self) -> B {
        self.backend
    }

    /// Whether the terminal session is still live: true from construction
    /// until `end` releases it.  No drawing, prompt or scroll operation is
    /// valid afterwards.
    pub closed spec fn is_live(&self) -> bool {
        self.live@
    }

    /// Acquire the terminal: enable special-key decoding, hide the cursor,
    /// disable echo, activate color mode when the terminal supports it, and
    /// register the seven color pairs.  Pair index 0 is conventionally fixed
    /// to the default-on-default pair; the attempt to define it is preserved
    /// for portability, but nothing depends on it changing White's look.
    pub fn new(backend: B) -> (r: Window<B>)
        ensures
            r.term().log() == backend.log() + setup_ops(backend.colors_supported()),
            r.term().screen_height() == backend.screen_height(),
            r.term().colors_supported() == backend.colors_supported(),
            r.term().reads() == backend.reads(),
            r.top_spec() == 0,
            r.is_live(),
    {
        let mut b = backend;
        let ghost log0 = b.log();
        b.set_keypad(true);
        b.set_cursor_visible(false);
        b.disable_echo();
        if b.supports_colors() {
            b.start_colors();
        }
        b.default_colors();
        let ghost mid = b.log();
        proof {
            assert(mid =~= log0 + (seq![
                TermOp::Keypad(true),
                TermOp::Cursor(false),
                TermOp::EchoOff,
            ] + (if b.colors_supported() {
                seq![TermOp::StartColor]
            } else {
                Seq::<TermOp>::empty()
            }) + seq![TermOp::DefaultColors]));
        }
        let mut i: u8 = 0;
        while i < 7
            invariant
                i <= 7,
                b.log() == mid + define_pairs_ops(i as int),
                b.screen_height() == backend.screen_height(),
                b.colors_supported() == backend.colors_supported(),
                b.reads() == backend.reads(),
            decreases 7 - i,
        {
            let c = index_color(i);
            b.define_pair(i, c);
            i = i + 1;
        }
        proof {
            assert(b.log() =~= log0 + setup_ops(backend.colors_supported()));
        }
        Window { backend: b, top: 0, live: Ghost(true) }
    }

    /// The current scroll offset.
    pub fn scroll_top(&self) -> (r: usize)
        ensures
            r as int == self.top_spec(),
    {
        self.top
    }

    /// The usable list-viewport height, recomputed fresh from the terminal's
    /// current geometry.
    pub fn get_window_height(&mut self) -> (r: usize)
        requires
            old(self).is_live(),
        ensures
            r as int == viewport_height(final(self).term().screen_height()),
            final(self).term().log() == old(self).term().log(),
            final(self).term().colors_supported() == old(self).term().colors_supported(),
            final(self).term().reads() == old(self).term().reads(),
            final(self).top_spec() == old(self).top_spec(),
            final(self).is_live() == old(self).is_live(),
    {
        let y = self.backend.max_y();
        if y >= 4 {
            (y - 4) as usize
        } else {
            4
        }
    }

    /// Recompute the scroll offset for the current list length and selection,
    /// from the viewport height as the terminal reports it now.  The caller
    /// keeps `selected_index` at 1 or above for a non-empty list, and at the
    /// type ceiling only for the sentinel of a list of that length.
    pub fn set_top(&mut self, line_length: usize, selected_index: usize)
        requires
            old(self).is_live(),
            selected_index >= 1 || line_length == 0,
            selected_index < usize::MAX || line_length == usize::MAX,
        ensures
            final(self).top_spec() == scrolled_top(
                old(self).top_spec(),
                line_length as int,
                viewport_height(final(self).term().screen_height()),
                selected_index as int,
            ),
            final(self).term().log() == old(self).term().log(),
            final(self).term().colors_supported() == old(self).term().colors_supported(),
            final(self).term().reads() == old(self).term().reads(),
            final(self).is_live() == old(self).is_live(),
    {
        let window_height = self.get_window_height();
        let new_top = if line_length <= window_height {
            0
        } else if selected_index == line_length {
            line_length - window_height
        } else if self.top >= selected_index {
            selected_index - 1
        } else if selected_index - self.top >= window_height {
            selected_index - window_height + 1
        } else {
            self.top
        };
        self.top = new_top;
    }

    /// Clear, flush, restore the cursor and release the terminal session.
    /// To be called exactly once, last: afterwards the window is no longer
    /// live and no further operation on it is valid.
    pub fn end(&mut self)
        requires
            old(self).is_live(),
        ensures
            final(self).term().log() == old(self).term().log() + end_ops(),
            final(self).term().screen_height() == old(self).term().screen_height(),
            final(self).term().colors_supported() == old(self).term().colors_supported(),
            final(self).term().reads() == old(self).term().reads(),
            final(self).top_spec() == old(self).top_spec(),
            !final(self).is_live(),
    {
        self.backend.clear();
        self.backend.refresh();
        self.backend.set_cursor_visible(true);
        self.backend.end_session();
        self.live = Ghost(false);
        proof {
            assert(self.backend.log() =~= old(self).term().log() + end_ops());
        }
    }

    /// Select one of the seven predefined color pairs.
    fn set_color(&mut self, color: &Color)
        ensures
            final(self).term().log() == old(self).term().log().push(
                TermOp::Pair(color_pair_index(*color)),
            ),
            final(self).term().screen_height() == old(self).term().screen_height(),
            final(self).term().colors_supported() == old(self).term().colors_supported(),
            final(self).term().reads() == old(self).term().reads(),
            final(self).top_spec() == old(self).top_spec(),
            final(self).is_live() == old(self).is_live(),
    {
        let idx = color_pair(color);
        self.backend.set_pair(idx);
    }

    /// Toggle the dim text attribute.
    fn set_dim(&mut self, on: bool)
        ensures
            final(self).term().log() == old(self).term().log().push(
                if on {
                    TermOp::AttrOn(Attr::Dim)
                } else {
                    TermOp::AttrOff(Attr::Dim)
                },
            ),
            final(self).term().screen_height() == old(self).term().screen_height(),
            final(self).term().colors_supported() == old(self).term().colors_supported(),
            final(self).term().reads() == old(self).term().reads(),
            final(self).top_spec() == old(self).top_spec(),
            final(self).is_live() == old(self).is_live(),
    {
        if on {
            self.backend.attr_on(Attr::Dim);
        } else {
            self.backend.attr_off(Attr::Dim);
        }
    }

    /// Toggle the underline text attribute.
    fn set_underline(&mut self, on: bool)
        ensures
            final(self).term().log() == old(self).term().log().push(
                if on {
                    TermOp::AttrOn(Attr::Underline)
                } else {
                    TermOp::AttrOff(Attr::Underline)
                },
            ),
            final(self).term().screen_height() == old(self).term().screen_height(),
            final(self).term().colors_supported() == old(self).term().colors_supported(),
            final(self).term().reads() == old(self).term().reads(),
            final(self).top_spec() == old(self).top_spec(),
            final(self).is_live() == old(self).is_live(),
    {
        if on {
            self.backend.attr_on(Attr::Underline);
        } else {
            self.backend.attr_off(Attr::Underline);
        }
    }

    /// Draw the fixed title banner.
    fn draw_title(&mut self)
        ensures
            final(self).term().log() == old(self).term().log() + title_ops(),
            final(self).term().screen_height() == old(self).term().screen_height(),
            final(self).term().colors_supported() == old(self).term().colors_supported(),
            final(self).term().reads() == old(self).term().reads(),
            final(self).top_spec() == old(self).top_spec(),
            final(self).is_live() == old(self).is_live(),
    {
        self.set_color(&Color::White);
        self.set_dim(true);
        self.set_underline(true);
        self.backend.print("Git Interactive Rebase                       ? for help\n");
        self.set_underline(false);
        self.set_dim(false);
        proof {
            assert(self.backend.log() =~= old(self).term().log() + title_ops());
        }
    }

    /// Draw a "more above/below" indicator showing `remaining`.
    fn draw_more_indicator(&mut self, remaining: usize)
        ensures
            final(self).term().log() == old(self).term().log() + indicator_ops(
                remaining as int,
            ),
            final(self).term().screen_height() == old(self).term().screen_height(),
            final(self).term().colors_supported() == old(self).term().colors_supported(),
            final(self).term().reads() == old(self).term().reads(),
            final(self).top_spec() == old(self).top_spec(),
            final(self).is_live() == old(self).is_live(),
    {
        self.set_color(&Color::White);
        self.backend.attr_on(Attr::Dim);
        self.backend.attr_on(Attr::Reverse);
        let mut s = String::from_str("  -- ");
        let num = usize_to_string(remaining);
        s.append(num.as_str());
        s.append(" --  ");
        self.backend.print(s.as_str());
        self.backend.attr_off(Attr::Reverse);
        self.backend.attr_off(Attr::Dim);
        proof {
            assert(self.backend.log() =~= old(self).term().log() + indicator_ops(
                remaining as int,
            ));
        }
    }

    /// Draw one step row; `selected` says whether it carries the marker.
    fn draw_line(&mut self, line: &Line, selected: bool)
        ensures
            final(self).term().log() == old(self).term().log() + row_ops(line@, selected),
            final(self).term().screen_height() == old(self).term().screen_height(),
            final(self).term().colors_supported() == old(self).term().colors_supported(),
            final(self).term().reads() == old(self).term().reads(),
            final(self).top_spec() == old(self).top_spec(),
            final(self).is_live() == old(self).is_live(),
    {
        self.set_color(&Color::White);
        if selected {
            self.backend.print(" > ");
        } else {
            self.backend.print("   ");
        }
        let c = action_color(line.get_action());
        self.set_color(&c);
        let label = pad_to_width(action_to_str(line.get_action()), 6);
        self.backend.print(label.as_str());
        self.set_color(&Color::White);
        let mut rest = String::from_str(" ");
        rest.append(line.get_hash().as_str());
        rest.append(" ");
        rest.append(line.get_comment().as_str());
        rest.append("\n");
        self.backend.print(rest.as_str());
        proof {
            assert(self.backend.log() =~= old(self).term().log() + row_ops(line@, selected));
        }
    }

    /// Draw the fixed footer line on the last row of a terminal of `y` rows
    /// (the geometry snapshot the surrounding redraw queried).
    fn draw_footer(&mut self, y: i32)
        requires
            y >= 0,
        ensures
            final(self).term().log() == old(self).term().log() + footer_ops(y as int),
            final(self).term().screen_height() == old(self).term().screen_height(),
            final(self).term().colors_supported() == old(self).term().colors_supported(),
            final(self).term().reads() == old(self).term().reads(),
            final(self).top_spec() == old(self).top_spec(),
            final(self).is_live() == old(self).is_live(),
    {
        self.set_color(&Color::White);
        self.set_dim(true);
        self.backend.print_at(
            y - 1,
            0,
            "Actions: [ up, down, q/Q, w/W, c, j, k, p, r, e, s, f, d, ? ]",
        );
        self.set_dim(false);
        proof {
            assert(self.backend.log() =~= old(self).term().log() + footer_ops(y as int));
        }
    }

    /// Full redraw of the list screen: title, optional "more above"
    /// indicator, the visible slice of `lines` starting at the scroll offset
    /// with the selected row marked, an optional "more below" indicator, and
    /// the footer.  The geometry is queried afresh once per redraw and drives
    /// both the viewport and the footer row.  The caller keeps the scroll
    /// offset within the list.
    #[verifier::rlimit(30)]
    pub fn draw(&mut self, lines: &Vec<Line>, selected_index: &usize)
        requires
            old(self).is_live(),
            old(self).top_spec() <= lines@.len(),
            lines@.len() < usize::MAX,
        ensures
            final(self).term().log() == old(self).term().log() + draw_ops(
                lines.deep_view(),
                *selected_index as int,
                old(self).top_spec(),
                viewport_height(final(self).term().screen_height()),
                final(self).term().screen_height(),
            ),
            final(self).term().colors_supported() == old(self).term().colors_supported(),
            final(self).term().reads() == old(self).term().reads(),
            final(self).top_spec() == old(self).top_spec(),
            final(self).is_live() == old(self).is_live(),
    {
        let ghost log0 = self.backend.log();
        let ghost top0 = self.top_spec();
        let ghost lv = lines.deep_view();
        let ghost sel = *selected_index as int;
        self.backend.clear();
        self.draw_title();
        let y = self.backend.max_y();
        let ghost h = self.backend.screen_height();
        let window_height: usize = if y >= 4 {
            (y - 4) as usize
        } else {
            4
        };
        proof {
            assert(window_height as int == viewport_height(h));
        }
        if self.top > 0 {
            self.draw_more_indicator(self.top);
        }
        self.backend.print("\n");
        let ghost mid = self.backend.log();
        proof {
            assert(mid =~= log0 + (seq![TermOp::Clear] + title_ops() + (if top0 > 0 {
                indicator_ops(top0)
            } else {
                Seq::<TermOp>::empty()
            }) + seq![TermOp::Print("\n"@)]));
        }
        let count = if lines.len() - self.top <= window_height {
            lines.len() - self.top
        } else {
            window_height
        };
        proof {
            assert(count as int == visible_rows(lv.len() as int, top0, viewport_height(h)));
        }
        let mut i: usize = 0;
        while i < count
            invariant
                i <= count,
                self.top as int == top0,
                top0 + count <= lines@.len(),
                lines@.len() < usize::MAX,
                lv == lines.deep_view(),
                sel == *selected_index as int,
                self.backend.log() == mid + rows_ops(lv, sel, top0, i as int),
                self.backend.screen_height() == h,
                self.backend.colors_supported() == old(self).term().colors_supported(),
                self.backend.reads() == old(self).term().reads(),
                self.is_live() == old(self).is_live(),
            decreases count - i,
        {
            proof {
                assert(lines.deep_view()[top0 + i] == lines@[top0 + i as int]@);
            }
            self.draw_line(&lines[self.top + i], self.top + i + 1 == *selected_index);
            proof {
                assert(rows_ops(lv, sel, top0, i + 1) == rows_ops(lv, sel, top0, i as int)
                    + row_ops(lv[top0 + i], top0 + i + 1 == sel));
                assert(self.backend.log() =~= mid + rows_ops(lv, sel, top0, i + 1));
            }
            i = i + 1;
        }
        if window_height < lines.len() - self.top {
            self.draw_more_indicator(lines.len() - window_height - self.top);
        }
        self.backend.print("\n");
        self.draw_footer(y);
        self.backend.refresh();
        proof {
            assert(self.backend.log() =~= log0 + draw_ops(
                lv,
                sel,
                top0,
                viewport_height(h),
                h,
            ));
        }
    }

    /// Draw one help-table row.
    fn draw_help_command(&mut self, command: &str, help: &str)
        ensures
            final(self).term().log() == old(self).term().log() + help_cmd_ops(command@, help@),
            final(self).term().screen_height() == old(self).term().screen_height(),
            final(self).term().colors_supported() == old(self).term().colors_supported(),
            final(self).term().reads() == old(self).term().reads(),
            final(self).top_spec() == old(self).top_spec(),
            final(self).is_live() == old(self).is_live(),
    {
        self.set_color(&Color::Blue);
        let mut s = String::from_str(" ");
        let padded_key = pad_to_width(command, 9);
        s.append(padded_key.as_str());
        s.append("    ");
        self.backend.print(s.as_str());
        self.set_color(&Color::White);
        let mut d = String::from_str(help);
        d.append("\n");
        self.backend.print(d.as_str());
        proof {
            assert(self.backend.log() =~= old(self).term().log() + help_cmd_ops(command@, help@));
        }
    }

    /// Draw the help screen: title, table header, the fifteen key bindings
    /// in their fixed order, and the closing prompt.
    pub fn draw_help(&mut self)
        requires
            old(self).is_live(),
        ensures
            final(self).term().log() == old(self).term().log() + help_ops(),
            final(self).term().screen_height() == old(self).term().screen_height(),
            final(self).term().colors_supported() == old(self).term().colors_supported(),
            final(self).term().reads() == old(self).term().reads(),
            final(self).top_spec() == old(self).top_spec(),
            final(self).is_live() == old(self).is_live(),
    {
        self.backend.clear();
        self.draw_title();
        self.set_color(&Color::White);
        self.backend.print("\n Key        Action\n");
        self.backend.print(" --------------------------------------------------\n");
        self.draw_help_command("Up", "Move selection up");
        self.draw_help_command("Down", "Move selection down");
        self.draw_help_command("Page Up", "Move selection up 5 lines");
        self.draw_help_command("Page Down", "Move selection down 5 lines");
        self.draw_help_command("q", "Abort interactive rebase");
        self.draw_help_command("Q", "Immediately abort interactive rebase");
        self.draw_help_command("w", "Write interactive rebase file");
        self.draw_help_command("W", "Immediately write interactive rebase file");
        self.draw_help_command("?", "Show help");
        self.draw_help_command("c", "Show commit information");
        self.draw_help_command("j", "Move selected commit down");
        self.draw_help_command("k", "Move selected commit up");
        self.draw_help_command("p", "Set selected commit to be picked");
        self.draw_help_command("r", "Set selected commit to be reworded");
        self.draw_help_command("e", "Set selected commit to be edited");
        self.draw_help_command("s", "Set selected commit to be squashed");
        self.draw_help_command("f", "Set selected commit to be fixed-up");
        self.draw_help_command("d", "Set selected commit to be dropped");
        self.backend.print("\n\nHit any key to close help");
        self.backend.refresh();
        proof {
            assert(self.backend.log() =~= old(self).term().log() + help_ops());
        }
    }

    /// Draw the commit-detail screen from the raw result of the read-only
    /// commit query for `commit` (the combined output text on success, the
    /// operating system's error description on spawn failure).  The output is
    /// parsed; a parse failure is rendered as the parser's description in red
    /// rather than raised.
    pub fn draw_show_commit(&mut self, commit: &str, query: &Result<String, String>)
        requires
            old(self).is_live(),
        ensures
            final(self).term().log() == old(self).term().log() + show_commit_ops(
                commit@,
                query_view(*query),
            ),
            final(self).term().screen_height() == old(self).term().screen_height(),
            final(self).term().colors_supported() == old(self).term().colors_supported(),
            final(self).term().reads() == old(self).term().reads(),
            final(self).top_spec() == old(self).top_spec(),
            final(self).is_live() == old(self).is_live(),
    {
        let ghost log0 = self.backend.log();
        let ghost h = self.backend.screen_height();
        self.backend.clear();
        self.draw_title();
        match query {
            Ok(output) => {
                self.set_color(&Color::White);
                match Commit::new(output.as_str()) {
                    Ok(commit_data) => {
                        self.set_color(&Color::Yellow);
                        let mut s1 = String::from_str("\nCommit: ");
                        s1.append(commit);
                        s1.append("\n");
                        self.backend.print(s1.as_str());
                        self.set_color(&Color::White);
                        let mut s2 = String::from_str("Author: ");
                        s2.append(commit_data.get_author_name().as_str());
                        s2.append(" <");
                        s2.append(commit_data.get_author_email().as_str());
                        s2.append(">\n");
                        self.backend.print(s2.as_str());
                        let mut s3 = String::from_str("Date: ");
                        s3.append(commit_data.get_date().as_str());
                        s3.append("\n");
                        self.backend.print(s3.as_str());
                        let mut s4 = String::from_str("\n");
                        s4.append(commit_data.get_subject().as_str());
                        s4.append("\n\n");
                        s4.append(commit_data.get_body().as_str());
                        s4.append("\n");
                        self.backend.print(s4.as_str());
                        let ghost cv = parse_commit(output@)->Some_0;
                        let stats = commit_data.get_file_stats();
                        let ghost sv = stats.deep_view();
                        let mut maxw: usize = 0;
                        let mut i: usize = 0;
                        while i < stats.len()
                            invariant
                                i <= stats.len(),
                                sv == stats.deep_view(),
                                maxw as int == max_added_len(sv, i as int),
                            decreases stats.len() - i,
                        {
                            proof {
                                assert(sv[i as int] == stats@[i as int]@);
                            }
                            let st = &stats[i];
                            let l = st.get_added().as_str().unicode_len();
                            if l > maxw {
                                maxw = l;
                            }
                            i = i + 1;
                        }
                        let ghost mid = self.backend.log();
                        i = 0;
                        while i < stats.len()
                            invariant
                                i <= stats.len(),
                                sv == stats.deep_view(),
                                maxw as int == max_added_len(sv, sv.len() as int),
                                self.backend.log() == mid + stats_ops(sv, maxw as int, i as int),
                                self.backend.screen_height() == h,
                                self.backend.colors_supported() == old(
                                    self,
                                ).term().colors_supported(),
                                self.backend.reads() == old(self).term().reads(),
                                self.top == old(self).top,
                                self.is_live() == old(self).is_live(),
                            decreases stats.len() - i,
                        {
                            proof {
                                assert(sv[i as int] == stats@[i as int]@);
                            }
                            let st = &stats[i];
                            self.set_color(&Color::Green);
                            let a = pad_aligned(st.get_added().as_str(), maxw, true);
                            self.backend.print(a.as_str());
                            self.set_color(&Color::White);
                            self.backend.print(" | ");
                            self.set_color(&Color::Red);
                            let rm = pad_aligned(st.get_removed().as_str(), maxw, false);
                            self.backend.print(rm.as_str());
                            self.set_color(&Color::White);
                            let mut nm = String::from_str("  ");
                            nm.append(st.get_name().as_str());
                            nm.append("\n");
                            self.backend.print(nm.as_str());
                            proof {
                                assert(self.backend.log() =~= mid + stats_ops(
                                    sv,
                                    maxw as int,
                                    i + 1,
                                ));
                            }
                            i = i + 1;
                        }
                        proof {
                            assert(sv == cv.file_stats);
                            assert(self.backend.log() =~= log0 + (seq![TermOp::Clear]
                                + title_ops() + (seq![TermOp::Pair(0)] + commit_detail_ops(
                                commit@,
                                cv,
                            ))));
                        }
                    },
                    Err(msg) => {
                        self.set_color(&Color::Red);
                        self.backend.print(msg.as_str());
                    },
                }
            },
            Err(msg) => {
                self.set_color(&Color::Red);
                self.backend.print(msg.as_str());
            },
        }
        self.set_color(&Color::Yellow);
        self.backend.print("\n\nHit any key to close");
        self.backend.refresh();
        proof {
            assert(self.backend.log() =~= log0 + show_commit_ops(commit@, query_view(*query)));
        }
    }

    /// Clear the screen, draw the title and the message with the `(y/n)?`
    /// suffix, block for exactly one key event, and report whether it
    /// confirms ('y' or 'Y').  Exactly one read is performed: the trace of
    /// input reads grows by the one event, and the result says of that event
    /// whether it confirms.
    pub fn confirm(&mut self, message: &str) -> (r: bool)
        requires
            old(self).is_live(),
        ensures
            final(self).term().log() == old(self).term().log() + confirm_ops(message@),
            final(self).term().reads() == old(self).term().reads().push(
                final(self).term().reads().last(),
            ),
            r == event_confirms(final(self).term().reads().last()),
            final(self).term().screen_height() == old(self).term().screen_height(),
            final(self).term().colors_supported() == old(self).term().colors_supported(),
            final(self).top_spec() == old(self).top_spec(),
            final(self).is_live() == old(self).is_live(),
    {
        self.backend.clear();
        self.draw_title();
        let mut s = String::from_str("\n");
        s.append(message);
        s.append(" (y/n)? ");
        self.backend.print(s.as_str());
        let event = self.backend.read_event();
        proof {
            assert(self.backend.log() =~= old(self).term().log() + confirm_ops(message@));
        }
        key_confirms(&event)
    }
}

} // verus!
