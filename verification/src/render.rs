//! The renderer: one full-screen redraw per call.
//!
//! Each of the viewport's `rows` lines is a tilde-marked empty line, except
//! line `rows / 3`, which carries the centered welcome banner, truncated to
//! the viewport width. Every line ends with a clear-to-end-of-line command,
//! and every line but the last is followed by a line break. A full refresh
//! hides the cursor, clears the screen, draws from the top-left corner,
//! then moves the terminal cursor back to the tracked position and shows it
//! again, all accumulated in the output buffer for one atomic write.

use crate::contents::EditorContents;
use crate::cursor::{CursorController, Direction};
use crate::term::{
    clear_all_chars, clear_until_newline_chars, hide_cursor_chars, move_to_chars,
    queue_clear_all, queue_clear_until_newline, queue_hide_cursor, queue_move_to,
    queue_show_cursor, show_cursor_chars,
};
use vstd::prelude::*;
use vstd::string::StrSliceExecFns;

verus! {

/// The welcome banner's characters: the editor's name and version.
pub open spec fn banner_chars() -> Seq<char> {
    "Pound Editor --- Version 0.0.1"@
}

/// The banner cut down to at most `cols` characters.
pub open spec fn truncated_banner(cols: int) -> Seq<char> {
    if banner_chars().len() > cols {
        banner_chars().take(cols)
    } else {
        banner_chars()
    }
}

/// The full banner line: left padding of `(cols - banner length) / 2`
/// characters centers the banner, and when there is any padding its first
/// character is the usual '~' line marker.
pub open spec fn banner_row_chars(cols: int) -> Seq<char> {
    let shown = truncated_banner(cols);
    let padding = (cols - shown.len()) / 2;
    if padding > 0 {
        seq!['~'] + Seq::new((padding - 1) as nat, |k: int| ' ') + shown
    } else {
        shown
    }
}

/// The visible characters of screen line `i`: the banner on line
/// `rows / 3`, a lone tilde everywhere else.
pub open spec fn row_chars(cols: int, rows: int, i: int) -> Seq<char> {
    if i == rows / 3 {
        banner_row_chars(cols)
    } else {
        seq!['~']
    }
}

/// One whole line segment of the frame: the visible characters, the
/// clear-to-end-of-line command, and a line break on every line but the
/// last.
pub open spec fn line_chunk(cols: int, rows: int, i: int) -> Seq<char> {
    row_chars(cols, rows, i) + clear_until_newline_chars() + if i < rows - 1 {
        seq!['\r', '\n']
    } else {
        Seq::<char>::empty()
    }
}

/// The first `n` line segments of the frame, in order.
pub open spec fn frame_prefix(cols: int, rows: int, n: int) -> Seq<char>
    decreases n,
{
    if n <= 0 {
        Seq::<char>::empty()
    } else {
        frame_prefix(cols, rows, n - 1) + line_chunk(cols, rows, n - 1)
    }
}

/// All characters of one full-screen draw.
pub open spec fn frame_chars(cols: int, rows: int) -> Seq<char> {
    frame_prefix(cols, rows, rows)
}

/// The frame as a sequence of its line segments.
pub open spec fn frame_lines(cols: int, rows: int) -> Seq<Seq<char>> {
    Seq::new(rows as nat, |i: int| line_chunk(cols, rows, i))
}

/// Everything a refresh appends to the output buffer: hide the cursor,
/// clear the screen, draw the frame from the top-left corner, move the
/// cursor to its tracked zero-based position `(x, y)`, show it again.
pub open spec fn refresh_chars(cols: int, rows: int, x: u16, y: u16) -> Seq<char> {
    hide_cursor_chars() + clear_all_chars() + move_to_chars(0, 0) + frame_chars(cols, rows)
        + move_to_chars(x, y) + show_cursor_chars()
}

/// Owns the viewport size, the pending output of the current frame, and the
/// cursor controller.
pub struct Output {
    pub win_size: (usize, usize),
    pub editor_contents: EditorContents,
    pub cursor_controller: CursorController,
}

/// Appends the banner line for a `cols`-wide viewport: the banner truncated
/// to the width, centered behind a '~' marker when there is room to pad.
fn draw_welcome(out: &mut EditorContents, cols: usize)
    requires
        1 <= cols,
    ensures
        final(out)@ == old(out)@ + banner_row_chars(cols as int),
{
    let welcome: &str = "Pound Editor --- Version 0.0.1";
    let wlen = welcome.unicode_len();
    let shown: &str = if wlen > cols {
        welcome.substring_char(0, cols)
    } else {
        welcome
    };
    proof {
        assert(shown@ =~= truncated_banner(cols as int));
    }
    let slen = shown.unicode_len();
    let mut padding: usize = (cols - slen) / 2;
    let ghost base = out@;
    if padding != 0 {
        let ghost spec_padding = (cols - truncated_banner(cols as int).len()) / 2;
        out.push('~');
        padding -= 1;
        let mut j: usize = 0;
        while j < padding
            invariant
                j <= padding,
                padding == spec_padding - 1,
                out@ == base + seq!['~'] + Seq::new(j as nat, |k: int| ' '),
            decreases padding - j,
        {
            out.push(' ');
            proof {
                assert(Seq::new((j + 1) as nat, |k: int| ' ') =~= Seq::new(
                    j as nat,
                    |k: int| ' ',
                ).push(' '));
                assert(out@ =~= base + seq!['~'] + Seq::new((j + 1) as nat, |k: int| ' '));
            }
            j += 1;
        }
        out.push_str(shown);
        proof {
            assert(out@ =~= base + banner_row_chars(cols as int));
        }
    } else {
        out.push_str(shown);
        proof {
            assert(out@ =~= base + banner_row_chars(cols as int));
        }
    }
}

impl Output {
    /// Well-formedness: the cursor controller is clamped to this viewport.
    pub open spec fn wf(self) -> bool {
        &&& self.cursor_controller.wf()
        &&& self.cursor_controller.screen_columns == self.win_size.0
        &&& self.cursor_controller.screen_rows == self.win_size.1
    }

    /// A fresh renderer for the given `(columns, rows)` viewport: empty
    /// output buffer, cursor at the top-left corner. The viewport must be
    /// at least 1x1 and fit the terminal's 16-bit coordinate space.
    pub fn new(win_size: (usize, usize)) -> (r: Output)
        requires
            1 <= win_size.0 <= 0xFFFF,
            1 <= win_size.1 <= 0xFFFF,
        ensures
            r.wf(),
            r.win_size == win_size,
            r.editor_contents@ == Seq::<char>::empty(),
            r.cursor_controller.cursor_x == 0,
            r.cursor_controller.cursor_y == 0,
    {
        Output {
            win_size,
            editor_contents: EditorContents::new(),
            cursor_controller: CursorController::new(win_size),
        }
    }

    /// Appends one full frame to the output buffer: `rows` line segments,
    /// each a row's characters followed by a clear-to-end-of-line command,
    /// separated by line breaks.
    pub fn draw_rows(&mut self)
        requires
            old(self).wf(),
        ensures
            final(self).editor_contents@ == old(self).editor_contents@ + frame_chars(
                old(self).win_size.0 as int,
                old(self).win_size.1 as int,
            ),
            final(self).win_size == old(self).win_size,
            final(self).cursor_controller == old(self).cursor_controller,
    {
        let cols = self.win_size.0;
        let rows = self.win_size.1;
        let ghost base = self.editor_contents@;
        let mut i: usize = 0;
        while i < rows
            invariant
                i <= rows,
                1 <= cols,
                1 <= rows,
                self.win_size == old(self).win_size,
                cols == self.win_size.0,
                rows == self.win_size.1,
                self.cursor_controller == old(self).cursor_controller,
                self.editor_contents@ == base + frame_prefix(cols as int, rows as int, i as int),
            decreases rows - i,
        {
            if i == rows / 3 {
                draw_welcome(&mut self.editor_contents, cols);
            } else {
                self.editor_contents.push('~');
            }
            queue_clear_until_newline(&mut self.editor_contents);
            if i < rows - 1 {
                self.editor_contents.push_str("\r\n");
                proof {
                    reveal_strlit("\r\n");
                    assert("\r\n"@ =~= seq!['\r', '\n']);
                }
            }
            proof {
                assert(self.editor_contents@ =~= base + frame_prefix(
                    cols as int,
                    rows as int,
                    i + 1,
                ));
            }
            i += 1;
        }
    }

    /// Appends one full refresh to the output buffer: hide the cursor,
    /// clear the screen, draw the frame from the top-left corner, move the
    /// terminal cursor to the tracked position, show it again. The caller
    /// flushes the buffer to the terminal in one write.
    pub fn refresh_screen(&mut self)
        requires
            old(self).wf(),
        ensures
            final(self).editor_contents@ == old(self).editor_contents@ + refresh_chars(
                old(self).win_size.0 as int,
                old(self).win_size.1 as int,
                old(self).cursor_controller.cursor_x as u16,
                old(self).cursor_controller.cursor_y as u16,
            ),
            final(self).win_size == old(self).win_size,
            final(self).cursor_controller == old(self).cursor_controller,
            final(self).wf(),
    {
        queue_hide_cursor(&mut self.editor_contents);
        queue_clear_all(&mut self.editor_contents);
        queue_move_to(&mut self.editor_contents, 0, 0);
        self.draw_rows();
        let cursor_x = self.cursor_controller.cursor_x;
        let cursor_y = self.cursor_controller.cursor_y;
        queue_move_to(&mut self.editor_contents, cursor_x as u16, cursor_y as u16);
        queue_show_cursor(&mut self.editor_contents);
        proof {
            assert(final(self).editor_contents@ =~= old(self).editor_contents@ + refresh_chars(
                old(self).win_size.0 as int,
                old(self).win_size.1 as int,
                old(self).cursor_controller.cursor_x as u16,
                old(self).cursor_controller.cursor_y as u16,
            ));
        }
    }

    /// Forwards one movement request to the cursor controller; the output
    /// buffer and viewport are untouched.
    pub fn move_cursor(&mut self, direction: Direction)
        requires
            old(self).wf(),
        ensures
            final(self).cursor_controller == old(self).cursor_controller.move_spec(direction),
            final(self).win_size == old(self).win_size,
            final(self).editor_contents@ == old(self).editor_contents@,
            final(self).wf(),
    {
        self.cursor_controller.move_cursor(direction);
    }
}

/// The frame always splits into exactly `rows` line segments, the one at
/// index `rows / 3` (always a real line index) is the only one drawn as the
/// banner line, and the banner line never exceeds `cols` characters.
pub proof fn lemma_frame_lines(cols: int, rows: int)
    requires
        1 <= cols,
        1 <= rows,
    ensures
        frame_lines(cols, rows).len() == rows,
        frame_chars(cols, rows) == frame_lines(cols, rows).flatten(),
        0 <= rows / 3 < rows,
        forall|i: int|
            0 <= i < rows ==> ((#[trigger] row_chars(cols, rows, i)) == banner_row_chars(cols)
                <==> i == rows / 3),
        banner_row_chars(cols).len() <= cols,
{
    lemma_frame_prefix_flatten(cols, rows, rows);
    frame_lines(cols, rows).lemma_flatten_and_flatten_alt_are_equivalent();
    assert(frame_lines(cols, rows).take(rows) =~= frame_lines(cols, rows));
    lemma_banner_row_len(cols);
    assert forall|i: int|
        0 <= i < rows && i != rows / 3 implies (#[trigger] row_chars(cols, rows, i))
        != banner_row_chars(cols) by {
        reveal_strlit("Pound Editor --- Version 0.0.1");
        assert(row_chars(cols, rows, i) =~= seq!['~']);
        assert(banner_chars().len() == 30);
        if banner_row_chars(cols).len() == 1 {
            assert(truncated_banner(cols)[0] == 'P');
            assert(banner_row_chars(cols)[0] == 'P');
        }
    }
}

/// The banner line fits the viewport: centering pads only while the padded
/// line still stays within `cols` characters.
proof fn lemma_banner_row_len(cols: int)
    requires
        1 <= cols,
    ensures
        truncated_banner(cols).len() <= cols,
        banner_row_chars(cols).len() <= cols,
{
    let shown = truncated_banner(cols);
    let padding = (cols - shown.len()) / 2;
    if padding > 0 {
        assert(banner_row_chars(cols).len() == padding + shown.len());
        assert(padding <= cols - shown.len()) by {
            assert((cols - shown.len()) / 2 <= cols - shown.len());
        }
    }
}

/// The recursive frame prefix is the flattening of the first `n` line
/// segments.
proof fn lemma_frame_prefix_flatten(cols: int, rows: int, n: int)
    requires
        0 <= n <= rows,
    ensures
        frame_prefix(cols, rows, n) == frame_lines(cols, rows).take(n).flatten_alt(),
    decreases n,
{
    if n == 0 {
        assert(frame_lines(cols, rows).take(0) =~= Seq::<Seq<char>>::empty());
    } else {
        lemma_frame_prefix_flatten(cols, rows, n - 1);
        let lines = frame_lines(cols, rows);
        assert(lines.take(n).drop_last() =~= lines.take(n - 1));
        assert(lines.take(n).last() == line_chunk(cols, rows, n - 1));
        assert(lines.take(n).flatten_alt() == lines.take(n - 1).flatten_alt() + line_chunk(
            cols,
            rows,
            n - 1,
        ));
    }
}

} // verus!
