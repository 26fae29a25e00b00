//! ANSI terminal commands, queued into the output buffer.
//!
//! The character text of each command comes from crossterm's `Command`
//! implementations; each helper here appends one command's ANSI form to an
//! [`EditorContents`] and states that form exactly, so the renderer's
//! contracts can pin down the whole frame character by character.

use crate::contents::EditorContents;
use crossterm::Command;
use crossterm::cursor;
use crossterm::terminal;
use vstd::prelude::*;

verus! {

/// The two-character "control sequence introducer" prefix every command
/// below starts with: ESC '['.
pub open spec fn csi_chars() -> Seq<char> {
    seq!['\u{1b}', '[']
}

/// ANSI form of the hide-cursor command: ESC [ ? 2 5 l.
pub open spec fn hide_cursor_chars() -> Seq<char> {
    csi_chars() + seq!['?', '2', '5', 'l']
}

/// ANSI form of the show-cursor command: ESC [ ? 2 5 h.
pub open spec fn show_cursor_chars() -> Seq<char> {
    csi_chars() + seq!['?', '2', '5', 'h']
}

/// ANSI form of the clear-whole-screen command: ESC [ 2 J.
pub open spec fn clear_all_chars() -> Seq<char> {
    csi_chars() + seq!['2', 'J']
}

/// ANSI form of the clear-to-end-of-line command: ESC [ K.
pub open spec fn clear_until_newline_chars() -> Seq<char> {
    csi_chars() + seq!['K']
}

/// The character for one decimal digit.
pub open spec fn digit_char(d: nat) -> char {
    if d == 0 {
        '0'
    } else if d == 1 {
        '1'
    } else if d == 2 {
        '2'
    } else if d == 3 {
        '3'
    } else if d == 4 {
        '4'
    } else if d == 5 {
        '5'
    } else if d == 6 {
        '6'
    } else if d == 7 {
        '7'
    } else if d == 8 {
        '8'
    } else {
        '9'
    }
}

/// The usual decimal rendering of a number: most significant digit first,
/// no leading zeros (a single '0' for zero).
pub open spec fn dec_chars(n: nat) -> Seq<char>
    decreases n,
{
    if n < 10 {
        seq![digit_char(n)]
    } else {
        dec_chars(n / 10).push(digit_char(n % 10))
    }
}

/// ANSI form of the move-cursor command for the zero-based position
/// `(x, y)`: ESC [ row ; column H, with the row `y + 1` and the column
/// `x + 1` in one-based decimal.
pub open spec fn move_to_chars(x: u16, y: u16) -> Seq<char> {
    csi_chars() + dec_chars((y + 1) as nat) + seq![';'] + dec_chars((x + 1) as nat) + seq!['H']
}

/// Relies on crossterm's `cursor::Hide` command, whose ANSI form is the
/// literal "ESC [ ? 2 5 l"; writing it into a `String` cannot fail.
#[verifier::external_body]
pub fn queue_hide_cursor(out: &mut EditorContents)
    ensures
        final(out)@ == old(out)@ + hide_cursor_chars(),
{
    let _ = cursor::Hide.write_ansi(&mut out.contents);
}

/// Relies on crossterm's `cursor::Show` command, whose ANSI form is the
/// literal "ESC [ ? 2 5 h"; writing it into a `String` cannot fail.
#[verifier::external_body]
pub fn queue_show_cursor(out: &mut EditorContents)
    ensures
        final(out)@ == old(out)@ + show_cursor_chars(),
{
    let _ = cursor::Show.write_ansi(&mut out.contents);
}

/// Relies on crossterm's `terminal::Clear(ClearType::All)` command, whose
/// ANSI form is the literal "ESC [ 2 J"; writing it into a `String` cannot
/// fail.
#[verifier::external_body]
pub fn queue_clear_all(out: &mut EditorContents)
    ensures
        final(out)@ == old(out)@ + clear_all_chars(),
{
    let _ = terminal::Clear(terminal::ClearType::All).write_ansi(&mut out.contents);
}

/// Relies on crossterm's `terminal::Clear(ClearType::UntilNewLine)`
/// command, whose ANSI form is the literal "ESC [ K"; writing it into a
/// `String` cannot fail.
#[verifier::external_body]
pub fn queue_clear_until_newline(out: &mut EditorContents)
    ensures
        final(out)@ == old(out)@ + clear_until_newline_chars(),
{
    let _ = terminal::Clear(terminal::ClearType::UntilNewLine).write_ansi(&mut out.contents);
}

/// Relies on crossterm's `cursor::MoveTo(x, y)` command: its ANSI form is
/// "ESC [ {y+1} ; {x+1} H" with both one-based coordinates written as plain
/// decimal numbers; writing it into a `String` cannot fail. The bounds keep
/// the one-based coordinates inside `u16`.
#[verifier::external_body]
pub fn queue_move_to(out: &mut EditorContents, x: u16, y: u16)
    requires
        x < 0xFFFF,
        y < 0xFFFF,
    ensures
        final(out)@ == old(out)@ + move_to_chars(x, y),
{
    let _ = cursor::MoveTo(x, y).write_ansi(&mut out.contents);
}

} // verus!
