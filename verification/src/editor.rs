//! The input dispatcher: turns one decoded key event into a cursor movement
//! or a quit signal.
//!
//! Control+'q' is the only event that stops the loop. The six plain
//! movement keys go to the cursor controller; Page Up and Page Down expand
//! into one full screen of repeated `Up` / `Down` moves; every other event,
//! including modified variants of the above, is silently ignored. Reading
//! the raw terminal event and redrawing the screen around a keypress stay
//! with the binary around this library.

use crate::cursor::{
    lemma_apply_moves_push, lemma_repeated_down, lemma_repeated_up, repeated, CursorController,
    Direction,
};
use crate::render::Output;
use vstd::prelude::*;

verus! {

/// The keys the dispatcher can tell apart. Everything the terminal can
/// report beyond these decodes to `Other`.
#[derive(Clone, Copy, Debug, PartialEq, Eq, Structural)]
pub enum Key {
    Char(char),
    Up,
    Down,
    Left,
    Right,
    Home,
    End,
    PageUp,
    PageDown,
    Other,
}

/// The modifier state of a key event: no modifiers, exactly Control, or
/// any other combination.
#[derive(Clone, Copy, Debug, PartialEq, Eq, Structural)]
pub enum Modifiers {
    Plain,
    Control,
    Other,
}

/// One decoded key event.
#[derive(Clone, Copy, Debug, PartialEq, Eq, Structural)]
pub struct KeyEvent {
    pub code: Key,
    pub modifiers: Modifiers,
}

/// Whether an event is the quit chord, Control+'q'.
pub open spec fn is_quit(event: KeyEvent) -> bool {
    event.code == Key::Char('q') && event.modifiers == Modifiers::Control
}

/// The cursor state a key event dispatches to: one clamped move for a
/// plain movement key, a full page of repeated moves for Page Up / Page
/// Down, and no change for anything else.
pub open spec fn cursor_after(c: CursorController, event: KeyEvent) -> CursorController {
    if event.modifiers == Modifiers::Plain {
        match event.code {
            Key::Up => c.move_spec(Direction::Up),
            Key::Down => c.move_spec(Direction::Down),
            Key::Left => c.move_spec(Direction::Left),
            Key::Right => c.move_spec(Direction::Right),
            Key::Home => c.move_spec(Direction::Home),
            Key::End => c.move_spec(Direction::End),
            Key::PageUp => c.apply_moves(repeated(Direction::Up, c.screen_rows as nat)),
            Key::PageDown => c.apply_moves(repeated(Direction::Down, c.screen_rows as nat)),
            _ => c,
        }
    } else {
        c
    }
}

/// The editor: the renderer with its cursor state, driven one key event at
/// a time.
pub struct Editor {
    pub output: Output,
}

impl Editor {
    /// Well-formedness of the whole editor state.
    pub open spec fn wf(self) -> bool {
        self.output.wf()
    }

    /// A fresh editor for the given `(columns, rows)` viewport.
    pub fn new(win_size: (usize, usize)) -> (r: Editor)
        requires
            1 <= win_size.0 <= 0xFFFF,
            1 <= win_size.1 <= 0xFFFF,
        ensures
            r.wf(),
            r.output.win_size == win_size,
            r.output.editor_contents@ == Seq::<char>::empty(),
            r.output.cursor_controller.cursor_x == 0,
            r.output.cursor_controller.cursor_y == 0,
    {
        Editor { output: Output::new(win_size) }
    }

    /// Dispatches one key event and reports whether the loop goes on:
    /// `false` exactly on Control+'q', `true` for every other event. A
    /// plain movement key moves the cursor as `cursor_after` says; in
    /// particular a plain Page Up lands on row 0 and a plain Page Down on
    /// the last row, leaving the column alone. Nothing else changes.
    pub fn process_keypress(&mut self, event: KeyEvent) -> (cont: bool)
        requires
            old(self).wf(),
        ensures
            final(self).wf(),
            cont == !is_quit(event),
            final(self).output.cursor_controller == cursor_after(
                old(self).output.cursor_controller,
                event,
            ),
            final(self).output.win_size == old(self).output.win_size,
            final(self).output.editor_contents@ == old(self).output.editor_contents@,
            event.code == Key::PageUp && event.modifiers == Modifiers::Plain ==> {
                &&& final(self).output.cursor_controller.cursor_y == 0
                &&& final(self).output.cursor_controller.cursor_x
                    == old(self).output.cursor_controller.cursor_x
            },
            event.code == Key::PageDown && event.modifiers == Modifiers::Plain ==> {
                &&& final(self).output.cursor_controller.cursor_y == old(self).output.win_size.1
                    - 1
                &&& final(self).output.cursor_controller.cursor_x
                    == old(self).output.cursor_controller.cursor_x
            },
    {
        match (event.code, event.modifiers) {
            (Key::Char(c), Modifiers::Control) => {
                if c == 'q' {
                    return false;
                }
            },
            (Key::Up, Modifiers::Plain) => self.output.move_cursor(Direction::Up),
            (Key::Down, Modifiers::Plain) => self.output.move_cursor(Direction::Down),
            (Key::Left, Modifiers::Plain) => self.output.move_cursor(Direction::Left),
            (Key::Right, Modifiers::Plain) => self.output.move_cursor(Direction::Right),
            (Key::Home, Modifiers::Plain) => self.output.move_cursor(Direction::Home),
            (Key::End, Modifiers::Plain) => self.output.move_cursor(Direction::End),
            (Key::PageUp, Modifiers::Plain) => self.page(Direction::Up),
            (Key::PageDown, Modifiers::Plain) => self.page(Direction::Down),
            _ => {},
        }
        true
    }

    /// One full screen of repeated `Up` or `Down` moves: how Page Up and
    /// Page Down are dispatched.
    fn page(&mut self, direction: Direction)
        requires
            old(self).wf(),
            direction == Direction::Up || direction == Direction::Down,
        ensures
            final(self).wf(),
            final(self).output.cursor_controller == old(self).output.cursor_controller.apply_moves(
                repeated(direction, old(self).output.win_size.1 as nat),
            ),
            final(self).output.win_size == old(self).output.win_size,
            final(self).output.editor_contents@ == old(self).output.editor_contents@,
            direction == Direction::Up ==> final(self).output.cursor_controller.cursor_y == 0,
            direction == Direction::Down ==> final(self).output.cursor_controller.cursor_y
                == old(self).output.win_size.1 - 1,
            final(self).output.cursor_controller.cursor_x
                == old(self).output.cursor_controller.cursor_x,
    {
        let rows = self.output.win_size.1;
        let ghost start = self.output.cursor_controller;
        let mut j: usize = 0;
        while j < rows
            invariant
                j <= rows,
                self.wf(),
                rows == self.output.win_size.1,
                self.output.win_size == old(self).output.win_size,
                self.output.editor_contents@ == old(self).output.editor_contents@,
                start == old(self).output.cursor_controller,
                self.output.cursor_controller == start.apply_moves(repeated(direction, j as nat)),
            decreases rows - j,
        {
            proof {
                lemma_apply_moves_push(start, repeated(direction, j as nat), direction);
                assert(repeated(direction, j as nat).push(direction) =~= repeated(
                    direction,
                    (j + 1) as nat,
                ));
            }
            self.output.move_cursor(direction);
            j += 1;
        }
        proof {
            if direction == Direction::Up {
                lemma_repeated_up(start, rows as nat);
            } else {
                lemma_repeated_down(start, rows as nat);
            }
        }
    }
}

} // verus!
