//! The cursor controller: the authoritative cursor coordinate and the
//! viewport size, with every movement request clamped to the viewport.
//!
//! The controller has a single well-formed state space
//! `(x, y) ∈ [0, columns) × [0, rows)` and no error transitions: a move that
//! would leave the viewport is clamped, never rejected.

use vstd::prelude::*;

verus! {

/// A cursor movement request. Page movement is not a direction of its own:
/// the dispatcher expands Page Up / Page Down into `rows` repeated `Up` /
/// `Down` requests.
#[derive(Clone, Copy, Debug, PartialEq, Eq, Structural)]
pub enum Direction {
    Up,
    Down,
    Left,
    Right,
    Home,
    End,
}

/// Owns the cursor position and the viewport dimensions it is clamped to.
pub struct CursorController {
    pub cursor_x: usize,
    pub cursor_y: usize,
    pub screen_columns: usize,
    pub screen_rows: usize,
}

impl CursorController {
    /// Well-formedness: the viewport is at least 1x1, fits the terminal's
    /// 16-bit coordinate space, and the cursor lies inside it.
    pub open spec fn wf(self) -> bool {
        &&& 1 <= self.screen_columns <= 0xFFFF
        &&& 1 <= self.screen_rows <= 0xFFFF
        &&& self.cursor_x < self.screen_columns
        &&& self.cursor_y < self.screen_rows
    }

    /// The clamped result of one movement request: `Up`/`Left` stop at 0,
    /// `Down`/`Right` stop at the far edge, `Home`/`End` jump to the row's
    /// first and last column.
    pub open spec fn move_spec(self, direction: Direction) -> CursorController {
        match direction {
            Direction::Up => CursorController {
                cursor_y: if self.cursor_y > 0 {
                    (self.cursor_y - 1) as usize
                } else {
                    0
                },
                ..self
            },
            Direction::Down => CursorController {
                cursor_y: if self.cursor_y != self.screen_rows - 1 {
                    (self.cursor_y + 1) as usize
                } else {
                    self.cursor_y
                },
                ..self
            },
            Direction::Left => CursorController {
                cursor_x: if self.cursor_x > 0 {
                    (self.cursor_x - 1) as usize
                } else {
                    0
                },
                ..self
            },
            Direction::Right => CursorController {
                cursor_x: if self.cursor_x != self.screen_columns - 1 {
                    (self.cursor_x + 1) as usize
                } else {
                    self.cursor_x
                },
                ..self
            },
            Direction::Home => CursorController { cursor_x: 0, ..self },
            Direction::End => CursorController {
                cursor_x: (self.screen_columns - 1) as usize,
                ..self
            },
        }
    }

    /// The state after a whole sequence of movement requests, applied in
    /// order.
    pub open spec fn apply_moves(self, moves: Seq<Direction>) -> CursorController
        decreases moves.len(),
    {
        if moves.len() == 0 {
            self
        } else {
            self.move_spec(moves[0]).apply_moves(moves.drop_first())
        }
    }

    /// A fresh controller for the given `(columns, rows)` viewport, with the
    /// cursor at the top-left corner.
    pub fn new(win_size: (usize, usize)) -> (r: CursorController)
        ensures
            r.cursor_x == 0,
            r.cursor_y == 0,
            r.screen_columns == win_size.0,
            r.screen_rows == win_size.1,
    {
        CursorController {
            cursor_x: 0,
            cursor_y: 0,
            screen_columns: win_size.0,
            screen_rows: win_size.1,
        }
    }

    /// Applies one movement request, clamped to the viewport.
    pub fn move_cursor(&mut self, direction: Direction)
        requires
            old(self).wf(),
        ensures
            *final(self) == old(self).move_spec(direction),
            final(self).wf(),
    {
        match direction {
            Direction::Up => {
                self.cursor_y = self.cursor_y.saturating_sub(1);
            },
            Direction::Left => {
                if self.cursor_x != 0 {
                    self.cursor_x = self.cursor_x - 1;
                }
            },
            Direction::Down => {
                if self.cursor_y != self.screen_rows - 1 {
                    self.cursor_y = self.cursor_y + 1;
                }
            },
            Direction::Right => {
                if self.cursor_x != self.screen_columns - 1 {
                    self.cursor_x = self.cursor_x + 1;
                }
            },
            Direction::End => {
                self.cursor_x = self.screen_columns - 1;
            },
            Direction::Home => {
                self.cursor_x = 0;
            },
        }
    }
}

/// `n` copies of the same movement request; how the dispatcher expands a
/// page movement.
pub open spec fn repeated(direction: Direction, n: nat) -> Seq<Direction> {
    Seq::new(n, |i: int| direction)
}

/// One clamped move keeps the cursor inside the viewport.
pub proof fn lemma_move_spec_wf(c: CursorController, direction: Direction)
    requires
        c.wf(),
    ensures
        c.move_spec(direction).wf(),
{
}

/// Every sequence of movement requests, applied to a well-formed controller,
/// leaves the cursor inside `[0, columns) x [0, rows)` after every step; in
/// particular the final state is well-formed again.
pub proof fn lemma_moves_stay_in_bounds(c: CursorController, moves: Seq<Direction>)
    requires
        c.wf(),
    ensures
        c.apply_moves(moves).wf(),
    decreases moves.len(),
{
    if moves.len() > 0 {
        lemma_move_spec_wf(c, moves[0]);
        lemma_moves_stay_in_bounds(c.move_spec(moves[0]), moves.drop_first());
    }
}

/// `Home` always lands on column 0 and `End` on column `columns - 1`,
/// whatever the cursor held before; no other coordinate changes.
pub proof fn lemma_home_end(c: CursorController)
    requires
        c.wf(),
    ensures
        c.move_spec(Direction::Home).cursor_x == 0,
        c.move_spec(Direction::End).cursor_x == c.screen_columns - 1,
        c.move_spec(Direction::Home).cursor_y == c.cursor_y,
        c.move_spec(Direction::End).cursor_y == c.cursor_y,
{
}

/// Appending one more request to a sequence of moves is the same as applying
/// the sequence and then the request.
pub proof fn lemma_apply_moves_push(c: CursorController, moves: Seq<Direction>, direction: Direction)
    ensures
        c.apply_moves(moves.push(direction)) == c.apply_moves(moves).move_spec(direction),
    decreases moves.len(),
{
    if moves.len() == 0 {
        assert(moves.push(direction)[0] == direction);
        assert(moves.push(direction).drop_first() =~= Seq::<Direction>::empty());
        assert(c.apply_moves(moves.push(direction)) == c.move_spec(direction).apply_moves(
            Seq::<Direction>::empty(),
        ));
    } else {
        assert(moves.push(direction)[0] == moves[0]);
        assert(moves.push(direction).drop_first() =~= moves.drop_first().push(direction));
        lemma_apply_moves_push(c.move_spec(moves[0]), moves.drop_first(), direction);
        assert(c.apply_moves(moves.push(direction)) == c.move_spec(moves[0]).apply_moves(
            moves.drop_first().push(direction),
        ));
    }
}

/// `n` repeated `Down` requests land on row `min(y + n, rows - 1)`, and do
/// not touch the column.
pub proof fn lemma_repeated_down(c: CursorController, n: nat)
    requires
        c.wf(),
    ensures
        c.apply_moves(repeated(Direction::Down, n)).cursor_y == if c.cursor_y + n
            <= c.screen_rows - 1 {
            c.cursor_y + n
        } else {
            c.screen_rows - 1
        },
        c.apply_moves(repeated(Direction::Down, n)).cursor_x == c.cursor_x,
        c.apply_moves(repeated(Direction::Down, n)).screen_columns == c.screen_columns,
        c.apply_moves(repeated(Direction::Down, n)).screen_rows == c.screen_rows,
    decreases n,
{
    if n > 0 {
        assert(repeated(Direction::Down, n).drop_first() =~= repeated(
            Direction::Down,
            (n - 1) as nat,
        ));
        lemma_move_spec_wf(c, Direction::Down);
        lemma_repeated_down(c.move_spec(Direction::Down), (n - 1) as nat);
    }
}

/// `n` repeated `Up` requests land on row `max(y - n, 0)`, and do not touch
/// the column.
pub proof fn lemma_repeated_up(c: CursorController, n: nat)
    requires
        c.wf(),
    ensures
        c.apply_moves(repeated(Direction::Up, n)).cursor_y == if c.cursor_y - n >= 0 {
            c.cursor_y - n
        } else {
            0
        },
        c.apply_moves(repeated(Direction::Up, n)).cursor_x == c.cursor_x,
        c.apply_moves(repeated(Direction::Up, n)).screen_columns == c.screen_columns,
        c.apply_moves(repeated(Direction::Up, n)).screen_rows == c.screen_rows,
    decreases n,
{
    if n > 0 {
        assert(repeated(Direction::Up, n).drop_first() =~= repeated(Direction::Up, (n - 1) as nat));
        lemma_move_spec_wf(c, Direction::Up);
        lemma_repeated_up(c.move_spec(Direction::Up), (n - 1) as nat);
    }
}

/// A full page of `Down` requests (`rows` of them) always lands on the last
/// row, from row 0 as from any other row, and repeating the page keeps the
/// cursor there: Page Down is idempotent.
pub proof fn lemma_page_down(c: CursorController)
    requires
        c.wf(),
    ensures
        c.apply_moves(repeated(Direction::Down, c.screen_rows as nat)).cursor_y == c.screen_rows
            - 1,
        c.apply_moves(repeated(Direction::Down, c.screen_rows as nat)).apply_moves(
            repeated(Direction::Down, c.screen_rows as nat),
        ).cursor_y == c.screen_rows - 1,
{
    lemma_repeated_down(c, c.screen_rows as nat);
    lemma_moves_stay_in_bounds(c, repeated(Direction::Down, c.screen_rows as nat));
    lemma_repeated_down(
        c.apply_moves(repeated(Direction::Down, c.screen_rows as nat)),
        c.screen_rows as nat,
    );
}

} // verus!
