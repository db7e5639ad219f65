//! The food: a single cell, the consumption rule, and relocation to a free
//! cell.

use vstd::prelude::*;

use crate::board::{Board, Coord};
use crate::snake::Snake;

verus! {

/// How many random samples relocation takes before it falls back to a
/// deterministic scan of the board. The fallback keeps relocation total even
/// on a crowded board; the cap is large enough that the scan is essentially
/// never reached in play.
const RELOCATE_ATTEMPTS: u32 = 128;

/// Relies on rand::random_range: a sample from the thread-local generator,
/// uniform over `[0, bound)`; it panics only when the range is empty.
#[verifier::external_body]
fn random_below(bound: u32) -> (r: u32)
    requires
        bound >= 1,
    ensures
        r < bound,
{
    rand::random_range(0..bound)
}

/// The food: one cell of the board. It is placed on a cell the snake does not
/// occupy, and eaten when the snake's head reaches it.
pub struct Food {
    pub position: Coord,
}

impl Food {
    /// True iff the food sits on the snake's head cell.
    pub fn is_consumed_by(&self, snake: &Snake) -> (r: bool)
        requires
            snake.wf(),
        ensures
            r == (self.position == snake.head()),
    {
        self.position == snake.body[0]
    }

    /// Move the food to a free cell: sample random cells until one is found
    /// that the snake does not occupy, and past the retry cap scan the whole
    /// board for one. Only a snake that covers every cell leaves the food
    /// where it was.
    pub fn relocate(&mut self, board: &Board, snake: &Snake)
        requires
            board.wf(),
            snake.wf(),
        ensures
            !snake.covers_board(*board) ==> board.contains(final(self).position)
                && !snake.body@.contains(final(self).position),
            snake.covers_board(*board) ==> *final(self) == *old(self),
    {
        let mut attempts: u32 = 0;
        while attempts < RELOCATE_ATTEMPTS
            invariant
                board.wf(),
                snake.wf(),
                *self == *old(self),
            decreases RELOCATE_ATTEMPTS - attempts,
        {
            let x = random_below(board.columns);
            let y = random_below(board.rows);
            let c = Coord { x, y };
            if !snake.occupies(c) {
                self.position = c;
                return;
            }
            attempts += 1;
        }
        let mut y: u32 = 0;
        while y < board.rows
            invariant
                board.wf(),
                snake.wf(),
                *self == *old(self),
                y <= board.rows,
                forall|c: Coord| c.y < y && c.x < board.columns ==> snake.body@.contains(c),
            decreases board.rows - y,
        {
            let mut x: u32 = 0;
            while x < board.columns
                invariant
                    board.wf(),
                    snake.wf(),
                    *self == *old(self),
                    y < board.rows,
                    x <= board.columns,
                    forall|c: Coord| c.y < y && c.x < board.columns ==> snake.body@.contains(c),
                    forall|c: Coord| c.y == y && c.x < x ==> snake.body@.contains(c),
                decreases board.columns - x,
            {
                let c = Coord { x, y };
                if !snake.occupies(c) {
                    self.position = c;
                    return;
                }
                x += 1;
            }
            y += 1;
        }
        proof {
            assert forall|c: Coord| board.contains(c) implies snake.body@.contains(c) by {
                assert(c.y < board.rows && c.x < board.columns);
            }
            assert(snake.covers_board(*board));
        }
    }
}

} // verus!
