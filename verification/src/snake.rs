//! The snake: its heading, its body, and the movement, growth and collision
//! rules.

use vstd::prelude::*;

use crate::board::{Board, Coord};

verus! {

/// The four headings the snake can travel in.
#[derive(Clone, Copy, PartialEq, Eq, Structural, Debug)]
pub enum Direction {
    Up,
    Down,
    Left,
    Right,
}

impl Direction {
    /// The exact reverse of a heading.
    pub open spec fn opposite(self) -> Direction {
        match self {
            Direction::Up => Direction::Down,
            Direction::Down => Direction::Up,
            Direction::Left => Direction::Right,
            Direction::Right => Direction::Left,
        }
    }
}

/// Why a move ended the game.
#[derive(Clone, Copy, PartialEq, Eq, Structural, Debug)]
pub enum DeathCause {
    WallCollision,
    SelfCollision,
}

/// The outcome of one movement step.
#[derive(Clone, Copy, PartialEq, Eq, Structural, Debug)]
pub enum MoveResult {
    Alive,
    Dead(DeathCause),
}

/// The snake: an ordered sequence of occupied cells, head first, and the
/// current heading.
pub struct Snake {
    pub body: Vec<Coord>,
    pub direction: Direction,
}

impl Snake {
    /// A snake always has at least one cell and never overlaps itself.
    pub open spec fn wf(self) -> bool {
        self.body@.len() >= 1 && self.body@.no_duplicates()
    }

    /// Every body cell lies on the board.
    pub open spec fn on_board(self, board: Board) -> bool {
        forall|i: int| 0 <= i < self.body@.len() ==> board.contains(#[trigger] self.body@[i])
    }

    /// The snake leaves no free cell on the board.
    pub open spec fn covers_board(self, board: Board) -> bool {
        forall|c: Coord| board.contains(c) ==> self.body@.contains(c)
    }

    /// The head: the first body cell.
    pub open spec fn head(self) -> Coord {
        self.body@[0]
    }

    /// The next move would leave the board in the direction of travel.
    pub open spec fn hits_wall(self, board: Board) -> bool {
        match self.direction {
            Direction::Up => self.head().y == 0,
            Direction::Left => self.head().x == 0,
            Direction::Down => self.head().y == board.rows - 1,
            Direction::Right => self.head().x == board.columns - 1,
        }
    }

    /// The candidate head: the current head moved one cell along the heading.
    /// Meaningful only for a move that stays on the board.
    pub open spec fn next_head(self) -> Coord {
        match self.direction {
            Direction::Up => Coord { x: self.head().x, y: (self.head().y - 1) as u32 },
            Direction::Down => Coord { x: self.head().x, y: (self.head().y + 1) as u32 },
            Direction::Left => Coord { x: (self.head().x - 1) as u32, y: self.head().y },
            Direction::Right => Coord { x: (self.head().x + 1) as u32, y: self.head().y },
        }
    }

    /// The cells that stay occupied through this move: the whole body when the
    /// snake is growing, the body less the vacating tail cell otherwise.
    pub open spec fn remaining_body(self, growing: bool) -> Seq<Coord> {
        if growing {
            self.body@
        } else {
            self.body@.drop_last()
        }
    }

    /// The move would land on a cell that stays occupied this tick. Moving
    /// into the cell the tail vacates this very tick is legal.
    pub open spec fn self_collides(self, growing: bool) -> bool {
        self.remaining_body(growing).contains(self.next_head())
    }

    /// True iff `c` is one of the body's cells.
    pub fn occupies(&self, c: Coord) -> (r: bool)
        ensures
            r == self.body@.contains(c),
    {
        let mut i: usize = 0;
        while i < self.body.len()
            invariant
                i <= self.body@.len(),
                forall|j: int| 0 <= j < i ==> self.body@[j] != c,
            decreases self.body@.len() - i,
        {
            if self.body[i] == c {
                return true;
            }
            i += 1;
        }
        false
    }

    /// Turn toward `new_direction`. A request for the exact reverse of the
    /// current heading is silently ignored: it would drive the head straight
    /// into its own neck.
    pub fn set_direction(&mut self, new_direction: Direction)
        ensures
            final(self).body == old(self).body,
            final(self).direction == (if new_direction == old(self).direction.opposite() {
                old(self).direction
            } else {
                new_direction
            }),
    {
        let reversal = match (self.direction, new_direction) {
            (Direction::Up, Direction::Down) => true,
            (Direction::Down, Direction::Up) => true,
            (Direction::Left, Direction::Right) => true,
            (Direction::Right, Direction::Left) => true,
            _ => false,
        };
        if !reversal {
            self.direction = new_direction;
        }
    }

    /// One movement step. In order: a move off the board yields
    /// `Dead(WallCollision)`; otherwise, when `growing` is false the tail cell
    /// is let go before anything else; a candidate head landing on a cell that
    /// is still occupied yields `Dead(SelfCollision)`; otherwise the candidate
    /// head is put in front. On a fatal move the body is left exactly as it
    /// was.
    pub fn advance(&mut self, board: &Board, growing: bool) -> (r: MoveResult)
        requires
            old(self).wf(),
            board.wf(),
            old(self).on_board(*board),
        ensures
            final(self).wf(),
            final(self).on_board(*board),
            final(self).direction == old(self).direction,
            (r == MoveResult::Dead(DeathCause::WallCollision)) == old(self).hits_wall(*board),
            (r == MoveResult::Dead(DeathCause::SelfCollision)) == (!old(self).hits_wall(*board)
                && old(self).self_collides(growing)),
            r != MoveResult::Alive ==> final(self).body == old(self).body,
            r == MoveResult::Alive ==> final(self).body@ == seq![old(self).next_head()]
                + old(self).remaining_body(growing),
            r == MoveResult::Alive ==> final(self).body@.len() == old(self).body@.len() + (
            if growing {
                1int
            } else {
                0int
            }),
    {
        let head = self.body[0];
        let blocked = match self.direction {
            Direction::Up => head.y == 0,
            Direction::Left => head.x == 0,
            Direction::Down => head.y == board.rows - 1,
            Direction::Right => head.x == board.columns - 1,
        };
        if blocked {
            return MoveResult::Dead(DeathCause::WallCollision);
        }
        let new_head = match self.direction {
            Direction::Up => Coord { x: head.x, y: head.y - 1 },
            Direction::Down => Coord { x: head.x, y: head.y + 1 },
            Direction::Left => Coord { x: head.x - 1, y: head.y },
            Direction::Right => Coord { x: head.x + 1, y: head.y },
        };
        let checked: usize = if growing {
            self.body.len()
        } else {
            self.body.len() - 1
        };
        let mut i: usize = 0;
        while i < checked
            invariant
                *self == *old(self),
                old(self).wf(),
                i <= checked,
                checked <= self.body@.len(),
                growing ==> checked == self.body@.len(),
                !growing ==> checked + 1 == self.body@.len(),
                new_head == old(self).next_head(),
                !old(self).hits_wall(*board),
                old(self).on_board(*board),
                forall|j: int| 0 <= j < i ==> self.body@[j] != new_head,
            decreases checked - i,
        {
            if self.body[i] == new_head {
                proof {
                    assert(old(self).remaining_body(growing)[i as int] == new_head);
                    assert(old(self).self_collides(growing));
                }
                return MoveResult::Dead(DeathCause::SelfCollision);
            }
            i += 1;
        }
        proof {
            assert forall|j: int| 0 <= j < old(self).remaining_body(growing).len() implies old(
                self,
            ).remaining_body(growing)[j] != new_head by {
                assert(old(self).remaining_body(growing)[j] == self.body@[j]);
            }
            assert(!old(self).self_collides(growing));
        }
        if !growing {
            let _ = self.body.pop();
        }
        self.body.insert(0, new_head);
        proof {
            let nb = self.body@;
            let rest = old(self).remaining_body(growing);
            assert(nb =~= seq![new_head] + rest);
            assert forall|p: int, q: int|
                0 <= p < nb.len() && 0 <= q < nb.len() && p != q implies nb[p] != nb[q] by {
                if p == 0 {
                    assert(nb[q] == rest[q - 1]);
                } else if q == 0 {
                    assert(nb[p] == rest[p - 1]);
                } else {
                    assert(nb[p] == old(self).body@[p - 1]);
                    assert(nb[q] == old(self).body@[q - 1]);
                }
            }
            assert(self.wf());
            assert forall|j: int| 0 <= j < nb.len() implies board.contains(#[trigger] nb[j]) by {
                if j > 0 {
                    assert(nb[j] == old(self).body@[j - 1]);
                }
            }
        }
        MoveResult::Alive
    }
}

} // verus!
