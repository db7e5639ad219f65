//! The orchestrator: one game, its tick step, its input handling and its
//! score.

use vstd::prelude::*;

use crate::board::{Board, Coord};
use crate::food::Food;
use crate::snake::{DeathCause, Direction, MoveResult, Snake};

verus! {

/// What one tick reports back to the driver.
#[derive(Clone, Copy, PartialEq, Eq, Structural, Debug)]
pub enum TickOutcome {
    Continue,
    GameOver(usize),
}

/// A running game: the board, the snake, the food, the score, the growth flag
/// and whether the game is still on. The driver calls `tick` at a fixed
/// cadence and `set_direction` on key presses; the snapshot accessors serve
/// the renderer.
pub struct Game {
    pub board: Board,
    pub snake: Snake,
    pub food: Food,
    pub score: usize,
    pub pending_growth: bool,
    pub alive: bool,
}

impl Game {
    /// What every reachable game state satisfies: the board is non-empty, the
    /// snake is well-formed and on the board, the food is on the board, and
    /// the score stays below the body length (every point grew the body by
    /// one cell, so the count never catches the length up).
    pub open spec fn wf(self) -> bool {
        &&& self.board.wf()
        &&& self.snake.wf()
        &&& self.snake.on_board(self.board)
        &&& self.board.contains(self.food.position)
        &&& self.score < self.snake.body@.len()
    }

    /// The move this tick would end the game.
    pub open spec fn dies_this_tick(self) -> bool {
        self.snake.hits_wall(self.board) || self.snake.self_collides(self.pending_growth)
    }

    /// The body as it stands after a surviving move this tick.
    pub open spec fn moved_body(self) -> Seq<Coord> {
        seq![self.snake.next_head()] + self.snake.remaining_body(self.pending_growth)
    }

    /// The head lands on the food this tick.
    pub open spec fn eats_this_tick(self) -> bool {
        !self.dies_this_tick() && self.food.position == self.snake.next_head()
    }

    /// A fresh game on a `columns` x `rows` board: a two-cell snake in the
    /// top-left corner heading right, the food one cell diagonally in from
    /// it, no score and no pending growth.
    pub fn new(columns: u32, rows: u32) -> (g: Game)
        requires
            columns >= 2,
            rows >= 2,
        ensures
            g.wf(),
            g.board == (Board { columns, rows }),
            g.snake.body@ == seq![Coord { x: 0, y: 0 }, Coord { x: 0, y: 1 }],
            g.snake.direction == Direction::Right,
            g.food.position == (Coord { x: 1, y: 1 }),
            g.score == 0,
            !g.pending_growth,
            g.alive,
    {
        let mut body: Vec<Coord> = Vec::new();
        body.push(Coord { x: 0, y: 0 });
        body.push(Coord { x: 0, y: 1 });
        let g = Game {
            board: Board { columns, rows },
            snake: Snake { body, direction: Direction::Right },
            food: Food { position: Coord { x: 1, y: 1 } },
            score: 0,
            pending_growth: false,
            alive: true,
        };
        proof {
            assert(g.snake.body@ =~= seq![Coord { x: 0, y: 0 }, Coord { x: 0, y: 1 }]);
        }
        g
    }

    /// One logic step. A finished game is left untouched. Otherwise the snake
    /// advances, growing exactly when a consumption is pending; a fatal move
    /// turns the game over with everything else as it was; on a surviving
    /// move a pending growth is redeemed as one point, and a head landing on
    /// the food flags growth for the next tick and moves the food to a cell
    /// the snake does not occupy.
    pub fn tick(&mut self) -> (r: TickOutcome)
        requires
            old(self).wf(),
        ensures
            final(self).wf(),
            final(self).board == old(self).board,
            final(self).snake.direction == old(self).snake.direction,
            !old(self).alive ==> (*final(self) == *old(self)
                && r == TickOutcome::GameOver(old(self).score)),
            old(self).alive && old(self).dies_this_tick() ==> (r == TickOutcome::GameOver(
                old(self).score,
            ) && !final(self).alive
                && final(self).snake.body == old(self).snake.body
                && final(self).food == old(self).food
                && final(self).score == old(self).score
                && final(self).pending_growth == old(self).pending_growth),
            old(self).alive && !old(self).dies_this_tick() ==> (r == TickOutcome::Continue
                && final(self).alive
                && final(self).snake.body@ == old(self).moved_body()
                && final(self).snake.body@.len() == old(self).snake.body@.len() + (
                if old(self).pending_growth {
                    1int
                } else {
                    0int
                })
                && final(self).score == old(self).score + (
                if old(self).pending_growth {
                    1int
                } else {
                    0int
                })
                && final(self).pending_growth == old(self).eats_this_tick()),
            old(self).alive && old(self).eats_this_tick() && !final(self).snake.covers_board(
                old(self).board,
            ) ==> !final(self).snake.body@.contains(final(self).food.position),
            old(self).alive && !old(self).dies_this_tick() && !old(self).eats_this_tick()
                ==> final(self).food == old(self).food,
    {
        if !self.alive {
            return TickOutcome::GameOver(self.score);
        }
        let growing = self.pending_growth;
        let result = self.snake.advance(&self.board, growing);
        match result {
            MoveResult::Dead(_) => {
                self.alive = false;
                TickOutcome::GameOver(self.score)
            },
            MoveResult::Alive => {
                if self.pending_growth {
                    proof {
                        // the score sits below the body length, which fits in
                        // a usize, so one more point cannot overflow
                        vstd::std_specs::vec::axiom_spec_len(&self.snake.body);
                    }
                    self.score = self.score + 1;
                    self.pending_growth = false;
                }
                if self.food.is_consumed_by(&self.snake) {
                    self.pending_growth = true;
                    self.food.relocate(&self.board, &self.snake);
                }
                TickOutcome::Continue
            },
        }
    }

    /// Forward a turn request to the snake; ignored once the game is over.
    /// A reversal of the current heading is ignored by the snake itself.
    pub fn set_direction(&mut self, new_direction: Direction)
        ensures
            old(self).wf() ==> final(self).wf(),
            final(self).board == old(self).board,
            final(self).snake.body == old(self).snake.body,
            final(self).food == old(self).food,
            final(self).score == old(self).score,
            final(self).pending_growth == old(self).pending_growth,
            final(self).alive == old(self).alive,
            final(self).snake.direction == (
            if old(self).alive && new_direction != old(self).snake.direction.opposite() {
                new_direction
            } else {
                old(self).snake.direction
            }),
    {
        if self.alive {
            self.snake.set_direction(new_direction);
        }
    }

    /// Snapshot for the renderer: the body cells, head first.
    pub fn body_cells(&self) -> (r: &Vec<Coord>)
        ensures
            r@ == self.snake.body@,
    {
        &self.snake.body
    }

    /// Snapshot for the renderer: the cell the food sits on.
    pub fn food_position(&self) -> (r: Coord)
        ensures
            r == self.food.position,
    {
        self.food.position
    }

    /// The points scored so far.
    pub fn score(&self) -> (r: usize)
        ensures
            r == self.score,
    {
        self.score
    }

    /// False once a tick has ended the game.
    pub fn is_alive(&self) -> (r: bool)
        ensures
            r == self.alive,
    {
        self.alive
    }
}

} // verus!
