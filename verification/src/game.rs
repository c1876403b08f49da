//! The match: a board with an impassable border one cell thick, the snake on
//! it, the food, and the clock that paces moves and restarts.
//!
//! Time is counted in whole microseconds.

use crate::random::gen_range_inclusive;
use crate::snake::{cell_of, cells_of, Cell, Direction, Snake, SnakeView};
use rand::rngs::ThreadRng;
use rand::thread_rng;
use vstd::prelude::*;

verus! {

/// The time that must have run out before the snake moves by itself.
pub const MOVING_PERIOD: u64 = 100_000;

/// The time that a finished game stays on the board before the next begins.
pub const RESTART_TIME: u64 = 1_000_000;

/// The narrowest board whose inside holds the starting body.
pub const MIN_WIDTH: i32 = 6;

/// The lowest board whose inside holds the starting body.
pub const MIN_HEIGHT: i32 = 4;

/// How many cells one placement of food draws at most. A placement that
/// runs out of draws leaves the board without food, and the next update
/// tries again.
pub const FOOD_DRAWS: u32 = 1024;

/// The mathematical content of a [`Game`].
#[verifier::ext_equal]
pub struct GameView {
    pub snake: SnakeView,
    /// The cell of the food, if there is food on the board.
    pub food: Option<Cell>,
    pub width: int,
    pub height: int,
    pub game_over: bool,
    /// The time since the last move, or since the game ended.
    pub waiting_time: int,
}

impl GameView {
    /// A fresh game on a board of the given size: the body from `(2, 2)` to
    /// `(4, 2)`, food at `(6, 4)`, the clock at zero.
    pub open spec fn initial(width: int, height: int) -> GameView {
        GameView {
            snake: SnakeView::initial(2, 2),
            food: Some((6, 4)),
            width,
            height,
            game_over: false,
            waiting_time: 0,
        }
    }

    /// Whether `c` lies strictly inside the border.
    pub open spec fn inside(self, c: Cell) -> bool {
        &&& 0 < c.0 < self.width - 1
        &&& 0 < c.1 < self.height - 1
    }

    /// What holds of every game: the board is large enough for the starting
    /// body, the whole snake lies inside the border, and the clock fits its
    /// counter.
    pub open spec fn wf(self) -> bool {
        &&& self.snake.wf()
        &&& MIN_WIDTH <= self.width <= i32::MAX
        &&& MIN_HEIGHT <= self.height <= i32::MAX
        &&& forall|i: int|
            0 <= i < self.snake.cells.len() ==> self.inside(#[trigger] self.snake.cells[i])
        &&& self.snake.detached matches Some(c) ==> self.inside(c)
        &&& 0 <= self.waiting_time <= u64::MAX
    }

    /// Whether a move asked for with `dir` keeps the snake alive: the cell
    /// ahead is inside the border and not on the body, the last cell of
    /// the body aside.
    pub open spec fn alive(self, dir: Option<Direction>) -> bool {
        &&& !self.snake.overlaps(self.snake.next_head(dir))
        &&& self.inside(self.snake.next_head(dir))
    }

    /// The game after the snake has eaten what lies under its head, if
    /// anything does: the food is gone and the vacated cell is back on the
    /// body.
    pub open spec fn fed(self) -> GameView {
        if self.food == Some(self.snake.head()) {
            GameView { food: None, snake: self.snake.grow(), ..self }
        } else {
            self
        }
    }

    /// The game after an attempt to move, asked for with `dir`. A snake that
    /// stays alive moves and eats; otherwise the game is over. Either way
    /// the clock starts again.
    pub open spec fn moved(self, dir: Option<Direction>) -> GameView {
        if self.alive(dir) {
            GameView { snake: self.snake.advance(dir), waiting_time: 0, ..self }.fed()
        } else {
            GameView { game_over: true, waiting_time: 0, ..self }
        }
    }

    /// The game after a key press, where `key` is the heading that the key
    /// stands for, if it stands for one. A key that stands for none changes
    /// nothing, and nothing happens once the game is over, nor when the
    /// heading asked for is the reverse of the snake's. Any other press
    /// makes the snake try to move that way at once.
    pub open spec fn steered(self, key: Option<Direction>) -> GameView {
        match key {
            Some(dir) => if self.game_over || dir == self.snake.facing.opposite() {
                self
            } else {
                self.moved(Some(dir))
            },
            None => self,
        }
    }

    /// Whether a draw for food can come out as `c`.
    pub open spec fn drawable(self, c: Cell) -> bool {
        &&& 1 <= c.0 <= self.width - 1
        &&& 1 <= c.1 <= self.height - 1
    }

    /// Whether a draw for food can land on the body: some cell that can be
    /// drawn is one of the body's cells other than the last.
    pub open spec fn draw_can_miss(self) -> bool {
        exists|c: Cell| #[trigger] self.drawable(c) && self.snake.overlaps(c)
    }

    /// Whether a placement of food may end with `food` on the board: the
    /// food is as before, or lies on a cell that can be drawn and is not on
    /// the body, the last cell of the body aside.
    pub open spec fn may_place(self, food: Option<Cell>) -> bool {
        ||| food == self.food
        ||| food matches Some(c) && self.drawable(c) && !self.snake.overlaps(c)
    }

    /// The clock after `delta` more microseconds. It stops at the largest
    /// value it can hold.
    pub open spec fn clock_after(self, delta: int) -> int {
        if self.waiting_time + delta > u64::MAX {
            u64::MAX as int
        } else {
            self.waiting_time + delta
        }
    }

    /// The game after `delta` microseconds, where `placed` is the food on
    /// the board once a board without food has been served. A finished game
    /// starts afresh when it has waited longer than [`RESTART_TIME`]. A
    /// running game moves the snake along its heading when more than
    /// [`MOVING_PERIOD`] has passed since the last move.
    pub open spec fn ticked(self, delta: int, placed: Option<Cell>) -> GameView {
        if self.game_over {
            if self.clock_after(delta) > RESTART_TIME {
                GameView::initial(self.width, self.height)
            } else {
                GameView { waiting_time: self.clock_after(delta), ..self }
            }
        } else {
            let served = GameView {
                food: if self.food is None { placed } else { self.food },
                waiting_time: self.clock_after(delta),
                ..self
            };
            if served.waiting_time > MOVING_PERIOD {
                served.moved(None)
            } else {
                served
            }
        }
    }
}

/// What there is to paint: a snapshot of the game.
#[derive(Debug)]
pub struct DrawState {
    /// The cells of the snake, head first.
    pub body: Vec<(i32, i32)>,
    /// The snake's heading.
    pub direction: Direction,
    /// The cell of the food, if there is any.
    pub food: Option<(i32, i32)>,
    pub game_over: bool,
    pub width: i32,
    pub height: i32,
}

/// One match of the game.
pub struct Game {
    snake: Snake,
    food: Option<(i32, i32)>,
    width: i32,
    height: i32,
    game_over: bool,
    waiting_time: u64,
}

impl View for Game {
    type V = GameView;

    closed spec fn view(&self) -> GameView {
        GameView {
            snake: self.snake@,
            food: match self.food {
                Some(b) => Some(cell_of(b)),
                None => None,
            },
            width: self.width as int,
            height: self.height as int,
            game_over: self.game_over,
            waiting_time: self.waiting_time as int,
        }
    }
}

impl Game {
    /// The invariant of every game that this module hands out.
    pub open spec fn wf(&self) -> bool {
        self@.wf()
    }

    /// A fresh game on a board `width` cells wide and `height` cells high,
    /// border included.
    pub fn new(width: i32, height: i32) -> (g: Game)
        requires
            width >= MIN_WIDTH,
            height >= MIN_HEIGHT,
        ensures
            g.wf(),
            g@ == GameView::initial(width as int, height as int),
    {
        let g = Game {
            snake: Snake::new(2, 2),
            food: Some((6, 4)),
            width,
            height,
            game_over: false,
            waiting_time: 0,
        };
        assert(g@ =~= GameView::initial(width as int, height as int));
        g
    }

    /// Takes a key press, given as the heading that the key stands for, or
    /// `None` for a key that stands for no heading. Such a key is ignored.
    /// A finished game ignores every key, and a snake ignores the wish to
    /// turn back on itself; any other press moves the snake that way at
    /// once, and the clock starts again.
    pub fn key_pressed(&mut self, key: Option<Direction>)
        requires
            old(self).wf(),
        ensures
            final(self).wf(),
            final(self)@ == old(self)@.steered(key),
            key == Some(old(self)@.snake.facing.opposite()) ==> final(self)@ == old(self)@,
    {
        if self.game_over {
            return ;
        }
        match key {
            Some(dir) => {
                if dir == self.snake.head_direction().opposite() {
                    return ;
                }
                self.update_snake(Some(dir));
            },
            None => {},
        }
    }

    /// The snapshot that a renderer needs.
    pub fn draw(&self) -> (s: DrawState)
        ensures
            cells_of(s.body@) == self@.snake.cells,
            s.direction == self@.snake.facing,
            match s.food {
                Some(b) => self@.food == Some(cell_of(b)),
                None => self@.food is None,
            },
            s.game_over == self@.game_over,
            s.width == self@.width,
            s.height == self@.height,
    {
        DrawState {
            body: self.snake.draw(),
            direction: self.snake.head_direction(),
            food: self.food,
            game_over: self.game_over,
            width: self.width,
            height: self.height,
        }
    }

    /// Lets `delta_time` microseconds pass. A finished game restarts once it
    /// has waited longer than [`RESTART_TIME`]. A running game first gets
    /// food if it has none, then moves the snake along its heading if more
    /// than [`MOVING_PERIOD`] has passed since the last move.
    pub fn update(&mut self, delta_time: u64)
        requires
            old(self).wf(),
        ensures
            final(self).wf(),
            exists|placed: Option<Cell>|
                old(self)@.may_place(placed) && final(self)@ == #[trigger] old(self)@.ticked(
                    delta_time as int,
                    placed,
                ),
            old(self)@.game_over || old(self)@.food is Some ==> final(self)@ == old(self)@.ticked(
                delta_time as int,
                None,
            ),
    {
        self.waiting_time = self.waiting_time.saturating_add(delta_time);
        if self.game_over {
            if self.waiting_time > RESTART_TIME {
                self.restart();
            }
            assert(self@ =~= old(self)@.ticked(delta_time as int, old(self)@.food));
            return ;
        }
        if self.food.is_none() {
            self.add_food();
        }
        let ghost placed = self@.food;
        if self.waiting_time > MOVING_PERIOD {
            self.update_snake(None);
        }
        assert(self@ =~= old(self)@.ticked(delta_time as int, placed));
    }

    /// Puts the food on `(x, y)` unless the body lies there, the last cell
    /// of the body aside. Says whether the food was put.
    pub fn place_food(&mut self, x: i32, y: i32) -> (placed: bool)
        requires
            old(self).wf(),
        ensures
            final(self).wf(),
            placed == !old(self)@.snake.overlaps((x as int, y as int)),
            placed ==> final(self)@ == (GameView {
                food: Some((x as int, y as int)),
                ..old(self)@
            }),
            !placed ==> final(self)@ == old(self)@,
    {
        if self.snake.overlap_tail(x, y) {
            return false;
        }
        self.food = Some((x, y));
        assert(self@ =~= (GameView { food: Some((x as int, y as int)), ..old(self)@ }));
        true
    }

    /// Lets the snake eat the food under its head, if there is any: the food
    /// goes and the snake keeps the cell that its move had vacated.
    fn check_eating(&mut self)
        requires
            old(self).wf(),
            old(self)@.snake.detached is Some,
        ensures
            final(self).wf(),
            final(self)@ == old(self)@.fed(),
    {
        let (head_x, head_y): (i32, i32) = self.snake.head_position();
        match self.food {
            Some(food) => {
                if food.0 == head_x && food.1 == head_y {
                    self.food = None;
                    self.snake.restore_tail();
                }
            },
            None => {},
        }
        assert(self@ =~= old(self)@.fed());
    }

    /// Whether a move asked for with `dir` keeps the snake alive.
    fn check_if_snake_alive(&mut self, dir: Option<Direction>) -> (alive: bool)
        requires
            old(self).wf(),
        ensures
            *final(self) == *old(self),
            alive == old(self)@.alive(dir),
    {
        let (next_x, next_y): (i32, i32) = self.snake.next_head(dir);
        if self.snake.overlap_tail(next_x, next_y) {
            return false;
        }
        next_x > 0 && next_y > 0 && next_x < self.width - 1 && next_y < self.height - 1
    }

    /// Draws cells until one can take the food, [`FOOD_DRAWS`] times at
    /// most. Each draw takes x from `1..=width - 1` and y from
    /// `1..=height - 1`. Nothing but the food changes. The food ends on the
    /// first cell drawn that is free, or stays as it was when every draw
    /// landed on the body; where no draw can land on the body, the first
    /// draw places it.
    fn add_food(&mut self)
        requires
            old(self).wf(),
        ensures
            final(self).wf(),
            old(self)@.may_place(final(self)@.food),
            final(self)@ == (GameView { food: final(self)@.food, ..old(self)@ }),
            !old(self)@.draw_can_miss() ==> (final(self)@.food matches Some(c) && old(
                self,
            )@.drawable(c) && !old(self)@.snake.overlaps(c)),
    {
        let mut rng: ThreadRng = thread_rng();
        let mut draws: u32 = 0;
        while draws < FOOD_DRAWS
            invariant
                self@ == old(self)@,
                self.wf(),
                draws > 0 ==> old(self)@.draw_can_miss(),
            decreases FOOD_DRAWS - draws,
        {
            let new_x: i32 = gen_range_inclusive(&mut rng, 1, self.width - 1);
            let new_y: i32 = gen_range_inclusive(&mut rng, 1, self.height - 1);
            if self.place_food(new_x, new_y) {
                return ;
            }
            assert(old(self)@.drawable((new_x as int, new_y as int)) && old(
                self,
            )@.snake.overlaps((new_x as int, new_y as int)));
            draws += 1;
        }
        assert(self@ =~= (GameView { food: self@.food, ..old(self)@ }));
    }

    /// Tries to move the snake, along `dir` if one is given. The game is
    /// over if the move would kill the snake. The clock starts again.
    fn update_snake(&mut self, dir: Option<Direction>)
        requires
            old(self).wf(),
        ensures
            final(self).wf(),
            final(self)@ == old(self)@.moved(dir),
    {
        if self.check_if_snake_alive(dir) {
            self.snake.move_forward(dir);
            self.check_eating();
        } else {
            self.game_over = true;
        }
        self.waiting_time = 0;
        assert(self@ =~= old(self)@.moved(dir));
    }

    /// Starts the game afresh on the same board.
    fn restart(&mut self)
        requires
            old(self).wf(),
        ensures
            final(self).wf(),
            final(self)@ == GameView::initial(old(self)@.width, old(self)@.height),
    {
        self.snake = Snake::new(2, 2);
        self.food = Some((6, 4));
        self.game_over = false;
        self.waiting_time = 0;
        assert(self@ =~= GameView::initial(old(self)@.width, old(self)@.height));
    }
}

} // verus!
