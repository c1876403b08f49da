//! What holds of the snake and of the match whatever the state and the
//! input, stated over their views and proved.

use crate::game::{GameView, MOVING_PERIOD, RESTART_TIME};
use crate::snake::{Cell, Direction, SnakeView};
use vstd::prelude::*;

verus! {

/// Reversing a heading twice gives the heading back, and no heading is its
/// own reverse.
pub proof fn lemma_opposite_is_an_involution(d: Direction)
    ensures
        d.opposite().opposite() == d,
        d.opposite() != d,
{
}

/// A fresh snake has three cells and its head two cells to the right of
/// where it was asked to start.
pub proof fn lemma_fresh_snake_shape(x: int, y: int)
    ensures
        SnakeView::initial(x, y).wf(),
        SnakeView::initial(x, y).cells.len() == 3,
        SnakeView::initial(x, y).head() == (x + 2, y),
{
}

/// On a fresh snake the head and the middle cell count as covered, the last
/// cell does not.
pub proof fn lemma_fresh_snake_overlaps(x: int, y: int)
    ensures
        SnakeView::initial(x, y).overlaps((x + 2, y)),
        SnakeView::initial(x, y).overlaps((x + 1, y)),
        !SnakeView::initial(x, y).overlaps((x, y)),
{
    let s = SnakeView::initial(x, y);
    assert(s.cells[0] == (x + 2, y));
    assert(s.cells[1] == (x + 1, y));
}

/// A move keeps the number of cells, and leaves a snake with a head.
pub proof fn lemma_advance_keeps_length(s: SnakeView, dir: Option<Direction>)
    requires
        s.wf(),
    ensures
        s.advance(dir).wf(),
        s.advance(dir).cells.len() == s.cells.len(),
        s.advance(dir).head() == s.next_head(dir),
{
}

/// A move followed at once by growth makes the snake exactly one cell
/// longer: the new head stands in front of the body as it was.
pub proof fn lemma_advance_then_grow_adds_one(s: SnakeView, dir: Option<Direction>)
    requires
        s.wf(),
    ensures
        s.advance(dir).grow().cells.len() == s.cells.len() + 1,
        s.advance(dir).grow().cells == seq![s.next_head(dir)] + s.cells,
{
    assert(s.advance(dir).grow().cells =~= seq![s.next_head(dir)] + s.cells);
}

/// A key that asks the snake to turn straight back changes nothing,
/// whatever the state.
pub proof fn lemma_reversal_is_ignored(g: GameView)
    ensures
        g.steered(Some(g.snake.facing.opposite())) == g,
{
}

/// A finished game ignores every key.
pub proof fn lemma_finished_game_ignores_keys(g: GameView, key: Option<Direction>)
    requires
        g.game_over,
    ensures
        g.steered(key) == g,
{
}

/// A move into the border, or beyond it, ends the game and leaves the snake
/// where it is.
pub proof fn lemma_leaving_the_inside_ends_the_game(g: GameView, dir: Option<Direction>)
    requires
        !g.inside(g.snake.next_head(dir)),
    ensures
        g.moved(dir).game_over,
        g.moved(dir).snake == g.snake,
        g.moved(dir).food == g.food,
{
}

/// A move onto the body, its last cell aside, ends the game.
pub proof fn lemma_biting_ends_the_game(g: GameView, dir: Option<Direction>)
    requires
        g.snake.overlaps(g.snake.next_head(dir)),
    ensures
        g.moved(dir).game_over,
        g.moved(dir).snake == g.snake,
{
}

/// A move that keeps the snake alive and does not reach the food keeps the
/// length of the body and the food.
pub proof fn lemma_plain_move_keeps_length(g: GameView, dir: Option<Direction>)
    requires
        g.wf(),
        g.alive(dir),
        g.food != Some(g.snake.next_head(dir)),
    ensures
        g.moved(dir).snake == g.snake.advance(dir),
        g.moved(dir).snake.cells.len() == g.snake.cells.len(),
        g.moved(dir).food == g.food,
        g.moved(dir).game_over == g.game_over,
{
}

/// A move onto the food makes the body one cell longer and takes the food
/// off the board.
pub proof fn lemma_eating_grows_by_one(g: GameView, dir: Option<Direction>)
    requires
        g.wf(),
        g.alive(dir),
        g.food == Some(g.snake.next_head(dir)),
    ensures
        g.moved(dir).snake.cells.len() == g.snake.cells.len() + 1,
        g.moved(dir).snake.cells == seq![g.snake.next_head(dir)] + g.snake.cells,
        g.moved(dir).food is None,
        g.moved(dir).game_over == g.game_over,
{
    lemma_advance_then_grow_adds_one(g.snake, dir);
}

/// With food on the cell ahead, an update that brings the clock past the
/// moving period makes the body one cell longer and takes the food off the
/// board.
pub proof fn lemma_due_update_eats(g: GameView, delta: int, placed: Option<Cell>)
    requires
        g.wf(),
        !g.game_over,
        g.alive(None),
        g.food == Some(g.snake.next_head(None)),
        g.clock_after(delta) > MOVING_PERIOD,
    ensures
        g.ticked(delta, placed).snake.cells.len() == g.snake.cells.len() + 1,
        g.ticked(delta, placed).food is None,
{
    let served = GameView { waiting_time: g.clock_after(delta), ..g };
    assert(g.ticked(delta, placed) == served.moved(None));
    lemma_eating_grows_by_one(served, None);
}

/// A finished game that has waited longer than the restart time starts
/// afresh on the same board: three cells, food on `(6, 4)`, running.
pub proof fn lemma_finished_game_restarts(g: GameView, delta: int, placed: Option<Cell>)
    requires
        g.game_over,
        g.clock_after(delta) > RESTART_TIME,
    ensures
        g.ticked(delta, placed) == GameView::initial(g.width, g.height),
        !g.ticked(delta, placed).game_over,
        g.ticked(delta, placed).snake.cells.len() == 3,
        g.ticked(delta, placed).food == Some((6int, 4int)),
{
}

/// Every step of a game leads from a well-formed state to a well-formed
/// state: the snake keeps a head and stays inside the border.
pub proof fn lemma_steps_keep_well_formed(
    g: GameView,
    key: Option<Direction>,
    delta: int,
    placed: Option<Cell>,
)
    requires
        g.wf(),
        0 <= delta,
    ensures
        g.moved(key).wf(),
        g.steered(key).wf(),
        g.ticked(delta, placed).wf(),
        GameView::initial(g.width, g.height).wf(),
{
    lemma_moved_keeps_well_formed(g, key);
    let served = GameView {
        food: if g.food is None { placed } else { g.food },
        waiting_time: g.clock_after(delta),
        ..g
    };
    lemma_moved_keeps_well_formed(served, None);
}

/// An attempt to move leads from a well-formed state to a well-formed
/// state.
pub proof fn lemma_moved_keeps_well_formed(g: GameView, dir: Option<Direction>)
    requires
        g.wf(),
    ensures
        g.moved(dir).wf(),
{
    if g.alive(dir) {
        let stepped = GameView { snake: g.snake.advance(dir), waiting_time: 0, ..g };
        assert forall|i: int| 0 <= i < stepped.snake.cells.len() implies stepped.inside(
            #[trigger] stepped.snake.cells[i],
        ) by {
            if i > 0 {
                assert(stepped.snake.cells[i] == g.snake.cells[i - 1]);
            }
        }
        assert(stepped.inside(g.snake.cells.last()));
        assert(stepped.wf());
        let fed = stepped.fed();
        assert forall|i: int| 0 <= i < fed.snake.cells.len() implies fed.inside(
            #[trigger] fed.snake.cells[i],
        ) by {
            if i < stepped.snake.cells.len() {
                assert(fed.snake.cells[i] == stepped.snake.cells[i]);
            }
        }
    }
}

} // verus!
