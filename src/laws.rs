//! Laws of the tick transition, stated over the game model.
use vstd::prelude::*;

use crate::game::{moved, raised, Direction, Fruit, GameView};
use crate::geometry::Point;

verus! {

/// While the snake lives, a tick keeps the body's length when it is neither
/// growing nor eating, and adds exactly one cell when it is growing or eats.
pub proof fn lemma_body_length(g: GameView, fresh: Fruit)
    requires
        g.wf(),
        g.alive,
        fresh.points >= 1,
    ensures
        g.growing == 0 && !g.eats() ==> g.step(fresh).body.len() == g.body.len(),
        g.growing > 0 || g.eats() ==> g.step(fresh).body.len() == g.body.len() + 1,
{
}

/// After a tick the head is the old head moved one step in the current
/// direction, on a row of the board, and on a column of it whenever the old
/// head was.
pub proof fn lemma_head_after_step(g: GameView, fresh: Fruit)
    requires
        g.wf(),
        g.alive,
    ensures
        g.step(fresh).head() == moved(g.head(), g.direction, g.size),
        g.step(fresh).head().y < g.size.y,
        g.head().x < g.size.x ==> g.step(fresh).head().x < g.size.x,
{
    crate::game::lemma_next_head_on_board(g);
}

/// A head that lands on the body kills the snake, and every later tick leaves
/// the dead game as it is.
pub proof fn lemma_collision_is_fatal(g: GameView, fresh: Fruit, later: Fruit)
    requires
        g.wf(),
        g.alive,
        g.hits_itself(),
    ensures
        !g.step(fresh).alive,
        g.step(fresh).step(later) == g.step(fresh),
{
}

/// Eating puts the fresh fruit in place, raises the score by its reward, and
/// keeps the tail on that tick.
pub proof fn lemma_eating(g: GameView, fresh: Fruit)
    requires
        g.wf(),
        g.alive,
        g.eats(),
        fresh.points >= 1,
    ensures
        g.step(fresh).fruit == fresh,
        g.step(fresh).score == raised(g.score, fresh.points),
        g.step(fresh).body == seq![g.next_head()] + g.body,
{
}

/// A head in the last stride of columns that heads right lands in column 0 of
/// the same row.
pub proof fn lemma_right_edge_wraps(g: GameView)
    requires
        g.wf(),
        g.direction == Direction::Right,
        g.head().x + 2 >= g.size.x,
    ensures
        g.next_head() == (Point { x: 0, y: g.head().y }),
{
}

} // verus!
