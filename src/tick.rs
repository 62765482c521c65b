//! What the tick loop does with each event and with the time left in a tick.
use vstd::prelude::*;

use crate::controller::Message;
use crate::game::{Game, GameView};

verus! {

/// Milliseconds between two ticks.
pub const RENDER_LOOP_SLEEP_MS: u64 = 400;

/// What the tick loop does next.
#[derive(Clone, Copy, Debug, PartialEq, Eq, Structural)]
pub enum Reaction {
    /// Leave the game.
    Quit,
    /// Start a new game.
    Restart,
    /// Step the game now.
    NextTick,
    /// Keep waiting for events until the tick is over.
    KeepWaiting,
}

/// Handles an event while the game runs: `Exit` quits; a direction that the
/// game takes ends the wait for this tick; a rejected direction or a restart
/// keeps waiting.
pub fn react_in_play(game: &mut Game, msg: Message) -> (r: Reaction)
    ensures
        match msg {
            Message::Exit => r == Reaction::Quit && final(game)@ == old(game)@,
            Message::Restart => r == Reaction::KeepWaiting && final(game)@ == old(game)@,
            Message::Direction(d) => if d != old(game)@.direction.reverse() {
                r == Reaction::NextTick && final(game)@ == (GameView { direction: d, ..old(game)@ })
            } else {
                r == Reaction::KeepWaiting && final(game)@ == old(game)@
            },
        },
{
    match msg {
        Message::Exit => Reaction::Quit,
        Message::Restart => Reaction::KeepWaiting,
        Message::Direction(d) => {
            if game.set_direction(d) {
                Reaction::NextTick
            } else {
                Reaction::KeepWaiting
            }
        },
    }
}

/// Handles an event once the snake has died: `Exit` quits, `Restart` starts
/// over, a direction keeps waiting.
pub fn react_after_game(msg: Message) -> (r: Reaction)
    ensures
        r == match msg {
            Message::Exit => Reaction::Quit,
            Message::Restart => Reaction::Restart,
            Message::Direction(_) => Reaction::KeepWaiting,
        },
{
    match msg {
        Message::Exit => Reaction::Quit,
        Message::Restart => Reaction::Restart,
        Message::Direction(_) => Reaction::KeepWaiting,
    }
}

/// How long to wait for events, `elapsed_ms` into a tick of `tick_ms`;
/// `None` once the tick is over.
pub fn wait_left(elapsed_ms: u64, tick_ms: u64) -> (r: Option<u64>)
    ensures
        r == (if elapsed_ms > tick_ms {
            None
        } else {
            Some((tick_ms - elapsed_ms) as u64)
        }),
{
    if elapsed_ms > tick_ms {
        None
    } else {
        Some(tick_ms - elapsed_ms)
    }
}

} // verus!
