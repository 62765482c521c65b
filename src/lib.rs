//! A tick-driven snake game engine on a wrapped grid.
pub mod controller;
pub mod game;
pub mod geometry;
pub mod laws;
pub mod tick;

pub use controller::{message_for_key, Key, Message};
pub use game::{Direction, Fruit, Game, GameView, Snake};
pub use geometry::Point;
pub use tick::{react_after_game, react_in_play, wait_left, Reaction, RENDER_LOOP_SLEEP_MS};
