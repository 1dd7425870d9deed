//! The engines that drive the game: the clock and its scheduled events, the
//! queue of events that await handling, and the state of a running game.

pub mod event_engine;
pub mod game_state;
pub mod time_engine;


pub use event_engine::EventEngine;
pub use time_engine::TimeEngine;
