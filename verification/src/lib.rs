//! A football career simulation library: the match engine that turns two
//! rosters into an event log, player ratings and match statistics, and the
//! systems that consume its results.

pub mod fixed;
pub mod entities;
pub mod systems;
pub mod utils;
pub mod game_core;
pub mod ui;
pub mod save;
