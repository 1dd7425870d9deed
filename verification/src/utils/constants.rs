//! Limits of the simulated world.

use vstd::prelude::*;

verus! {

/// The most players a squad may hold.
pub const MAX_PLAYERS_PER_SQUAD: usize = 25;

/// The number of weeks in a season.
pub const SEASON_LENGTH_WEEKS: u32 = 38;

/// The length of a match without extra time.
pub const MATCH_DURATION_MINUTES: u8 = 90;

/// The length of a match with extra time.
pub const EXTRA_TIME_END_MINUTE: u8 = 120;

} // verus!
