//! The state of a running game.
//!
//! Times are seconds since 1 January 1970.

use vstd::prelude::*;
use std::collections::HashMap;
use crate::entities::{Competition, Player, Team};
use crate::utils::helpers::now_timestamp;

verus! {

/// How far the interest of a club in the player has come.
#[derive(Debug, Clone, Copy, PartialEq, Eq, Hash, Structural)]
pub enum InterestLevel {
    Monitoring,
    Scouting,
    Shortlisted,
    PreparingOffer,
    OfficialOffer,
}

/// How the player answers an offer.
#[derive(Debug, Clone, Copy, PartialEq, Eq, Hash, Structural)]
pub enum PlayerResponse {
    Interested,
    NotInterested,
    LetAgentHandle,
}

/// How the agent answers an offer.
#[derive(Debug, Clone, Copy, PartialEq, Eq, Hash, Structural)]
pub enum AgentResponse {
    Accepted,
    Rejected,
    Negotiating,
}

/// How a negotiation ended.
#[derive(Debug, Clone, Copy, PartialEq, Eq, Hash, Structural)]
pub enum NegotiationResult {
    Accepted,
    Rejected,
    Withdrawn,
}

/// The interest of one club in the player.
#[derive(Debug, Clone, Copy, PartialEq, Eq)]
pub struct TransferInterest {
    pub club_id: u128,
    pub interest_level: InterestLevel,
    pub last_evaluation_date: i64,
    /// In millionths
    pub evaluation_score: i64,
}

/// An offer for the player. Money is in millionths of the currency.
#[derive(Debug, Clone, Copy, PartialEq, Eq)]
pub struct TransferOffer {
    pub id: u128,
    pub buying_club_id: u128,
    pub target_player_id: u128,
    pub offered_wage: i64,
    pub contract_length_years: u8,
    pub transfer_fee: Option<i64>,
    pub offer_date: i64,
    pub expiry_date: i64,
}

/// What became of an offer.
#[derive(Debug, Clone, Copy, PartialEq, Eq)]
pub struct TransferNegotiation {
    pub offer_id: u128,
    pub player_response: Option<PlayerResponse>,
    pub agent_response: Option<AgentResponse>,
    pub final_result: Option<NegotiationResult>,
}

/// The seconds of a day.
pub const SECONDS_PER_DAY: i64 = 86_400;

/// The days of a season.
pub const SEASON_DAYS: i64 = 365;

/// The days of a summer transfer window.
pub const SUMMER_WINDOW_DAYS: i64 = 60;

/// The windows in which transfers are allowed.
#[derive(Debug, Clone, Copy, PartialEq, Eq)]
pub struct TransferWindows {
    pub summer_start: i64,
    pub summer_end: i64,
    pub winter_start: Option<i64>,
    pub winter_end: Option<i64>,
}

impl TransferWindows {
    /// A summer window that opens at `now` and lasts sixty days, and no
    /// winter window.
    pub open spec fn opening_at(now: i64) -> TransferWindows {
        TransferWindows {
            summer_start: now,
            summer_end: (now + SUMMER_WINDOW_DAYS * SECONDS_PER_DAY) as i64,
            winter_start: None,
            winter_end: None,
        }
    }

    /// A summer window that opens now and lasts sixty days, and no winter
    /// window.
    pub fn new() -> (windows: TransferWindows)
        ensures
            windows == TransferWindows::opening_at(windows.summer_start),
    {
        let now: i64 = now_timestamp();
        TransferWindows {
            summer_start: now,
            summer_end: now + SUMMER_WINDOW_DAYS * SECONDS_PER_DAY,
            winter_start: None,
            winter_end: None,
        }
    }
}

/// The running season.
#[derive(Debug, Clone)]
pub struct SeasonInfo {
    /// As in "2023-24"
    pub year: String,
    pub start_date: i64,
    pub end_date: i64,
    pub current_matchday: u8,
    pub is_active: bool,
    pub transfer_windows: TransferWindows,
}

impl SeasonInfo {
    /// Whether the season is as a new season is: without a name, a year
    /// long, active, on its first match day, with a summer window of sixty
    /// days and no winter window.
    pub open spec fn is_new(&self) -> bool {
        &&& self.year@.len() == 0
        &&& self.end_date == self.start_date + SEASON_DAYS * SECONDS_PER_DAY
        &&& self.current_matchday == 1
        &&& self.is_active
        &&& self.transfer_windows == TransferWindows::opening_at(self.transfer_windows.summer_start)
    }

    /// A season without a name that starts now, lasts a year, is active and
    /// on its first match day.
    pub fn new() -> (season: SeasonInfo)
        ensures
            season.is_new(),
    {
        let now: i64 = now_timestamp();
        SeasonInfo {
            year: String::new(),
            start_date: now,
            end_date: now + SEASON_DAYS * SECONDS_PER_DAY,
            current_matchday: 1,
            is_active: true,
            transfer_windows: TransferWindows::new(),
        }
    }
}

/// What the transfer market holds for the player.
#[derive(Debug, Clone)]
pub struct TransferSystemState {
    /// The interest of clubs, by club
    pub interested_clubs: HashMap<u128, TransferInterest>,
    pub active_offers: Vec<TransferOffer>,
    pub negotiation_history: Vec<TransferNegotiation>,
}

impl TransferSystemState {
    /// A market without interest, offers or history.
    pub fn new() -> (state: TransferSystemState)
        ensures
            state.interested_clubs@.len() == 0,
            state.active_offers@.len() == 0,
            state.negotiation_history@.len() == 0,
    {
        TransferSystemState {
            interested_clubs: HashMap::new(),
            active_offers: Vec::new(),
            negotiation_history: Vec::new(),
        }
    }
}

/// The version of the saves that this library writes.
pub open spec fn current_save_version() -> Seq<char> {
    "1.0"@
}

/// All that a running game holds.
#[derive(Debug, Clone)]
pub struct GameState {
    pub player: Player,
    pub current_club_id: u128,
    pub clubs: Vec<Team>,
    pub season: SeasonInfo,
    pub leagues: Vec<Competition>,
    pub competitions: Vec<Competition>,
    pub transfer_system: TransferSystemState,
    /// The relationships of the player, 0 to 100, in millionths
    pub relationships: HashMap<u128, i64>,
    /// The storylines that are under way
    pub narratives: HashMap<String, bool>,
    /// The guides that were shown
    pub tutorial_state: HashMap<String, bool>,
    pub save_version: String,
    pub current_date: i64,
}

impl GameState {
    /// A game that starts now, with the given player at the given club and an
    /// empty world.
    pub fn new(player: Player, current_club_id: u128) -> (state: GameState)
        ensures
            state.player == player,
            state.current_club_id == current_club_id,
            state.clubs@.len() == 0,
            state.leagues@.len() == 0,
            state.competitions@.len() == 0,
            state.transfer_system.active_offers@.len() == 0,
            state.transfer_system.negotiation_history@.len() == 0,
            state.transfer_system.interested_clubs@.len() == 0,
            state.relationships@.len() == 0,
            state.save_version@ == current_save_version(),
            state.season.is_new(),
    {
        GameState {
            player,
            current_club_id,
            clubs: Vec::new(),
            season: SeasonInfo::new(),
            leagues: Vec::new(),
            competitions: Vec::new(),
            transfer_system: TransferSystemState::new(),
            relationships: HashMap::new(),
            narratives: HashMap::new(),
            tutorial_state: HashMap::new(),
            save_version: "1.0".to_owned(),
            current_date: now_timestamp(),
        }
    }
}

} // verus!
