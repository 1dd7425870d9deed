//! The match engine: it simulates a match minute by minute, scores every
//! action, and folds the scores into one rating per player.
//!
//! Every random decision is split in two: a method of [`MatchEngine`] draws
//! from the generator, and a function without access to the generator says
//! what follows from the draw. A draw (a "roll") is a whole number of
//! millionths, at least 0 and below 1.0.

use vstd::prelude::*;
use crate::entities::{
    impact_product, log_well_formed, roster_fit_to_play, CompetitionType, EventType, Match,
    MatchEvent, MatchHalf, MatchLineup, MatchStatus, PitchZone, Player, Position, MAX_FACTOR,
    MAX_TOTAL_IMPACT, NIL_ID,
};
use crate::systems::rating_aggregator::{ratings_of, MAX_RATING, MIN_RATING};
use crate::systems::statistics_accumulator::{has_room_for, is_replayed, lemma_room_suffices};
use crate::utils::constants::{EXTRA_TIME_END_MINUTE, MATCH_DURATION_MINUTES};
use crate::fixed::SCALE;
use crate::utils::helpers::{generate_unique_id, random_below, roll};

verus! {

/// How much is at stake in a match.
#[derive(Debug, Clone, Copy, PartialEq, Eq, Hash, Structural)]
pub enum MatchImportance {
    Friendly,
    League,
    Cup,
    Final,
    Continental,
}

/// The first of four outcomes whose threshold exceeds `roll`; the fourth
/// outcome has no threshold and takes all that is left.
pub open spec fn pick_of_four(
    roll: int,
    first: (int, EventType),
    second: (int, EventType),
    third: (int, EventType),
    rest: EventType,
) -> EventType {
    if roll < first.0 {
        first.1
    } else if roll < second.0 {
        second.1
    } else if roll < third.0 {
        third.1
    } else {
        rest
    }
}

/// The first of five outcomes whose threshold exceeds `roll`; the fifth
/// outcome has no threshold and takes all that is left.
pub open spec fn pick_of_five(
    roll: int,
    first: (int, EventType),
    second: (int, EventType),
    third: (int, EventType),
    fourth: (int, EventType),
    rest: EventType,
) -> EventType {
    if roll < first.0 {
        first.1
    } else {
        pick_of_four(roll, second, third, fourth, rest)
    }
}

/// The action a player in `position` takes on the ball for a given roll.
/// Each row pairs the cumulative probability below which an action is chosen
/// with that action.
pub open spec fn action_for(position: Position, roll: int) -> EventType {
    match position {
        Position::GK => pick_of_four(
            roll,
            (600_000, EventType::ClaimCross),
            (800_000, EventType::PunchClear),
            (950_000, EventType::Save),
            EventType::SweeperClearance,
        ),
        Position::CB => pick_of_four(
            roll,
            (400_000, EventType::TackleWon),
            (700_000, EventType::Interception),
            (900_000, EventType::Clearance),
            EventType::AerialDuelWon,
        ),
        Position::FB | Position::RB | Position::LB => pick_of_four(
            roll,
            (300_000, EventType::CrossSuccess),
            (600_000, EventType::TackleWon),
            (850_000, EventType::PassSuccess),
            EventType::DribbleSuccess,
        ),
        Position::DM => pick_of_four(
            roll,
            (400_000, EventType::TackleWon),
            (750_000, EventType::Interception),
            (950_000, EventType::PassSuccess),
            EventType::DribbleSuccess,
        ),
        Position::CM => pick_of_five(
            roll,
            (250_000, EventType::KeyPass),
            (500_000, EventType::PassSuccess),
            (700_000, EventType::DribbleSuccess),
            (900_000, EventType::TackleWon),
            EventType::ThroughBall,
        ),
        Position::RM | Position::LM => pick_of_four(
            roll,
            (300_000, EventType::CrossSuccess),
            (550_000, EventType::KeyPass),
            (800_000, EventType::DribbleSuccess),
            EventType::PassSuccess,
        ),
        Position::RW | Position::LW => pick_of_four(
            roll,
            (400_000, EventType::DribbleSuccess),
            (700_000, EventType::CrossSuccess),
            (900_000, EventType::KeyPass),
            EventType::ShotOnTarget,
        ),
        Position::CF | Position::SS => pick_of_four(
            roll,
            (500_000, EventType::ShotOnTarget),
            (750_000, EventType::Goal),
            (950_000, EventType::DribbleSuccess),
            EventType::Assist,
        ),
        Position::AM => pick_of_five(
            roll,
            (250_000, EventType::KeyPass),
            (500_000, EventType::PassSuccess),
            (700_000, EventType::DribbleSuccess),
            (900_000, EventType::ShotOnTarget),
            EventType::ThroughBall,
        ),
    }
}

/// The action a player in `position` takes on the ball for the roll `roll`:
/// goalkeepers claim, punch and save; defenders tackle, intercept and clear;
/// midfielders pass and carry; forwards shoot.
pub fn action_for_roll(position: Position, roll: i64) -> (action: EventType)
    ensures
        action == action_for(position, roll as int),
{
    match position {
        Position::GK => {
            if roll < 600_000 {
                EventType::ClaimCross
            } else if roll < 800_000 {
                EventType::PunchClear
            } else if roll < 950_000 {
                EventType::Save
            } else {
                EventType::SweeperClearance
            }
        },
        Position::CB => {
            if roll < 400_000 {
                EventType::TackleWon
            } else if roll < 700_000 {
                EventType::Interception
            } else if roll < 900_000 {
                EventType::Clearance
            } else {
                EventType::AerialDuelWon
            }
        },
        Position::FB | Position::RB | Position::LB => {
            if roll < 300_000 {
                EventType::CrossSuccess
            } else if roll < 600_000 {
                EventType::TackleWon
            } else if roll < 850_000 {
                EventType::PassSuccess
            } else {
                EventType::DribbleSuccess
            }
        },
        Position::DM => {
            if roll < 400_000 {
                EventType::TackleWon
            } else if roll < 750_000 {
                EventType::Interception
            } else if roll < 950_000 {
                EventType::PassSuccess
            } else {
                EventType::DribbleSuccess
            }
        },
        Position::CM => {
            if roll < 250_000 {
                EventType::KeyPass
            } else if roll < 500_000 {
                EventType::PassSuccess
            } else if roll < 700_000 {
                EventType::DribbleSuccess
            } else if roll < 900_000 {
                EventType::TackleWon
            } else {
                EventType::ThroughBall
            }
        },
        Position::RM | Position::LM => {
            if roll < 300_000 {
                EventType::CrossSuccess
            } else if roll < 550_000 {
                EventType::KeyPass
            } else if roll < 800_000 {
                EventType::DribbleSuccess
            } else {
                EventType::PassSuccess
            }
        },
        Position::RW | Position::LW => {
            if roll < 400_000 {
                EventType::DribbleSuccess
            } else if roll < 700_000 {
                EventType::CrossSuccess
            } else if roll < 900_000 {
                EventType::KeyPass
            } else {
                EventType::ShotOnTarget
            }
        },
        Position::CF | Position::SS => {
            if roll < 500_000 {
                EventType::ShotOnTarget
            } else if roll < 750_000 {
                EventType::Goal
            } else if roll < 950_000 {
                EventType::DribbleSuccess
            } else {
                EventType::Assist
            }
        },
        Position::AM => {
            if roll < 250_000 {
                EventType::KeyPass
            } else if roll < 500_000 {
                EventType::PassSuccess
            } else if roll < 700_000 {
                EventType::DribbleSuccess
            } else if roll < 900_000 {
                EventType::ShotOnTarget
            } else {
                EventType::ThroughBall
            }
        },
    }
}

/// The reactive action a defending player in `position` takes. The second
/// roll is read only where the first has not decided: for a centre back whose
/// first roll is 0.5 or more.
pub open spec fn defensive_action_for(position: Position, first_roll: int, second_roll: int)
    -> EventType {
    match position {
        Position::GK => if first_roll < 800_000 {
            EventType::Save
        } else {
            EventType::ClaimCross
        },
        Position::CB => if first_roll < 500_000 {
            EventType::TackleWon
        } else if second_roll < 800_000 {
            EventType::Interception
        } else {
            EventType::Clearance
        },
        Position::FB => if first_roll < 600_000 {
            EventType::TackleWon
        } else {
            EventType::Interception
        },
        _ => if first_roll < 500_000 {
            EventType::TackleWon
        } else {
            EventType::Interception
        },
    }
}

/// Whether the reactive action of a player in `position` depends on a second
/// roll, given the first.
pub open spec fn needs_second_roll(position: Position, first_roll: int) -> bool {
    position == Position::CB && first_roll >= 500_000
}

/// The reactive action a defending player in `position` takes for the two
/// rolls given.
pub fn defensive_action_for_rolls(position: Position, first_roll: i64, second_roll: i64) -> (action:
    EventType)
    ensures
        action == defensive_action_for(position, first_roll as int, second_roll as int),
        !needs_second_roll(position, first_roll as int) ==> forall|other: int|
            action == defensive_action_for(position, first_roll as int, other),
{
    match position {
        Position::GK => {
            if first_roll < 800_000 {
                EventType::Save
            } else {
                EventType::ClaimCross
            }
        },
        Position::CB => {
            if first_roll < 500_000 {
                EventType::TackleWon
            } else if second_roll < 800_000 {
                EventType::Interception
            } else {
                EventType::Clearance
            }
        },
        Position::FB => {
            if first_roll < 600_000 {
                EventType::TackleWon
            } else {
                EventType::Interception
            }
        },
        _ => {
            if first_roll < 500_000 {
                EventType::TackleWon
            } else {
                EventType::Interception
            }
        },
    }
}

/// The impact an event of the given type has before any multiplier, in
/// millionths: 8.0 for a goal, down to -3.0 for a red card or a missed
/// penalty, and 0.0 for every type that is not listed.
pub open spec fn base_impact_of(event_type: EventType) -> int {
    match event_type {
        EventType::Goal => 8_000_000,
        EventType::Assist => 5_000_000,
        EventType::KeyPass => 2_500_000,
        EventType::ShotOnTarget => 1_500_000,
        EventType::ShotOffTarget => 800_000,
        EventType::DribbleSuccess => 700_000,
        EventType::TackleWon => 1_200_000,
        EventType::Interception => 1_000_000,
        EventType::Block => 2_000_000,
        EventType::Clearance => 800_000,
        EventType::AerialDuelWon => 600_000,
        EventType::Save => 2_500_000,
        EventType::ReflexSave => 3_500_000,
        EventType::OneOnOneSave => 4_000_000,
        EventType::ClaimCross => 500_000,
        EventType::PunchClear => 600_000,
        EventType::SweeperClearance => 1_000_000,
        EventType::GoalConceded => -2_000_000,
        EventType::FoulCommitted => -500_000,
        EventType::YellowCard => -1_000_000,
        EventType::RedCard => -3_000_000,
        EventType::MissedBigChance => -2_500_000,
        EventType::PenaltyWon => 2_000_000,
        EventType::PenaltyConceded => -2_000_000,
        EventType::PenaltySaved => 4_000_000,
        EventType::PenaltyMissed => -3_000_000,
        _ => 0,
    }
}

/// Whether the score is level or one goal apart.
pub open spec fn is_close(score_difference: int) -> bool {
    -1 <= score_difference <= 1
}

/// The pressure of the situation in tenths: 1.4 late in a close game, 1.2 in
/// a close game, 1.0 otherwise.
pub open spec fn pressure_tenths(minute: int, score_difference: int) -> int {
    if is_close(score_difference) && minute > 70 {
        14
    } else if is_close(score_difference) {
        12
    } else {
        10
    }
}

/// The time multiplier: `1 + (minute / 90) * 0.3`, times the pressure of the
/// situation, as a whole number of millionths (rounded down).
pub open spec fn time_multiplier_of(minute: int, score_difference: int) -> int {
    (300 + minute) * pressure_tenths(minute, score_difference) * SCALE / 3000
}

/// Pressure grows with time: at one and the same score, an event in a later
/// minute has a strictly higher time multiplier than one in an earlier
/// minute.
pub proof fn lemma_time_multiplier_increases(earlier: int, later: int, score_difference: int)
    requires
        0 <= earlier < later,
    ensures
        time_multiplier_of(earlier, score_difference) < time_multiplier_of(later, score_difference),
{
    let low = pressure_tenths(earlier, score_difference);
    let high = pressure_tenths(later, score_difference);
    assert(10 <= low <= high <= 14);
    let before = (300 + earlier) * low * SCALE;
    let after = (300 + later) * high * SCALE;
    assert(before + 3000 <= after) by (nonlinear_arith)
        requires
            before == (300 + earlier) * low * SCALE,
            after == (300 + later) * high * SCALE,
            0 <= earlier < later,
            10 <= low <= high,
    ;
    assert(before / 3000 < after / 3000) by (nonlinear_arith)
        requires
            before + 3000 <= after,
    ;
}

/// How much an event of the given type counts for a player in `position`, in
/// tenths: the further the action lies from what the position is there for,
/// the more.
pub open spec fn position_tenths(event_type: EventType, position: Position) -> int {
    match event_type {
        EventType::Goal => match position {
            Position::CF | Position::SS => 10,
            Position::RW | Position::LW => 11,
            Position::CM | Position::AM | Position::RM | Position::LM => 12,
            Position::DM => 13,
            Position::FB | Position::RB | Position::LB => 14,
            Position::CB => 15,
            Position::GK => 20,
        },
        EventType::TackleWon | EventType::Interception | EventType::Clearance => match position {
            Position::CF | Position::SS => 14,
            Position::RW | Position::LW => 13,
            Position::CM | Position::AM => 12,
            Position::GK => 11,
            _ => 10,
        },
        EventType::KeyPass | EventType::Assist => match position {
            Position::GK => 16,
            Position::CB => 15,
            Position::FB | Position::RB | Position::LB => 14,
            Position::DM => 13,
            Position::CF | Position::SS => 12,
            Position::CM | Position::AM => 11,
            _ => 10,
        },
        _ => 10,
    }
}

/// The position multiplier in millionths.
pub open spec fn position_multiplier_of(event_type: EventType, position: Position) -> int {
    position_tenths(event_type, position) * 100_000
}

/// The difficulty multiplier against opposition of the given quality:
/// `1 + (quality / 50 - 1) * 0.3`, which is `0.7 + 0.006 * quality`, as a
/// whole number of millionths (rounded down).
pub open spec fn difficulty_multiplier_of(opposition_quality: int) -> int {
    700_000 + opposition_quality * 3 / 500
}

/// The clutch multiplier: 1.0, times 1.2 after minute 75, times 1.15 when the
/// score is close. The importance of the match does not enter, and the cap of
/// 2.0 is never reached.
pub open spec fn clutch_multiplier_of(minute: int, score_difference: int) -> int {
    if minute > 75 && is_close(score_difference) {
        1_380_000
    } else if minute > 75 {
        1_200_000
    } else if is_close(score_difference) {
        1_150_000
    } else {
        1_000_000
    }
}

/// The period an event in `minute` is tagged with: the first half before
/// minute 45, the second half from then on, extra time included.
pub open spec fn half_of(minute: int) -> MatchHalf {
    if minute < 45 {
        MatchHalf::First
    } else {
        MatchHalf::Second
    }
}

/// The chance, in millionths, that an action in `minute` takes place in the
/// attacking part of the pitch: `0.2 + (minute / 90) * 0.3`, rounded down.
pub open spec fn final_third_chance(minute: int) -> int {
    200_000 + minute * 10_000 / 3
}

/// The zone of an action in `minute`. The first roll decides between the
/// attacking part and the rest of the pitch, the second within each.
pub open spec fn pitch_zone_for(minute: int, first_roll: int, second_roll: int) -> PitchZone {
    if first_roll < final_third_chance(minute) {
        if second_roll < 600_000 {
            PitchZone::FinalThird
        } else {
            PitchZone::Box
        }
    } else if second_roll < 500_000 {
        PitchZone::MiddleThird
    } else {
        PitchZone::DefensiveThird
    }
}

/// The zone of an action in `minute` for the two rolls given.
pub fn pitch_zone_for_rolls(minute: u8, first_roll: i64, second_roll: i64) -> (zone: PitchZone)
    ensures
        zone == pitch_zone_for(minute as int, first_roll as int, second_roll as int),
{
    let chance: i64 = 200_000 + (minute as i64) * 10_000 / 3;
    if first_roll < chance {
        if second_roll < 600_000 {
            PitchZone::FinalThird
        } else {
            PitchZone::Box
        }
    } else if second_roll < 500_000 {
        PitchZone::MiddleThird
    } else {
        PitchZone::DefensiveThird
    }
}

/// The product of a base impact and four multipliers, rounded toward zero.
pub fn total_impact(base: i64, time: i64, position: i64, difficulty: i64, clutch: i64) -> (total:
    i64)
    requires
        -MAX_FACTOR <= base <= MAX_FACTOR,
        0 <= time <= MAX_FACTOR,
        0 <= position <= MAX_FACTOR,
        0 <= difficulty <= MAX_FACTOR,
        0 <= clutch <= MAX_FACTOR,
    ensures
        total == impact_product(
            base as int,
            time as int,
            position as int,
            difficulty as int,
            clutch as int,
        ),
        -MAX_TOTAL_IMPACT <= total <= MAX_TOTAL_IMPACT,
        base >= 0 ==> total >= 0,
        base <= 0 ==> total <= 0,
{
    let size: i128 = if base < 0 {
        -(base as i128)
    } else {
        base as i128
    };
    let limit: i128 = MAX_FACTOR as i128;
    assert(0 <= size * time <= limit * limit) by (nonlinear_arith)
        requires
            0 <= size <= limit,
            0 <= time <= limit,
    ;
    let two: i128 = size * (time as i128);
    assert(0 <= two * position <= limit * limit * limit) by (nonlinear_arith)
        requires
            0 <= two <= limit * limit,
            0 <= position <= limit,
    ;
    let three: i128 = two * (position as i128);
    assert(0 <= three * difficulty <= limit * limit * limit * limit) by (nonlinear_arith)
        requires
            0 <= three <= limit * limit * limit,
            0 <= difficulty <= limit,
    ;
    let four: i128 = three * (difficulty as i128);
    assert(0 <= four * clutch <= limit * limit * limit * limit * limit) by (nonlinear_arith)
        requires
            0 <= four <= limit * limit * limit * limit,
            0 <= clutch <= limit,
    ;
    let five: i128 = four * (clutch as i128);
    let quotient: i128 = five / 1_000_000_000_000_000_000_000_000;
    proof {
        let exact: int = base * time * position * difficulty * clutch;
        assert(base < 0 ==> exact == -(five as int)) by (nonlinear_arith)
            requires
                five == size * time * position * difficulty * clutch,
                base < 0 ==> size == -base,
                exact == base * time * position * difficulty * clutch,
        ;
        assert(base >= 0 ==> exact == five as int);
        assert(base == 0 ==> five == 0) by (nonlinear_arith)
            requires
                five == size * time * position * difficulty * clutch,
                base == 0 ==> size == 0,
        ;
    }
    if base < 0 {
        -(quotient as i64)
    } else {
        quotient as i64
    }
}

/// What the simulation of one match keeps while it runs.
#[derive(Debug)]
pub struct MatchState<'a> {
    pub match_id: u128,
    pub home_team_id: u128,
    pub away_team_id: u128,
    pub home_players: &'a [Player],
    pub away_players: &'a [Player],
    /// The chance that the home side has the ball in a given minute, in
    /// millionths: 0 leaves the ball to the away side, 1.0 to the home side
    pub home_tactical_balance: i64,
    /// Home goals minus away goals
    pub score_difference: i8,
    /// The quality of the opposition, 0 to 100, in millionths
    pub average_opposition_rating: i64,
    pub match_importance: MatchImportance,
}

/// Whether `index` is the place of the first player of `roster` with the
/// identifier `id`.
pub open spec fn is_first_with_id(roster: Seq<Player>, index: int, id: u128) -> bool {
    &&& 0 <= index < roster.len()
    &&& roster[index].id == id
    &&& forall|j: int| 0 <= j < index ==> (#[trigger] roster[j]).id != id
}

/// Whether some player of `roster` has the identifier `id`.
pub open spec fn roster_has(roster: Seq<Player>, id: u128) -> bool {
    exists|i: int| 0 <= i < roster.len() && (#[trigger] roster[i]).id == id
}

impl<'a> MatchState<'a> {
    /// The balance is a probability, the opposition's quality lies between 0
    /// and 100, and every player of both rosters is fit to play.
    pub open spec fn well_formed(&self) -> bool {
        &&& 0 <= self.home_tactical_balance <= SCALE
        &&& 0 <= self.average_opposition_rating <= 100 * SCALE
        &&& roster_fit_to_play(self.home_players@)
        &&& roster_fit_to_play(self.away_players@)
    }

    /// The roster that acts for `team_id`: the home roster for the home
    /// team's identifier, the away roster for any other.
    pub open spec fn roster_of(&self, team_id: u128) -> Seq<Player> {
        if team_id == self.home_team_id {
            self.home_players@
        } else {
            self.away_players@
        }
    }

    /// The identifier of the side that defends while `team_id` has the ball.
    pub open spec fn opponent_of(&self, team_id: u128) -> u128 {
        if team_id == self.home_team_id {
            self.away_team_id
        } else {
            self.home_team_id
        }
    }

    /// Whether `id` names a player of either roster.
    pub open spec fn has_player(&self, id: u128) -> bool {
        roster_has(self.home_players@, id) || roster_has(self.away_players@, id)
    }

    /// Whether `player` is the one that a search for `id` finds: the first
    /// with that identifier in the home roster, or, if the home roster has
    /// none, the first in the away roster.
    pub open spec fn finds(&self, id: u128, player: Player) -> bool {
        ||| exists|i: int|
            is_first_with_id(self.home_players@, i, id) && self.home_players@[i] == player
        ||| (!roster_has(self.home_players@, id) && exists|i: int|
            is_first_with_id(self.away_players@, i, id) && self.away_players@[i] == player)
    }

    /// The roster from which the secondary player of an action by `id` is
    /// taken: the other side's.
    pub open spec fn opposing_roster(&self, id: u128) -> Seq<Player> {
        if roster_has(self.home_players@, id) {
            self.away_players@
        } else {
            self.home_players@
        }
    }

    /// The state at kick-off: fresh identifiers for the match and both sides,
    /// the ball shared evenly, the score level, opposition of quality 6.5 and
    /// a league match.
    pub fn new(
        home_players: &'a [Player],
        away_players: &'a [Player],
        _home_lineup: &MatchLineup,
        _away_lineup: &MatchLineup,
    ) -> (state: MatchState<'a>)
        ensures
            state.home_players@ == home_players@,
            state.away_players@ == away_players@,
            state.home_tactical_balance == 500_000,
            state.score_difference == 0,
            state.average_opposition_rating == 6_500_000,
            state.match_importance == MatchImportance::League,
            state.match_id != NIL_ID,
            state.home_team_id != NIL_ID,
            state.away_team_id != NIL_ID,
            roster_fit_to_play(home_players@) && roster_fit_to_play(away_players@)
                ==> state.well_formed(),
    {
        MatchState {
            match_id: generate_unique_id(),
            home_team_id: generate_unique_id(),
            away_team_id: generate_unique_id(),
            home_players,
            away_players,
            home_tactical_balance: 500_000,
            score_difference: 0,
            average_opposition_rating: 6_500_000,
            match_importance: MatchImportance::League,
        }
    }
}

/// How much the position of a player draws them into play with the ball, in
/// millionths: most for forwards, least for the goalkeeper.
pub open spec fn involvement_position_factor(position: Position) -> int {
    match position {
        Position::CF | Position::SS => 1_200_000,
        Position::RW | Position::LW => 1_100_000,
        Position::CM => 1_000_000,
        Position::RM | Position::LM | Position::AM => 900_000,
        Position::DM => 850_000,
        Position::FB => 800_000,
        Position::CB | Position::RB | Position::LB => 700_000,
        Position::GK => 300_000,
    }
}

/// The weight with which a player is chosen to act on the ball: the factor of
/// their position, times form, morale and technical average, each taken
/// relative to 50, as a whole number of millionths (rounded down).
pub open spec fn involvement_weight_of(player: Player) -> int {
    involvement_position_factor(player.primary_position) * player.form * player.morale
        * player.technical.spec_average() / 125_000_000_000_000_000_000_000
}

/// How much the position of a player draws them into defending, in
/// millionths: most for centre backs, least for forwards.
pub open spec fn defensive_position_factor(position: Position) -> int {
    match position {
        Position::CB => 1_300_000,
        Position::FB | Position::RB | Position::LB => 1_200_000,
        Position::DM => 1_100_000,
        Position::GK => 1_000_000,
        Position::CM => 900_000,
        Position::RM | Position::LM => 800_000,
        Position::RW | Position::LW | Position::AM => 700_000,
        Position::CF | Position::SS => 500_000,
    }
}

/// The weight with which a player is chosen for a reactive defensive action:
/// the factor of their position, times tackling and positioning, each taken
/// relative to 50, as a whole number of millionths (rounded down).
pub open spec fn defensive_weight_of(player: Player) -> int {
    defensive_position_factor(player.primary_position) * player.technical.tackling
        * player.mental.positioning / 2500
}

/// The sum of the first `count` weights of `items`.
pub open spec fn weight_sum(items: Seq<(u128, i64)>, count: int) -> int
    decreases count,
{
    if count <= 0 {
        0
    } else {
        weight_sum(items, count - 1) + items[count - 1].1
    }
}

/// No weight of `items` is negative.
pub open spec fn weights_non_negative(items: Seq<(u128, i64)>) -> bool {
    forall|i: int| 0 <= i < items.len() ==> (#[trigger] items[i]).1 >= 0
}

/// Whether the draw `draw` falls on the item at `index`: the weights before
/// it sum to at most `draw`, and together with its own to more.
pub open spec fn is_selected(items: Seq<(u128, i64)>, draw: int, index: int) -> bool {
    &&& 0 <= index < items.len()
    &&& weight_sum(items, index) <= draw < weight_sum(items, index + 1)
}

/// With no negative weight, the sums of the weights grow with the count.
pub proof fn lemma_weight_sum_monotonic(items: Seq<(u128, i64)>, low: int, high: int)
    requires
        weights_non_negative(items),
        0 <= low <= high <= items.len(),
    ensures
        0 <= weight_sum(items, low) <= weight_sum(items, high),
    decreases high,
{
    if high > 0 {
        if low < high {
            lemma_weight_sum_monotonic(items, low, high - 1);
        } else {
            lemma_weight_sum_monotonic(items, low - 1, high - 1);
        }
    }
}

/// A draw falls on at most one item.
pub proof fn lemma_selected_unique(items: Seq<(u128, i64)>, draw: int, first: int, second: int)
    requires
        weights_non_negative(items),
        is_selected(items, draw, first),
        is_selected(items, draw, second),
    ensures
        first == second,
{
    if first < second {
        lemma_weight_sum_monotonic(items, first + 1, second);
    } else if second < first {
        lemma_weight_sum_monotonic(items, second + 1, first);
    }
}

/// With no negative weight, the weights sum to more than nothing exactly
/// where one of them is more than nothing.
pub proof fn lemma_weight_sum_positive(items: Seq<(u128, i64)>, count: int)
    requires
        weights_non_negative(items),
        0 <= count <= items.len(),
    ensures
        weight_sum(items, count) > 0 <==> exists|j: int|
            0 <= j < count && (#[trigger] items[j]).1 > 0,
    decreases count,
{
    if count > 0 {
        lemma_weight_sum_positive(items, count - 1);
        lemma_weight_sum_monotonic(items, count - 1, count);
        if weight_sum(items, count - 1) > 0 {
            let j = choose|j: int| 0 <= j < count - 1 && (#[trigger] items[j]).1 > 0;
            assert(items[j].1 > 0);
        } else if items[count - 1].1 > 0 {
            assert(items[count - 1].1 > 0);
        } else {
            assert forall|j: int| 0 <= j < count implies !((#[trigger] items[j]).1 > 0) by {
                if j < count - 1 {
                    if items[j].1 > 0 {
                        assert(exists|k: int| 0 <= k < count - 1 && (#[trigger] items[k]).1 > 0);
                    }
                }
            }
        }
    }
}

/// Whether some player of the roster has a weight above zero for acting on
/// the ball.
pub open spec fn some_can_act(roster: Seq<Player>) -> bool {
    exists|j: int| 0 <= j < roster.len() && involvement_weight_of(#[trigger] roster[j]) > 0
}

/// Whether `id` can be chosen from `roster` to act on the ball: it names a
/// player whose weight is above zero; or, where no weight is above zero, the
/// first player.
pub open spec fn can_act(roster: Seq<Player>, id: u128) -> bool {
    exists|i: int|
        0 <= i < roster.len() && (#[trigger] roster[i]).id == id && (if some_can_act(roster) {
            involvement_weight_of(roster[i]) > 0
        } else {
            i == 0
        })
}

/// Whether some player of the roster has a weight above zero for reacting.
pub open spec fn some_can_react(roster: Seq<Player>) -> bool {
    exists|j: int| 0 <= j < roster.len() && defensive_weight_of(#[trigger] roster[j]) > 0
}

/// Whether `id` can be chosen from `roster` to react: it names a player whose
/// weight is above zero; or, where no weight is above zero, the first player.
pub open spec fn can_react(roster: Seq<Player>, id: u128) -> bool {
    exists|i: int|
        0 <= i < roster.len() && (#[trigger] roster[i]).id == id && (if some_can_react(roster) {
            defensive_weight_of(roster[i]) > 0
        } else {
            i == 0
        })
}

/// The sum of all weights of `items`.
pub fn total_weight(items: &[(u128, i64)]) -> (total: u128)
    requires
        weights_non_negative(items@),
    ensures
        total == weight_sum(items@, items@.len() as int),
{
    let mut total: u128 = 0;
    let mut i: usize = 0;
    while i < items.len()
        invariant
            0 <= i <= items@.len(),
            weights_non_negative(items@),
            total == weight_sum(items@, i as int),
            total <= i * i64::MAX,
        decreases items@.len() - i,
    {
        assert(items@[i as int].1 >= 0);
        assert((i + 1) * i64::MAX == i * i64::MAX + i64::MAX) by (nonlinear_arith);
        assert(i * i64::MAX + i64::MAX <= usize::MAX * i64::MAX + i64::MAX) by (nonlinear_arith)
            requires
                i <= usize::MAX,
        ;
        total = total + items[i].1 as u128;
        i = i + 1;
    }
    total
}

/// The item on which the draw `draw` falls, by its place in `items`.
pub fn selected_index(items: &[(u128, i64)], draw: u128) -> (index: usize)
    requires
        weights_non_negative(items@),
        draw < weight_sum(items@, items@.len() as int),
    ensures
        is_selected(items@, draw as int, index as int),
{
    let mut cumulative: u128 = 0;
    let mut i: usize = 0;
    proof {
        lemma_weight_sum_monotonic(items@, 0, items@.len() as int);
    }
    while i < items.len()
        invariant
            0 <= i <= items@.len(),
            weights_non_negative(items@),
            cumulative == weight_sum(items@, i as int),
            cumulative <= draw,
            draw < weight_sum(items@, items@.len() as int),
        decreases items@.len() - i,
    {
        proof {
            lemma_weight_sum_monotonic(items@, i as int + 1, items@.len() as int);
        }
        assert(items@[i as int].1 >= 0);
        let weight: u128 = items[i].1 as u128;
        if draw - cumulative < weight {
            return i;
        }
        cumulative = cumulative + weight;
        i = i + 1;
    }
    proof {
        assert(false);
    }
    0
}

/// The identifier on which the draw `draw` falls.
///
/// With no item there is nothing to choose, and the nil identifier comes
/// back. Where all weights are zero the first item is chosen. Otherwise the
/// chosen item is the first whose weight, added to those before it, exceeds
/// the draw; an item of weight zero is never chosen. A draw that is not below
/// the sum of the weights falls on the last item.
pub fn weighted_selection_for_draw(items: &[(u128, i64)], draw: u128) -> (chosen: u128)
    requires
        weights_non_negative(items@),
    ensures
        items@.len() == 0 ==> chosen == NIL_ID,
        items@.len() > 0 && weight_sum(items@, items@.len() as int) == 0 ==> chosen == items@[0].0,
        items@.len() > 0 && draw < weight_sum(items@, items@.len() as int) ==> exists|k: int|
            is_selected(items@, draw as int, k) && chosen == (#[trigger] items@[k]).0,
        items@.len() > 0 && 0 < weight_sum(items@, items@.len() as int) <= draw ==> chosen
            == items@[items@.len() - 1].0,
{
    if items.len() == 0 {
        return NIL_ID;
    }
    let total: u128 = total_weight(items);
    if total == 0 {
        return items[0].0;
    }
    if draw >= total {
        return items[items.len() - 1].0;
    }
    let index: usize = selected_index(items, draw);
    items[index].0
}

/// The attribute that decides whether an action of the given type succeeds,
/// and the number by which it is divided to give the base success rate. A
/// type that is not listed succeeds at a base rate of 0.7.
pub open spec fn success_basis(player: Player, event_type: EventType) -> (int, int) {
    match event_type {
        EventType::Goal => (player.technical.shooting as int, 120),
        EventType::ShotOnTarget => (player.technical.shooting as int, 100),
        EventType::KeyPass => (player.technical.passing as int, 100),
        EventType::Assist => (player.technical.passing as int, 90),
        EventType::DribbleSuccess => (player.technical.dribbling as int, 100),
        EventType::TackleWon => (player.technical.tackling as int, 100),
        EventType::Interception => (player.mental.vision as int, 100),
        EventType::Block => (player.mental.positioning as int, 100),
        EventType::Clearance => (player.mental.positioning as int, 90),
        EventType::Save => (player.hidden.big_match_temperament as int, 100),
        _ => (7, 10),
    }
}

/// The largest chance of success an action can have: 0.95.
pub const MAX_SUCCESS_RATE: i64 = 950_000;

/// The chance, in millionths, that `player` succeeds with an action of the
/// given type: the base rate, times form and morale, each taken relative to
/// 70, rounded down and capped at 0.95.
pub open spec fn success_rate_of(player: Player, event_type: EventType) -> int {
    let basis = success_basis(player, event_type);
    let rate = basis.0 * player.form * player.morale / (basis.1 * 4_900_000_000);
    if rate > MAX_SUCCESS_RATE {
        MAX_SUCCESS_RATE as int
    } else {
        rate
    }
}

/// Whether `player` succeeds with an action of the given type when the roll
/// `drawn` decides: the roll stays below the chance of success.
pub open spec fn succeeds_on(player: Player, event_type: EventType, drawn: int) -> bool {
    drawn < success_rate_of(player, event_type)
}

/// The chance, in millionths, that `player` succeeds with an action of the
/// given type.
pub fn success_rate(player: &Player, event_type: &EventType) -> (rate: i64)
    requires
        player.fit_to_play(),
    ensures
        rate == success_rate_of(*player, *event_type),
        0 <= rate <= MAX_SUCCESS_RATE,
{
    let (attribute, divisor): (i128, i128) = match event_type {
        EventType::Goal => (player.technical.shooting as i128, 120),
        EventType::ShotOnTarget => (player.technical.shooting as i128, 100),
        EventType::KeyPass => (player.technical.passing as i128, 100),
        EventType::Assist => (player.technical.passing as i128, 90),
        EventType::DribbleSuccess => (player.technical.dribbling as i128, 100),
        EventType::TackleWon => (player.technical.tackling as i128, 100),
        EventType::Interception => (player.mental.vision as i128, 100),
        EventType::Block => (player.mental.positioning as i128, 100),
        EventType::Clearance => (player.mental.positioning as i128, 90),
        EventType::Save => (player.hidden.big_match_temperament as i128, 100),
        _ => (7, 10),
    };
    let form: i128 = player.form as i128;
    let morale: i128 = player.morale as i128;
    assert(0 <= attribute * form <= 255 * 100_000_000) by (nonlinear_arith)
        requires
            0 <= attribute <= 255,
            0 <= form <= 100_000_000,
    ;
    let with_form: i128 = attribute * form;
    assert(0 <= with_form * morale <= 255 * 100_000_000 * 100_000_000) by (nonlinear_arith)
        requires
            0 <= with_form <= 255 * 100_000_000,
            0 <= morale <= 100_000_000,
    ;
    let rate: i128 = with_form * morale / (divisor * 4_900_000_000);
    if rate > MAX_SUCCESS_RATE as i128 {
        MAX_SUCCESS_RATE
    } else {
        rate as i64
    }
}

/// Whether `player` succeeds with an action of the given type for the roll
/// given.
pub fn succeeds_for_roll(player: &Player, event_type: &EventType, drawn: i64) -> (success: bool)
    requires
        player.fit_to_play(),
    ensures
        success == succeeds_on(*player, *event_type, drawn as int),
{
    drawn < success_rate(player, event_type)
}

/// The event that is recorded for an action of `player` in `minute`, once its
/// identifier, type, secondary player, zone and outcome are decided: the five
/// impact factors follow from the type, the minute, the player's position
/// and the state of the match, and the total impact score is their product.
pub open spec fn scored_event(
    state: &MatchState,
    player: Player,
    minute: u8,
    id: u128,
    event_type: EventType,
    secondary: Option<u128>,
    zone: PitchZone,
    success: bool,
) -> MatchEvent {
    let base = base_impact_of(event_type);
    let time = time_multiplier_of(minute as int, state.score_difference as int);
    let position = position_multiplier_of(event_type, player.primary_position);
    let difficulty = difficulty_multiplier_of(state.average_opposition_rating as int);
    let clutch = clutch_multiplier_of(minute as int, state.score_difference as int);
    MatchEvent {
        id,
        match_id: state.match_id,
        minute,
        half: half_of(minute as int),
        event_type,
        player_involved: player.id,
        secondary_player: secondary,
        pitch_zone: zone,
        success,
        base_impact: base as i64,
        time_multiplier: time as i64,
        position_multiplier: position as i64,
        difficulty_multiplier: difficulty as i64,
        clutch_multiplier: clutch as i64,
        total_impact_score: impact_product(base, time, position, difficulty, clutch) as i64,
    }
}

/// Every event that the engine scores is consistent: its factors are in
/// range, and its total impact score is the product of its base impact and
/// its four multipliers.
pub proof fn lemma_scored_event_is_consistent(
    state: &MatchState,
    player: Player,
    minute: u8,
    id: u128,
    event_type: EventType,
    secondary: Option<u128>,
    zone: PitchZone,
    success: bool,
)
    requires
        0 <= state.average_opposition_rating <= 100 * SCALE,
    ensures
        scored_event(state, player, minute, id, event_type, secondary, zone, success).well_formed(),
{
    let base = base_impact_of(event_type);
    let time = time_multiplier_of(minute as int, state.score_difference as int);
    let position = position_multiplier_of(event_type, player.primary_position);
    let difficulty = difficulty_multiplier_of(state.average_opposition_rating as int);
    let clutch = clutch_multiplier_of(minute as int, state.score_difference as int);
    let pressure = pressure_tenths(minute as int, state.score_difference as int);
    assert(3000 <= (300 + minute) * pressure <= 555 * 14) by (nonlinear_arith)
        requires
            0 <= minute <= 255,
            10 <= pressure <= 14,
    ;
    assert(0 <= time <= MAX_FACTOR);
    assert(-MAX_FACTOR <= base <= MAX_FACTOR);
    assert(0 <= position <= MAX_FACTOR);
    assert(0 <= difficulty <= MAX_FACTOR);
    assert(0 <= clutch <= MAX_FACTOR);
    lemma_product_fits(base, time, position, difficulty, clutch);
}

/// The product of factors in range fits a total impact score.
pub proof fn lemma_product_fits(base: int, time: int, position: int, difficulty: int, clutch: int)
    requires
        -MAX_FACTOR <= base <= MAX_FACTOR,
        0 <= time <= MAX_FACTOR,
        0 <= position <= MAX_FACTOR,
        0 <= difficulty <= MAX_FACTOR,
        0 <= clutch <= MAX_FACTOR,
    ensures
        -MAX_TOTAL_IMPACT <= impact_product(base, time, position, difficulty, clutch)
            <= MAX_TOTAL_IMPACT,
{
    let limit = MAX_FACTOR as int;
    let rest = time * position * difficulty * clutch;
    assert(0 <= rest <= limit * limit * limit * limit) by (nonlinear_arith)
        requires
            rest == time * position * difficulty * clutch,
            0 <= time <= limit,
            0 <= position <= limit,
            0 <= difficulty <= limit,
            0 <= clutch <= limit,
    ;
    let exact = base * time * position * difficulty * clutch;
    assert(exact == base * rest) by (nonlinear_arith)
        requires
            exact == base * time * position * difficulty * clutch,
            rest == time * position * difficulty * clutch,
    ;
    assert(-(limit * (limit * limit * limit * limit)) <= base * rest <= limit * (limit * limit
        * limit * limit)) by (nonlinear_arith)
        requires
            -limit <= base <= limit,
            0 <= rest <= limit * limit * limit * limit,
    ;
    crate::fixed::lemma_trunc_div_monotonic(
        exact,
        100_000_000_000_000_000_000_000_000_000_000_000,
        1_000_000_000_000_000_000_000_000,
    );
    crate::fixed::lemma_trunc_div_monotonic(
        -100_000_000_000_000_000_000_000_000_000_000_000,
        exact,
        1_000_000_000_000_000_000_000_000,
    );
}

/// Whether `secondary` can be the secondary player of an action by the player
/// `id`: a player of the other side, and none only where that side is empty.
pub open spec fn is_possible_secondary(state: &MatchState, id: u128, secondary: Option<u128>)
    -> bool {
    match secondary {
        Some(other) => roster_has(state.opposing_roster(id), other),
        None => state.opposing_roster(id).len() == 0,
    }
}

/// Whether `zone` is one of the four zones in which the engine places an
/// action.
pub open spec fn is_simulated_zone(zone: PitchZone) -> bool {
    zone == PitchZone::FinalThird || zone == PitchZone::Box || zone == PitchZone::MiddleThird
        || zone == PitchZone::DefensiveThird
}

/// What holds of every event that the engine can record for `player` in
/// `minute`, whatever was drawn, apart from its type.
pub open spec fn is_event_of(state: &MatchState, player: Player, minute: u8, event: MatchEvent)
    -> bool {
    &&& event == scored_event(
        state,
        player,
        minute,
        event.id,
        event.event_type,
        event.secondary_player,
        event.pitch_zone,
        event.success,
    )
    &&& event.id != NIL_ID
    &&& is_possible_secondary(state, player.id, event.secondary_player)
    &&& is_simulated_zone(event.pitch_zone)
    &&& event.success ==> success_rate_of(player, event.event_type) > 0
    &&& event.well_formed()
}

/// Whether `event_type` is an action on the ball that a player in `position`
/// can be given.
pub open spec fn is_action_of(position: Position, event_type: EventType) -> bool {
    exists|roll: int| 0 <= roll < SCALE && event_type == #[trigger] action_for(position, roll)
}

/// Whether `event_type` is a reactive action that a defending player in
/// `position` can be given.
pub open spec fn is_defensive_action_of(position: Position, event_type: EventType) -> bool {
    exists|first: int, second: int|
        0 <= first < SCALE && 0 <= second < SCALE && event_type == #[trigger] defensive_action_for(
            position,
            first,
            second,
        )
}

/// Whether `event` can be the action on the ball of a player of the rosters
/// in `minute`.
#[verifier::opaque]
pub open spec fn is_action_event(state: &MatchState, minute: u8, event: MatchEvent) -> bool {
    exists|player: Player|
        {
            &&& #[trigger] state.finds(event.player_involved, player)
            &&& is_event_of(state, player, minute, event)
            &&& is_action_of(player.primary_position, event.event_type)
        }
}

/// Whether `event` can be the reactive action of a player of the rosters in
/// `minute`.
#[verifier::opaque]
pub open spec fn is_reaction_event(state: &MatchState, minute: u8, event: MatchEvent) -> bool {
    exists|player: Player|
        {
            &&& #[trigger] state.finds(event.player_involved, player)
            &&& is_event_of(state, player, minute, event)
            &&& is_defensive_action_of(player.primary_position, event.event_type)
        }
}

/// What holds of every event of `minute` that the engine can record: it
/// belongs to a player of the rosters, and it is an action on the ball or a
/// reactive action of that player.
pub open spec fn is_event_of_minute(state: &MatchState, minute: u8, event: MatchEvent) -> bool {
    is_action_event(state, minute, event) || is_reaction_event(state, minute, event)
}

/// An event of a minute carries that minute, is consistent, and belongs to a
/// player of the rosters.
pub proof fn lemma_event_of_minute(state: &MatchState, minute: u8, event: MatchEvent)
    requires
        is_event_of_minute(state, minute, event),
    ensures
        event.minute == minute,
        event.well_formed(),
        event.match_id == state.match_id,
        state.has_player(event.player_involved),
{
    reveal(is_action_event);
    reveal(is_reaction_event);
}

/// Whether the two events of a minute are an action on the ball by a player
/// of one side and the reaction of a player of the other side.
#[verifier::opaque]
pub open spec fn is_exchange(
    state: &MatchState,
    minute: u8,
    action: MatchEvent,
    reaction: MatchEvent,
) -> bool {
    &&& is_action_event(state, minute, action)
    &&& is_reaction_event(state, minute, reaction)
    &&& exists|team_id: u128|
        {
            &&& (team_id == state.home_team_id || team_id == state.away_team_id)
            &&& #[trigger] roster_has(state.roster_of(team_id), action.player_involved)
            &&& roster_has(state.roster_of(state.opponent_of(team_id)), reaction.player_involved)
        }
}

/// The number of events of `minute` among the first `count` events.
pub open spec fn events_in_minute(log: Seq<MatchEvent>, count: int, minute: int) -> int
    decreases count,
{
    if count <= 0 {
        0
    } else if log[count - 1].minute == minute {
        events_in_minute(log, count - 1, minute) + 1
    } else {
        events_in_minute(log, count - 1, minute)
    }
}

/// The events of a minute in two logs, one behind the other, are those of
/// the first and those of the second.
pub proof fn lemma_events_in_minute_of_both(
    first: Seq<MatchEvent>,
    second: Seq<MatchEvent>,
    count: int,
    minute: int,
)
    requires
        0 <= count <= second.len(),
    ensures
        events_in_minute(first + second, first.len() + count, minute) == events_in_minute(
            first,
            first.len() as int,
            minute,
        ) + events_in_minute(second, count, minute),
    decreases count,
{
    if count > 0 {
        lemma_events_in_minute_of_both(first, second, count - 1, minute);
        assert((first + second)[first.len() + count - 1] == second[count - 1]);
    } else {
        lemma_events_in_minute_of_prefix(first + second, first, first.len() as int, minute);
    }
}

/// The events of a minute among the first events of a log depend on those
/// first events alone.
pub proof fn lemma_events_in_minute_of_prefix(
    log: Seq<MatchEvent>,
    other: Seq<MatchEvent>,
    count: int,
    minute: int,
)
    requires
        0 <= count <= log.len(),
        count <= other.len(),
        forall|i: int| 0 <= i < count ==> log[i] == other[i],
    ensures
        events_in_minute(log, count, minute) == events_in_minute(other, count, minute),
    decreases count,
{
    if count > 0 {
        lemma_events_in_minute_of_prefix(log, other, count - 1, minute);
    }
}

/// A log whose events all belong to one minute has all of them in that
/// minute and none in any other.
pub proof fn lemma_events_of_one_minute(log: Seq<MatchEvent>, count: int, minute: int, other: int)
    requires
        0 <= count <= log.len(),
        forall|i: int| 0 <= i < log.len() ==> (#[trigger] log[i]).minute == minute,
    ensures
        events_in_minute(log, count, other) == (if other == minute {
            count
        } else {
            0
        }),
    decreases count,
{
    if count > 0 {
        lemma_events_of_one_minute(log, count - 1, minute, other);
    }
}

/// A log has no events in a minute that none of its events belongs to.
pub proof fn lemma_no_events_in_minute(log: Seq<MatchEvent>, count: int, minute: int)
    requires
        0 <= count <= log.len(),
        forall|i: int| 0 <= i < log.len() ==> (#[trigger] log[i]).minute != minute,
    ensures
        events_in_minute(log, count, minute) == 0,
    decreases count,
{
    if count > 0 {
        lemma_no_events_in_minute(log, count - 1, minute);
    }
}

/// Whether some player of `roster` has the identifier `id`.
pub fn roster_contains(roster: &[Player], id: u128) -> (found: bool)
    ensures
        found == roster_has(roster@, id),
{
    let mut i: usize = 0;
    while i < roster.len()
        invariant
            0 <= i <= roster@.len(),
            forall|j: int| 0 <= j < i ==> (#[trigger] roster@[j]).id != id,
        decreases roster@.len() - i,
    {
        if roster[i].id == id {
            return true;
        }
        i = i + 1;
    }
    false
}

/// The first player of `roster` with the identifier `id`, by place.
pub fn first_with_id(roster: &[Player], id: u128) -> (place: Option<usize>)
    ensures
        place.is_some() <==> roster_has(roster@, id),
        place matches Some(index) ==> is_first_with_id(roster@, index as int, id),
{
    let mut i: usize = 0;
    while i < roster.len()
        invariant
            0 <= i <= roster@.len(),
            forall|j: int| 0 <= j < i ==> (#[trigger] roster@[j]).id != id,
        decreases roster@.len() - i,
    {
        if roster[i].id == id {
            return Some(i);
        }
        i = i + 1;
    }
    None
}

/// The match engine. It owns the random generator from which every decision
/// of a simulation is drawn.
pub struct MatchEngine {
    rng: rand::rngs::ThreadRng,
}

impl MatchEngine {
    /// An engine on the random generator of the current thread.
    pub fn new() -> (engine: MatchEngine) {
        MatchEngine { rng: rand::thread_rng() }
    }

    /// The weight with which `player` is chosen to act on the ball in a given
    /// minute. The minute does not enter.
    pub fn calculate_player_involvement_weight(&self, player: &Player, _minute: u8) -> (weight: i64)
        requires
            player.fit_to_play(),
        ensures
            weight == involvement_weight_of(*player),
            0 <= weight <= 24_480_000,
    {
        let position_factor: i128 = match player.primary_position {
            Position::CF | Position::SS => 1_200_000,
            Position::RW | Position::LW => 1_100_000,
            Position::CM => 1_000_000,
            Position::RM | Position::LM => 900_000,
            Position::CB => 700_000,
            Position::FB => 800_000,
            Position::DM => 850_000,
            Position::GK => 300_000,
            Position::RB => 700_000,
            Position::LB => 700_000,
            Position::AM => 900_000,
        };
        let form: i128 = player.form as i128;
        let morale: i128 = player.morale as i128;
        let technical: i128 = player.technical.average() as i128;
        assert(0 <= position_factor * form <= 1_200_000 * 100_000_000) by (nonlinear_arith)
            requires
                0 <= position_factor <= 1_200_000,
                0 <= form <= 100_000_000,
        ;
        let with_form: i128 = position_factor * form;
        assert(0 <= with_form * morale <= 1_200_000 * 100_000_000 * 100_000_000)
            by (nonlinear_arith)
            requires
                0 <= with_form <= 1_200_000 * 100_000_000,
                0 <= morale <= 100_000_000,
        ;
        let with_morale: i128 = with_form * morale;
        assert(0 <= with_morale * technical <= 1_200_000 * 100_000_000 * 100_000_000
            * 255_000_000) by (nonlinear_arith)
            requires
                0 <= with_morale <= 1_200_000 * 100_000_000 * 100_000_000,
                0 <= technical <= 255_000_000,
        ;
        let product: i128 = with_morale * technical;
        (product / 125_000_000_000_000_000_000_000) as i64
    }

    /// The weight with which `player` is chosen for a reactive defensive
    /// action.
    pub fn calculate_player_defensive_weight(&self, player: &Player) -> (weight: i64)
        ensures
            weight == defensive_weight_of(*player),
            0 <= weight <= 33_813_000,
    {
        let position_factor: i64 = match player.primary_position {
            Position::CB => 1_300_000,
            Position::FB => 1_200_000,
            Position::DM => 1_100_000,
            Position::CM => 900_000,
            Position::RM | Position::LM => 800_000,
            Position::RW | Position::LW => 700_000,
            Position::CF | Position::SS => 500_000,
            Position::GK => 1_000_000,
            Position::RB => 1_200_000,
            Position::LB => 1_200_000,
            Position::AM => 700_000,
        };
        let tackling: i64 = player.technical.tackling as i64;
        let positioning: i64 = player.mental.positioning as i64;
        assert(0 <= position_factor * tackling <= 1_300_000 * 255) by (nonlinear_arith)
            requires
                0 <= position_factor <= 1_300_000,
                0 <= tackling <= 255,
        ;
        let with_tackling: i64 = position_factor * tackling;
        assert(0 <= with_tackling * positioning <= 1_300_000 * 255 * 255) by (nonlinear_arith)
            requires
                0 <= with_tackling <= 1_300_000 * 255,
                0 <= positioning <= 255,
        ;
        with_tackling * positioning / 2500
    }

    /// The base impact of an event of the given type.
    pub fn get_base_impact(&self, event_type: &EventType) -> (impact: i64)
        ensures
            impact == base_impact_of(*event_type),
            -3_000_000 <= impact <= 8_000_000,
    {
        match event_type {
            EventType::Goal => 8_000_000,
            EventType::Assist => 5_000_000,
            EventType::KeyPass => 2_500_000,
            EventType::ShotOnTarget => 1_500_000,
            EventType::ShotOffTarget => 800_000,
            EventType::DribbleSuccess => 700_000,
            EventType::TackleWon => 1_200_000,
            EventType::Interception => 1_000_000,
            EventType::Block => 2_000_000,
            EventType::Clearance => 800_000,
            EventType::AerialDuelWon => 600_000,
            EventType::Save => 2_500_000,
            EventType::ReflexSave => 3_500_000,
            EventType::OneOnOneSave => 4_000_000,
            EventType::ClaimCross => 500_000,
            EventType::PunchClear => 600_000,
            EventType::SweeperClearance => 1_000_000,
            EventType::GoalConceded => -2_000_000,
            EventType::FoulCommitted => -500_000,
            EventType::YellowCard => -1_000_000,
            EventType::RedCard => -3_000_000,
            EventType::MissedBigChance => -2_500_000,
            EventType::PenaltyWon => 2_000_000,
            EventType::PenaltyConceded => -2_000_000,
            EventType::PenaltySaved => 4_000_000,
            EventType::PenaltyMissed => -3_000_000,
            _ => 0,
        }
    }

    /// The time multiplier of an event in `minute` at the given score
    /// difference: it grows with the minute, and with the pressure of a close
    /// game.
    pub fn calculate_time_multiplier(&self, minute: u8, score_difference: i8) -> (multiplier: i64)
        ensures
            multiplier == time_multiplier_of(minute as int, score_difference as int),
            1_000_000 <= multiplier <= 2_590_000,
    {
        let close: bool = -1 <= score_difference && score_difference <= 1;
        let pressure: i64 = if close && minute > 70 {
            14
        } else if close {
            12
        } else {
            10
        };
        let grown: i64 = 300 + minute as i64;
        assert(3000 <= grown * pressure <= 555 * 14) by (nonlinear_arith)
            requires
                300 <= grown <= 555,
                10 <= pressure <= 14,
        ;
        grown * pressure * SCALE / 3000
    }

    /// The position multiplier of an event of the given type by a player in
    /// `position`.
    pub fn calculate_position_multiplier(&self, event_type: &EventType, position: Position) -> (multiplier:
        i64)
        ensures
            multiplier == position_multiplier_of(*event_type, position),
            1_000_000 <= multiplier <= 2_000_000,
    {
        match event_type {
            EventType::Goal => match position {
                Position::CF | Position::SS => 1_000_000,
                Position::RW | Position::LW => 1_100_000,
                Position::CM => 1_200_000,
                Position::DM => 1_300_000,
                Position::FB => 1_400_000,
                Position::CB => 1_500_000,
                Position::GK => 2_000_000,
                Position::RB => 1_400_000,
                Position::LB => 1_400_000,
                Position::AM => 1_200_000,
                Position::RM | Position::LM => 1_200_000,
            },
            EventType::TackleWon | EventType::Interception | EventType::Clearance => match position {
                Position::CF | Position::SS => 1_400_000,
                Position::RW | Position::LW => 1_300_000,
                Position::CM => 1_200_000,
                Position::DM | Position::CB | Position::FB => 1_000_000,
                Position::GK => 1_100_000,
                Position::RB => 1_000_000,
                Position::LB => 1_000_000,
                Position::AM => 1_200_000,
                Position::RM | Position::LM => 1_000_000,
            },
            EventType::KeyPass | EventType::Assist => match position {
                Position::CB => 1_500_000,
                Position::FB => 1_400_000,
                Position::DM => 1_300_000,
                Position::CM => 1_100_000,
                Position::RM => 1_000_000,
                Position::LM => 1_000_000,
                Position::RW | Position::LW => 1_000_000,
                Position::CF | Position::SS => 1_200_000,
                Position::RB => 1_400_000,
                Position::LB => 1_400_000,
                Position::AM => 1_100_000,
                Position::GK => 1_600_000,
            },
            _ => 1_000_000,
        }
    }

    /// The difficulty multiplier: the stronger the opposition, the more an
    /// action counts. The player does not enter.
    pub fn calculate_difficulty_multiplier(&self, _player: &Player, match_state: &MatchState) -> (multiplier:
        i64)
        requires
            0 <= match_state.average_opposition_rating <= 100 * SCALE,
        ensures
            multiplier == difficulty_multiplier_of(match_state.average_opposition_rating as int),
            700_000 <= multiplier <= 1_300_000,
    {
        700_000 + match_state.average_opposition_rating * 3 / 500
    }

    /// The clutch multiplier: late minutes and close scores count for more.
    /// The importance of the match is accepted and does not change the
    /// result.
    pub fn calculate_clutch_multiplier(
        &self,
        minute: u8,
        score_difference: i8,
        _match_importance: MatchImportance,
    ) -> (multiplier: i64)
        ensures
            multiplier == clutch_multiplier_of(minute as int, score_difference as int),
            1_000_000 <= multiplier <= 1_380_000,
    {
        let close: bool = -1 <= score_difference && score_difference <= 1;
        if minute > 75 && close {
            1_380_000
        } else if minute > 75 {
            1_200_000
        } else if close {
            1_150_000
        } else {
            1_000_000
        }
    }

    /// The player that `player_id` names: the first with that identifier in
    /// the home roster, or else the first in the away roster.
    pub fn find_player_by_id<'a>(&self, match_state: &MatchState<'a>, player_id: u128) -> (found:
        Option<&'a Player>)
        ensures
            found.is_some() <==> match_state.has_player(player_id),
            found matches Some(player) ==> match_state.finds(player_id, *player) && player.id
                == player_id,
    {
        match first_with_id(match_state.home_players, player_id) {
            Some(index) => Some(&match_state.home_players[index]),
            None => match first_with_id(match_state.away_players, player_id) {
                Some(index) => Some(&match_state.away_players[index]),
                None => None,
            },
        }
    }

    /// Chooses among weighted items by a random draw below the sum of the
    /// weights.
    ///
    /// With no item the nil identifier comes back. Where all weights are
    /// zero the first item is chosen; otherwise an item of positive weight.
    pub fn weighted_random_selection(&mut self, weighted_items: &[(u128, i64)]) -> (chosen: u128)
        requires
            weights_non_negative(weighted_items@),
        ensures
            weighted_items@.len() == 0 ==> chosen == NIL_ID,
            weighted_items@.len() > 0 ==> exists|k: int|
                {
                    &&& 0 <= k < weighted_items@.len()
                    &&& chosen == (#[trigger] weighted_items@[k]).0
                    &&& weight_sum(weighted_items@, weighted_items@.len() as int) > 0
                        ==> weighted_items@[k].1 > 0
                    &&& weight_sum(weighted_items@, weighted_items@.len() as int) == 0 ==> k == 0
                },
    {
        if weighted_items.len() == 0 {
            return NIL_ID;
        }
        let total: u128 = total_weight(weighted_items);
        if total == 0 {
            return weighted_items[0].0;
        }
        let draw: u128 = random_below(&mut self.rng, total);
        let index: usize = selected_index(weighted_items, draw);
        weighted_items[index].0
    }

    /// Chooses the player of the side `team_id` who acts on the ball in
    /// `minute`, each with the chance that their involvement weight gives
    /// them. An empty roster gives the nil identifier.
    pub fn select_player_for_action(&mut self, match_state: &MatchState, team_id: u128, minute: u8)
        -> (chosen: u128)
        requires
            match_state.well_formed(),
        ensures
            match_state.roster_of(team_id).len() == 0 ==> chosen == NIL_ID,
            match_state.roster_of(team_id).len() > 0 ==> roster_has(
                match_state.roster_of(team_id),
                chosen,
            ) && can_act(match_state.roster_of(team_id), chosen),
    {
        let team_players: &[Player] = if team_id == match_state.home_team_id {
            match_state.home_players
        } else {
            match_state.away_players
        };
        let mut weighted_players: Vec<(u128, i64)> = Vec::new();
        let mut i: usize = 0;
        while i < team_players.len()
            invariant
                0 <= i <= team_players@.len(),
                roster_fit_to_play(team_players@),
                weighted_players@.len() == i,
                weights_non_negative(weighted_players@),
                forall|j: int|
                    0 <= j < i ==> (#[trigger] weighted_players@[j]).0 == team_players@[j].id
                        && weighted_players@[j].1 == involvement_weight_of(team_players@[j]),
            decreases team_players@.len() - i,
        {
            let player: &Player = &team_players[i];
            assert(team_players@[i as int].fit_to_play());
            let involvement_weight: i64 = self.calculate_player_involvement_weight(player, minute);
            weighted_players.push((player.id, involvement_weight));
            i = i + 1;
        }
        let chosen: u128 = self.weighted_random_selection(weighted_players.as_slice());
        proof {
            if team_players@.len() > 0 {
                let items = weighted_players@;
                let k = choose|k: int|
                    {
                        &&& 0 <= k < items.len()
                        &&& chosen == (#[trigger] items[k]).0
                        &&& weight_sum(items, items.len() as int) > 0 ==> items[k].1 > 0
                        &&& weight_sum(items, items.len() as int) == 0 ==> k == 0
                    };
                assert(team_players@[k].id == chosen);
                lemma_weight_sum_positive(items, items.len() as int);
                lemma_weight_sum_monotonic(items, 0, items.len() as int);
                if some_can_act(team_players@) {
                    let j = choose|j: int|
                        0 <= j < team_players@.len() && involvement_weight_of(
                            #[trigger] team_players@[j],
                        ) > 0;
                    assert(items[j].1 > 0);
                } else if weight_sum(items, items.len() as int) > 0 {
                    let j = choose|j: int| 0 <= j < items.len() && (#[trigger] items[j]).1 > 0;
                    assert(involvement_weight_of(team_players@[j]) > 0);
                }
            }
        }
        chosen
    }

    /// Chooses the player of the side `team_id` who reacts to an action, each
    /// with the chance that their defensive weight gives them. An empty
    /// roster gives the nil identifier.
    pub fn select_player_for_defensive_action(
        &mut self,
        match_state: &MatchState,
        team_id: u128,
        _minute: u8,
    ) -> (chosen: u128)
        ensures
            match_state.roster_of(team_id).len() == 0 ==> chosen == NIL_ID,
            match_state.roster_of(team_id).len() > 0 ==> roster_has(
                match_state.roster_of(team_id),
                chosen,
            ) && can_react(match_state.roster_of(team_id), chosen),
    {
        let team_players: &[Player] = if team_id == match_state.home_team_id {
            match_state.home_players
        } else {
            match_state.away_players
        };
        let mut weighted_players: Vec<(u128, i64)> = Vec::new();
        let mut i: usize = 0;
        while i < team_players.len()
            invariant
                0 <= i <= team_players@.len(),
                weighted_players@.len() == i,
                weights_non_negative(weighted_players@),
                forall|j: int|
                    0 <= j < i ==> (#[trigger] weighted_players@[j]).0 == team_players@[j].id
                        && weighted_players@[j].1 == defensive_weight_of(team_players@[j]),
            decreases team_players@.len() - i,
        {
            let player: &Player = &team_players[i];
            let defensive_weight: i64 = self.calculate_player_defensive_weight(player);
            weighted_players.push((player.id, defensive_weight));
            i = i + 1;
        }
        let chosen: u128 = self.weighted_random_selection(weighted_players.as_slice());
        proof {
            if team_players@.len() > 0 {
                let items = weighted_players@;
                let k = choose|k: int|
                    {
                        &&& 0 <= k < items.len()
                        &&& chosen == (#[trigger] items[k]).0
                        &&& weight_sum(items, items.len() as int) > 0 ==> items[k].1 > 0
                        &&& weight_sum(items, items.len() as int) == 0 ==> k == 0
                    };
                assert(team_players@[k].id == chosen);
                lemma_weight_sum_positive(items, items.len() as int);
                lemma_weight_sum_monotonic(items, 0, items.len() as int);
                if some_can_react(team_players@) {
                    let j = choose|j: int|
                        0 <= j < team_players@.len() && defensive_weight_of(
                            #[trigger] team_players@[j],
                        ) > 0;
                    assert(items[j].1 > 0);
                } else if weight_sum(items, items.len() as int) > 0 {
                    let j = choose|j: int| 0 <= j < items.len() && (#[trigger] items[j]).1 > 0;
                    assert(defensive_weight_of(team_players@[j]) > 0);
                }
            }
        }
        chosen
    }

    /// Draws the action that `player` takes on the ball.
    pub fn decide_action_type(&mut self, player: &Player, _match_state: &MatchState, _minute: u8)
        -> (action: EventType)
        ensures
            is_action_of(player.primary_position, action),
    {
        let drawn: i64 = roll(&mut self.rng);
        let action: EventType = action_for_roll(player.primary_position, drawn);
        assert(action == action_for(player.primary_position, drawn as int));
        action
    }

    /// Draws the reactive action that the defending `player` takes. A second
    /// roll is drawn only where the first has not decided.
    pub fn decide_defensive_action_type(&mut self, player: &Player) -> (action: EventType)
        ensures
            is_defensive_action_of(player.primary_position, action),
    {
        let first: i64 = roll(&mut self.rng);
        let undecided: bool = player.primary_position == Position::CB && first >= 500_000;
        let second: i64 = if undecided {
            roll(&mut self.rng)
        } else {
            0
        };
        let action: EventType = defensive_action_for_rolls(player.primary_position, first, second);
        assert(action == defensive_action_for(player.primary_position, first as int, second as int));
        action
    }

    /// Draws the secondary player of an action by `primary_player_id`: any
    /// player of the other side, each with the same chance. There is none
    /// where the primary player is in neither roster or the other side is
    /// empty.
    pub fn select_secondary_player(&mut self, match_state: &MatchState, primary_player_id: u128)
        -> (secondary: Option<u128>)
        ensures
            secondary.is_some() <==> match_state.has_player(primary_player_id)
                && match_state.opposing_roster(primary_player_id).len() > 0,
            secondary matches Some(other) ==> roster_has(
                match_state.opposing_roster(primary_player_id),
                other,
            ),
    {
        let is_home_player: bool = roster_contains(match_state.home_players, primary_player_id);
        if !is_home_player && !roster_contains(match_state.away_players, primary_player_id) {
            return None;
        }
        let team_players: &[Player] = if is_home_player {
            match_state.away_players
        } else {
            match_state.home_players
        };
        if team_players.len() == 0 {
            return None;
        }
        let index: usize = random_below(&mut self.rng, team_players.len() as u128) as usize;
        Some(team_players[index].id)
    }

    /// Draws the zone of an action in `minute`: the later the minute, the
    /// likelier the attacking part of the pitch.
    pub fn determine_pitch_zone(&mut self, minute: u8) -> (zone: PitchZone)
        ensures
            is_simulated_zone(zone),
            exists|first: int, second: int|
                0 <= first < SCALE && 0 <= second < SCALE && zone == #[trigger] pitch_zone_for(
                    minute as int,
                    first,
                    second,
                ),
    {
        let first: i64 = roll(&mut self.rng);
        let second: i64 = roll(&mut self.rng);
        let zone: PitchZone = pitch_zone_for_rolls(minute, first, second);
        assert(zone == pitch_zone_for(minute as int, first as int, second as int));
        zone
    }

    /// Draws whether an action of the given type by `player` succeeds, with
    /// the chance that [`success_rate`] gives: a roll is drawn, and the action
    /// succeeds where the roll stays below the chance. An action with no
    /// chance never succeeds.
    pub fn determine_success_based_on_attributes(&mut self, player: &Player, action_type: &EventType)
        -> (success: bool)
        requires
            player.fit_to_play(),
        ensures
            exists|drawn: int|
                0 <= drawn < SCALE && success == #[trigger] succeeds_on(
                    *player,
                    *action_type,
                    drawn,
                ),
            success ==> success_rate_of(*player, *action_type) > 0,
    {
        let drawn: i64 = roll(&mut self.rng);
        let success: bool = succeeds_for_roll(player, action_type, drawn);
        assert(success == succeeds_on(*player, *action_type, drawn as int));
        success
    }

    /// Scores an action whose identifier, type, secondary player, zone and
    /// outcome are decided, and records it as an event.
    pub fn score_event(
        &self,
        match_state: &MatchState,
        player: &Player,
        minute: u8,
        id: u128,
        action_type: EventType,
        secondary: Option<u128>,
        zone: PitchZone,
        success: bool,
    ) -> (event: MatchEvent)
        requires
            0 <= match_state.average_opposition_rating <= 100 * SCALE,
        ensures
            event == scored_event(
                match_state,
                *player,
                minute,
                id,
                action_type,
                secondary,
                zone,
                success,
            ),
            event.well_formed(),
    {
        let base_impact: i64 = self.get_base_impact(&action_type);
        let time_multiplier: i64 = self.calculate_time_multiplier(
            minute,
            match_state.score_difference,
        );
        let position_multiplier: i64 = self.calculate_position_multiplier(
            &action_type,
            player.primary_position,
        );
        let difficulty_multiplier: i64 = self.calculate_difficulty_multiplier(player, match_state);
        let clutch_multiplier: i64 = self.calculate_clutch_multiplier(
            minute,
            match_state.score_difference,
            match_state.match_importance,
        );
        let total_impact_score: i64 = total_impact(
            base_impact,
            time_multiplier,
            position_multiplier,
            difficulty_multiplier,
            clutch_multiplier,
        );
        MatchEvent {
            id,
            match_id: match_state.match_id,
            minute,
            half: if minute < 45 {
                MatchHalf::First
            } else {
                MatchHalf::Second
            },
            event_type: action_type,
            player_involved: player.id,
            secondary_player: secondary,
            pitch_zone: zone,
            success,
            base_impact,
            time_multiplier,
            position_multiplier,
            difficulty_multiplier,
            clutch_multiplier,
            total_impact_score,
        }
    }

    /// Generates the action on the ball of the player `player_id` in
    /// `minute`, or nothing where no such player is in the rosters.
    pub fn generate_action_for_player(
        &mut self,
        match_state: &MatchState,
        player_id: u128,
        minute: u8,
    ) -> (action: Option<MatchEvent>)
        requires
            match_state.well_formed(),
        ensures
            action.is_some() <==> match_state.has_player(player_id),
            action matches Some(event) ==> event.player_involved == player_id && exists|
                player: Player,
            |
                {
                    &&& #[trigger] match_state.finds(player_id, player)
                    &&& is_event_of(match_state, player, minute, event)
                    &&& is_action_of(player.primary_position, event.event_type)
                },
    {
        let player: &Player = match self.find_player_by_id(match_state, player_id) {
            Some(p) => p,
            None => return None,
        };
        proof {
            lemma_found_is_fit(match_state, player_id, *player);
        }
        let action_type: EventType = self.decide_action_type(player, match_state, minute);
        let id: u128 = generate_unique_id();
        let secondary: Option<u128> = self.select_secondary_player(match_state, player_id);
        let zone: PitchZone = self.determine_pitch_zone(minute);
        let success: bool = self.determine_success_based_on_attributes(player, &action_type);
        let event: MatchEvent = self.score_event(
            match_state,
            player,
            minute,
            id,
            action_type,
            secondary,
            zone,
            success,
        );
        assert(is_event_of(match_state, *player, minute, event));
        Some(event)
    }

    /// Generates the reactive action of the defending player `player_id` in
    /// `minute`, or nothing where no such player is in the rosters.
    pub fn generate_defensive_action(
        &mut self,
        match_state: &MatchState,
        player_id: u128,
        minute: u8,
    ) -> (action: Option<MatchEvent>)
        requires
            match_state.well_formed(),
        ensures
            action.is_some() <==> match_state.has_player(player_id),
            action matches Some(event) ==> event.player_involved == player_id && exists|
                player: Player,
            |
                {
                    &&& #[trigger] match_state.finds(player_id, player)
                    &&& is_event_of(match_state, player, minute, event)
                    &&& is_defensive_action_of(player.primary_position, event.event_type)
                },
    {
        let player: &Player = match self.find_player_by_id(match_state, player_id) {
            Some(p) => p,
            None => return None,
        };
        proof {
            lemma_found_is_fit(match_state, player_id, *player);
        }
        let action_type: EventType = self.decide_defensive_action_type(player);
        let id: u128 = generate_unique_id();
        let secondary: Option<u128> = self.select_secondary_player(match_state, player_id);
        let zone: PitchZone = self.determine_pitch_zone(minute);
        let success: bool = self.determine_success_based_on_attributes(player, &action_type);
        let event: MatchEvent = self.score_event(
            match_state,
            player,
            minute,
            id,
            action_type,
            secondary,
            zone,
            success,
        );
        assert(is_event_of(match_state, *player, minute, event));
        Some(event)
    }

    /// Generates the events of one minute: the side in possession is drawn
    /// against the tactical balance and one of its players acts on the ball;
    /// with a chance of 0.3 a player of the other side reacts.
    ///
    /// A side without players produces no event.
    pub fn generate_events_for_minute(&mut self, match_state: &MatchState, minute: u8) -> (events:
        Vec<MatchEvent>)
        requires
            match_state.well_formed(),
        ensures
            events@.len() <= 2,
            forall|i: int|
                0 <= i < events@.len() ==> is_event_of_minute(match_state, minute, #[trigger] events@[i]),
            match_state.home_players@.len() > 0 && match_state.away_players@.len() > 0
                ==> events@.len() >= 1,
            match_state.home_players@.len() == 0 && match_state.away_players@.len() == 0
                ==> events@.len() == 0,
            match_state.home_players@.len() > 0 && match_state.away_players@.len() > 0
                && events@.len() == 2 ==> is_exchange(match_state, minute, events@[0], events@[1]),
    {
        proof {
            reveal(is_action_event);
            reveal(is_reaction_event);
            reveal(is_exchange);
        }
        let mut events: Vec<MatchEvent> = Vec::new();
        let home_possession_chance: i64 = match_state.home_tactical_balance;
        let is_home_possession: bool = roll(&mut self.rng) < home_possession_chance;
        let team_id: u128 = if is_home_possession {
            match_state.home_team_id
        } else {
            match_state.away_team_id
        };
        let player_id: u128 = self.select_player_for_action(match_state, team_id, minute);
        if let Some(action) = self.generate_action_for_player(match_state, player_id, minute) {
            assert(is_action_event(match_state, minute, action));
            events.push(action);
        }
        if roll(&mut self.rng) < DEFENSIVE_ACTION_CHANCE {
            let defending_team_id: u128 = if team_id == match_state.home_team_id {
                match_state.away_team_id
            } else {
                match_state.home_team_id
            };
            let defending_player_id: u128 = self.select_player_for_defensive_action(
                match_state,
                defending_team_id,
                minute,
            );
            if let Some(defensive_action) = self.generate_defensive_action(
                match_state,
                defending_player_id,
                minute,
            ) {
                assert(is_reaction_event(match_state, minute, defensive_action));
                events.push(defensive_action);
                proof {
                    if match_state.home_players@.len() > 0 && match_state.away_players@.len() > 0 {
                        assert(events@.len() == 2);
                        assert(defending_team_id == match_state.opponent_of(team_id));
                        assert(roster_has(match_state.roster_of(team_id), events@[0].player_involved));
                        assert(is_exchange(match_state, minute, events@[0], events@[1]));
                    }
                }
            }
        }
        events
    }

    /// Plays the minutes from `from` up to, and without, `until`, and appends
    /// their events to `log`.
    pub fn play_minutes(
        &mut self,
        match_state: &MatchState,
        log: &mut Vec<MatchEvent>,
        from: u8,
        until: u8,
    )
        requires
            match_state.well_formed(),
            from <= until,
            is_simulated_log(match_state, old(log)@, from as int),
            old(log)@.len() <= 2 * from,
        ensures
            is_simulated_log(match_state, final(log)@, until as int),
            old(log)@.len() <= final(log)@.len() <= old(log)@.len() + 2 * (until - from),
            final(log)@.subrange(0, old(log)@.len() as int) == old(log)@,
            match_state.home_players@.len() > 0 && match_state.away_players@.len() > 0
                ==> final(log)@.len() >= old(log)@.len() + (until - from),
            match_state.home_players@.len() == 0 && match_state.away_players@.len() == 0
                ==> final(log)@.len() == old(log)@.len(),
            forall|m: int|
                from <= m < until ==> #[trigger] events_in_minute(
                    final(log)@,
                    final(log)@.len() as int,
                    m,
                ) <= 2 && (match_state.home_players@.len() > 0 && match_state.away_players@.len()
                    > 0 ==> events_in_minute(final(log)@, final(log)@.len() as int, m) >= 1),
            forall|m: int|
                0 <= m < from ==> #[trigger] events_in_minute(
                    final(log)@,
                    final(log)@.len() as int,
                    m,
                ) == events_in_minute(old(log)@, old(log)@.len() as int, m),
    {
        let ghost before = log@;
        let mut minute: u8 = from;
        assert(log@.subrange(0, before.len() as int) =~= before);
        while minute < until
            invariant
                from <= minute <= until,
                match_state.well_formed(),
                is_simulated_log(match_state, log@, minute as int),
                before.len() <= log@.len() <= before.len() + 2 * (minute - from),
                log@.subrange(0, before.len() as int) == before,
                match_state.home_players@.len() > 0 && match_state.away_players@.len() > 0
                    ==> log@.len() >= before.len() + (minute - from),
                match_state.home_players@.len() == 0 && match_state.away_players@.len() == 0
                    ==> log@.len() == before.len(),
                forall|m: int|
                    from <= m < minute ==> #[trigger] events_in_minute(log@, log@.len() as int, m)
                        <= 2 && (match_state.home_players@.len() > 0
                        && match_state.away_players@.len() > 0 ==> events_in_minute(
                        log@,
                        log@.len() as int,
                        m,
                    ) >= 1),
                forall|m: int|
                    0 <= m < from ==> #[trigger] events_in_minute(log@, log@.len() as int, m)
                        == events_in_minute(before, before.len() as int, m),
            decreases until - minute,
        {
            let ghost so_far = log@;
            let mut events_this_minute: Vec<MatchEvent> = self.generate_events_for_minute(
                match_state,
                minute,
            );
            let ghost fresh = events_this_minute@;
            log.append(&mut events_this_minute);
            proof {
                assert(log@ =~= so_far + fresh);
                assert(log@.subrange(0, before.len() as int) =~= so_far.subrange(
                    0,
                    before.len() as int,
                ));
                assert forall|i: int| 0 <= i < fresh.len() implies (#[trigger] fresh[i]).minute
                    == minute by {
                    lemma_event_of_minute(match_state, minute, fresh[i]);
                }
                assert forall|m: int| 0 <= m <= minute implies #[trigger] events_in_minute(
                    log@,
                    log@.len() as int,
                    m,
                ) == events_in_minute(so_far, so_far.len() as int, m) + (if m == minute {
                    fresh.len() as int
                } else {
                    0
                }) by {
                    lemma_events_in_minute_of_both(so_far, fresh, fresh.len() as int, m);
                    lemma_events_of_one_minute(fresh, fresh.len() as int, minute as int, m);
                }
                assert(events_in_minute(so_far, so_far.len() as int, minute as int) == 0) by {
                    assert forall|i: int| 0 <= i < so_far.len() implies (#[trigger] so_far[i]).minute
                        != minute by {}
                    lemma_no_events_in_minute(so_far, so_far.len() as int, minute as int);
                }
                assert forall|i: int| 0 <= i < log@.len() implies (#[trigger] log@[i]).minute
                    < minute + 1 && is_event_of_minute(match_state, log@[i].minute, log@[i]) by {
                    if i < so_far.len() {
                        assert(log@[i] == so_far[i]);
                    } else {
                        assert(log@[i] == fresh[i - so_far.len()]);
                    }
                }
                if match_state.home_players@.len() > 0 && match_state.away_players@.len() > 0 {
                    assert forall|i: int, j: int|
                        0 <= i && j == i + 1 && j < log@.len() && (#[trigger] log@[i]).minute
                            == (#[trigger] log@[j]).minute implies is_exchange(
                        match_state,
                        log@[i].minute,
                        log@[i],
                        log@[j],
                    ) by {
                        if j < so_far.len() {
                            assert(log@[i] == so_far[i] && log@[j] == so_far[j]);
                        } else {
                            assert(log@[j] == fresh[j - so_far.len()]);
                            if i < so_far.len() {
                                assert(log@[i] == so_far[i]);
                                assert(so_far[i].minute < minute);
                            } else {
                                assert(log@[i] == fresh[i - so_far.len()]);
                                assert(fresh.len() == 2);
                            }
                        }
                    }
                }
                assert forall|i: int, j: int| 0 <= i <= j < log@.len() implies (#[trigger] log@[i]).minute
                    <= (#[trigger] log@[j]).minute by {
                    if j < so_far.len() {
                        assert(log@[i] == so_far[i] && log@[j] == so_far[j]);
                    } else {
                        assert(log@[j] == fresh[j - so_far.len()]);
                        if i < so_far.len() {
                            assert(log@[i] == so_far[i]);
                        } else {
                            assert(log@[i] == fresh[i - so_far.len()]);
                        }
                    }
                }
            }
            minute = minute + 1;
        }
    }

    /// Simulates a match from kick-off to the final whistle, and returns the
    /// match record with its event log, its ratings and the counters of its
    /// lineup filled in.
    ///
    /// The match is played over 90 minutes, or over 120 if it is a knockout
    /// match. Every minute brings at most two events: an action on the ball
    /// and, now and then, a reactive action of the other side. A side without
    /// players produces no events. Whatever is drawn, the record that comes
    /// back is finished, every event in it is scored as its type, minute and
    /// player demand, the ratings are those of the log, and the counters of
    /// the lineup are the log replayed.
    pub fn simulate_match(
        &mut self,
        game_match: Match,
        home_players: &[Player],
        away_players: &[Player],
        home_lineup: &MatchLineup,
        away_lineup: &MatchLineup,
    ) -> (finished: Match)
        requires
            game_match.events@.len() == 0,
            roster_fit_to_play(home_players@),
            roster_fit_to_play(away_players@),
            has_room_for(game_match.lineup, 2 * minutes_of(game_match.competition_type)),
        ensures
            finished.status == MatchStatus::Finished,
            log_well_formed(finished.events@),
            exists|state: MatchState|
                {
                    &&& state.home_players@ == home_players@
                    &&& state.away_players@ == away_players@
                    &&& state.score_difference == 0
                    &&& state.average_opposition_rating == 6_500_000
                    &&& #[trigger] is_simulated_log(
                        &state,
                        finished.events@,
                        minutes_of(game_match.competition_type),
                    )
                },
            forall|m: int|
                0 <= m < minutes_of(game_match.competition_type) ==> #[trigger] events_in_minute(
                    finished.events@,
                    finished.events@.len() as int,
                    m,
                ) <= 2 && (home_players@.len() > 0 && away_players@.len() > 0
                    ==> events_in_minute(finished.events@, finished.events@.len() as int, m) >= 1),
            finished.events@.len() <= 2 * minutes_of(game_match.competition_type),
            home_players@.len() > 0 && away_players@.len() > 0 ==> finished.events@.len()
                >= minutes_of(game_match.competition_type),
            home_players@.len() == 0 && away_players@.len() == 0 ==> finished.events@.len() == 0,
            finished.player_ratings@ == ratings_of(finished.events@),
            forall|id: u128| #[trigger]
                finished.player_ratings@.contains_key(id) ==> MIN_RATING
                    <= finished.player_ratings@[id] <= MAX_RATING,
            is_replayed(game_match.lineup, finished.events@, finished.lineup),
            finished.id == game_match.id,
            finished.competition_id == game_match.competition_id,
            finished.home_team == game_match.home_team,
            finished.away_team == game_match.away_team,
            finished.venue == game_match.venue,
            finished.result == game_match.result,
            finished.half_results == game_match.half_results,
            finished.fulltime_score == game_match.fulltime_score,
            finished.competition_type == game_match.competition_type,
    {
        let mut game_match = game_match;
        let ghost lineup_before = game_match.lineup;
        let match_state: MatchState = MatchState::new(
            home_players,
            away_players,
            home_lineup,
            away_lineup,
        );
        self.play_minutes(&match_state, &mut game_match.events, 0, MATCH_DURATION_MINUTES);
        if game_match.requires_extra_time() {
            self.play_minutes(
                &match_state,
                &mut game_match.events,
                MATCH_DURATION_MINUTES,
                EXTRA_TIME_END_MINUTE,
            );
        }
        proof {
            assert forall|i: int| 0 <= i < game_match.events@.len() implies (#[trigger] game_match.events@[i]).well_formed() by {
                lemma_event_of_minute(
                    &match_state,
                    game_match.events@[i].minute,
                    game_match.events@[i],
                );
            }
            lemma_room_suffices(
                game_match.lineup,
                game_match.events@,
                2 * minutes_of(game_match.competition_type),
            );
        }
        let ratings = self.calculate_player_ratings(&game_match, &match_state);
        game_match.player_ratings = ratings;
        self.update_player_match_stats(&mut game_match, &match_state);
        game_match.status = MatchStatus::Finished;
        assert(is_simulated_log(
            &match_state,
            game_match.events@,
            minutes_of(game_match.competition_type),
        ));
        game_match
    }
}

/// The number of minutes that a match of the given kind is played over: 120
/// for a knockout match, which has extra time, and 90 for any other.
pub open spec fn minutes_of(competition_type: CompetitionType) -> int {
    if competition_type == CompetitionType::Knockout {
        EXTRA_TIME_END_MINUTE as int
    } else {
        MATCH_DURATION_MINUTES as int
    }
}

/// Whether `log` can be the event log of the minutes before `minutes`: every
/// event is one that the engine can record in its minute, the events stand
/// in the order of their minutes, and, where both sides have players, two
/// events of one minute are an action on the ball and the reaction of the
/// other side.
pub open spec fn is_simulated_log(state: &MatchState, log: Seq<MatchEvent>, minutes: int) -> bool {
    &&& forall|i: int|
        0 <= i < log.len() ==> (#[trigger] log[i]).minute < minutes && is_event_of_minute(
            state,
            log[i].minute,
            log[i],
        )
    &&& forall|i: int, j: int|
        0 <= i <= j < log.len() ==> (#[trigger] log[i]).minute <= (#[trigger] log[j]).minute
    &&& state.home_players@.len() > 0 && state.away_players@.len() > 0 ==> forall|
        i: int,
        j: int,
    |
        0 <= i && j == i + 1 && j < log.len() && (#[trigger] log[i]).minute
            == (#[trigger] log[j]).minute ==> is_exchange(state, log[i].minute, log[i], log[j])
}

impl Match {
    /// Whether the match goes to extra time: a knockout match does.
    pub fn requires_extra_time(&self) -> (extra: bool)
        ensures
            extra == (self.competition_type == CompetitionType::Knockout),
    {
        match self.competition_type {
            CompetitionType::Knockout => true,
            _ => false,
        }
    }
}

/// The chance that a minute sees a reactive defensive action: 0.3.
pub const DEFENSIVE_ACTION_CHANCE: i64 = 300_000;

/// A player found in the rosters of a well-formed state is fit to play.
pub proof fn lemma_found_is_fit(state: &MatchState, id: u128, player: Player)
    requires
        state.well_formed(),
        state.finds(id, player),
    ensures
        player.fit_to_play(),
        player.id == id,
        state.has_player(id),
{
}

} // verus!
