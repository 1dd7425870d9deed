//! The morale system: how results, playing time, contracts, the media and
//! relationships move a player's morale, what morale does to performance,
//! development and injuries, and how personalities react to situations.

use vstd::prelude::*;
use crate::entities::{is_percentage, Contract, Player, SquadRole};
use crate::fixed::{
    clamp, clamp_to, fmul, lemma_fmul_bound, lemma_trunc_div_bounds, lemma_trunc_div_monotonic,
    magnitude, times, trunc_div, SCALE,
};

verus! {

/// The result of a match for the player's team.
#[derive(Debug, Clone, Copy, PartialEq, Eq, Hash, Structural)]
pub enum GameResult {
    Win,
    Draw,
    Loss,
}

/// What the media make of a player.
#[derive(Debug, Clone, Copy, PartialEq, Eq, Hash, Structural)]
pub enum MediaAttention {
    Positive,
    Neutral,
    Negative,
    /// A major media event
    IntensePositive,
    /// A controversy
    IntenseNegative,
}

/// Where a player's contract stands.
#[derive(Debug, Clone, Copy, PartialEq, Eq, Hash, Structural)]
pub enum ContractStatus {
    Active,
    /// Less than six months remain
    ExpiringSoon,
    Expired,
    /// Renewed of late
    Renewed,
    Negotiating,
}

/// The situations to which a personality reacts.
#[derive(Debug, Clone, Copy, PartialEq, Eq, Hash, Structural)]
pub enum SituationType {
    TeamSuccess,
    TeamFailure,
    PersonalAchievement,
    ContractDispute,
    PressureSituation,
    RelationshipConflict,
}

/// The reactions of a personality.
#[derive(Debug, Clone, Copy, PartialEq, Eq, Hash, Structural)]
pub enum ReactionOutcome {
    PositiveEngagement,
    ConstructiveResponse,
    Disappointed,
    BlameOthers,
    Celebratory,
    Humble,
    DemandTransfer,
    PatientNegotiation,
    SeekCompromise,
    Choke,
    RiseToChallenge,
    SeekResolution,
    Withdraw,
    Indifferent,
}

/// How a player bears stress.
#[derive(Debug, Clone, Copy, PartialEq, Eq, Hash, Structural)]
pub enum StressResponse {
    Calm,
    Managing,
    Struggling,
    HandlingWell,
    Coping,
    Overwhelmed,
}

/// The largest magnitude of a change in a relationship: 100.
pub const MAX_RELATIONSHIP_CHANGE: i64 = 100_000_000;

/// What a match rating does to morale before professionalism enters: from
/// 5.0 for a rating of 9.0 or more down to -3.0 for a rating below 5.0.
pub open spec fn performance_base_effect(rating: int) -> int {
    if rating >= 9_000_000 {
        5_000_000
    } else if rating >= 8_000_000 {
        3_000_000
    } else if rating >= 7_000_000 {
        1_500_000
    } else if rating >= 6_000_000 {
        500_000
    } else if rating >= 5_000_000 {
        -1_000_000
    } else {
        -3_000_000
    }
}

/// What a match rating does to morale: the base effect, times
/// `1 - professionalism / 200`. Professionals are moved less by one match.
pub open spec fn match_performance_effect_of(rating: int, professionalism: int) -> int {
    fmul(performance_base_effect(rating), SCALE - professionalism * 5_000)
}

/// The minutes that a player of the given role expects to play.
pub open spec fn expected_minutes_of(role: SquadRole) -> int {
    match role {
        SquadRole::KeyPlayer => 85,
        SquadRole::FirstTeam => 70,
        SquadRole::Rotation => 45,
        SquadRole::Backup => 15,
        SquadRole::Prospect => 5,
    }
}

/// What the minutes played do to morale. Minutes beyond the expected ones
/// please: their share of the expected minutes, at most 0.5, times 3.
/// Missing minutes hurt: their share, at most 1.0, times 5.
#[verifier::opaque]
pub open spec fn playing_time_effect_of(minutes: int, role: SquadRole) -> int {
    let expected = expected_minutes_of(role);
    let share = trunc_div((minutes - expected) * SCALE, expected);
    if minutes >= expected {
        if share > 500_000 {
            1_500_000
        } else {
            share * 3
        }
    } else {
        share * 5
    }
}

/// What the result of the team does to morale.
pub open spec fn team_result_effect_of(result: GameResult) -> int {
    match result {
        GameResult::Win => 2_000_000,
        GameResult::Draw => 500_000,
        GameResult::Loss => -1_500_000,
    }
}

/// What the state of the contract does to morale. A contract that runs out
/// soon weighs by the ambition that the squad role feeds, less 2.0; one under
/// negotiation by one and a half times that ambition, less 1.0.
pub open spec fn contract_effect_of(status: ContractStatus, role: SquadRole) -> int {
    match status {
        ContractStatus::Active => 0,
        ContractStatus::ExpiringSoon => role.spec_ambition_factor() - 2_000_000,
        ContractStatus::Expired => -5_000_000,
        ContractStatus::Renewed => 3_000_000,
        ContractStatus::Negotiating => -1_000_000 + fmul(role.spec_ambition_factor(), 1_500_000),
    }
}

/// How strongly an attention of the media moves a player with an ego of 50.
pub open spec fn media_weight(attention: MediaAttention) -> int {
    match attention {
        MediaAttention::Positive => 1_500_000,
        MediaAttention::Neutral => 0,
        MediaAttention::Negative => -1_000_000,
        MediaAttention::IntensePositive => 3_000_000,
        MediaAttention::IntenseNegative => -4_000_000,
    }
}

/// What the media do to morale: the weight of the attention, times the ego
/// relative to 50.
pub open spec fn media_effect_of(attention: MediaAttention, ego: int) -> int {
    fmul(media_weight(attention), ego * 20_000)
}

/// What a change in a relationship does to morale: the change, times the
/// loyalty as a share of 100.
pub open spec fn relationship_effect_of(change: int, loyalty: int) -> int {
    fmul(change, loyalty * 10_000)
}

/// What days without a match do to morale: it sinks by half a point a week.
#[verifier::opaque]
pub open spec fn time_drift_effect_of(days: int) -> int {
    -(days * SCALE / 14)
}

/// The sum of the effects of the first `count` changes in relationships.
pub open spec fn relationship_effects(changes: Seq<(u128, i64)>, count: int, loyalty: int) -> int
    decreases count,
{
    if count <= 0 {
        0
    } else {
        relationship_effects(changes, count - 1, loyalty) + relationship_effect_of(
            changes[count - 1].1 as int,
            loyalty,
        )
    }
}

/// Whether every change lies between -100 and 100.
pub open spec fn changes_in_range(changes: Seq<(u128, i64)>) -> bool {
    forall|i: int|
        0 <= i < changes.len() ==> -MAX_RELATIONSHIP_CHANGE <= (#[trigger] changes[i]).1
            <= MAX_RELATIONSHIP_CHANGE
}

/// The sum of all that moves the morale of `player`: the effects of the
/// rating, the minutes and the result of the last match where there was one,
/// of the contract, of the media and of the changes in relationships, and of
/// the days without a match once they exceed a week.
pub open spec fn morale_change_of(
    player: Player,
    match_rating: Option<i64>,
    playing_time_minutes: Option<u8>,
    team_result: Option<GameResult>,
    contract_status: ContractStatus,
    media_attention: MediaAttention,
    relationship_changes: Seq<(u128, i64)>,
    days_since_last_match: u32,
) -> int {
    (match match_rating {
        Some(rating) => match_performance_effect_of(
            rating as int,
            player.hidden.professionalism as int,
        ),
        None => 0,
    }) + (match playing_time_minutes {
        Some(minutes) => playing_time_effect_of(minutes as int, player.contract.squad_role),
        None => 0,
    }) + (match team_result {
        Some(result) => team_result_effect_of(result),
        None => 0,
    }) + contract_effect_of(contract_status, player.contract.squad_role) + media_effect_of(
        media_attention,
        player.hidden.ego as int,
    ) + relationship_effects(
        relationship_changes,
        relationship_changes.len() as int,
        player.hidden.loyalty as int,
    ) + (if days_since_last_match > 7 {
        time_drift_effect_of(days_since_last_match as int)
    } else {
        0
    })
}

/// What morale does to performance: from 0.7 at a morale of 0 over 1.0 at 50
/// to 1.1 at 100.
pub open spec fn morale_performance_modifier_of(morale: int) -> int {
    if morale >= 50 * SCALE {
        SCALE + (morale - 50 * SCALE) / 500
    } else {
        SCALE - (50 * SCALE - morale) * 100 / 16_667
    }
}

/// What morale does to development: from 0.6 at a morale of 0 over 1.0 at 50
/// to 1.2 at 100.
pub open spec fn morale_development_modifier_of(morale: int) -> int {
    if morale >= 50 * SCALE {
        SCALE + (morale - 50 * SCALE) / 250
    } else {
        SCALE - (50 * SCALE - morale) / 125
    }
}

/// What morale does to the chance of injury: from 1.5 at a morale of 0 over
/// 1.0 at 50 to 0.8 at 100.
pub open spec fn morale_injury_modifier_of(morale: int) -> int {
    if morale >= 50 * SCALE {
        SCALE - (morale - 50 * SCALE) / 250
    } else {
        SCALE + (50 * SCALE - morale) / 100
    }
}

/// The morale engine.
#[derive(Debug, Clone, Copy)]
pub struct MoraleEngine;

impl MoraleEngine {
    pub fn new() -> (engine: MoraleEngine) {
        MoraleEngine
    }

    /// Moves the morale of a player by all that happened since the last
    /// update, and holds it between 0 and 100.
    pub fn update_player_morale(
        &self,
        player: &mut Player,
        match_rating: Option<i64>,
        playing_time_minutes: Option<u8>,
        team_result: Option<GameResult>,
        contract_status: ContractStatus,
        media_attention: MediaAttention,
        relationship_changes: &[(u128, i64)],
        days_since_last_match: u32,
    )
        requires
            is_percentage(old(player).morale as int),
            changes_in_range(relationship_changes@),
        ensures
            final(player).morale == clamp_to(
                old(player).morale + morale_change_of(
                    *old(player),
                    match_rating,
                    playing_time_minutes,
                    team_result,
                    contract_status,
                    media_attention,
                    relationship_changes@,
                    days_since_last_match,
                ),
                0,
                100 * SCALE,
            ),
            *final(player) == (Player { morale: final(player).morale, ..*old(player) }),
    {
        let morale_change: i128 = self.total_morale_change(
            player,
            match_rating,
            playing_time_minutes,
            team_result,
            contract_status,
            media_attention,
            relationship_changes,
            days_since_last_match,
        );
        let moved: i128 = player.morale as i128 + morale_change;
        player.morale = if moved < 0 {
            0
        } else if moved > 100_000_000 {
            100_000_000
        } else {
            moved as i64
        };
    }

    /// The sum of all that moves the morale of a player.
    #[verifier::rlimit(100)]
    pub fn total_morale_change(
        &self,
        player: &Player,
        match_rating: Option<i64>,
        playing_time_minutes: Option<u8>,
        team_result: Option<GameResult>,
        contract_status: ContractStatus,
        media_attention: MediaAttention,
        relationship_changes: &[(u128, i64)],
        days_since_last_match: u32,
    ) -> (change: i128)
        requires
            changes_in_range(relationship_changes@),
        ensures
            change == morale_change_of(
                *player,
                match_rating,
                playing_time_minutes,
                team_result,
                contract_status,
                media_attention,
                relationship_changes@,
                days_since_last_match,
            ),
            -0x1_0000_0000_0000_0000_0000_0000 <= change <= 0x1_0000_0000_0000_0000_0000_0000,
    {
        let rating_effect: i64 = match match_rating {
            Some(rating) => self.calculate_match_performance_effect(
                rating,
                player.hidden.professionalism,
            ),
            None => 0,
        };
        let minutes_effect: i64 = match playing_time_minutes {
            Some(minutes) => self.calculate_playing_time_effect(minutes, &player.contract.squad_role),
            None => 0,
        };
        let result_effect: i64 = match team_result {
            Some(result) => self.calculate_team_result_effect(result),
            None => 0,
        };
        let contract_effect: i64 = self.calculate_contract_effect(contract_status, &player.contract);
        let media_effect: i64 = self.calculate_media_effect(media_attention, player.hidden.ego);
        let relationship_effect: i128 = self.sum_relationship_effects(
            relationship_changes,
            player.hidden.loyalty,
        );
        let drift: i64 = if days_since_last_match > 7 {
            self.calculate_time_drift_effect(days_since_last_match)
        } else {
            0
        };
        rating_effect as i128 + minutes_effect as i128 + result_effect as i128
            + contract_effect as i128 + media_effect as i128 + relationship_effect + drift as i128
    }

    /// What a list of changes in relationships does to morale, all in all.
    pub fn sum_relationship_effects(&self, relationship_changes: &[(u128, i64)], loyalty: u8) -> (sum:
        i128)
        requires
            changes_in_range(relationship_changes@),
        ensures
            sum == relationship_effects(
                relationship_changes@,
                relationship_changes@.len() as int,
                loyalty as int,
            ),
            -(usize::MAX * 255_000_000) <= sum <= usize::MAX * 255_000_000,
    {
        let mut sum: i128 = 0;
        let mut i: usize = 0;
        while i < relationship_changes.len()
            invariant
                0 <= i <= relationship_changes@.len(),
                changes_in_range(relationship_changes@),
                sum == relationship_effects(relationship_changes@, i as int, loyalty as int),
                -(i * 255_000_000) <= sum <= i * 255_000_000,
            decreases relationship_changes@.len() - i,
        {
            let change: i64 = relationship_changes[i].1;
            proof {
                assert((i + 1) * 255_000_000 == i * 255_000_000 + 255_000_000) by (nonlinear_arith);
                assert(i * 255_000_000 <= usize::MAX * 255_000_000) by (nonlinear_arith)
                    requires
                        i <= usize::MAX,
                ;
            }
            sum = sum + self.calculate_relationship_effect(change, loyalty) as i128;
            i = i + 1;
        }
        proof {
            assert(relationship_changes@.len() * 255_000_000 <= usize::MAX * 255_000_000)
                by (nonlinear_arith)
                requires
                    relationship_changes@.len() <= usize::MAX,
            ;
        }
        sum
    }

    /// What a match rating does to morale.
    pub fn calculate_match_performance_effect(&self, rating: i64, professionalism: u8) -> (effect:
        i64)
        ensures
            effect == match_performance_effect_of(rating as int, professionalism as int),
            -3_000_000 <= effect <= 5_000_000,
    {
        let base_effect: i64 = if rating >= 9_000_000 {
            5_000_000
        } else if rating >= 8_000_000 {
            3_000_000
        } else if rating >= 7_000_000 {
            1_500_000
        } else if rating >= 6_000_000 {
            500_000
        } else if rating >= 5_000_000 {
            -1_000_000
        } else {
            -3_000_000
        };
        let professionalism_modifier: i64 = SCALE - (professionalism as i64) * 5_000;
        proof {
            lemma_fmul_bound(base_effect as int, professionalism_modifier as int, 5_000_000, 1_000_000);
            if base_effect < 0 {
                lemma_fmul_bound(
                    base_effect as int,
                    professionalism_modifier as int,
                    3_000_000,
                    1_000_000,
                );
            } else if professionalism_modifier < 0 {
                lemma_fmul_bound(
                    base_effect as int,
                    professionalism_modifier as int,
                    5_000_000,
                    275_000,
                );
            }
        }
        times(base_effect, professionalism_modifier)
    }

    /// What the minutes played do to morale, given the role that the
    /// contract promises.
    pub fn calculate_playing_time_effect(&self, minutes: u8, squad_role: &SquadRole) -> (effect: i64)
        ensures
            effect == playing_time_effect_of(minutes as int, *squad_role),
            -5_000_000 <= effect <= 1_500_000,
            minutes >= expected_minutes_of(*squad_role) ==> effect >= 0,
            minutes < expected_minutes_of(*squad_role) ==> effect < 0,
    {
        proof {
            reveal(playing_time_effect_of);
        }
        let expected_minutes: i64 = match squad_role {
            SquadRole::KeyPlayer => 85,
            SquadRole::FirstTeam => 70,
            SquadRole::Rotation => 45,
            SquadRole::Backup => 15,
            SquadRole::Prospect => 5,
        };
        let difference: i64 = minutes as i64 - expected_minutes;
        proof {
            lemma_trunc_div_bounds(difference * SCALE, expected_minutes as int);
            lemma_trunc_div_monotonic(
                -expected_minutes * SCALE,
                difference * SCALE,
                expected_minutes as int,
            );
            assert((expected_minutes * SCALE) / (expected_minutes as int) == SCALE)
                by (nonlinear_arith)
                requires
                    expected_minutes > 0,
            ;
            if difference < 0 {
                lemma_trunc_div_monotonic(difference * SCALE, -SCALE, expected_minutes as int);
                assert((SCALE as int) / (expected_minutes as int) >= 1) by (nonlinear_arith)
                    requires
                        0 < expected_minutes <= 85,
                ;
            }
        }
        let share: i64 = crate::fixed::div_toward_zero(
            (difference as i128) * (SCALE as i128),
            expected_minutes as i128,
        ) as i64;
        if difference >= 0 {
            if share > 500_000 {
                1_500_000
            } else {
                share * 3
            }
        } else {
            share * 5
        }
    }

    /// What the result of the team does to morale.
    pub fn calculate_team_result_effect(&self, result: GameResult) -> (effect: i64)
        ensures
            effect == team_result_effect_of(result),
    {
        match result {
            GameResult::Win => 2_000_000,
            GameResult::Draw => 500_000,
            GameResult::Loss => -1_500_000,
        }
    }

    /// What the state of the contract does to morale.
    pub fn calculate_contract_effect(&self, status: ContractStatus, contract: &Contract) -> (effect:
        i64)
        ensures
            effect == contract_effect_of(status, contract.squad_role),
            -5_000_000 <= effect <= 3_500_000,
    {
        match status {
            ContractStatus::Active => 0,
            ContractStatus::ExpiringSoon => {
                let ambition_factor: i64 = contract.squad_role.ambition_factor();
                let loyalty_factor: i64 = -2_000_000;
                ambition_factor + loyalty_factor
            },
            ContractStatus::Expired => -5_000_000,
            ContractStatus::Renewed => 3_000_000,
            ContractStatus::Negotiating => {
                let uncertainty: i64 = -1_000_000;
                let ambition_factor: i64 = contract.squad_role.ambition_factor();
                proof {
                    lemma_fmul_bound(ambition_factor as int, 1_500_000, 3_000_000, 1_500_000);
                }
                let potential_opportunity: i64 = times(ambition_factor, 1_500_000);
                uncertainty + potential_opportunity
            },
        }
    }

    /// What the media do to morale.
    pub fn calculate_media_effect(&self, attention: MediaAttention, ego: u8) -> (effect: i64)
        ensures
            effect == media_effect_of(attention, ego as int),
            -20_400_000 <= effect <= 15_300_000,
    {
        let ego_factor: i64 = (ego as i64) * 20_000;
        let weight: i64 = match attention {
            MediaAttention::Positive => 1_500_000,
            MediaAttention::Neutral => 0,
            MediaAttention::Negative => -1_000_000,
            MediaAttention::IntensePositive => 3_000_000,
            MediaAttention::IntenseNegative => -4_000_000,
        };
        proof {
            lemma_fmul_bound(weight as int, ego_factor as int, 4_000_000, 5_100_000);
            if weight >= 0 {
                lemma_fmul_bound(weight as int, ego_factor as int, 3_000_000, 5_100_000);
            } else {
                lemma_trunc_div_bounds(weight * ego_factor, SCALE as int);
                assert(weight * ego_factor <= 0) by (nonlinear_arith)
                    requires
                        weight < 0,
                        ego_factor >= 0,
                ;
            }
        }
        times(weight, ego_factor)
    }

    /// What a change in a relationship does to morale.
    pub fn calculate_relationship_effect(&self, relationship_change: i64, loyalty: u8) -> (effect:
        i64)
        requires
            -MAX_RELATIONSHIP_CHANGE <= relationship_change <= MAX_RELATIONSHIP_CHANGE,
        ensures
            effect == relationship_effect_of(relationship_change as int, loyalty as int),
            -255_000_000 <= effect <= 255_000_000,
    {
        let loyalty_factor: i64 = (loyalty as i64) * 10_000;
        proof {
            lemma_fmul_bound(
                relationship_change as int,
                loyalty_factor as int,
                100_000_000,
                2_550_000,
            );
        }
        times(relationship_change, loyalty_factor)
    }

    /// What days without a match do to morale.
    pub fn calculate_time_drift_effect(&self, days: u32) -> (effect: i64)
        ensures
            effect == time_drift_effect_of(days as int),
            -306_783_378_571_429 <= effect <= 0,
    {
        proof {
            reveal(time_drift_effect_of);
        }
        -((days as i64) * SCALE / 14)
    }

    /// What morale does to performance.
    pub fn calculate_morale_performance_modifier(&self, morale: i64) -> (modifier: i64)
        requires
            is_percentage(morale as int),
        ensures
            modifier == morale_performance_modifier_of(morale as int),
            700_000 <= modifier <= 1_100_000,
    {
        if morale >= 50 * SCALE {
            SCALE + (morale - 50 * SCALE) / 500
        } else {
            SCALE - (50 * SCALE - morale) * 100 / 16_667
        }
    }

    /// What morale does to the rate of development.
    pub fn calculate_morale_development_modifier(&self, morale: i64) -> (modifier: i64)
        requires
            is_percentage(morale as int),
        ensures
            modifier == morale_development_modifier_of(morale as int),
            600_000 <= modifier <= 1_200_000,
    {
        if morale >= 50 * SCALE {
            SCALE + (morale - 50 * SCALE) / 250
        } else {
            SCALE - (50 * SCALE - morale) / 125
        }
    }

    /// What morale does to the chance of injury.
    pub fn calculate_morale_injury_modifier(&self, morale: i64) -> (modifier: i64)
        requires
            is_percentage(morale as int),
        ensures
            modifier == morale_injury_modifier_of(morale as int),
            800_000 <= modifier <= 1_500_000,
    {
        if morale >= 50 * SCALE {
            SCALE - (morale - 50 * SCALE) / 250
        } else {
            SCALE + (50 * SCALE - morale) / 100
        }
    }
}

/// The traits that decide how a player responds to situations, each between
/// 0.0 and 1.0.
#[derive(Debug, Clone, Copy, PartialEq, Eq)]
pub struct PersonalityProfile {
    /// How much the success of the team means
    pub team_connection: i64,
    /// How much recognition is craved
    pub recognition_need: i64,
    /// How well setbacks are borne
    pub resilience: i64,
    /// How much loyalty to the club counts
    pub club_loyalty: i64,
    pub ambition_level: i64,
    /// How much pressure tells
    pub pressure_sensitivity: i64,
}

/// A value held between 0.0 and 1.0.
pub open spec fn unit_clamped(value: int) -> int {
    clamp_to(value, 0, SCALE as int)
}

impl PersonalityProfile {
    /// Every trait lies between 0.0 and 1.0.
    pub open spec fn well_formed(&self) -> bool {
        &&& 0 <= self.team_connection <= SCALE
        &&& 0 <= self.recognition_need <= SCALE
        &&& 0 <= self.resilience <= SCALE
        &&& 0 <= self.club_loyalty <= SCALE
        &&& 0 <= self.ambition_level <= SCALE
        &&& 0 <= self.pressure_sensitivity <= SCALE
    }

    /// A profile of the given traits, each held between 0.0 and 1.0.
    pub fn new(
        team_connection: i64,
        recognition_need: i64,
        resilience: i64,
        club_loyalty: i64,
        ambition_level: i64,
        pressure_sensitivity: i64,
    ) -> (profile: PersonalityProfile)
        ensures
            profile.well_formed(),
            profile.team_connection == unit_clamped(team_connection as int),
            profile.recognition_need == unit_clamped(recognition_need as int),
            profile.resilience == unit_clamped(resilience as int),
            profile.club_loyalty == unit_clamped(club_loyalty as int),
            profile.ambition_level == unit_clamped(ambition_level as int),
            profile.pressure_sensitivity == unit_clamped(pressure_sensitivity as int),
    {
        PersonalityProfile {
            team_connection: clamp(team_connection, 0, SCALE),
            recognition_need: clamp(recognition_need, 0, SCALE),
            resilience: clamp(resilience, 0, SCALE),
            club_loyalty: clamp(club_loyalty, 0, SCALE),
            ambition_level: clamp(ambition_level, 0, SCALE),
            pressure_sensitivity: clamp(pressure_sensitivity, 0, SCALE),
        }
    }
}

/// How a personality reacts to a situation.
pub open spec fn reaction_of(personality: PersonalityProfile, situation: SituationType)
    -> ReactionOutcome {
    match situation {
        SituationType::TeamSuccess => if personality.team_connection > 600_000 {
            ReactionOutcome::PositiveEngagement
        } else {
            ReactionOutcome::Indifferent
        },
        SituationType::TeamFailure => if personality.resilience > 500_000 {
            ReactionOutcome::ConstructiveResponse
        } else if personality.team_connection > 700_000 {
            ReactionOutcome::Disappointed
        } else {
            ReactionOutcome::BlameOthers
        },
        SituationType::PersonalAchievement => if personality.recognition_need > 600_000 {
            ReactionOutcome::Celebratory
        } else {
            ReactionOutcome::Humble
        },
        SituationType::ContractDispute => if personality.ambition_level > 700_000
            && personality.club_loyalty < 400_000 {
            ReactionOutcome::DemandTransfer
        } else if personality.club_loyalty > 700_000 {
            ReactionOutcome::PatientNegotiation
        } else {
            ReactionOutcome::SeekCompromise
        },
        SituationType::PressureSituation => if personality.pressure_sensitivity > 600_000 {
            ReactionOutcome::Choke
        } else {
            ReactionOutcome::RiseToChallenge
        },
        SituationType::RelationshipConflict => if personality.team_connection > 600_000 {
            ReactionOutcome::SeekResolution
        } else {
            ReactionOutcome::Withdraw
        },
    }
}

/// The chance that two players engage well with each other: 0.5, plus up to
/// 0.3 for how alike their connection to the team is, plus up to 0.2 for how
/// alike their loyalty to the club is.
pub open spec fn teammate_engagement_chance_of(
    personality: PersonalityProfile,
    teammate: PersonalityProfile,
) -> int {
    let connection = fmul(
        SCALE - magnitude(personality.team_connection - teammate.team_connection),
        300_000,
    );
    let loyalty = fmul(SCALE - magnitude(personality.club_loyalty - teammate.club_loyalty), 200_000);
    let chance = connection + loyalty + 500_000;
    if chance > SCALE {
        SCALE as int
    } else {
        chance
    }
}

/// The resilience that is left under pressure: the resilience, times
/// `1 - pressure_sensitivity / 2`.
pub open spec fn effective_resilience_of(personality: PersonalityProfile) -> int {
    fmul(personality.resilience as int, SCALE - personality.pressure_sensitivity / 2)
}

/// How a personality bears a level of stress: calm below 0.3; below 0.6
/// managing or struggling; from then on handling it well, coping or
/// overwhelmed, as the effective resilience decides.
pub open spec fn stress_response_of(personality: PersonalityProfile, stress_level: int)
    -> StressResponse {
    let resilience = effective_resilience_of(personality);
    if stress_level < 300_000 {
        StressResponse::Calm
    } else if stress_level < 600_000 {
        if resilience > 600_000 {
            StressResponse::Managing
        } else {
            StressResponse::Struggling
        }
    } else if resilience > 750_000 {
        StressResponse::HandlingWell
    } else if resilience > 400_000 {
        StressResponse::Coping
    } else {
        StressResponse::Overwhelmed
    }
}

/// The personality engine.
#[derive(Debug, Clone, Copy)]
pub struct PersonalityEngine;

impl PersonalityEngine {
    pub fn new() -> (engine: PersonalityEngine) {
        PersonalityEngine
    }

    /// How a personality reacts to a situation. The intensity of the
    /// situation does not enter.
    pub fn determine_reaction(
        &self,
        personality: &PersonalityProfile,
        situation: &SituationType,
        _intensity: i64,
    ) -> (reaction: ReactionOutcome)
        ensures
            reaction == reaction_of(*personality, *situation),
    {
        match situation {
            SituationType::TeamSuccess => {
                if personality.team_connection > 600_000 {
                    ReactionOutcome::PositiveEngagement
                } else {
                    ReactionOutcome::Indifferent
                }
            },
            SituationType::TeamFailure => {
                if personality.resilience > 500_000 {
                    ReactionOutcome::ConstructiveResponse
                } else if personality.team_connection > 700_000 {
                    ReactionOutcome::Disappointed
                } else {
                    ReactionOutcome::BlameOthers
                }
            },
            SituationType::PersonalAchievement => {
                if personality.recognition_need > 600_000 {
                    ReactionOutcome::Celebratory
                } else {
                    ReactionOutcome::Humble
                }
            },
            SituationType::ContractDispute => {
                if personality.ambition_level > 700_000 && personality.club_loyalty < 400_000 {
                    ReactionOutcome::DemandTransfer
                } else if personality.club_loyalty > 700_000 {
                    ReactionOutcome::PatientNegotiation
                } else {
                    ReactionOutcome::SeekCompromise
                }
            },
            SituationType::PressureSituation => {
                if personality.pressure_sensitivity > 600_000 {
                    ReactionOutcome::Choke
                } else {
                    ReactionOutcome::RiseToChallenge
                }
            },
            SituationType::RelationshipConflict => {
                if personality.team_connection > 600_000 {
                    ReactionOutcome::SeekResolution
                } else {
                    ReactionOutcome::Withdraw
                }
            },
        }
    }

    /// The chance that two players engage well with each other.
    pub fn calculate_teammate_engagement_chance(
        &self,
        personality: &PersonalityProfile,
        teammate_personality: &PersonalityProfile,
    ) -> (chance: i64)
        requires
            personality.well_formed(),
            teammate_personality.well_formed(),
        ensures
            chance == teammate_engagement_chance_of(*personality, *teammate_personality),
            500_000 <= chance <= SCALE,
    {
        let connection_gap: i64 = if personality.team_connection
            >= teammate_personality.team_connection {
            personality.team_connection - teammate_personality.team_connection
        } else {
            teammate_personality.team_connection - personality.team_connection
        };
        let loyalty_gap: i64 = if personality.club_loyalty >= teammate_personality.club_loyalty {
            personality.club_loyalty - teammate_personality.club_loyalty
        } else {
            teammate_personality.club_loyalty - personality.club_loyalty
        };
        proof {
            lemma_fmul_bound(SCALE - connection_gap, 300_000, 1_000_000, 300_000);
            lemma_fmul_bound(SCALE - loyalty_gap, 200_000, 1_000_000, 200_000);
        }
        let compatibility: i64 = times(SCALE - connection_gap, 300_000) + times(
            SCALE - loyalty_gap,
            200_000,
        ) + 500_000;
        if compatibility > SCALE {
            SCALE
        } else {
            compatibility
        }
    }

    /// How a personality bears a level of stress.
    pub fn calculate_stress_response(&self, personality: &PersonalityProfile, stress_level: i64)
        -> (response: StressResponse)
        requires
            personality.well_formed(),
        ensures
            response == stress_response_of(*personality, stress_level as int),
    {
        let effective_resilience: i64 = times(
            personality.resilience,
            SCALE - personality.pressure_sensitivity / 2,
        );
        if stress_level < 300_000 {
            StressResponse::Calm
        } else if stress_level < 600_000 {
            if effective_resilience > 600_000 {
                StressResponse::Managing
            } else {
                StressResponse::Struggling
            }
        } else if effective_resilience > 750_000 {
            StressResponse::HandlingWell
        } else if effective_resilience > 400_000 {
            StressResponse::Coping
        } else {
            StressResponse::Overwhelmed
        }
    }
}

} // verus!
