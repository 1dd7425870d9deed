//! The social system: the relationships of a player with managers,
//! teammates, agents, family, media, fans and clubs, how interactions move
//! them, and what they mean for morale, playing time and transfers.
//!
//! A relationship is a value between 0 and 100; 50 is neutral, and a
//! relationship that is not on record counts as neutral.

use vstd::prelude::*;
use std::collections::HashMap;
use crate::entities::is_percentage;
use crate::fixed::{
    clamp, clamp_to, div_toward_zero, fmul, lemma_fmul_bound, lemma_trunc_div_bounds,
    lemma_trunc_div_monotonic, times, trunc_div, SCALE,
};

verus! {

broadcast use vstd::std_specs::hash::group_hash_axioms;

/// Whom a relationship is with.
#[derive(Debug, Clone, Copy, PartialEq, Eq, Hash, Structural)]
pub enum RelationshipType {
    Manager,
    Teammate,
    Agent,
    Family,
    Media,
    Fans,
    Club,
}

/// The kinds of social interaction.
#[derive(Debug, Clone, Copy, PartialEq, Eq, Hash, Structural)]
pub enum InteractionType {
    PositiveEncouragement,
    ConstructiveFeedback,
    SeriousRequest,
    Conflict,
    AdviceSeeking,
}

/// A relationship in a word.
#[derive(Debug, Clone, Copy, PartialEq, Eq, Hash, Structural)]
pub enum RelationshipStatus {
    Excellent,
    Good,
    Neutral,
    Poor,
    Terrible,
}

/// How a manager talks to players.
#[derive(Debug, Clone, Copy, PartialEq, Eq, Hash, Structural)]
pub enum CommunicationStyle {
    Direct,
    Diplomatic,
    Authoritative,
    Collaborative,
}

/// The traits that shape the social life of a player, each from 0 to 100.
#[derive(Debug, Clone, Copy, PartialEq, Eq, Structural)]
pub struct PersonalityFactors {
    /// Steadies relationships
    pub loyalty: u8,
    /// Makes relationships volatile
    pub ego: u8,
    /// Helps to build relationships
    pub teamwork: u8,
    /// Helps interactions to succeed
    pub communication: u8,
    /// Shapes how relationships form
    pub trust: u8,
}

/// `value`, or 100 if it is more.
pub open spec fn at_most_hundred(value: u8) -> u8 {
    if value > 100 {
        100
    } else {
        value
    }
}

impl PersonalityFactors {
    /// The factors given, each capped at 100.
    pub fn new(loyalty: u8, ego: u8, teamwork: u8, communication: u8, trust: u8) -> (factors:
        PersonalityFactors)
        ensures
            factors.loyalty == at_most_hundred(loyalty),
            factors.ego == at_most_hundred(ego),
            factors.teamwork == at_most_hundred(teamwork),
            factors.communication == at_most_hundred(communication),
            factors.trust == at_most_hundred(trust),
    {
        PersonalityFactors {
            loyalty: if loyalty > 100 {
                100
            } else {
                loyalty
            },
            ego: if ego > 100 {
                100
            } else {
                ego
            },
            teamwork: if teamwork > 100 {
                100
            } else {
                teamwork
            },
            communication: if communication > 100 {
                100
            } else {
                communication
            },
            trust: if trust > 100 {
                100
            } else {
                trust
            },
        }
    }
}

/// What an interaction left behind.
#[derive(Debug, Clone, Copy, PartialEq, Eq)]
pub struct InteractionResult {
    pub initiator_new_relationship: i64,
    pub target_new_relationship: i64,
    pub success: bool,
}

/// What the relationships of a player weigh in a transfer decision.
#[derive(Debug, Clone, Copy, PartialEq, Eq)]
pub struct TransferInfluence {
    pub club_loyalty: i64,
    pub manager_influence: i64,
    pub teammate_influence: i64,
}

/// What a manager makes of relationships. The three weights run from 0 to
/// 100.
#[derive(Debug, Clone, Copy, PartialEq, Eq)]
pub struct ManagerProfile {
    /// How much favourites count
    pub favoritism: i64,
    /// How much the chemistry of the team counts
    pub youth_trust: i64,
    pub discipline: i64,
    pub communication_style: CommunicationStyle,
}

/// The neutral relationship: 50.
pub const NEUTRAL_RELATIONSHIP: i64 = 50_000_000;

/// The largest magnitude of a change in a relationship before the
/// personality enters: 100.
pub const MAX_CHANGE: i64 = 100_000_000;

/// A change in a relationship as the personality makes it felt: loyalty
/// (`1 + loyalty / 200`), ego (`1 + ego / 300` for a gain, `1 + ego / 200`
/// otherwise) and teamwork (`1 + teamwork / 250`) each amplify it.
pub open spec fn modified_change(change: int, factors: PersonalityFactors) -> int {
    let loyalty_modifier = SCALE + factors.loyalty * 5_000;
    let ego_modifier = if change > 0 {
        SCALE + factors.ego * SCALE / 300
    } else {
        SCALE + factors.ego * 5_000
    };
    let teamwork_modifier = SCALE + factors.teamwork * 4_000;
    fmul(fmul(fmul(change, loyalty_modifier), ego_modifier), teamwork_modifier)
}

/// The relationship with `id` on record, or the neutral one.
pub open spec fn relationship_with(relationships: Map<u128, i64>, id: u128) -> int {
    if relationships.contains_key(id) {
        relationships[id] as int
    } else {
        NEUTRAL_RELATIONSHIP as int
    }
}

/// The relationship with `id` after a change, held between 0 and 100.
pub open spec fn relationship_after(
    relationships: Map<u128, i64>,
    id: u128,
    change: int,
    factors: PersonalityFactors,
) -> int {
    clamp_to(relationship_with(relationships, id) + modified_change(change, factors), 0, 100 * SCALE)
}

/// How much an interaction of the given kind can achieve.
pub open spec fn interaction_modifier_of(interaction_type: InteractionType) -> int {
    match interaction_type {
        InteractionType::PositiveEncouragement => 1_200_000,
        InteractionType::ConstructiveFeedback => 1_000_000,
        InteractionType::SeriousRequest => 800_000,
        InteractionType::Conflict => 600_000,
        InteractionType::AdviceSeeking => 1_100_000,
    }
}

/// The chance that an interaction succeeds: the mean of the two
/// relationships as a share of 100, times what the kind of interaction can
/// achieve, times teamwork and communication as shares of 100; at least 0.1
/// and at most 0.95.
pub open spec fn interaction_success_chance_of(
    initiator_relationship: int,
    target_relationship: int,
    interaction_type: InteractionType,
    factors: PersonalityFactors,
) -> int {
    let base_chance = (initiator_relationship + target_relationship) / 200;
    let chance = fmul(
        fmul(fmul(base_chance, interaction_modifier_of(interaction_type)), factors.teamwork * 10_000),
        factors.communication * 10_000,
    );
    clamp_to(chance, 100_000, 950_000)
}

/// The changes that an interaction brings to the relationship with the
/// initiator and with the target.
pub open spec fn interaction_changes(interaction_type: InteractionType, success: bool) -> (
    int,
    int,
) {
    match interaction_type {
        InteractionType::PositiveEncouragement => if success {
            (2_000_000, 3_000_000)
        } else {
            (-1_000_000, -2_000_000)
        },
        InteractionType::ConstructiveFeedback => if success {
            (1_000_000, 2_000_000)
        } else {
            (-2_000_000, -1_000_000)
        },
        InteractionType::SeriousRequest => if success {
            (3_000_000, 1_000_000)
        } else {
            (-3_000_000, 500_000)
        },
        InteractionType::Conflict => if success {
            (1_000_000, -3_000_000)
        } else {
            (-2_000_000, -2_000_000)
        },
        InteractionType::AdviceSeeking => if success {
            (2_000_000, 1_500_000)
        } else {
            (-1_000_000, -500_000)
        },
    }
}

/// The word for a relationship of the given value.
pub open spec fn relationship_status_of(value: int) -> RelationshipStatus {
    if value >= 80 * SCALE {
        RelationshipStatus::Excellent
    } else if value >= 60 * SCALE {
        RelationshipStatus::Good
    } else if value >= 40 * SCALE {
        RelationshipStatus::Neutral
    } else if value >= 20 * SCALE {
        RelationshipStatus::Poor
    } else {
        RelationshipStatus::Terrible
    }
}

/// How much a relationship of the given type weighs on morale.
pub open spec fn morale_weight_of(relationship_type: RelationshipType) -> int {
    match relationship_type {
        RelationshipType::Manager => 300_000,
        RelationshipType::Teammate => 100_000,
        RelationshipType::Agent => 200_000,
        RelationshipType::Family => 250_000,
        RelationshipType::Media => 50_000,
        RelationshipType::Fans => 150_000,
        RelationshipType::Club => 200_000,
    }
}

/// Whether every relationship of the list lies between 0 and 100.
pub open spec fn relationships_valid(relationships: Seq<(u128, i64)>) -> bool {
    forall|i: int|
        0 <= i < relationships.len() ==> is_percentage((#[trigger] relationships[i]).1 as int)
}

/// The number of relationships of known type among the first `count`.
pub open spec fn typed_count(
    relationships: Seq<(u128, i64)>,
    types: Map<u128, RelationshipType>,
    count: int,
) -> int
    decreases count,
{
    if count <= 0 {
        0
    } else if types.contains_key(relationships[count - 1].0) {
        typed_count(relationships, types, count - 1) + 1
    } else {
        typed_count(relationships, types, count - 1)
    }
}

/// The sum, over the relationships of known type among the first `count`, of
/// the distance of the relationship from neutral times the weight of its
/// type.
pub open spec fn weighted_distance(
    relationships: Seq<(u128, i64)>,
    types: Map<u128, RelationshipType>,
    count: int,
) -> int
    decreases count,
{
    if count <= 0 {
        0
    } else if types.contains_key(relationships[count - 1].0) {
        weighted_distance(relationships, types, count - 1) + fmul(
            relationships[count - 1].1 - NEUTRAL_RELATIONSHIP,
            morale_weight_of(types[relationships[count - 1].0]),
        )
    } else {
        weighted_distance(relationships, types, count - 1)
    }
}

/// What the relationships do to morale: the mean weighted distance from
/// neutral of the relationships of known type, or nothing where there is
/// none.
pub open spec fn relationship_morale_impact_of(
    relationships: Seq<(u128, i64)>,
    types: Map<u128, RelationshipType>,
) -> int {
    let known = typed_count(relationships, types, relationships.len() as int);
    if known > 0 {
        trunc_div(weighted_distance(relationships, types, relationships.len() as int), known)
    } else {
        0
    }
}

/// The sum of the first `count` relationships.
pub open spec fn relationship_sum(relationships: Seq<(u128, i64)>, count: int) -> int
    decreases count,
{
    if count <= 0 {
        0
    } else {
        relationship_sum(relationships, count - 1) + relationships[count - 1].1
    }
}

/// The mean of the relationships, or the neutral relationship where there is
/// none.
pub open spec fn mean_relationship(relationships: Seq<(u128, i64)>) -> int {
    if relationships.len() == 0 {
        NEUTRAL_RELATIONSHIP as int
    } else {
        relationship_sum(relationships, relationships.len() as int) / (relationships.len() as int)
    }
}

/// What relationships do to playing time: the relationship with the manager
/// times the manager's favouritism as a share of 100, plus a tenth of the
/// distance of the mean teammate relationship from neutral times the weight
/// that the manager gives to chemistry, as a share of 100.
pub open spec fn playing_time_impact_of(
    manager_relationship: int,
    teammates: Seq<(u128, i64)>,
    manager: ManagerProfile,
) -> int {
    fmul(manager_relationship, manager.favoritism as int) / 100 + fmul(
        fmul(mean_relationship(teammates) - NEUTRAL_RELATIONSHIP, manager.youth_trust / 100),
        100_000,
    )
}

/// The relationship with the manager that is walked last among the first
/// `count` relationships, or nothing where none is with a manager.
pub open spec fn last_manager(
    relationships: Seq<(u128, i64)>,
    types: Map<u128, RelationshipType>,
    count: int,
) -> int
    decreases count,
{
    if count <= 0 {
        0
    } else if types.contains_key(relationships[count - 1].0) && types[relationships[count - 1].0]
        == RelationshipType::Manager {
        relationships[count - 1].1 as int
    } else {
        last_manager(relationships, types, count - 1)
    }
}

/// The relationship with the club `club_id` that is walked last among the
/// first `count` relationships, or nothing where there is none.
pub open spec fn last_club(
    relationships: Seq<(u128, i64)>,
    types: Map<u128, RelationshipType>,
    club_id: u128,
    count: int,
) -> int
    decreases count,
{
    if count <= 0 {
        0
    } else if relationships[count - 1].0 == club_id && types.contains_key(club_id) && types[club_id]
        == RelationshipType::Club {
        relationships[count - 1].1 as int
    } else {
        last_club(relationships, types, club_id, count - 1)
    }
}

/// The sum of the relationships with teammates among the first `count`.
pub open spec fn teammate_sum(
    relationships: Seq<(u128, i64)>,
    types: Map<u128, RelationshipType>,
    count: int,
) -> int
    decreases count,
{
    if count <= 0 {
        0
    } else if types.contains_key(relationships[count - 1].0) && types[relationships[count - 1].0]
        == RelationshipType::Teammate {
        teammate_sum(relationships, types, count - 1) + relationships[count - 1].1
    } else {
        teammate_sum(relationships, types, count - 1)
    }
}

/// What the relationships of a player weigh in a transfer decision: the
/// relationship with the current club and with the manager, and the sum of
/// the relationships with teammates, divided by the number of all
/// relationships; without any relationship the teammates count as neutral.
pub open spec fn transfer_influence_of(
    relationships: Seq<(u128, i64)>,
    types: Map<u128, RelationshipType>,
    current_club_id: u128,
) -> TransferInfluence {
    let count = relationships.len() as int;
    TransferInfluence {
        club_loyalty: last_club(relationships, types, current_club_id, count) as i64,
        manager_influence: last_manager(relationships, types, count) as i64,
        teammate_influence: (if count > 0 {
            teammate_sum(relationships, types, count) / count
        } else {
            NEUTRAL_RELATIONSHIP as int
        }) as i64,
    }
}

/// The social engine.
#[derive(Debug, Clone, Copy)]
pub struct SocialEngine;

impl SocialEngine {
    pub fn new() -> (engine: SocialEngine) {
        SocialEngine
    }

    /// Changes the relationship with `other_entity_id`, puts the new value on
    /// record and returns it.
    pub fn update_relationship(
        &self,
        relationships: &mut HashMap<u128, i64>,
        other_entity_id: u128,
        change: i64,
        personality_factors: &PersonalityFactors,
    ) -> (new_value: i64)
        requires
            -MAX_CHANGE <= change <= MAX_CHANGE,
        ensures
            new_value == relationship_after(
                old(relationships)@,
                other_entity_id,
                change as int,
                *personality_factors,
            ),
            final(relationships)@ == old(relationships)@.insert(other_entity_id, new_value),
            is_percentage(new_value as int),
    {
        let current_value: i64 = match relationships.get(&other_entity_id) {
            Some(value) => *value,
            None => NEUTRAL_RELATIONSHIP,
        };
        let modified: i64 = self.apply_personality_modifiers(change, personality_factors);
        let moved: i128 = current_value as i128 + modified as i128;
        let new_value: i64 = if moved < 0 {
            0
        } else if moved > 100_000_000 {
            100_000_000
        } else {
            moved as i64
        };
        relationships.insert(other_entity_id, new_value);
        new_value
    }

    /// A change in a relationship as the personality makes it felt.
    pub fn apply_personality_modifiers(&self, change: i64, factors: &PersonalityFactors) -> (modified:
        i64)
        requires
            -MAX_CHANGE <= change <= MAX_CHANGE,
        ensures
            modified == modified_change(change as int, *factors),
            -1_200_000_000 <= modified <= 1_200_000_000,
            change >= 0 ==> modified >= 0,
            change <= 0 ==> modified <= 0,
    {
        let loyalty_modifier: i64 = SCALE + (factors.loyalty as i64) * 5_000;
        let ego_modifier: i64 = if change > 0 {
            SCALE + (factors.ego as i64) * SCALE / 300
        } else {
            SCALE + (factors.ego as i64) * 5_000
        };
        let teamwork_modifier: i64 = SCALE + (factors.teamwork as i64) * 4_000;
        proof {
            lemma_fmul_bound(change as int, loyalty_modifier as int, 100_000_000, 2_275_000);
        }
        let with_loyalty: i64 = times(change, loyalty_modifier);
        proof {
            lemma_fmul_bound(with_loyalty as int, ego_modifier as int, 227_500_000, 2_275_000);
        }
        let with_ego: i64 = times(with_loyalty, ego_modifier);
        proof {
            lemma_fmul_bound(with_ego as int, teamwork_modifier as int, 517_562_500, 2_020_000);
        }
        times(with_ego, teamwork_modifier)
    }

    /// What the relationships do to morale. The relationships are given in
    /// the order in which they are walked.
    pub fn calculate_relationship_morale_impact(
        &self,
        relationships: &[(u128, i64)],
        relationship_types: &HashMap<u128, RelationshipType>,
    ) -> (impact: i64)
        requires
            relationships_valid(relationships@),
        ensures
            impact == relationship_morale_impact_of(relationships@, relationship_types@),
            -15_000_000 <= impact <= 15_000_000,
    {
        let mut total_impact: i128 = 0;
        let mut count: usize = 0;
        let mut i: usize = 0;
        while i < relationships.len()
            invariant
                0 <= i <= relationships@.len(),
                relationships_valid(relationships@),
                count == typed_count(relationships@, relationship_types@, i as int),
                count <= i,
                total_impact == weighted_distance(relationships@, relationship_types@, i as int),
                -(count * 15_000_000) <= total_impact <= count * 15_000_000,
            decreases relationships@.len() - i,
        {
            let entity_id: u128 = relationships[i].0;
            let value: i64 = relationships[i].1;
            assert(is_percentage(relationships@[i as int].1 as int));
            match relationship_types.get(&entity_id) {
                Some(rel_type) => {
                    let weight: i64 = match rel_type {
                        RelationshipType::Manager => 300_000,
                        RelationshipType::Teammate => 100_000,
                        RelationshipType::Agent => 200_000,
                        RelationshipType::Family => 250_000,
                        RelationshipType::Media => 50_000,
                        RelationshipType::Fans => 150_000,
                        RelationshipType::Club => 200_000,
                    };
                    proof {
                        lemma_fmul_bound(
                            value - NEUTRAL_RELATIONSHIP,
                            weight as int,
                            50_000_000,
                            300_000,
                        );
                        assert((count + 1) * 15_000_000 == count * 15_000_000 + 15_000_000)
                            by (nonlinear_arith);
                        assert(count * 15_000_000 <= usize::MAX * 15_000_000) by (nonlinear_arith)
                            requires
                                count <= usize::MAX,
                        ;
                    }
                    total_impact = total_impact + times(value - NEUTRAL_RELATIONSHIP, weight) as i128;
                    count = count + 1;
                },
                None => {},
            }
            i = i + 1;
        }
        if count > 0 {
            proof {
                lemma_trunc_div_bounds(total_impact as int, count as int);
                lemma_trunc_div_monotonic(total_impact as int, count * 15_000_000, count as int);
                lemma_trunc_div_monotonic(-(count * 15_000_000), total_impact as int, count as int);
                assert((count * 15_000_000) / (count as int) == 15_000_000) by (nonlinear_arith)
                    requires
                        count > 0,
                ;
                assert(count * 15_000_000 <= usize::MAX * 15_000_000) by (nonlinear_arith)
                    requires
                        count <= usize::MAX,
                ;
            }
            div_toward_zero(total_impact, count as i128) as i64
        } else {
            0
        }
    }

    /// What relationships do to playing time. The player does not enter. The
    /// relationships with teammates are given in the order in which they are
    /// walked.
    pub fn calculate_relationship_playing_time_impact(
        &self,
        _player_id: u128,
        manager_relationship: i64,
        teammate_relationships: &[(u128, i64)],
        manager_profile: &ManagerProfile,
    ) -> (impact: i64)
        requires
            is_percentage(manager_relationship as int),
            relationships_valid(teammate_relationships@),
            is_percentage(manager_profile.favoritism as int),
            is_percentage(manager_profile.youth_trust as int),
        ensures
            impact == playing_time_impact_of(
                manager_relationship as int,
                teammate_relationships@,
                *manager_profile,
            ),
            -5_000_000 <= impact <= 105_000_000,
    {
        proof {
            lemma_fmul_bound(
                manager_relationship as int,
                manager_profile.favoritism as int,
                100_000_000,
                100_000_000,
            );
        }
        let manager_impact: i64 = times(manager_relationship, manager_profile.favoritism) / 100;
        let avg_teammate_relationship: i64 = if teammate_relationships.len() == 0 {
            NEUTRAL_RELATIONSHIP
        } else {
            let mut sum: i128 = 0;
            let mut i: usize = 0;
            while i < teammate_relationships.len()
                invariant
                    0 <= i <= teammate_relationships@.len(),
                    relationships_valid(teammate_relationships@),
                    sum == relationship_sum(teammate_relationships@, i as int),
                    0 <= sum <= i * 100_000_000,
                decreases teammate_relationships@.len() - i,
            {
                assert(is_percentage(teammate_relationships@[i as int].1 as int));
                proof {
                    assert((i + 1) * 100_000_000 == i * 100_000_000 + 100_000_000)
                        by (nonlinear_arith);
                    assert(i * 100_000_000 <= usize::MAX * 100_000_000) by (nonlinear_arith)
                        requires
                            i <= usize::MAX,
                    ;
                }
                sum = sum + teammate_relationships[i].1 as i128;
                i = i + 1;
            }
            let length: i128 = teammate_relationships.len() as i128;
            proof {
                assert(sum / length <= 100_000_000) by (nonlinear_arith)
                    requires
                        0 <= sum <= length * 100_000_000,
                        length > 0,
                ;
                assert(sum / length >= 0) by (nonlinear_arith)
                    requires
                        0 <= sum,
                        length > 0,
                ;
            }
            (sum / length) as i64
        };
        proof {
            lemma_fmul_bound(
                avg_teammate_relationship - NEUTRAL_RELATIONSHIP,
                manager_profile.youth_trust / 100,
                50_000_000,
                1_000_000,
            );
        }
        let with_trust: i64 = times(
            avg_teammate_relationship - NEUTRAL_RELATIONSHIP,
            manager_profile.youth_trust / 100,
        );
        proof {
            lemma_fmul_bound(with_trust as int, 100_000, 50_000_000, 100_000);
        }
        let chemistry_impact: i64 = times(with_trust, 100_000);
        manager_impact + chemistry_impact
    }

    /// The chance that an interaction succeeds.
    pub fn calculate_interaction_success_chance(
        &self,
        initiator_relationship: i64,
        target_relationship: i64,
        interaction_type: InteractionType,
        personality_factors: &PersonalityFactors,
    ) -> (chance: i64)
        requires
            is_percentage(initiator_relationship as int),
            is_percentage(target_relationship as int),
        ensures
            chance == interaction_success_chance_of(
                initiator_relationship as int,
                target_relationship as int,
                interaction_type,
                *personality_factors,
            ),
            100_000 <= chance <= 950_000,
    {
        let base_chance: i64 = (initiator_relationship + target_relationship) / 200;
        let interaction_modifier: i64 = match interaction_type {
            InteractionType::PositiveEncouragement => 1_200_000,
            InteractionType::ConstructiveFeedback => 1_000_000,
            InteractionType::SeriousRequest => 800_000,
            InteractionType::Conflict => 600_000,
            InteractionType::AdviceSeeking => 1_100_000,
        };
        let teamwork_modifier: i64 = (personality_factors.teamwork as i64) * 10_000;
        let communication_modifier: i64 = (personality_factors.communication as i64) * 10_000;
        proof {
            lemma_fmul_bound(base_chance as int, interaction_modifier as int, 1_000_000, 1_200_000);
        }
        let with_kind: i64 = times(base_chance, interaction_modifier);
        proof {
            lemma_fmul_bound(with_kind as int, teamwork_modifier as int, 1_200_000, 2_550_000);
        }
        let with_teamwork: i64 = times(with_kind, teamwork_modifier);
        proof {
            lemma_fmul_bound(with_teamwork as int, communication_modifier as int, 3_060_000, 2_550_000);
        }
        let final_chance: i64 = times(with_teamwork, communication_modifier);
        clamp(final_chance, 100_000, 950_000)
    }

    /// Carries out an interaction whose outcome is decided: the relationship
    /// with the initiator changes first, then that with the target.
    pub fn process_interaction(
        &self,
        relationships: &mut HashMap<u128, i64>,
        initiator_id: u128,
        target_id: u128,
        interaction_type: InteractionType,
        personality_factors: &PersonalityFactors,
        success: bool,
    ) -> (result: InteractionResult)
        ensures
            result.success == success,
            result.initiator_new_relationship == relationship_after(
                old(relationships)@,
                initiator_id,
                interaction_changes(interaction_type, success).0,
                *personality_factors,
            ),
            result.target_new_relationship == relationship_after(
                old(relationships)@.insert(initiator_id, result.initiator_new_relationship),
                target_id,
                interaction_changes(interaction_type, success).1,
                *personality_factors,
            ),
            final(relationships)@ == old(relationships)@.insert(
                initiator_id,
                result.initiator_new_relationship,
            ).insert(target_id, result.target_new_relationship),
    {
        let (initiator_change, target_change): (i64, i64) = match interaction_type {
            InteractionType::PositiveEncouragement => {
                if success {
                    (2_000_000, 3_000_000)
                } else {
                    (-1_000_000, -2_000_000)
                }
            },
            InteractionType::ConstructiveFeedback => {
                if success {
                    (1_000_000, 2_000_000)
                } else {
                    (-2_000_000, -1_000_000)
                }
            },
            InteractionType::SeriousRequest => {
                if success {
                    (3_000_000, 1_000_000)
                } else {
                    (-3_000_000, 500_000)
                }
            },
            InteractionType::Conflict => {
                if success {
                    (1_000_000, -3_000_000)
                } else {
                    (-2_000_000, -2_000_000)
                }
            },
            InteractionType::AdviceSeeking => {
                if success {
                    (2_000_000, 1_500_000)
                } else {
                    (-1_000_000, -500_000)
                }
            },
        };
        let new_initiator_rel: i64 = self.update_relationship(
            relationships,
            initiator_id,
            initiator_change,
            personality_factors,
        );
        let new_target_rel: i64 = self.update_relationship(
            relationships,
            target_id,
            target_change,
            personality_factors,
        );
        InteractionResult {
            initiator_new_relationship: new_initiator_rel,
            target_new_relationship: new_target_rel,
            success,
        }
    }

    /// What the relationships of a player weigh in a transfer decision. The
    /// relationships are given in the order in which they are walked: of
    /// several managers the last one counts.
    pub fn calculate_relationship_transfer_impact(
        &self,
        player_relationships: &[(u128, i64)],
        relationship_types: &HashMap<u128, RelationshipType>,
        current_club_id: u128,
    ) -> (influence: TransferInfluence)
        requires
            relationships_valid(player_relationships@),
        ensures
            influence == transfer_influence_of(
                player_relationships@,
                relationship_types@,
                current_club_id,
            ),
    {
        let mut club_loyalty: i64 = 0;
        let mut manager_influence: i64 = 0;
        let mut teammate_influence: i128 = 0;
        let mut i: usize = 0;
        while i < player_relationships.len()
            invariant
                0 <= i <= player_relationships@.len(),
                relationships_valid(player_relationships@),
                club_loyalty == last_club(
                    player_relationships@,
                    relationship_types@,
                    current_club_id,
                    i as int,
                ),
                manager_influence == last_manager(
                    player_relationships@,
                    relationship_types@,
                    i as int,
                ),
                teammate_influence == teammate_sum(
                    player_relationships@,
                    relationship_types@,
                    i as int,
                ),
                0 <= teammate_influence <= i * 100_000_000,
            decreases player_relationships@.len() - i,
        {
            let entity_id: u128 = player_relationships[i].0;
            let value: i64 = player_relationships[i].1;
            assert(is_percentage(player_relationships@[i as int].1 as int));
            proof {
                assert((i + 1) * 100_000_000 == i * 100_000_000 + 100_000_000) by (nonlinear_arith);
                assert(i * 100_000_000 <= usize::MAX * 100_000_000) by (nonlinear_arith)
                    requires
                        i <= usize::MAX,
                ;
            }
            match relationship_types.get(&entity_id) {
                Some(rel_type) => {
                    match rel_type {
                        RelationshipType::Manager => {
                            manager_influence = value;
                        },
                        RelationshipType::Teammate => {
                            teammate_influence = teammate_influence + value as i128;
                        },
                        RelationshipType::Club => {
                            if entity_id == current_club_id {
                                club_loyalty = value;
                            }
                        },
                        _ => {},
                    }
                },
                None => {},
            }
            i = i + 1;
        }
        let avg_teammate_influence: i64 = if player_relationships.len() > 0 {
            let length: i128 = player_relationships.len() as i128;
            proof {
                assert(teammate_influence / length <= 100_000_000) by (nonlinear_arith)
                    requires
                        0 <= teammate_influence <= length * 100_000_000,
                        length > 0,
                ;
                assert(teammate_influence / length >= 0) by (nonlinear_arith)
                    requires
                        0 <= teammate_influence,
                        length > 0,
                ;
            }
            (teammate_influence / length) as i64
        } else {
            NEUTRAL_RELATIONSHIP
        };
        TransferInfluence {
            club_loyalty,
            manager_influence,
            teammate_influence: avg_teammate_influence,
        }
    }

    /// The word for a relationship of the given value.
    pub fn get_relationship_status(&self, value: i64) -> (status: RelationshipStatus)
        ensures
            status == relationship_status_of(value as int),
    {
        if value >= 80 * SCALE {
            RelationshipStatus::Excellent
        } else if value >= 60 * SCALE {
            RelationshipStatus::Good
        } else if value >= 40 * SCALE {
            RelationshipStatus::Neutral
        } else if value >= 20 * SCALE {
            RelationshipStatus::Poor
        } else {
            RelationshipStatus::Terrible
        }
    }
}

} // verus!
