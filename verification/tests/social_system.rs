use player_manager::systems::social_system::{
    CommunicationStyle, InteractionResult, InteractionType, ManagerProfile, PersonalityFactors,
    RelationshipStatus, RelationshipType, TransferInfluence,
};
use player_manager::systems::SocialEngine;
use player_manager::utils::helpers::generate_unique_id;
use std::collections::HashMap;

fn fixed(value: f64) -> i64 {
    (value * 1_000_000.0).round() as i64
}

fn units(value: i64) -> f64 {
    value as f64 / 1_000_000.0
}

fn walk(relationships: &HashMap<u128, i64>) -> Vec<(u128, i64)> {
    relationships.iter().map(|(id, value)| (*id, *value)).collect()
}

#[test]
fn test_relationship_update() {
    let engine = SocialEngine::new();
    let mut relationships = HashMap::new();

    let personality = PersonalityFactors::new(80, 50, 70, 60, 75);

    let new_value =
        engine.update_relationship(&mut relationships, generate_unique_id(), fixed(10.0), &personality);
    assert!(units(new_value) > 50.0);

    let other_id = generate_unique_id();
    let new_value =
        engine.update_relationship(&mut relationships, other_id, fixed(-15.0), &personality);
    assert!(units(new_value) < 50.0);
}

#[test]
fn test_personality_modifiers() {
    let engine = SocialEngine::new();

    let high_loyalty = PersonalityFactors::new(90, 30, 60, 70, 80);
    let high_ego = PersonalityFactors::new(50, 90, 60, 70, 80);

    let modified_high_loyalty = engine.apply_personality_modifiers(fixed(5.0), &high_loyalty);
    let modified_low_loyalty =
        engine.apply_personality_modifiers(fixed(5.0), &PersonalityFactors::new(30, 50, 60, 70, 80));
    assert!(modified_high_loyalty > modified_low_loyalty);

    let modified_pos_ego = engine.apply_personality_modifiers(fixed(5.0), &high_ego);
    let modified_neg_ego = engine.apply_personality_modifiers(fixed(-5.0), &high_ego);
    assert!(units(modified_pos_ego) > 5.0);
    assert!(units(modified_neg_ego) < -5.0);
}

#[test]
fn test_relationship_status() {
    let engine = SocialEngine::new();

    assert_eq!(engine.get_relationship_status(fixed(90.0)), RelationshipStatus::Excellent);
    assert_eq!(engine.get_relationship_status(fixed(70.0)), RelationshipStatus::Good);
    assert_eq!(engine.get_relationship_status(fixed(50.0)), RelationshipStatus::Neutral);
    assert_eq!(engine.get_relationship_status(fixed(30.0)), RelationshipStatus::Poor);
    assert_eq!(engine.get_relationship_status(fixed(10.0)), RelationshipStatus::Terrible);
}

#[test]
fn test_interaction_success_chance() {
    let engine = SocialEngine::new();

    let personality = PersonalityFactors::new(70, 40, 80, 90, 75);

    let chance = engine.calculate_interaction_success_chance(
        fixed(80.0),
        fixed(85.0),
        InteractionType::PositiveEncouragement,
        &personality,
    );
    assert!(units(chance) > 0.7);

    let chance = engine.calculate_interaction_success_chance(
        fixed(20.0),
        fixed(25.0),
        InteractionType::SeriousRequest,
        &personality,
    );
    assert!(units(chance) < 0.5);
}

#[test]
fn test_social_relationship_integration() {
    let mut relationships = HashMap::new();
    let other_entity_id = generate_unique_id();

    let social_engine = SocialEngine::new();

    let personality_factors = PersonalityFactors::new(80, 50, 70, 60, 75);
    let new_value = social_engine.update_relationship(
        &mut relationships,
        other_entity_id,
        fixed(10.0),
        &personality_factors,
    );
    assert!(units(new_value) > 50.0);

    let mut relationship_types = HashMap::new();
    relationship_types.insert(other_entity_id, RelationshipType::Teammate);

    let morale_impact = social_engine
        .calculate_relationship_morale_impact(&walk(&relationships), &relationship_types);
    assert!(units(morale_impact) >= 0.0);
    // (70.906654 - 50) * 0.1
    assert_eq!(morale_impact, 2_090_665);
}

#[test]
fn relationships_change_with_the_personality() {
    let engine = SocialEngine::new();
    let personality = PersonalityFactors::new(80, 50, 70, 60, 75);
    // 10 * 1.4 * 1.166666 * 1.28
    assert_eq!(engine.apply_personality_modifiers(fixed(10.0), &personality), 20_906_654);
    // -15 * 1.4 * 1.25 * 1.28
    assert_eq!(engine.apply_personality_modifiers(fixed(-15.0), &personality), -33_600_000);
    assert_eq!(engine.apply_personality_modifiers(0, &personality), 0);
    assert_eq!(
        engine.apply_personality_modifiers(fixed(5.0), &PersonalityFactors::new(90, 30, 60, 70, 80)),
        9_889_000
    );
    assert_eq!(
        engine.apply_personality_modifiers(fixed(-5.0), &PersonalityFactors::new(50, 90, 60, 70, 80)),
        -11_237_500
    );
    let mut relationships = HashMap::new();
    assert_eq!(engine.update_relationship(&mut relationships, 7, fixed(10.0), &personality), 70_906_654);
    assert_eq!(relationships.get(&7), Some(&70_906_654));
    assert_eq!(engine.update_relationship(&mut relationships, 8, fixed(-15.0), &personality), 16_400_000);
    // a relationship on record is the start of the next change
    assert_eq!(engine.update_relationship(&mut relationships, 8, fixed(-15.0), &personality), 0);
    assert_eq!(engine.update_relationship(&mut relationships, 7, fixed(100.0), &personality), fixed(100.0));
    assert_eq!(relationships.len(), 2);
}

#[test]
fn factors_are_capped_at_a_hundred() {
    let factors = PersonalityFactors::new(101, 255, 100, 0, 99);
    assert_eq!(
        factors,
        PersonalityFactors { loyalty: 100, ego: 100, teamwork: 100, communication: 0, trust: 99 }
    );
}

#[test]
fn relationship_status_at_the_borders() {
    let engine = SocialEngine::new();
    assert_eq!(engine.get_relationship_status(fixed(80.0)), RelationshipStatus::Excellent);
    assert_eq!(engine.get_relationship_status(79_999_999), RelationshipStatus::Good);
    assert_eq!(engine.get_relationship_status(fixed(60.0)), RelationshipStatus::Good);
    assert_eq!(engine.get_relationship_status(fixed(40.0)), RelationshipStatus::Neutral);
    assert_eq!(engine.get_relationship_status(fixed(20.0)), RelationshipStatus::Poor);
    assert_eq!(engine.get_relationship_status(19_999_999), RelationshipStatus::Terrible);
}

#[test]
fn interaction_chances_exact_values() {
    let engine = SocialEngine::new();
    let personality = PersonalityFactors::new(70, 40, 80, 90, 75);
    // 0.825 * 1.2 * 0.8 * 0.9
    assert_eq!(
        engine.calculate_interaction_success_chance(
            fixed(80.0),
            fixed(85.0),
            InteractionType::PositiveEncouragement,
            &personality
        ),
        712_800
    );
    // 0.225 * 0.8 * 0.8 * 0.9
    assert_eq!(
        engine.calculate_interaction_success_chance(
            fixed(20.0),
            fixed(25.0),
            InteractionType::SeriousRequest,
            &personality
        ),
        129_600
    );
    let best = PersonalityFactors::new(100, 100, 100, 100, 100);
    assert_eq!(
        engine.calculate_interaction_success_chance(
            fixed(100.0),
            fixed(100.0),
            InteractionType::PositiveEncouragement,
            &best
        ),
        950_000
    );
    assert_eq!(
        engine.calculate_interaction_success_chance(0, 0, InteractionType::Conflict, &best),
        100_000
    );
    // 1.0 * 0.6, 1.0 * 1.0 capped, 1.0 * 1.1 capped
    assert_eq!(
        engine.calculate_interaction_success_chance(
            fixed(100.0),
            fixed(100.0),
            InteractionType::Conflict,
            &best
        ),
        600_000
    );
    assert_eq!(
        engine.calculate_interaction_success_chance(
            fixed(100.0),
            fixed(100.0),
            InteractionType::ConstructiveFeedback,
            &best
        ),
        950_000
    );
    assert_eq!(
        engine.calculate_interaction_success_chance(
            fixed(50.0),
            fixed(50.0),
            InteractionType::AdviceSeeking,
            &best
        ),
        550_000
    );
}

#[test]
fn interactions_move_both_relationships() {
    let engine = SocialEngine::new();
    let personality = PersonalityFactors::new(70, 40, 80, 90, 75);
    let mut relationships = HashMap::new();
    let result = engine.process_interaction(
        &mut relationships,
        1,
        2,
        InteractionType::PositiveEncouragement,
        &personality,
        true,
    );
    assert_eq!(
        result,
        InteractionResult {
            initiator_new_relationship: 54_039_198,
            target_new_relationship: 56_058_797,
            success: true,
        }
    );
    assert_eq!(relationships.get(&1), Some(&54_039_198));
    assert_eq!(relationships.get(&2), Some(&56_058_797));
    // the same person on both sides: the second change builds on the first
    let mut alone = HashMap::new();
    let result = engine.process_interaction(
        &mut alone,
        1,
        1,
        InteractionType::PositiveEncouragement,
        &personality,
        true,
    );
    assert_eq!(result.initiator_new_relationship, 54_039_198);
    assert_eq!(result.target_new_relationship, 60_097_995);
    assert_eq!(alone.get(&1), Some(&60_097_995));
    // a serious request that fails: -3.0 and +0.5
    let mut failed = HashMap::new();
    let result = engine.process_interaction(
        &mut failed,
        1,
        2,
        InteractionType::SeriousRequest,
        &personality,
        false,
    );
    assert_eq!(result.initiator_new_relationship, 43_584_800);
    assert_eq!(result.target_new_relationship, 51_009_798);
    assert!(!result.success);
    // a conflict that is won still costs the other side
    let mut won = HashMap::new();
    let result =
        engine.process_interaction(&mut won, 1, 2, InteractionType::Conflict, &personality, true);
    assert!(result.initiator_new_relationship > fixed(50.0));
    assert!(result.target_new_relationship < fixed(50.0));
    for (kind, success) in [
        (InteractionType::ConstructiveFeedback, true),
        (InteractionType::ConstructiveFeedback, false),
        (InteractionType::AdviceSeeking, true),
        (InteractionType::AdviceSeeking, false),
        (InteractionType::Conflict, false),
        (InteractionType::PositiveEncouragement, false),
        (InteractionType::SeriousRequest, true),
    ] {
        let mut fresh = HashMap::new();
        let result = engine.process_interaction(&mut fresh, 1, 2, kind, &personality, success);
        assert_eq!(result.initiator_new_relationship > fixed(50.0), success);
        assert_eq!(result.target_new_relationship > fixed(50.0), success);
    }
}

#[test]
fn relationships_weigh_on_morale_playing_time_and_transfers() {
    let engine = SocialEngine::new();
    let mut types = HashMap::new();
    types.insert(1u128, RelationshipType::Manager);
    types.insert(2u128, RelationshipType::Teammate);
    types.insert(4u128, RelationshipType::Club);
    types.insert(5u128, RelationshipType::Teammate);
    types.insert(6u128, RelationshipType::Club);
    let relationships = vec![(1u128, fixed(60.0)), (2, fixed(40.0)), (3, fixed(90.0))];
    // (10 * 0.3 - 10 * 0.1) / 2; the relationship of unknown type does not count
    assert_eq!(engine.calculate_relationship_morale_impact(&relationships, &types), 1_000_000);
    assert_eq!(engine.calculate_relationship_morale_impact(&[], &types), 0);
    assert_eq!(engine.calculate_relationship_morale_impact(&[(3, fixed(90.0))], &types), 0);
    for (id, kind, weight) in [
        (11u128, RelationshipType::Agent, 0.2),
        (12, RelationshipType::Family, 0.25),
        (13, RelationshipType::Media, 0.05),
        (14, RelationshipType::Fans, 0.15),
        (15, RelationshipType::Club, 0.2),
    ] {
        let mut one = HashMap::new();
        one.insert(id, kind);
        assert_eq!(
            engine.calculate_relationship_morale_impact(&[(id, fixed(70.0))], &one),
            fixed(20.0 * weight)
        );
    }

    let manager = ManagerProfile {
        favoritism: fixed(60.0),
        youth_trust: fixed(50.0),
        discipline: fixed(50.0),
        communication_style: CommunicationStyle::Direct,
    };
    // 70 * 60 / 100 + (70 - 50) * 0.5 * 0.1
    assert_eq!(
        engine.calculate_relationship_playing_time_impact(
            9,
            fixed(70.0),
            &[(2, fixed(60.0)), (5, fixed(80.0))],
            &manager
        ),
        43_000_000
    );
    assert_eq!(
        engine.calculate_relationship_playing_time_impact(9, fixed(70.0), &[], &manager),
        42_000_000
    );

    let walked = vec![
        (1u128, fixed(60.0)),
        (2, fixed(40.0)),
        (3, fixed(90.0)),
        (4, fixed(75.0)),
        (5, fixed(80.0)),
        (6, fixed(20.0)),
    ];
    assert_eq!(
        engine.calculate_relationship_transfer_impact(&walked, &types, 4),
        TransferInfluence {
            club_loyalty: fixed(75.0),
            manager_influence: fixed(60.0),
            // the teammates are divided by all relationships: (40 + 80) / 6
            teammate_influence: fixed(20.0),
        }
    );
    assert_eq!(
        engine.calculate_relationship_transfer_impact(&[], &types, 4),
        TransferInfluence { club_loyalty: 0, manager_influence: 0, teammate_influence: fixed(50.0) }
    );
    assert_eq!(engine.calculate_relationship_transfer_impact(&walked, &types, 99).club_loyalty, 0);
}
