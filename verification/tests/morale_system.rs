use player_manager::entities::{
    CareerStats, Contract, Foot, HiddenAttributes, MentalAttributes, PhysicalAttributes, Player,
    Position, SquadRole, TechnicalAttributes,
};
use player_manager::utils::helpers::generate_unique_id;
use player_manager::systems::morale_system::{
    ContractStatus, GameResult, MediaAttention, PersonalityEngine, PersonalityProfile,
    ReactionOutcome, SituationType, StressResponse,
};
use player_manager::systems::MoraleEngine;

fn fixed(value: f64) -> i64 {
    (value * 1_000_000.0).round() as i64
}

fn units(value: i64) -> f64 {
    value as f64 / 1_000_000.0
}

fn create_test_contract() -> Contract {
    Contract {
        club_id: generate_unique_id(),
        wage: fixed(50000.0),
        length_years: 3,
        squad_role: SquadRole::FirstTeam,
        release_clause: None,
        performance_bonuses: vec![],
        contract_end_date: 739_617,
        league_strength: fixed(75.0),
    }
}

fn create_test_player() -> Player {
    Player {
        id: generate_unique_id(),
        name: "Test Player".to_string(),
        age: 25,
        nationality: "Country".to_string(),
        height: 180,
        weight: 75,
        preferred_foot: Foot::Right,
        primary_position: Position::CM,
        secondary_positions: vec![],
        technical: TechnicalAttributes {
            dribbling: 75,
            passing: 80,
            shooting: 70,
            first_touch: 78,
            tackling: 72,
            crossing: 65,
        },
        physical: PhysicalAttributes { pace: 70, stamina: 85, strength: 75, agility: 72, jumping: 68 },
        mental: MentalAttributes {
            composure: 80,
            vision: 85,
            work_rate: 75,
            determination: 82,
            positioning: 78,
            teamwork: 80,
        },
        hidden: HiddenAttributes {
            injury_proneness: 20,
            consistency: 70,
            big_match_temperament: 80,
            professionalism: 90,
            potential_ceiling: 85,
            versatility: 75,
            ambition: 80,
            loyalty: 60,
            ego: 70,
        },
        fitness: fixed(90.0),
        fatigue: fixed(10.0),
        form: fixed(7.5),
        morale: fixed(75.0),
        sharpness: fixed(80.0),
        local_reputation: fixed(65.0),
        international_reputation: fixed(40.0),
        contract: create_test_contract(),
        career_stats: CareerStats {
            seasons_played: 3,
            total_appearances: 50,
            total_goals: 10,
            total_assists: 8,
            total_yellow_cards: 15,
            total_red_cards: 1,
            average_rating: fixed(7.2),
            highest_rating: fixed(9.0),
            season_stats: vec![],
            awards: vec![],
            trophies: vec![],
        },
        injury_status: None,
        form_history: vec![fixed(7.0), fixed(7.5), fixed(8.0), fixed(6.8), fixed(7.2)],
    }
}

#[test]
fn test_morale_performance_modifier() {
    let engine = MoraleEngine::new();

    assert!((units(engine.calculate_morale_performance_modifier(fixed(100.0))) - 1.1).abs() < 0.01);
    assert!((units(engine.calculate_morale_performance_modifier(fixed(50.0))) - 1.0).abs() < 0.01);
    assert!((units(engine.calculate_morale_performance_modifier(fixed(0.0))) - 0.7).abs() < 0.01);
}

#[test]
fn test_morale_development_modifier() {
    let engine = MoraleEngine::new();

    assert!((units(engine.calculate_morale_development_modifier(fixed(100.0))) - 1.2).abs() < 0.01);
    assert!((units(engine.calculate_morale_development_modifier(fixed(50.0))) - 1.0).abs() < 0.01);
    assert!((units(engine.calculate_morale_development_modifier(fixed(0.0))) - 0.6).abs() < 0.01);
}

#[test]
fn test_morale_injury_modifier() {
    let engine = MoraleEngine::new();

    assert!((units(engine.calculate_morale_injury_modifier(fixed(100.0))) - 0.8).abs() < 0.01);
    assert!((units(engine.calculate_morale_injury_modifier(fixed(50.0))) - 1.0).abs() < 0.01);
    assert!((units(engine.calculate_morale_injury_modifier(fixed(0.0))) - 1.5).abs() < 0.01);
}

#[test]
fn test_personality_reaction() {
    let engine = PersonalityEngine::new();

    let profile = PersonalityProfile::new(
        fixed(0.8),
        fixed(0.3),
        fixed(0.7),
        fixed(0.9),
        fixed(0.4),
        fixed(0.2),
    );

    let reaction = engine.determine_reaction(&profile, &SituationType::TeamSuccess, fixed(0.8));
    assert_eq!(reaction, ReactionOutcome::PositiveEngagement);

    let reaction = engine.determine_reaction(&profile, &SituationType::PressureSituation, fixed(0.9));
    assert_eq!(reaction, ReactionOutcome::RiseToChallenge);
}

#[test]
fn test_stress_response() {
    let engine = PersonalityEngine::new();

    let profile = PersonalityProfile::new(
        fixed(0.5),
        fixed(0.5),
        fixed(0.8),
        fixed(0.5),
        fixed(0.5),
        fixed(0.1),
    );

    let response = engine.calculate_stress_response(&profile, fixed(0.2));
    assert_eq!(response, StressResponse::Calm);

    let response = engine.calculate_stress_response(&profile, fixed(0.8));
    assert_eq!(response, StressResponse::HandlingWell);
}

#[test]
fn morale_modifiers_exact_values() {
    let engine = MoraleEngine::new();
    assert_eq!(engine.calculate_morale_performance_modifier(fixed(100.0)), 1_100_000);
    assert_eq!(engine.calculate_morale_performance_modifier(fixed(50.0)), 1_000_000);
    assert_eq!(engine.calculate_morale_performance_modifier(0), 700_006);
    assert_eq!(engine.calculate_morale_performance_modifier(fixed(25.0)), 850_003);
    assert_eq!(engine.calculate_morale_development_modifier(fixed(100.0)), 1_200_000);
    assert_eq!(engine.calculate_morale_development_modifier(0), 600_000);
    assert_eq!(engine.calculate_morale_injury_modifier(fixed(100.0)), 800_000);
    assert_eq!(engine.calculate_morale_injury_modifier(0), 1_500_000);
}

#[test]
fn effects_on_morale() {
    let engine = MoraleEngine::new();
    // 3.0 * (1 - 80 / 200)
    assert_eq!(engine.calculate_match_performance_effect(fixed(8.0), 80), 1_800_000);
    assert_eq!(engine.calculate_match_performance_effect(fixed(9.0), 0), 5_000_000);
    assert_eq!(engine.calculate_match_performance_effect(fixed(7.0), 0), 1_500_000);
    assert_eq!(engine.calculate_match_performance_effect(fixed(6.0), 0), 500_000);
    assert_eq!(engine.calculate_match_performance_effect(fixed(5.0), 0), -1_000_000);
    assert_eq!(engine.calculate_match_performance_effect(fixed(4.9), 100), -1_500_000);
    // a prospect who plays the whole match: the gain is capped
    assert_eq!(engine.calculate_playing_time_effect(90, &SquadRole::Prospect), 1_500_000);
    // (90 - 70) / 70 * 3
    assert_eq!(engine.calculate_playing_time_effect(90, &SquadRole::FirstTeam), 857_142);
    assert_eq!(engine.calculate_playing_time_effect(90, &SquadRole::KeyPlayer), 176_469);
    assert_eq!(engine.calculate_playing_time_effect(70, &SquadRole::FirstTeam), 0);
    // (45 - 70) / 70 * 5
    assert_eq!(engine.calculate_playing_time_effect(45, &SquadRole::FirstTeam), -1_785_710);
    assert_eq!(engine.calculate_playing_time_effect(0, &SquadRole::KeyPlayer), -5_000_000);
    assert_eq!(engine.calculate_playing_time_effect(0, &SquadRole::Rotation), -5_000_000);
    assert_eq!(engine.calculate_playing_time_effect(0, &SquadRole::Backup), -5_000_000);
    assert_eq!(engine.calculate_team_result_effect(GameResult::Win), 2_000_000);
    assert_eq!(engine.calculate_team_result_effect(GameResult::Draw), 500_000);
    assert_eq!(engine.calculate_team_result_effect(GameResult::Loss), -1_500_000);
    let mut contract = create_test_contract();
    contract.squad_role = SquadRole::Backup;
    assert_eq!(engine.calculate_contract_effect(ContractStatus::Active, &contract), 0);
    assert_eq!(engine.calculate_contract_effect(ContractStatus::ExpiringSoon, &contract), 1_000_000);
    assert_eq!(engine.calculate_contract_effect(ContractStatus::Expired, &contract), -5_000_000);
    assert_eq!(engine.calculate_contract_effect(ContractStatus::Renewed, &contract), 3_000_000);
    assert_eq!(engine.calculate_contract_effect(ContractStatus::Negotiating, &contract), 3_500_000);
    contract.squad_role = SquadRole::KeyPlayer;
    assert_eq!(engine.calculate_contract_effect(ContractStatus::ExpiringSoon, &contract), -1_500_000);
    assert_eq!(engine.calculate_contract_effect(ContractStatus::Negotiating, &contract), -250_000);
    assert_eq!(SquadRole::Prospect.ambition_factor(), 2_500_000);
    assert_eq!(SquadRole::Rotation.ambition_factor(), 2_000_000);
    assert_eq!(SquadRole::FirstTeam.ambition_factor(), 1_000_000);
    // 1.5 * 65 / 50
    assert_eq!(engine.calculate_media_effect(MediaAttention::Positive, 65), 1_950_000);
    assert_eq!(engine.calculate_media_effect(MediaAttention::Neutral, 65), 0);
    assert_eq!(engine.calculate_media_effect(MediaAttention::Negative, 50), -1_000_000);
    assert_eq!(engine.calculate_media_effect(MediaAttention::IntensePositive, 50), 3_000_000);
    assert_eq!(engine.calculate_media_effect(MediaAttention::IntenseNegative, 65), -5_200_000);
    assert_eq!(engine.calculate_relationship_effect(fixed(5.0), 60), 3_000_000);
    assert_eq!(engine.calculate_relationship_effect(fixed(-3.0), 60), -1_800_000);
    assert_eq!(engine.calculate_time_drift_effect(14), -1_000_000);
    assert_eq!(engine.calculate_time_drift_effect(10), -714_285);
    assert_eq!(engine.calculate_time_drift_effect(0), 0);
    assert_eq!(
        engine.sum_relationship_effects(&[(1, fixed(5.0)), (2, fixed(-3.0))], 60),
        1_200_000
    );
    assert_eq!(engine.sum_relationship_effects(&[], 60), 0);
}

#[test]
fn morale_moves_with_all_that_happened() {
    let engine = MoraleEngine::new();
    let mut player = create_test_player();
    player.hidden.professionalism = 80;
    player.hidden.ego = 65;
    player.contract.squad_role = SquadRole::Prospect;
    engine.update_player_morale(
        &mut player,
        Some(fixed(8.0)),
        Some(90),
        Some(GameResult::Win),
        ContractStatus::Active,
        MediaAttention::Positive,
        &[],
        0,
    );
    // 75 + 1.8 + 1.5 + 2.0 + 0 + 1.95
    assert_eq!(player.morale, 82_250_000);
    assert!(units(player.morale) > 70.0);

    // nothing happened but a month without a match
    let mut idle = create_test_player();
    engine.update_player_morale(
        &mut idle,
        None,
        None,
        None,
        ContractStatus::Active,
        MediaAttention::Neutral,
        &[],
        30,
    );
    assert_eq!(idle.morale, 75_000_000 - 2_142_857);
    // a week or less does not drift
    let mut fresh = create_test_player();
    engine.update_player_morale(
        &mut fresh,
        None,
        None,
        None,
        ContractStatus::Active,
        MediaAttention::Neutral,
        &[(1, fixed(5.0)), (2, fixed(-3.0))],
        7,
    );
    assert_eq!(fresh.morale, 76_200_000);
    // the morale stays between 0 and 100
    let mut low = create_test_player();
    low.morale = fixed(2.0);
    engine.update_player_morale(
        &mut low,
        Some(fixed(3.0)),
        Some(0),
        Some(GameResult::Loss),
        ContractStatus::Expired,
        MediaAttention::IntenseNegative,
        &[],
        0,
    );
    assert_eq!(low.morale, 0);
    let mut high = create_test_player();
    high.morale = fixed(99.0);
    engine.update_player_morale(
        &mut high,
        Some(fixed(9.5)),
        Some(90),
        Some(GameResult::Win),
        ContractStatus::Renewed,
        MediaAttention::IntensePositive,
        &[(1, fixed(100.0))],
        0,
    );
    assert_eq!(high.morale, fixed(100.0));
    assert_eq!(
        engine.total_morale_change(
            &create_test_player(),
            None,
            None,
            Some(GameResult::Draw),
            ContractStatus::Renewed,
            MediaAttention::Neutral,
            &[],
            3,
        ),
        3_500_000
    );
}

#[test]
fn personalities_react_to_situations() {
    let engine = PersonalityEngine::new();
    let steady = PersonalityProfile::new(
        fixed(0.8),
        fixed(0.7),
        fixed(0.7),
        fixed(0.9),
        fixed(0.4),
        fixed(0.2),
    );
    let restless = PersonalityProfile::new(
        fixed(0.3),
        fixed(0.3),
        fixed(0.2),
        fixed(0.3),
        fixed(0.9),
        fixed(0.9),
    );
    let torn = PersonalityProfile::new(
        fixed(0.75),
        fixed(0.6),
        fixed(0.5),
        fixed(0.5),
        fixed(0.7),
        fixed(0.6),
    );
    let cases = [
        (SituationType::TeamSuccess, ReactionOutcome::PositiveEngagement, ReactionOutcome::Indifferent, ReactionOutcome::PositiveEngagement),
        (SituationType::TeamFailure, ReactionOutcome::ConstructiveResponse, ReactionOutcome::BlameOthers, ReactionOutcome::Disappointed),
        (SituationType::PersonalAchievement, ReactionOutcome::Celebratory, ReactionOutcome::Humble, ReactionOutcome::Humble),
        (SituationType::ContractDispute, ReactionOutcome::PatientNegotiation, ReactionOutcome::DemandTransfer, ReactionOutcome::SeekCompromise),
        (SituationType::PressureSituation, ReactionOutcome::RiseToChallenge, ReactionOutcome::Choke, ReactionOutcome::RiseToChallenge),
        (SituationType::RelationshipConflict, ReactionOutcome::SeekResolution, ReactionOutcome::Withdraw, ReactionOutcome::SeekResolution),
    ];
    for (situation, of_steady, of_restless, of_torn) in cases {
        assert_eq!(engine.determine_reaction(&steady, &situation, 0), of_steady);
        assert_eq!(engine.determine_reaction(&restless, &situation, fixed(1.0)), of_restless);
        assert_eq!(engine.determine_reaction(&torn, &situation, fixed(0.5)), of_torn);
    }
}

#[test]
fn profiles_are_held_within_bounds() {
    let profile = PersonalityProfile::new(fixed(1.5), fixed(-0.5), fixed(0.5), 0, fixed(1.0), i64::MAX);
    assert_eq!(
        profile,
        PersonalityProfile {
            team_connection: 1_000_000,
            recognition_need: 0,
            resilience: 500_000,
            club_loyalty: 0,
            ambition_level: 1_000_000,
            pressure_sensitivity: 1_000_000,
        }
    );
}

#[test]
fn engagement_and_stress() {
    let engine = PersonalityEngine::new();
    let first = PersonalityProfile::new(fixed(0.8), fixed(0.5), fixed(0.8), fixed(0.9), fixed(0.5), fixed(0.1));
    let second = PersonalityProfile::new(fixed(0.5), fixed(0.5), fixed(0.7), fixed(0.5), fixed(0.5), fixed(0.2));
    // 0.7 * 0.3 + 0.6 * 0.2 + 0.5
    assert_eq!(engine.calculate_teammate_engagement_chance(&first, &second), 830_000);
    assert_eq!(engine.calculate_teammate_engagement_chance(&second, &first), 830_000);
    assert_eq!(engine.calculate_teammate_engagement_chance(&first, &first), 1_000_000);
    // effective resilience 0.8 * 0.95 = 0.76 and 0.7 * 0.9 = 0.63
    assert_eq!(engine.calculate_stress_response(&first, fixed(0.29)), StressResponse::Calm);
    assert_eq!(engine.calculate_stress_response(&first, fixed(0.3)), StressResponse::Managing);
    assert_eq!(engine.calculate_stress_response(&first, fixed(0.6)), StressResponse::HandlingWell);
    assert_eq!(engine.calculate_stress_response(&second, fixed(0.59)), StressResponse::Managing);
    assert_eq!(engine.calculate_stress_response(&second, fixed(0.6)), StressResponse::Coping);
    let weak = PersonalityProfile::new(0, 0, fixed(0.5), 0, 0, fixed(1.0));
    // 0.5 * 0.5 = 0.25
    assert_eq!(engine.calculate_stress_response(&weak, fixed(0.4)), StressResponse::Struggling);
    assert_eq!(engine.calculate_stress_response(&weak, fixed(0.9)), StressResponse::Overwhelmed);
}
