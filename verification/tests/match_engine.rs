use player_manager::entities::{
    CareerStats, CompetitionType, Contract, EventType, Foot, Formation, HiddenAttributes, Match,
    MatchEvent, MatchHalf, MatchLineup, MatchStatus, MentalAttributes, PhysicalAttributes,
    PitchZone, Player, PlayerInMatch, PlayerMatchStats, Position, SquadRole, TacticalStyle,
    Tactics, TechnicalAttributes, NIL_ID,
};
use player_manager::fixed::SCALE;
use player_manager::systems::match_system::{
    action_for_roll, defensive_action_for_rolls, pitch_zone_for_rolls, selected_index,
    succeeds_for_roll, success_rate, total_impact, total_weight, weighted_selection_for_draw,
    MatchImportance, MatchState,
};
use player_manager::systems::rating_aggregator::{count_earlier_of_type, events_of_player, sum_impacts};
use player_manager::systems::statistics_accumulator::{
    counters_within, first_entry_of, is_in_list, lineup_has_room, update_listed, StarterUpdate,
};
use player_manager::systems::MatchEngine;
use player_manager::utils::helpers::generate_unique_id;
use std::collections::HashMap;

fn units(value: i64) -> f64 {
    value as f64 / 1_000_000.0
}

fn fixed(value: f64) -> i64 {
    (value * 1_000_000.0).round() as i64
}

fn create_test_player() -> Player {
    Player {
        id: generate_unique_id(),
        name: "Test Player".to_string(),
        age: 17,
        nationality: "England".to_string(),
        height: 175,
        weight: 70,
        preferred_foot: Foot::Right,
        primary_position: Position::CM,
        secondary_positions: vec![Position::LM, Position::RM],
        technical: TechnicalAttributes {
            dribbling: 70,
            passing: 75,
            shooting: 65,
            first_touch: 72,
            tackling: 68,
            crossing: 60,
        },
        physical: PhysicalAttributes { pace: 65, stamina: 75, strength: 60, agility: 68, jumping: 62 },
        mental: MentalAttributes {
            composure: 70,
            vision: 75,
            work_rate: 72,
            determination: 78,
            positioning: 70,
            teamwork: 75,
        },
        hidden: HiddenAttributes {
            injury_proneness: 20,
            consistency: 70,
            big_match_temperament: 75,
            professionalism: 80,
            potential_ceiling: 85,
            versatility: 70,
            ambition: 80,
            loyalty: 60,
            ego: 65,
        },
        fitness: fixed(85.0),
        fatigue: fixed(15.0),
        form: fixed(7.0),
        morale: fixed(75.0),
        sharpness: fixed(80.0),
        local_reputation: fixed(45.0),
        international_reputation: fixed(10.0),
        contract: Contract {
            club_id: generate_unique_id(),
            wage: fixed(15000.0),
            length_years: 3,
            squad_role: SquadRole::Prospect,
            release_clause: Some(fixed(5000000.0)),
            performance_bonuses: vec![],
            contract_end_date: 740_000,
            league_strength: fixed(60.0),
        },
        career_stats: CareerStats {
            seasons_played: 0,
            total_appearances: 0,
            total_goals: 0,
            total_assists: 0,
            total_yellow_cards: 0,
            total_red_cards: 0,
            average_rating: 0,
            highest_rating: 0,
            season_stats: vec![],
            awards: vec![],
            trophies: vec![],
        },
        injury_status: None,
        form_history: vec![fixed(7.0), fixed(6.8), fixed(7.2), fixed(6.9), fixed(7.1)],
    }
}

fn player_at(position: Position) -> Player {
    let mut player = create_test_player();
    player.primary_position = position;
    player
}

fn create_opposing_player() -> Player {
    let mut player = create_test_player();
    player.id = generate_unique_id();
    player.name = "Opposing Player".to_string();
    player
}

fn create_mock_lineup() -> MatchLineup {
    MatchLineup {
        formation: Formation {
            goalkeeper: generate_unique_id(),
            defenders: vec![generate_unique_id(), generate_unique_id()],
            midfielders: vec![generate_unique_id(), generate_unique_id()],
            forwards: vec![generate_unique_id(), generate_unique_id()],
        },
        players: vec![],
        tactics: Tactics {
            style: TacticalStyle::Balanced,
            mentality: 0,
            tempo: fixed(0.5),
            width: fixed(0.5),
            pressing_intensity: fixed(0.5),
        },
        home_starting_xi: vec![],
        away_starting_xi: vec![],
    }
}

fn create_match(competition_type: CompetitionType, lineup: MatchLineup) -> Match {
    let home = generate_unique_id();
    Match {
        id: generate_unique_id(),
        competition_id: generate_unique_id(),
        home_team: home,
        away_team: generate_unique_id(),
        venue: home,
        status: MatchStatus::Scheduled,
        result: None,
        events: vec![],
        half_results: None,
        player_ratings: HashMap::new(),
        fulltime_score: None,
        competition_type,
        lineup,
    }
}

fn entry_for(player_id: u128) -> PlayerInMatch {
    PlayerInMatch {
        player_id,
        team_id: 1,
        position: Position::CM,
        shirt_number: 8,
        rating: None,
        events: vec![],
        minutes_played: 0,
        substitution_minute: None,
        was_substituted_on: false,
        was_substituted_off: false,
        stats: PlayerMatchStats::default(),
    }
}

/// An event of the given player and type whose multipliers are all 1.0, so
/// that its total impact is its base impact.
fn plain_event(player: u128, event_type: EventType, base_impact: f64) -> MatchEvent {
    let base = fixed(base_impact);
    MatchEvent {
        id: generate_unique_id(),
        match_id: 7,
        minute: 10,
        half: MatchHalf::First,
        event_type,
        player_involved: player,
        secondary_player: None,
        pitch_zone: PitchZone::MiddleThird,
        success: true,
        base_impact: base,
        time_multiplier: SCALE,
        position_multiplier: SCALE,
        difficulty_multiplier: SCALE,
        clutch_multiplier: SCALE,
        total_impact_score: total_impact(base, SCALE, SCALE, SCALE, SCALE),
    }
}

fn state_for<'a>(home: &'a [Player], away: &'a [Player], lineup: &MatchLineup) -> MatchState<'a> {
    MatchState::new(home, away, lineup, lineup)
}

fn rating_of(events: &[MatchEvent]) -> i64 {
    let engine = MatchEngine::new();
    let lineup = create_mock_lineup();
    let state = state_for(&[], &[], &lineup);
    engine.calculate_single_player_rating(events, &state)
}

#[test]
fn test_match_engine_creation() {
    let mut engine = MatchEngine::new();
    let chosen = engine.weighted_random_selection(&[(5, SCALE)]);
    assert_eq!(chosen, 5);
}

#[test]
fn test_base_impact_values() {
    let engine = MatchEngine::new();

    assert_eq!(units(engine.get_base_impact(&EventType::Goal)), 8.0);
    assert_eq!(units(engine.get_base_impact(&EventType::Assist)), 5.0);
    assert_eq!(units(engine.get_base_impact(&EventType::Save)), 2.5);
    assert_eq!(units(engine.get_base_impact(&EventType::YellowCard)), -1.0);
}

#[test]
fn test_time_multiplier() {
    let engine = MatchEngine::new();

    let multiplier = engine.calculate_time_multiplier(85, 0);
    assert!(units(multiplier) > 1.0);

    let multiplier = engine.calculate_time_multiplier(75, 1);
    assert!(units(multiplier) > 1.0);
}

#[test]
fn test_calculate_involvement_score() {
    let engine = MatchEngine::new();

    let empty_events: Vec<MatchEvent> = vec![];
    let score = engine.calculate_involvement_score(&empty_events);
    assert_eq!(units(score), 0.0);
}

#[test]
fn base_impact_of_every_listed_type() {
    let engine = MatchEngine::new();
    let table = [
        (EventType::Goal, 8.0),
        (EventType::Assist, 5.0),
        (EventType::KeyPass, 2.5),
        (EventType::ShotOnTarget, 1.5),
        (EventType::ShotOffTarget, 0.8),
        (EventType::DribbleSuccess, 0.7),
        (EventType::TackleWon, 1.2),
        (EventType::Interception, 1.0),
        (EventType::Block, 2.0),
        (EventType::Clearance, 0.8),
        (EventType::AerialDuelWon, 0.6),
        (EventType::Save, 2.5),
        (EventType::ReflexSave, 3.5),
        (EventType::OneOnOneSave, 4.0),
        (EventType::ClaimCross, 0.5),
        (EventType::PunchClear, 0.6),
        (EventType::SweeperClearance, 1.0),
        (EventType::GoalConceded, -2.0),
        (EventType::FoulCommitted, -0.5),
        (EventType::YellowCard, -1.0),
        (EventType::RedCard, -3.0),
        (EventType::MissedBigChance, -2.5),
        (EventType::PenaltyWon, 2.0),
        (EventType::PenaltyConceded, -2.0),
        (EventType::PenaltySaved, 4.0),
        (EventType::PenaltyMissed, -3.0),
    ];
    for (event_type, expected) in table {
        assert_eq!(engine.get_base_impact(&event_type), fixed(expected));
    }
    assert_eq!(engine.get_base_impact(&EventType::PassSuccess), 0);
    assert_eq!(engine.get_base_impact(&EventType::Offside), 0);
    assert_eq!(engine.get_base_impact(&EventType::OwnGoal), 0);
}

#[test]
fn time_multiplier_exact_values() {
    let engine = MatchEngine::new();
    // 1 + 0/90 * 0.3 = 1.0, close game: * 1.2
    assert_eq!(engine.calculate_time_multiplier(0, 0), 1_200_000);
    // 1 + 45/90 * 0.3 = 1.15, not close: * 1.0
    assert_eq!(engine.calculate_time_multiplier(45, 3), 1_150_000);
    // 1 + 90/90 * 0.3 = 1.3, late and close: * 1.4
    assert_eq!(engine.calculate_time_multiplier(90, -1), 1_820_000);
    // minute 70 is not yet late
    assert_eq!(engine.calculate_time_multiplier(70, 0), 1_480_000);
    // 1 + 71/90 * 0.3 = 1.23666.., * 1.4 = 1.73133..
    assert_eq!(engine.calculate_time_multiplier(71, 0), 1_731_333);
    // the lowest score difference is handled like any other
    assert_eq!(engine.calculate_time_multiplier(0, i8::MIN), 1_000_000);
    assert_eq!(engine.calculate_time_multiplier(0, 2), 1_000_000);
    assert_eq!(engine.calculate_time_multiplier(0, -2), 1_000_000);
}

#[test]
fn pressure_grows_with_time() {
    let engine = MatchEngine::new();
    assert!(engine.calculate_time_multiplier(85, 0) > engine.calculate_time_multiplier(10, 0));
    for difference in [-3i8, -1, 0, 1, 4] {
        for minute in 0u8..120 {
            assert!(
                engine.calculate_time_multiplier(minute + 1, difference)
                    > engine.calculate_time_multiplier(minute, difference)
            );
        }
    }
}

#[test]
fn position_multiplier_values() {
    let engine = MatchEngine::new();
    assert_eq!(engine.calculate_position_multiplier(&EventType::Goal, Position::GK), 2_000_000);
    assert_eq!(engine.calculate_position_multiplier(&EventType::Goal, Position::CB), 1_500_000);
    assert_eq!(engine.calculate_position_multiplier(&EventType::Goal, Position::CF), 1_000_000);
    assert_eq!(engine.calculate_position_multiplier(&EventType::Goal, Position::SS), 1_000_000);
    assert_eq!(engine.calculate_position_multiplier(&EventType::Goal, Position::LW), 1_100_000);
    assert_eq!(engine.calculate_position_multiplier(&EventType::Goal, Position::DM), 1_300_000);
    assert_eq!(engine.calculate_position_multiplier(&EventType::Goal, Position::RB), 1_400_000);
    assert_eq!(engine.calculate_position_multiplier(&EventType::Goal, Position::AM), 1_200_000);
    assert_eq!(engine.calculate_position_multiplier(&EventType::TackleWon, Position::CF), 1_400_000);
    assert_eq!(engine.calculate_position_multiplier(&EventType::Clearance, Position::GK), 1_100_000);
    assert_eq!(engine.calculate_position_multiplier(&EventType::Interception, Position::CB), 1_000_000);
    assert_eq!(engine.calculate_position_multiplier(&EventType::Interception, Position::LM), 1_000_000);
    assert_eq!(engine.calculate_position_multiplier(&EventType::KeyPass, Position::GK), 1_600_000);
    assert_eq!(engine.calculate_position_multiplier(&EventType::Assist, Position::CB), 1_500_000);
    assert_eq!(engine.calculate_position_multiplier(&EventType::Assist, Position::RW), 1_000_000);
    assert_eq!(engine.calculate_position_multiplier(&EventType::KeyPass, Position::CM), 1_100_000);
    assert_eq!(engine.calculate_position_multiplier(&EventType::Save, Position::GK), 1_000_000);
    assert_eq!(engine.calculate_position_multiplier(&EventType::RedCard, Position::CF), 1_000_000);
}

#[test]
fn difficulty_multiplier_values() {
    let engine = MatchEngine::new();
    let lineup = create_mock_lineup();
    let player = create_test_player();
    let mut state = state_for(&[], &[], &lineup);
    // 1 + (6.5 / 50 - 1) * 0.3 = 0.739
    assert_eq!(engine.calculate_difficulty_multiplier(&player, &state), 739_000);
    state.average_opposition_rating = fixed(50.0);
    assert_eq!(engine.calculate_difficulty_multiplier(&player, &state), 1_000_000);
    state.average_opposition_rating = fixed(100.0);
    assert_eq!(engine.calculate_difficulty_multiplier(&player, &state), 1_300_000);
    state.average_opposition_rating = 0;
    assert_eq!(engine.calculate_difficulty_multiplier(&player, &state), 700_000);
}

#[test]
fn clutch_multiplier_values() {
    let engine = MatchEngine::new();
    assert_eq!(engine.calculate_clutch_multiplier(80, 0, MatchImportance::League), 1_380_000);
    assert_eq!(engine.calculate_clutch_multiplier(80, 3, MatchImportance::League), 1_200_000);
    assert_eq!(engine.calculate_clutch_multiplier(75, 1, MatchImportance::League), 1_150_000);
    assert_eq!(engine.calculate_clutch_multiplier(10, -2, MatchImportance::League), 1_000_000);
    // the importance of the match does not enter
    for importance in [
        MatchImportance::Friendly,
        MatchImportance::League,
        MatchImportance::Cup,
        MatchImportance::Final,
        MatchImportance::Continental,
    ] {
        assert_eq!(engine.calculate_clutch_multiplier(80, 0, importance), 1_380_000);
    }
}

#[test]
fn total_impact_is_the_product_of_its_factors() {
    // 8.0 * 1.2 * 1.5 * 1.1 * 1.35 = 21.384
    let total = total_impact(fixed(8.0), fixed(1.2), fixed(1.5), fixed(1.1), fixed(1.35));
    assert_eq!(total, 21_384_000);
    assert!((units(total) - 21.384).abs() < 1e-9);
    // a negative base impact gives the negated product
    assert_eq!(total_impact(fixed(-8.0), fixed(1.2), fixed(1.5), fixed(1.1), fixed(1.35)), -21_384_000);
    // rounding is toward zero on both sides
    assert_eq!(total_impact(1, SCALE, SCALE, SCALE, 999_999), 0);
    assert_eq!(total_impact(-1, SCALE, SCALE, SCALE, 999_999), 0);
    assert_eq!(total_impact(3, SCALE, SCALE, SCALE, 500_000), 1);
    assert_eq!(total_impact(-3, SCALE, SCALE, SCALE, 500_000), -1);
    // the largest factors
    assert_eq!(
        total_impact(10_000_000, 10_000_000, 10_000_000, 10_000_000, 10_000_000),
        100_000_000_000
    );
    assert_eq!(total_impact(0, 10_000_000, 10_000_000, 10_000_000, 10_000_000), 0);
}

#[test]
fn a_late_goal_by_a_centre_back_lifts_the_rating_to_the_top() {
    let engine = MatchEngine::new();
    let lineup = create_mock_lineup();
    let scorer = player_at(Position::CB);
    let home = vec![scorer.clone()];
    let state = state_for(&home, &[], &lineup);
    let goal = engine.score_event(
        &state,
        &scorer,
        80,
        generate_unique_id(),
        EventType::Goal,
        None,
        PitchZone::Box,
        true,
    );
    assert_eq!(goal.base_impact, 8_000_000);
    assert_eq!(goal.position_multiplier, 1_500_000);
    assert_eq!(goal.clutch_multiplier, 1_380_000);
    assert_eq!(goal.difficulty_multiplier, 739_000);
    // 1 + 80/90 * 0.3 = 1.2666.., * 1.4 = 1.77333..
    assert_eq!(goal.time_multiplier, 1_773_333);
    assert_eq!(
        goal.total_impact_score,
        total_impact(8_000_000, 1_773_333, 1_500_000, 739_000, 1_380_000)
    );
    assert_eq!(goal.total_impact_score, 21_701_765);
    assert_eq!(goal.player_involved, scorer.id);
    assert_eq!(goal.match_id, state.match_id);
    assert_eq!(goal.minute, 80);
    assert_eq!(goal.half, MatchHalf::Second);

    // alone it pushes the rating up, but involvement is low
    assert_eq!(rating_of(&[goal]), 6_800_000);
    // with other positive events the rating is held at 9.9
    let events = vec![
        goal,
        plain_event(scorer.id, EventType::TackleWon, 1.2),
        plain_event(scorer.id, EventType::Interception, 1.0),
    ];
    assert_eq!(rating_of(&events), 9_900_000);
}

#[test]
fn a_single_save_is_capped_by_low_involvement() {
    let engine = MatchEngine::new();
    let keeper = 11u128;
    let events = vec![plain_event(keeper, EventType::Save, 2.5)];
    assert_eq!(engine.calculate_involvement_score(&events), 100_000);
    assert_eq!(engine.calculate_consistency_factor(&events), 1_000_000);
    // raw score 8.5, capped at 6.8
    assert_eq!(rating_of(&events), 6_800_000);
}

#[test]
fn two_meaningful_events_cannot_rate_above_the_cap() {
    let engine = MatchEngine::new();
    let events = vec![
        plain_event(3, EventType::Goal, 8.0),
        plain_event(3, EventType::Assist, 5.0),
        plain_event(3, EventType::PassSuccess, 0.0),
        plain_event(3, EventType::PassSuccess, 0.0),
    ];
    assert_eq!(engine.calculate_involvement_score(&events), 200_000);
    assert!(rating_of(&events) <= 6_800_000);
    assert_eq!(rating_of(&events), 6_800_000);
}

#[test]
fn involvement_counts_meaningful_events_only() {
    let engine = MatchEngine::new();
    let mut events: Vec<MatchEvent> = vec![];
    // exactly 0.3 is not meaningful
    events.push(plain_event(1, EventType::PassSuccess, 0.3));
    events.push(plain_event(1, EventType::PassSuccess, -0.3));
    assert_eq!(engine.calculate_involvement_score(&events), 0);
    events.push(plain_event(1, EventType::FoulCommitted, -0.5));
    assert_eq!(engine.calculate_involvement_score(&events), 100_000);
    for _ in 0..8 {
        events.push(plain_event(1, EventType::ClaimCross, 0.5));
    }
    assert_eq!(engine.calculate_involvement_score(&events), 900_000);
    events.push(plain_event(1, EventType::ClaimCross, 0.5));
    assert_eq!(engine.calculate_involvement_score(&events), 1_000_000);
    events.push(plain_event(1, EventType::ClaimCross, 0.5));
    assert_eq!(engine.calculate_involvement_score(&events), 1_000_000);
}

#[test]
fn repeated_events_earn_less_than_varied_ones() {
    let engine = MatchEngine::new();
    let repeated: Vec<MatchEvent> =
        (0..5).map(|_| plain_event(1, EventType::Interception, 0.5)).collect();
    let varied = vec![
        plain_event(2, EventType::Interception, 0.5),
        plain_event(2, EventType::ClaimCross, 0.5),
        plain_event(2, EventType::FoulSuffered, 0.5),
        plain_event(2, EventType::DuelWon, 0.5),
        plain_event(2, EventType::Block, 0.5),
    ];
    // weighted: 0.5 + 0.35 + 0.175 + 0.116666 + 0.0875 = 1.229166 of 2.5
    assert_eq!(engine.calculate_consistency_factor(&repeated), 500_000);
    assert_eq!(engine.calculate_consistency_factor(&varied), 1_000_000);
    // 6.0 + 2.5 * 0.5 and 6.0 + 2.5
    assert_eq!(rating_of(&repeated), 7_250_000);
    assert_eq!(rating_of(&varied), 8_500_000);
    assert!(rating_of(&repeated) < rating_of(&varied));
}

#[test]
fn consistency_factor_exact_values() {
    let engine = MatchEngine::new();
    let empty: Vec<MatchEvent> = vec![];
    assert_eq!(engine.calculate_consistency_factor(&empty), 1_000_000);
    // two of a kind: (1.0 + 0.7) / 2.0
    let pair = vec![
        plain_event(1, EventType::Interception, 1.0),
        plain_event(1, EventType::Interception, 1.0),
    ];
    assert_eq!(engine.calculate_consistency_factor(&pair), 850_000);
    // three of a kind: (1.0 + 0.7 + 0.35) / 3.0 = 0.68333..
    let triple = vec![
        plain_event(1, EventType::Interception, 1.0),
        plain_event(1, EventType::Interception, 1.0),
        plain_event(1, EventType::Interception, 1.0),
    ];
    assert_eq!(engine.calculate_consistency_factor(&triple), 683_333);
    // a negligible sum gives 1.0
    let cancelling = vec![
        plain_event(1, EventType::Interception, 1.0),
        plain_event(1, EventType::YellowCard, -1.0),
    ];
    assert_eq!(engine.calculate_consistency_factor(&cancelling), 1_000_000);
    // repeats of a mistake between merits: weighted 8 - 3 - 2.1 = 2.9 of 2.0
    let mixed = vec![
        plain_event(1, EventType::Goal, 8.0),
        plain_event(1, EventType::RedCard, -3.0),
        plain_event(1, EventType::RedCard, -3.0),
    ];
    assert_eq!(engine.calculate_consistency_factor(&mixed), 1_450_000);
    // a negative sum: weighted -3 - 2.1 = -5.1 of -6.0
    let mistakes = vec![
        plain_event(1, EventType::RedCard, -3.0),
        plain_event(1, EventType::RedCard, -3.0),
    ];
    assert_eq!(engine.calculate_consistency_factor(&mistakes), 850_000);
}

#[test]
fn rating_exact_values() {
    // no events: 6.0
    assert_eq!(rating_of(&[]), 6_000_000);
    // mistakes weigh a fifth more: 6.0 - 1.0 * 1.2, capped involvement does not lift it
    assert_eq!(rating_of(&[plain_event(1, EventType::YellowCard, -1.0)]), 4_800_000);
    // the floor
    assert_eq!(
        rating_of(&[
            plain_event(1, EventType::RedCard, -3.0),
            plain_event(1, EventType::PenaltyMissed, -3.0),
        ]),
        4_500_000
    );
    // three different merits: 6.0 + 1.2 + 1.0 + 0.8
    assert_eq!(
        rating_of(&[
            plain_event(1, EventType::TackleWon, 1.2),
            plain_event(1, EventType::Interception, 1.0),
            plain_event(1, EventType::Clearance, 0.8),
        ]),
        9_000_000
    );
    // merits and a mistake: positive 3.0, negative 1.0, factor 1.0: 6 + 3 - 1.2
    assert_eq!(
        rating_of(&[
            plain_event(1, EventType::TackleWon, 1.2),
            plain_event(1, EventType::Interception, 1.0),
            plain_event(1, EventType::Clearance, 0.8),
            plain_event(1, EventType::YellowCard, -1.0),
        ]),
        7_800_000
    );
}

#[test]
fn ratings_are_grouped_by_player() {
    let engine = MatchEngine::new();
    let lineup = create_mock_lineup();
    let state = state_for(&[], &[], &lineup);
    let mut game_match = create_match(CompetitionType::League, create_mock_lineup());
    game_match.events = vec![
        plain_event(1, EventType::TackleWon, 1.2),
        plain_event(2, EventType::YellowCard, -1.0),
        plain_event(1, EventType::Interception, 1.0),
        plain_event(1, EventType::Clearance, 0.8),
    ];
    let ratings = engine.calculate_player_ratings(&game_match, &state);
    assert_eq!(ratings.len(), 2);
    assert_eq!(ratings.get(&1), Some(&9_000_000));
    assert_eq!(ratings.get(&2), Some(&4_800_000));
    assert_eq!(ratings.get(&3), None);
    let own = events_of_player(&game_match.events, 1);
    assert_eq!(own.len(), 3);
    assert_eq!(own[1].event_type, EventType::Interception);
    assert_eq!(events_of_player(&game_match.events, 9).len(), 0);
    assert_eq!(count_earlier_of_type(&game_match.events, 4, EventType::TackleWon), 1);
    assert_eq!(count_earlier_of_type(&game_match.events, 0, EventType::TackleWon), 0);
    assert_eq!(sum_impacts(&game_match.events), (3_000_000, 1_000_000));
}

#[test]
fn actions_follow_the_tables() {
    assert_eq!(action_for_roll(Position::GK, 0), EventType::ClaimCross);
    assert_eq!(action_for_roll(Position::GK, 599_999), EventType::ClaimCross);
    assert_eq!(action_for_roll(Position::GK, 600_000), EventType::PunchClear);
    assert_eq!(action_for_roll(Position::GK, 800_000), EventType::Save);
    assert_eq!(action_for_roll(Position::GK, 950_000), EventType::SweeperClearance);
    assert_eq!(action_for_roll(Position::CB, 399_999), EventType::TackleWon);
    assert_eq!(action_for_roll(Position::CB, 400_000), EventType::Interception);
    assert_eq!(action_for_roll(Position::CB, 700_000), EventType::Clearance);
    assert_eq!(action_for_roll(Position::CB, 900_000), EventType::AerialDuelWon);
    for position in [Position::FB, Position::RB, Position::LB] {
        assert_eq!(action_for_roll(position, 299_999), EventType::CrossSuccess);
        assert_eq!(action_for_roll(position, 300_000), EventType::TackleWon);
        assert_eq!(action_for_roll(position, 600_000), EventType::PassSuccess);
        assert_eq!(action_for_roll(position, 850_000), EventType::DribbleSuccess);
    }
    assert_eq!(action_for_roll(Position::DM, 0), EventType::TackleWon);
    assert_eq!(action_for_roll(Position::DM, 400_000), EventType::Interception);
    assert_eq!(action_for_roll(Position::DM, 750_000), EventType::PassSuccess);
    assert_eq!(action_for_roll(Position::DM, 950_000), EventType::DribbleSuccess);
    assert_eq!(action_for_roll(Position::CM, 249_999), EventType::KeyPass);
    assert_eq!(action_for_roll(Position::CM, 250_000), EventType::PassSuccess);
    assert_eq!(action_for_roll(Position::CM, 500_000), EventType::DribbleSuccess);
    assert_eq!(action_for_roll(Position::CM, 700_000), EventType::TackleWon);
    assert_eq!(action_for_roll(Position::CM, 900_000), EventType::ThroughBall);
    assert_eq!(action_for_roll(Position::AM, 700_000), EventType::ShotOnTarget);
    assert_eq!(action_for_roll(Position::AM, 999_999), EventType::ThroughBall);
    for position in [Position::RM, Position::LM] {
        assert_eq!(action_for_roll(position, 0), EventType::CrossSuccess);
        assert_eq!(action_for_roll(position, 300_000), EventType::KeyPass);
        assert_eq!(action_for_roll(position, 550_000), EventType::DribbleSuccess);
        assert_eq!(action_for_roll(position, 800_000), EventType::PassSuccess);
    }
    for position in [Position::RW, Position::LW] {
        assert_eq!(action_for_roll(position, 0), EventType::DribbleSuccess);
        assert_eq!(action_for_roll(position, 400_000), EventType::CrossSuccess);
        assert_eq!(action_for_roll(position, 700_000), EventType::KeyPass);
        assert_eq!(action_for_roll(position, 900_000), EventType::ShotOnTarget);
    }
    for position in [Position::CF, Position::SS] {
        assert_eq!(action_for_roll(position, 499_999), EventType::ShotOnTarget);
        assert_eq!(action_for_roll(position, 500_000), EventType::Goal);
        assert_eq!(action_for_roll(position, 750_000), EventType::DribbleSuccess);
        assert_eq!(action_for_roll(position, 950_000), EventType::Assist);
    }
}

#[test]
fn defensive_actions_follow_the_tables() {
    assert_eq!(defensive_action_for_rolls(Position::GK, 799_999, 0), EventType::Save);
    assert_eq!(defensive_action_for_rolls(Position::GK, 800_000, 0), EventType::ClaimCross);
    assert_eq!(defensive_action_for_rolls(Position::CB, 499_999, 999_999), EventType::TackleWon);
    assert_eq!(defensive_action_for_rolls(Position::CB, 500_000, 799_999), EventType::Interception);
    assert_eq!(defensive_action_for_rolls(Position::CB, 500_000, 800_000), EventType::Clearance);
    assert_eq!(defensive_action_for_rolls(Position::FB, 599_999, 0), EventType::TackleWon);
    assert_eq!(defensive_action_for_rolls(Position::FB, 600_000, 0), EventType::Interception);
    for position in [Position::RB, Position::LB, Position::DM, Position::CM, Position::CF] {
        assert_eq!(defensive_action_for_rolls(position, 499_999, 0), EventType::TackleWon);
        assert_eq!(defensive_action_for_rolls(position, 500_000, 0), EventType::Interception);
    }
}

#[test]
fn pitch_zones_follow_the_rolls() {
    // minute 0: the attacking part with a chance of 0.2
    assert_eq!(pitch_zone_for_rolls(0, 199_999, 599_999), PitchZone::FinalThird);
    assert_eq!(pitch_zone_for_rolls(0, 199_999, 600_000), PitchZone::Box);
    assert_eq!(pitch_zone_for_rolls(0, 200_000, 499_999), PitchZone::MiddleThird);
    assert_eq!(pitch_zone_for_rolls(0, 200_000, 500_000), PitchZone::DefensiveThird);
    // minute 90: with a chance of 0.5
    assert_eq!(pitch_zone_for_rolls(90, 499_999, 0), PitchZone::FinalThird);
    assert_eq!(pitch_zone_for_rolls(90, 500_000, 0), PitchZone::MiddleThird);
    // minute 45: 0.2 + 0.15
    assert_eq!(pitch_zone_for_rolls(45, 349_999, 999_999), PitchZone::Box);
    assert_eq!(pitch_zone_for_rolls(45, 350_000, 999_999), PitchZone::DefensiveThird);
}

#[test]
fn success_rate_values() {
    let mut player = create_test_player();
    player.form = fixed(70.0);
    player.morale = fixed(70.0);
    // shooting 65: 65 / 120 for a goal, 65 / 100 for a shot on target
    assert_eq!(success_rate(&player, &EventType::Goal), 541_666);
    assert_eq!(success_rate(&player, &EventType::ShotOnTarget), 650_000);
    assert_eq!(success_rate(&player, &EventType::KeyPass), 750_000);
    assert_eq!(success_rate(&player, &EventType::Assist), 833_333);
    assert_eq!(success_rate(&player, &EventType::DribbleSuccess), 700_000);
    assert_eq!(success_rate(&player, &EventType::TackleWon), 680_000);
    assert_eq!(success_rate(&player, &EventType::Interception), 750_000);
    assert_eq!(success_rate(&player, &EventType::Block), 700_000);
    assert_eq!(success_rate(&player, &EventType::Clearance), 777_777);
    assert_eq!(success_rate(&player, &EventType::Save), 750_000);
    assert_eq!(success_rate(&player, &EventType::PassSuccess), 700_000);
    // form and morale scale the rate, and 0.95 is the most
    player.form = fixed(100.0);
    player.morale = fixed(100.0);
    assert_eq!(success_rate(&player, &EventType::Goal), 950_000);
    player.form = fixed(35.0);
    player.morale = fixed(70.0);
    assert_eq!(success_rate(&player, &EventType::ShotOnTarget), 325_000);
    player.morale = 0;
    assert_eq!(success_rate(&player, &EventType::ShotOnTarget), 0);
}

#[test]
fn involvement_and_defensive_weights() {
    let engine = MatchEngine::new();
    let mut player = create_test_player();
    player.form = fixed(50.0);
    player.morale = fixed(50.0);
    // technical average (70 + 75 + 65 + 72 + 68 + 60) / 6 = 68.333333
    assert_eq!(player.technical.average(), 68_333_333);
    assert_eq!(player.physical.average(), 66_000_000);
    assert_eq!(player.mental.average(), 73_333_333);
    // 1.0 * 1.0 * 1.0 * 68.333333 / 50
    assert_eq!(engine.calculate_player_involvement_weight(&player, 0), 1_366_666);
    player.primary_position = Position::CF;
    assert_eq!(engine.calculate_player_involvement_weight(&player, 0), 1_639_999);
    player.primary_position = Position::GK;
    assert_eq!(engine.calculate_player_involvement_weight(&player, 0), 409_999);
    player.morale = 0;
    assert_eq!(engine.calculate_player_involvement_weight(&player, 0), 0);
    // 1.0 * 68 / 50 * 70 / 50 = 1.904
    assert_eq!(engine.calculate_player_defensive_weight(&player), 1_904_000);
    player.primary_position = Position::CB;
    assert_eq!(engine.calculate_player_defensive_weight(&player), 2_475_200);
    player.primary_position = Position::SS;
    assert_eq!(engine.calculate_player_defensive_weight(&player), 952_000);
}

#[test]
fn weighted_selection_by_draw() {
    let items = vec![(10u128, 0i64), (20, 3), (30, 0), (40, 5)];
    assert_eq!(total_weight(&items), 8);
    assert_eq!(weighted_selection_for_draw(&items, 0), 20);
    assert_eq!(weighted_selection_for_draw(&items, 2), 20);
    assert_eq!(weighted_selection_for_draw(&items, 3), 40);
    assert_eq!(weighted_selection_for_draw(&items, 7), 40);
    assert_eq!(selected_index(&items, 2), 1);
    assert_eq!(selected_index(&items, 3), 3);
    // a draw beyond the weights falls on the last item
    assert_eq!(weighted_selection_for_draw(&items, 8), 40);
    // nothing to choose from
    assert_eq!(weighted_selection_for_draw(&[], 0), NIL_ID);
    // all weights zero: the first item
    assert_eq!(weighted_selection_for_draw(&[(7, 0), (8, 0)], 0), 7);
}

#[test]
fn random_selection_never_leaves_the_items() {
    let mut engine = MatchEngine::new();
    assert_eq!(engine.weighted_random_selection(&[]), NIL_ID);
    assert_eq!(engine.weighted_random_selection(&[(7, 0), (8, 0)]), 7);
    let items = vec![(10u128, 0i64), (20, 3), (30, 0), (40, 5)];
    let mut seen_twenty = false;
    let mut seen_forty = false;
    for _ in 0..400 {
        let chosen = engine.weighted_random_selection(&items);
        assert!(chosen == 20 || chosen == 40);
        seen_twenty = seen_twenty || chosen == 20;
        seen_forty = seen_forty || chosen == 40;
    }
    assert!(seen_twenty && seen_forty);
}

#[test]
fn fresh_identifiers_are_never_nil() {
    let first = generate_unique_id();
    let second = generate_unique_id();
    assert_ne!(first, NIL_ID);
    assert_ne!(second, NIL_ID);
    assert_ne!(first, second);
}

#[test]
fn players_are_found_and_selected_within_the_rosters() {
    let mut engine = MatchEngine::new();
    let lineup = create_mock_lineup();
    let home = vec![player_at(Position::GK), player_at(Position::CF)];
    let away = vec![player_at(Position::CB)];
    let state = state_for(&home, &away, &lineup);
    assert!(state.match_id != NIL_ID);
    assert_eq!(state.home_tactical_balance, 500_000);
    assert_eq!(state.score_difference, 0);
    assert_eq!(state.average_opposition_rating, 6_500_000);
    assert_eq!(state.match_importance, MatchImportance::League);

    assert_eq!(engine.find_player_by_id(&state, home[1].id).map(|p| p.id), Some(home[1].id));
    assert_eq!(engine.find_player_by_id(&state, away[0].id).map(|p| p.id), Some(away[0].id));
    assert!(engine.find_player_by_id(&state, 12345).is_none());

    for minute in 0..90 {
        let chosen = engine.select_player_for_action(&state, state.home_team_id, minute);
        assert!(chosen == home[0].id || chosen == home[1].id);
        let defender = engine.select_player_for_defensive_action(&state, state.away_team_id, minute);
        assert_eq!(defender, away[0].id);
        assert_eq!(engine.select_secondary_player(&state, home[0].id), Some(away[0].id));
        let other = engine.select_secondary_player(&state, away[0].id);
        assert!(other == Some(home[0].id) || other == Some(home[1].id));
        assert_eq!(engine.select_secondary_player(&state, 12345), None);
    }

    // a player without any chance is chosen only where no one has a chance
    let mut tired = player_at(Position::CF);
    tired.morale = 0;
    let keen = player_at(Position::GK);
    let squad = vec![tired.clone(), keen.clone()];
    let uneven = state_for(&squad, &[], &lineup);
    for minute in 0..50 {
        assert_eq!(engine.select_player_for_action(&uneven, uneven.home_team_id, minute), keen.id);
    }
    let listless = vec![tired.clone(), tired.clone()];
    let flat = state_for(&listless, &[], &lineup);
    assert_eq!(engine.select_player_for_action(&flat, flat.home_team_id, 0), tired.id);
    let mut clumsy = player_at(Position::CB);
    clumsy.technical.tackling = 0;
    let guards = vec![clumsy.clone(), keen.clone()];
    let guarded = state_for(&[], &guards, &lineup);
    for minute in 0..50 {
        assert_eq!(
            engine.select_player_for_defensive_action(&guarded, guarded.away_team_id, minute),
            keen.id
        );
    }

    let empty = state_for(&home, &[], &lineup);
    assert_eq!(engine.select_player_for_action(&empty, empty.away_team_id, 3), NIL_ID);
    assert_eq!(engine.select_player_for_defensive_action(&empty, empty.away_team_id, 3), NIL_ID);
    assert_eq!(engine.select_secondary_player(&empty, home[0].id), None);
}

#[test]
fn generated_events_are_scored_consistently() {
    let mut engine = MatchEngine::new();
    let lineup = create_mock_lineup();
    let home = vec![player_at(Position::GK), player_at(Position::CF), player_at(Position::CM)];
    let away = vec![player_at(Position::CB), player_at(Position::LW)];
    let state = state_for(&home, &away, &lineup);
    for minute in 0u8..120 {
        let events = engine.generate_events_for_minute(&state, minute);
        assert!(!events.is_empty() && events.len() <= 2);
        if events.len() == 2 {
            // the reaction comes from the other side
            let acts_for_home = home.iter().any(|p| p.id == events[0].player_involved);
            let reacts_for_home = home.iter().any(|p| p.id == events[1].player_involved);
            assert_ne!(acts_for_home, reacts_for_home);
        }
        for event in events {
            let player = engine.find_player_by_id(&state, event.player_involved).unwrap();
            assert_eq!(event.minute, minute);
            assert_eq!(event.match_id, state.match_id);
            assert_ne!(event.id, NIL_ID);
            assert_eq!(event.base_impact, engine.get_base_impact(&event.event_type));
            assert_eq!(event.time_multiplier, engine.calculate_time_multiplier(minute, 0));
            assert_eq!(
                event.position_multiplier,
                engine.calculate_position_multiplier(&event.event_type, player.primary_position)
            );
            assert_eq!(event.difficulty_multiplier, 739_000);
            assert_eq!(
                event.clutch_multiplier,
                engine.calculate_clutch_multiplier(minute, 0, MatchImportance::League)
            );
            assert_eq!(
                event.total_impact_score,
                total_impact(
                    event.base_impact,
                    event.time_multiplier,
                    event.position_multiplier,
                    event.difficulty_multiplier,
                    event.clutch_multiplier
                )
            );
            let product = units(event.base_impact)
                * units(event.time_multiplier)
                * units(event.position_multiplier)
                * units(event.difficulty_multiplier)
                * units(event.clutch_multiplier);
            assert!((units(event.total_impact_score) - product).abs() < 1e-5);
            assert_eq!(
                event.half,
                if minute < 45 { MatchHalf::First } else { MatchHalf::Second }
            );
            let secondary = event.secondary_player.unwrap();
            let on_home_side = home.iter().any(|p| p.id == event.player_involved);
            if on_home_side {
                assert!(away.iter().any(|p| p.id == secondary));
            } else {
                assert!(home.iter().any(|p| p.id == secondary));
            }
        }
    }
    assert!(engine.generate_action_for_player(&state, 12345, 5).is_none());
    assert!(engine.generate_defensive_action(&state, 12345, 5).is_none());
    let action = engine.generate_action_for_player(&state, home[0].id, 5).unwrap();
    assert!(matches!(
        action.event_type,
        EventType::ClaimCross | EventType::PunchClear | EventType::Save | EventType::SweeperClearance
    ));
    let reaction = engine.generate_defensive_action(&state, away[0].id, 5).unwrap();
    assert!(matches!(
        reaction.event_type,
        EventType::TackleWon | EventType::Interception | EventType::Clearance
    ));
}

#[test]
fn an_action_succeeds_where_the_roll_stays_below_the_chance() {
    let mut player = create_test_player();
    player.form = fixed(70.0);
    player.morale = fixed(70.0);
    player.technical.passing = 60;
    // 60 / 100 at form and morale 70
    let rate = success_rate(&player, &EventType::KeyPass);
    assert_eq!(rate, 600_000);
    assert!(succeeds_for_roll(&player, &EventType::KeyPass, 0));
    assert!(succeeds_for_roll(&player, &EventType::KeyPass, 599_999));
    assert!(!succeeds_for_roll(&player, &EventType::KeyPass, 600_000));
    assert!(!succeeds_for_roll(&player, &EventType::KeyPass, 999_999));
    // the cap leaves the highest rolls to failure
    player.form = fixed(100.0);
    player.morale = fixed(100.0);
    assert_eq!(success_rate(&player, &EventType::KeyPass), 950_000);
    assert!(succeeds_for_roll(&player, &EventType::KeyPass, 949_999));
    assert!(!succeeds_for_roll(&player, &EventType::KeyPass, 950_000));
    // without a chance no roll succeeds
    player.morale = 0;
    assert!(!succeeds_for_roll(&player, &EventType::KeyPass, 0));
}

#[test]
fn a_player_without_a_chance_never_succeeds() {
    let mut engine = MatchEngine::new();
    let mut player = create_test_player();
    player.morale = 0;
    for _ in 0..200 {
        assert!(!engine.determine_success_based_on_attributes(&player, &EventType::Goal));
    }
    let action = engine.decide_action_type(&player, &state_for(&[], &[], &create_mock_lineup()), 0);
    assert!(matches!(
        action,
        EventType::KeyPass
            | EventType::PassSuccess
            | EventType::DribbleSuccess
            | EventType::TackleWon
            | EventType::ThroughBall
    ));
    let reaction = engine.decide_defensive_action_type(&player);
    assert!(matches!(reaction, EventType::TackleWon | EventType::Interception));
    let zone = engine.determine_pitch_zone(30);
    assert!(matches!(
        zone,
        PitchZone::FinalThird | PitchZone::Box | PitchZone::MiddleThird | PitchZone::DefensiveThird
    ));
}

#[test]
fn counters_follow_the_events() {
    let engine = MatchEngine::new();
    let mut stats = PlayerMatchStats::default();
    assert_eq!(stats.saves, None);
    engine.increment_stat_for_event(&mut stats, &EventType::Save);
    assert_eq!(stats.saves, Some(1));
    engine.increment_stat_for_event(&mut stats, &EventType::Save);
    assert_eq!(stats.saves, Some(2));
    engine.increment_stat_for_event(&mut stats, &EventType::Goal);
    engine.increment_stat_for_event(&mut stats, &EventType::Goal);
    engine.increment_stat_for_event(&mut stats, &EventType::Assist);
    engine.increment_stat_for_event(&mut stats, &EventType::ShotOnTarget);
    engine.increment_stat_for_event(&mut stats, &EventType::ShotOffTarget);
    engine.increment_stat_for_event(&mut stats, &EventType::TackleWon);
    engine.increment_stat_for_event(&mut stats, &EventType::Interception);
    engine.increment_stat_for_event(&mut stats, &EventType::Clearance);
    engine.increment_stat_for_event(&mut stats, &EventType::YellowCard);
    engine.increment_stat_for_event(&mut stats, &EventType::RedCard);
    // types without a counter leave no trace
    engine.increment_stat_for_event(&mut stats, &EventType::PassSuccess);
    engine.increment_stat_for_event(&mut stats, &EventType::DribbleSuccess);
    engine.increment_stat_for_event(&mut stats, &EventType::Block);
    let expected = PlayerMatchStats {
        goals: 2,
        assists: 1,
        shots_on_target: 1,
        shots_off_target: 1,
        tackles_won: 1,
        interceptions: 1,
        clearances: 1,
        saves: Some(2),
        yellow_cards: 1,
        red_cards: 1,
        ..PlayerMatchStats::default()
    };
    assert_eq!(stats, expected);
}

#[test]
fn replaying_a_log_twice_counts_nothing_twice() {
    let engine = MatchEngine::new();
    let lineup = create_mock_lineup();
    let state = state_for(&[], &[], &lineup);
    let mut match_lineup = create_mock_lineup();
    match_lineup.players = vec![entry_for(1), entry_for(2), entry_for(1), entry_for(3)];
    match_lineup.players[2].stats.goals = 9;
    match_lineup.players[0].stats.goals = 4;
    match_lineup.home_starting_xi = vec![1, 99];
    match_lineup.away_starting_xi = vec![2];
    let mut game_match = create_match(CompetitionType::League, match_lineup);
    game_match.events = vec![
        plain_event(1, EventType::Goal, 8.0),
        plain_event(2, EventType::Save, 2.5),
        plain_event(1, EventType::Goal, 8.0),
        plain_event(1, EventType::YellowCard, -1.0),
        plain_event(4, EventType::Goal, 8.0),
        plain_event(3, EventType::PassSuccess, 0.0),
    ];
    engine.update_player_match_stats(&mut game_match, &state);
    let once: Vec<PlayerMatchStats> = game_match.lineup.players.iter().map(|p| p.stats).collect();
    assert_eq!(once[0].goals, 2);
    assert_eq!(once[0].yellow_cards, 1);
    assert_eq!(once[0].minutes_played, 90);
    assert_eq!(once[1].saves, Some(1));
    assert_eq!(once[1].minutes_played, 90);
    // a second entry of the same player is passed over
    assert_eq!(once[2].goals, 9);
    assert_eq!(once[2].minutes_played, 0);
    // not a starter: nothing is set back and no minutes are given
    assert_eq!(once[3], PlayerMatchStats::default());
    assert_eq!(game_match.events.len(), 6);

    engine.update_player_match_stats(&mut game_match, &state);
    let twice: Vec<PlayerMatchStats> = game_match.lineup.players.iter().map(|p| p.stats).collect();
    assert_eq!(once, twice);
}

#[test]
fn lineup_helpers() {
    let mut players = vec![entry_for(1), entry_for(2), entry_for(1)];
    assert_eq!(first_entry_of(&players, 1), Some(0));
    assert_eq!(first_entry_of(&players, 2), Some(1));
    assert_eq!(first_entry_of(&players, 5), None);
    players[0].stats.goals = 3;
    players[1].stats.goals = 2;
    players[2].stats.goals = 1;
    update_listed(&mut players, &vec![1, 7], StarterUpdate::FullMatch);
    assert_eq!(players[0].stats.minutes_played, 90);
    assert_eq!(players[0].stats.goals, 3);
    assert_eq!(players[1].stats.minutes_played, 0);
    assert_eq!(players[2].stats.minutes_played, 0);
    update_listed(&mut players, &vec![1, 7], StarterUpdate::ResetCounters);
    assert_eq!(players[0].stats, PlayerMatchStats::default());
    assert_eq!(players[1].stats.goals, 2);
    assert_eq!(players[2].stats.goals, 1);
    let engine = MatchEngine::new();
    let mut lineup = create_mock_lineup();
    lineup.players = players;
    engine.update_stats_from_event(&mut lineup, &plain_event(1, EventType::Assist, 5.0));
    engine.update_stats_from_event(&mut lineup, &plain_event(9, EventType::Assist, 5.0));
    assert_eq!(lineup.players[0].stats.assists, 1);
    assert_eq!(lineup.players[1].stats.assists, 0);
    assert_eq!(lineup.players[2].stats.assists, 0);
}

#[test]
fn test_match_simulation_integration() {
    let player = create_test_player();
    let mut match_engine = MatchEngine::new();

    let mut game_match = create_match(CompetitionType::League, create_mock_lineup());

    let home_players = vec![player.clone()];
    let away_players = vec![create_opposing_player()];

    game_match = match_engine.simulate_match(
        game_match,
        &home_players,
        &away_players,
        &create_mock_lineup(),
        &create_mock_lineup(),
    );

    assert_eq!(game_match.status, MatchStatus::Finished);
    assert!(game_match.player_ratings.contains_key(&player.id));

    let player_rating = game_match.player_ratings.get(&player.id).unwrap();
    assert!(units(*player_rating) >= 4.5 && units(*player_rating) <= 9.9);
}

#[test]
fn a_simulated_match_is_complete() {
    let mut engine = MatchEngine::new();
    let home: Vec<Player> = [Position::GK, Position::CB, Position::CM, Position::CF]
        .into_iter()
        .map(player_at)
        .collect();
    let away: Vec<Player> = [Position::GK, Position::LB, Position::AM, Position::RW]
        .into_iter()
        .map(player_at)
        .collect();
    let mut lineup = create_mock_lineup();
    lineup.players = home.iter().chain(away.iter()).map(|p| entry_for(p.id)).collect();
    lineup.home_starting_xi = home.iter().map(|p| p.id).collect();
    lineup.away_starting_xi = away.iter().map(|p| p.id).collect();

    for (competition_type, minutes) in
        [(CompetitionType::League, 90usize), (CompetitionType::Knockout, 120), (CompetitionType::GroupAndKnockout, 90)]
    {
        let before = create_match(competition_type, lineup.clone());
        let id = before.id;
        let finished = engine.simulate_match(before, &home, &away, &lineup, &lineup);
        assert_eq!(finished.status, MatchStatus::Finished);
        assert_eq!(finished.id, id);
        assert!(finished.events.len() >= minutes && finished.events.len() <= 2 * minutes);
        let mut last_minute = 0u8;
        for event in &finished.events {
            assert!((event.minute as usize) < minutes);
            assert!(event.minute >= last_minute);
            last_minute = event.minute;
            assert!(home.iter().chain(away.iter()).any(|p| p.id == event.player_involved));
            assert_eq!(
                event.total_impact_score,
                total_impact(
                    event.base_impact,
                    event.time_multiplier,
                    event.position_multiplier,
                    event.difficulty_multiplier,
                    event.clutch_multiplier
                )
            );
        }
        for (id, rating) in &finished.player_ratings {
            assert!(*rating >= 4_500_000 && *rating <= 9_900_000);
            assert!(finished.events.iter().any(|e| e.player_involved == *id));
            let own = events_of_player(&finished.events, *id);
            assert_eq!(*rating, rating_of(&own));
        }
        for event in &finished.events {
            assert!(finished.player_ratings.contains_key(&event.player_involved));
        }
        for entry in &finished.lineup.players {
            let goals = finished
                .events
                .iter()
                .filter(|e| e.player_involved == entry.player_id && e.event_type == EventType::Goal)
                .count();
            assert_eq!(entry.stats.goals as usize, goals);
            let saves = finished
                .events
                .iter()
                .filter(|e| e.player_involved == entry.player_id && e.event_type == EventType::Save)
                .count();
            assert_eq!(entry.stats.saves.unwrap_or(0) as usize, saves);
            assert_eq!(entry.stats.saves.is_none(), saves == 0);
            assert_eq!(entry.stats.minutes_played, 90);
        }
    }
}

#[test]
fn a_match_without_players_has_no_events() {
    let mut engine = MatchEngine::new();
    let lineup = create_mock_lineup();
    let finished = engine.simulate_match(
        create_match(CompetitionType::Knockout, create_mock_lineup()),
        &[],
        &[],
        &lineup,
        &lineup,
    );
    assert_eq!(finished.status, MatchStatus::Finished);
    assert!(finished.events.is_empty());
    assert!(finished.player_ratings.is_empty());
    assert!(create_match(CompetitionType::Knockout, create_mock_lineup()).requires_extra_time());
    assert!(!create_match(CompetitionType::League, create_mock_lineup()).requires_extra_time());
}

#[test]
fn one_empty_side_still_finishes() {
    let mut engine = MatchEngine::new();
    let lineup = create_mock_lineup();
    let home = vec![player_at(Position::CF)];
    let finished = engine.simulate_match(
        create_match(CompetitionType::League, create_mock_lineup()),
        &home,
        &[],
        &lineup,
        &lineup,
    );
    assert_eq!(finished.status, MatchStatus::Finished);
    assert!(finished.events.len() <= 180);
    for event in &finished.events {
        assert_eq!(event.player_involved, home[0].id);
        assert_eq!(event.secondary_player, None);
    }
}

#[test]
fn a_lineup_has_room_for_the_events_of_a_match() {
    let mut lineup = create_mock_lineup();
    assert!(lineup_has_room(&lineup, 240));
    assert!(lineup_has_room(&lineup, 255));
    assert!(!lineup_has_room(&lineup, 256));
    lineup.players = vec![entry_for(1), entry_for(2), entry_for(2)];
    lineup.players[0].stats.goals = 200;
    lineup.players[2].stats.goals = 250;
    lineup.home_starting_xi = vec![1];
    // the counters of a starter are set back; a second entry is passed over
    assert!(lineup_has_room(&lineup, 240));
    lineup.players[1].stats.saves = Some(15);
    assert!(lineup_has_room(&lineup, 240));
    lineup.players[1].stats.saves = Some(16);
    assert!(!lineup_has_room(&lineup, 240));
    assert!(lineup_has_room(&lineup, 239));
    lineup.away_starting_xi = vec![7, 2];
    assert!(lineup_has_room(&lineup, 240));
    assert!(is_in_list(&lineup.away_starting_xi, 2));
    assert!(!is_in_list(&lineup.away_starting_xi, 1));
    assert!(counters_within(&PlayerMatchStats::default(), 0));
    assert!(!counters_within(&lineup.players[1].stats, 15));
}
