use player_manager::entities::{
    CareerStats, Contract, Foot, HiddenAttributes, MentalAttributes, PhysicalAttributes, Player,
    Position, SquadRole, TechnicalAttributes,
};
use player_manager::utils::helpers::generate_unique_id;
use player_manager::systems::reputation_system::{
    MatchImportance, SeasonPerformance, SeasonStats, TeamPerformance, TeamSuccess,
};
use player_manager::systems::ReputationEngine;

fn fixed(value: f64) -> i64 {
    (value * 1_000_000.0).round() as i64
}

fn units(value: i64) -> f64 {
    value as f64 / 1_000_000.0
}

fn create_test_contract() -> Contract {
    Contract {
        club_id: generate_unique_id(),
        wage: fixed(50000.0),
        length_years: 3,
        squad_role: SquadRole::FirstTeam,
        release_clause: None,
        performance_bonuses: vec![],
        contract_end_date: 739_617,
        league_strength: fixed(75.0),
    }
}

fn create_test_player() -> Player {
    Player {
        id: generate_unique_id(),
        name: "Test Player".to_string(),
        age: 25,
        nationality: "Country".to_string(),
        height: 180,
        weight: 75,
        preferred_foot: Foot::Right,
        primary_position: Position::CM,
        secondary_positions: vec![],
        technical: TechnicalAttributes {
            dribbling: 75,
            passing: 80,
            shooting: 70,
            first_touch: 78,
            tackling: 72,
            crossing: 65,
        },
        physical: PhysicalAttributes { pace: 70, stamina: 85, strength: 75, agility: 72, jumping: 68 },
        mental: MentalAttributes {
            composure: 80,
            vision: 85,
            work_rate: 75,
            determination: 82,
            positioning: 78,
            teamwork: 80,
        },
        hidden: HiddenAttributes {
            injury_proneness: 20,
            consistency: 70,
            big_match_temperament: 80,
            professionalism: 90,
            potential_ceiling: 85,
            versatility: 75,
            ambition: 80,
            loyalty: 60,
            ego: 70,
        },
        fitness: fixed(90.0),
        fatigue: fixed(10.0),
        form: fixed(7.5),
        morale: fixed(75.0),
        sharpness: fixed(80.0),
        local_reputation: fixed(65.0),
        international_reputation: fixed(40.0),
        contract: create_test_contract(),
        career_stats: CareerStats {
            seasons_played: 3,
            total_appearances: 50,
            total_goals: 10,
            total_assists: 8,
            total_yellow_cards: 15,
            total_red_cards: 1,
            average_rating: fixed(7.2),
            highest_rating: fixed(9.0),
            season_stats: vec![],
            awards: vec![],
            trophies: vec![],
        },
        injury_status: None,
        form_history: vec![fixed(7.0), fixed(7.5), fixed(8.0), fixed(6.8), fixed(7.2)],
    }
}

#[test]
fn test_local_reputation_change() {
    let engine = ReputationEngine::new();

    let change = engine.calculate_local_reputation_change(
        fixed(9.0),
        MatchImportance::Final,
        true,
        TeamPerformance::Win,
    );
    assert!(units(change) > 5.0);

    let change = engine.calculate_local_reputation_change(
        fixed(5.0),
        MatchImportance::Friendly,
        false,
        TeamPerformance::Loss,
    );
    assert!(units(change) < 0.0);
}

#[test]
fn test_international_conversion() {
    let engine = ReputationEngine::new();

    let gain =
        engine.convert_local_to_international(fixed(80.0), fixed(90.0), MatchImportance::Continental);
    assert!(units(gain) > 0.3);

    let gain = engine.convert_local_to_international(fixed(80.0), fixed(30.0), MatchImportance::League);
    assert!(units(gain) < 0.2);
}

#[test]
fn reputation_system_test_age_factor() {
    let engine = ReputationEngine::new();

    assert_eq!(units(engine.calculate_age_factor(20)), 1.3);
    assert_eq!(units(engine.calculate_age_factor(27)), 1.0);
    assert_eq!(units(engine.calculate_age_factor(34)), 0.6);
}

#[test]
fn test_decay_factor() {
    let engine = ReputationEngine::new();

    assert_eq!(units(engine.calculate_decay_factor(fixed(80.0))), 0.01);
    assert_eq!(units(engine.calculate_decay_factor(fixed(20.0))), 0.05);
}

#[test]
fn test_award_boost() {
    let engine = ReputationEngine::new();

    assert_eq!(units(engine.get_award_reputation_boost("Ballon d'Or")), 25.0);
    assert_eq!(units(engine.get_award_reputation_boost("Top Scorer")), 10.0);
    assert_eq!(units(engine.get_award_reputation_boost("Unknown Award")), 2.0);
}

#[test]
fn reputation_changes_exact_values() {
    let engine = ReputationEngine::new();
    // 3.0 * 2.0 + 1.0 + 0.5
    assert_eq!(
        engine.calculate_local_reputation_change(
            fixed(9.0),
            MatchImportance::Final,
            true,
            TeamPerformance::Win
        ),
        7_500_000
    );
    // -1.0 * 0.5 - 0.3
    assert_eq!(
        engine.calculate_local_reputation_change(
            fixed(5.0),
            MatchImportance::Friendly,
            false,
            TeamPerformance::Loss
        ),
        -800_000
    );
    // the steps of the rating
    let steps = [(8.0, 2.0), (7.0, 1.0), (6.5, 0.2), (6.0, -0.5), (5.0, -1.0), (4.99, -2.0)];
    for (rating, expected) in steps {
        assert_eq!(
            engine.calculate_local_reputation_change(
                fixed(rating),
                MatchImportance::League,
                false,
                TeamPerformance::Draw
            ),
            fixed(expected) + 100_000
        );
    }
    assert_eq!(
        engine.calculate_local_reputation_change(
            fixed(9.0),
            MatchImportance::Continental,
            false,
            TeamPerformance::Draw
        ),
        7_600_000
    );
    assert_eq!(
        engine.calculate_local_reputation_change(
            fixed(9.0),
            MatchImportance::Cup,
            false,
            TeamPerformance::Draw
        ),
        4_600_000
    );
    // 0.8 * 0.9 * 1.5 * 0.5 and 0.8 * 0.3 * 0.5
    assert_eq!(
        engine.convert_local_to_international(fixed(80.0), fixed(90.0), MatchImportance::Continental),
        540_000
    );
    assert_eq!(
        engine.convert_local_to_international(fixed(80.0), fixed(30.0), MatchImportance::League),
        120_000
    );
    assert_eq!(
        engine.convert_local_to_international(fixed(100.0), fixed(100.0), MatchImportance::Final),
        650_000
    );
    assert_eq!(engine.calculate_decay_factor(fixed(70.0)), 20_000);
    assert_eq!(engine.calculate_decay_factor(70_000_001), 10_000);
    assert_eq!(engine.calculate_decay_factor(fixed(40.0)), 50_000);
}

#[test]
fn reputation_after_a_match() {
    let engine = ReputationEngine::new();
    let mut player = create_test_player();
    player.local_reputation = fixed(45.0);
    player.international_reputation = fixed(10.0);
    engine.update_reputation(
        &mut player,
        fixed(8.0),
        MatchImportance::League,
        true,
        fixed(75.0),
        TeamPerformance::Win,
    );
    // 45 + 2.0 + 1.0 + 0.5
    assert_eq!(player.local_reputation, 48_500_000);
    assert!(units(player.local_reputation) > 45.0);
    // 10 + 0.485 * 0.75 * 0.5 - 0.05
    assert_eq!(player.international_reputation, 10_131_875);

    let mut unknown = create_test_player();
    unknown.local_reputation = 0;
    unknown.international_reputation = 0;
    engine.update_reputation(
        &mut unknown,
        fixed(4.0),
        MatchImportance::Final,
        false,
        fixed(75.0),
        TeamPerformance::Loss,
    );
    assert_eq!(unknown.local_reputation, 0);
    assert_eq!(unknown.international_reputation, 0);
}

#[test]
fn age_factors_and_ability() {
    let engine = ReputationEngine::new();
    let ages = [(14, 0.4), (15, 1.3), (21, 1.3), (22, 1.1), (25, 1.1), (26, 1.0), (29, 1.0), (30, 0.8), (32, 0.8), (33, 0.6), (35, 0.6), (36, 0.4)];
    for (age, factor) in ages {
        assert_eq!(engine.calculate_age_factor(age), fixed(factor));
    }
    let player = create_test_player();
    // 73.333333 * 0.35 + 74 * 0.25 + 80 * 0.4
    assert_eq!(engine.calculate_player_ability_score(&player), 76_166_666);
    // (76.166666 + 42.5 + 3.75 + 28) * 1.1 * 1.4 * 1.5
    assert_eq!(engine.calculate_transfer_interest_score(&player, fixed(80.0), fixed(50.0)), 347_462_496);
    assert!(Position::GK.is_goalkeeper_or_defender());
    assert!(Position::CB.is_goalkeeper_or_defender());
    assert!(Position::LB.is_goalkeeper_or_defender());
    assert!(Position::RB.is_goalkeeper_or_defender());
    assert!(!Position::FB.is_goalkeeper_or_defender());
    assert!(!Position::DM.is_goalkeeper_or_defender());
    assert!(!Position::CF.is_goalkeeper_or_defender());
}

#[test]
fn awards_and_seasons() {
    let engine = ReputationEngine::new();
    let awards = [
        ("ballon d'or", 25.0),
        ("WORLD PLAYER OF THE YEAR", 25.0),
        ("League Best Player", 15.0),
        ("top scorer", 10.0),
        ("Best Young Player", 8.0),
        ("Team of the Season", 5.0),
        ("", 2.0),
        ("Ballon d'Or ", 2.0),
    ];
    for (award, boost) in awards {
        assert_eq!(engine.get_award_reputation_boost(award), fixed(boost));
    }
    assert_eq!(engine.award_boost_for_lowered(&"top scorer".to_string()), fixed(10.0));
    assert_eq!(engine.award_boost_for_lowered(&"Top Scorer".to_string()), fixed(2.0));
    let places = [(1, 12.0), (2, 8.0), (3, 8.0), (4, 5.0), (6, 5.0), (7, 2.0), (10, 2.0), (11, 0.0), (17, 0.0), (18, -3.0), (0, -3.0)];
    for (place, boost) in places {
        assert_eq!(engine.get_team_success_reputation_boost(place), fixed(boost));
    }
    let player = create_test_player();
    let season = SeasonPerformance {
        average_match_rating: fixed(7.5),
        goals: 10,
        assists: 5,
        appearances: 30,
        clean_sheets: 8,
    };
    // 7.5 + 1.0 + 0.25 + 5.0 + 8.0
    assert_eq!(engine.calculate_award_contender_score(&player, season, TeamSuccess::Top4), 21_750_000);
    let mut keeper = create_test_player();
    keeper.primary_position = Position::GK;
    // the clean sheets of a goalkeeper count: 7.5 + 1.0 + 0.25 + 1.2 + 15.0 + 8.0
    assert_eq!(
        engine.calculate_award_contender_score(&keeper, season, TeamSuccess::LeagueWinner),
        32_950_000
    );
    assert_eq!(
        engine.calculate_award_contender_score(&player, season, TeamSuccess::Relegation)
            - engine.calculate_award_contender_score(&player, season, TeamSuccess::MidTable),
        -5_000_000
    );
    assert_eq!(
        engine.calculate_award_contender_score(&player, season, TeamSuccess::CupWinner)
            - engine.calculate_award_contender_score(&player, season, TeamSuccess::MidTable),
        10_000_000
    );
    let stats = SeasonStats {
        appearances: 30,
        goals: 10,
        assists: 5,
        average_rating: fixed(7.2),
        clean_sheets: 0,
    };
    // 3.0 + 3.0 + 1.0 + 14.4 + 10.0
    assert_eq!(engine.calculate_season_performance_score(&stats, 1), 31_400_000);
    assert_eq!(engine.calculate_season_performance_score(&stats, 3), 26_400_000);
    assert_eq!(engine.calculate_season_performance_score(&stats, 5), 23_400_000);
    assert_eq!(engine.calculate_season_performance_score(&stats, 10), 21_400_000);
    assert_eq!(engine.calculate_season_performance_score(&stats, 16), 19_400_000);
    assert_eq!(engine.calculate_season_performance_score(&stats, 19), 16_400_000);
    assert_eq!(engine.calculate_season_performance_score(&stats, 21), 21_400_000);

    let mut star = create_test_player();
    star.local_reputation = fixed(65.0);
    star.international_reputation = fixed(40.0);
    engine.update_seasonal_reputation(
        &mut star,
        &stats,
        1,
        &["Top Scorer".to_string(), "Team of the Season".to_string()],
    );
    // 65 + 31.4 * 0.3
    assert_eq!(star.local_reputation, 74_420_000);
    // 40 + 10 + 5 + 12
    assert_eq!(star.international_reputation, 67_000_000);
    engine.update_seasonal_reputation(
        &mut star,
        &stats,
        20,
        &["Ballon d'Or".to_string(), "World Player of the Year".to_string()],
    );
    // the awards fill the name abroad to the brim, then the relegation costs 3
    assert_eq!(star.international_reputation, 97_000_000);
}

#[test]
fn an_inactive_player_fades() {
    let engine = ReputationEngine::new();
    let mut player = create_test_player();
    engine.apply_inactive_decay(&mut player, 10);
    assert_eq!(player.local_reputation, 64_000_000);
    assert_eq!(player.international_reputation, 37_000_000);
    engine.apply_inactive_decay(&mut player, 200);
    assert_eq!(player.local_reputation, 44_000_000);
    assert_eq!(player.international_reputation, 0);
    engine.apply_inactive_decay(&mut player, u32::MAX);
    assert_eq!(player.local_reputation, 0);
}
