use player_manager::entities::{
    CareerStats, Contract, Foot, HiddenAttributes, MentalAttributes, PhysicalAttributes, Player,
    Position, SquadRole, TechnicalAttributes,
};
use player_manager::utils::helpers::generate_unique_id;
use player_manager::systems::training_system::{
    cap, diminish, improve_attribute, PhysicalAttributeDistribution, TechnicalAttributeDistribution,
    TrainingFocus, TrainingResult,
};
use player_manager::systems::TrainingSystem;

fn fixed(value: f64) -> i64 {
    (value * 1_000_000.0).round() as i64
}

fn units(value: i64) -> f64 {
    value as f64 / 1_000_000.0
}

fn create_test_contract() -> Contract {
    Contract {
        club_id: generate_unique_id(),
        wage: fixed(50000.0),
        length_years: 3,
        squad_role: SquadRole::FirstTeam,
        release_clause: None,
        performance_bonuses: vec![],
        contract_end_date: 739_617,
        league_strength: fixed(75.0),
    }
}

fn create_test_player() -> Player {
    Player {
        id: generate_unique_id(),
        name: "Test Player".to_string(),
        age: 25,
        nationality: "Country".to_string(),
        height: 180,
        weight: 75,
        preferred_foot: Foot::Right,
        primary_position: Position::CM,
        secondary_positions: vec![],
        technical: TechnicalAttributes {
            dribbling: 75,
            passing: 80,
            shooting: 70,
            first_touch: 78,
            tackling: 72,
            crossing: 65,
        },
        physical: PhysicalAttributes { pace: 70, stamina: 85, strength: 75, agility: 72, jumping: 68 },
        mental: MentalAttributes {
            composure: 80,
            vision: 85,
            work_rate: 75,
            determination: 82,
            positioning: 78,
            teamwork: 80,
        },
        hidden: HiddenAttributes {
            injury_proneness: 20,
            consistency: 70,
            big_match_temperament: 80,
            professionalism: 90,
            potential_ceiling: 85,
            versatility: 75,
            ambition: 80,
            loyalty: 60,
            ego: 70,
        },
        fitness: fixed(90.0),
        fatigue: fixed(10.0),
        form: fixed(7.5),
        morale: fixed(75.0),
        sharpness: fixed(80.0),
        local_reputation: fixed(65.0),
        international_reputation: fixed(40.0),
        contract: create_test_contract(),
        career_stats: CareerStats {
            seasons_played: 3,
            total_appearances: 50,
            total_goals: 10,
            total_assists: 8,
            total_yellow_cards: 15,
            total_red_cards: 1,
            average_rating: fixed(7.2),
            highest_rating: fixed(9.0),
            season_stats: vec![],
            awards: vec![],
            trophies: vec![],
        },
        injury_status: None,
        form_history: vec![fixed(7.0), fixed(7.5), fixed(8.0), fixed(6.8), fixed(7.2)],
    }
}

fn hidden_with(professionalism: u8, loyalty: u8) -> HiddenAttributes {
    HiddenAttributes {
        injury_proneness: 20,
        consistency: 70,
        big_match_temperament: 80,
        professionalism,
        potential_ceiling: 85,
        versatility: 75,
        ambition: 80,
        loyalty,
        ego: 70,
    }
}

#[test]
fn test_focus_alignment() {
    let system = TrainingSystem::new();

    let alignment =
        system.calculate_focus_alignment(TrainingFocus::Technical, Some(TrainingFocus::Technical));
    assert_eq!(units(alignment), 1.0);

    let alignment =
        system.calculate_focus_alignment(TrainingFocus::Technical, Some(TrainingFocus::Physical));
    assert_eq!(units(alignment), 0.3);

    let alignment = system.calculate_focus_alignment(TrainingFocus::Technical, None);
    assert_eq!(units(alignment), 0.5);
}

#[test]
fn training_system_test_training_effectiveness() {
    let system = TrainingSystem::new();
    let hidden = hidden_with(90, 60);

    let effectiveness = system.calculate_training_effectiveness(
        TrainingFocus::Technical,
        fixed(1.0),
        fixed(80.0),
        fixed(70.0),
        fixed(85.0),
        &hidden,
    );
    assert!(units(effectiveness) > 1.0);
    // 0.8 * 1.6 * 1.4 * 1.7 * 1.0 * 0.9
    assert_eq!(effectiveness, 2_741_760);

    let effectiveness = system.calculate_training_effectiveness(
        TrainingFocus::Physical,
        fixed(0.0),
        fixed(30.0),
        fixed(40.0),
        fixed(45.0),
        &hidden,
    );
    assert!(units(effectiveness) < 1.0);
    // 0.9 * 0.6 * 0.8 * 0.9 * 0.5 * 0.9
    assert_eq!(effectiveness, 174_960);
}

#[test]
fn test_fatigue_calculation() {
    let system = TrainingSystem::new();

    let physical_fatigue = system.calculate_fatigue_increase(TrainingFocus::Physical, fixed(70.0));
    let technical_fatigue = system.calculate_fatigue_increase(TrainingFocus::Technical, fixed(70.0));
    assert!(physical_fatigue > technical_fatigue);
    assert_eq!(physical_fatigue, 21_000_000);
    assert_eq!(technical_fatigue, 7_000_000);

    let rest_fatigue = system.calculate_fatigue_increase(TrainingFocus::Rest, fixed(50.0));
    assert!(units(rest_fatigue) < 0.0);
    assert_eq!(rest_fatigue, -20_000_000);
}

#[test]
fn test_alignment_morale_effect() {
    let system = TrainingSystem::new();
    let hidden = hidden_with(90, 80);

    let effect = system.calculate_alignment_morale_effect(fixed(1.0), &hidden);
    assert!(units(effect) > 0.0);
    assert_eq!(effect, 4_000_000);

    let effect = system.calculate_alignment_morale_effect(fixed(0.0), &hidden);
    assert!(units(effect) > -5.0);
    assert_eq!(effect, -3_500_000);

    let low_loyalty_hidden = HiddenAttributes { loyalty: 20, ..hidden };
    let effect = system.calculate_alignment_morale_effect(fixed(0.0), &low_loyalty_hidden);
    assert!(units(effect) < -3.0);
    assert_eq!(effect, -6_500_000);
}

#[test]
fn training_system_test_diminishing_returns() {
    let system = TrainingSystem::new();

    let high_return = system.apply_diminishing_returns(fixed(1.0), fixed(20.0));
    assert!(units(high_return) > 0.8);
    assert_eq!(high_return, 900_000);

    let low_return = system.apply_diminishing_returns(fixed(1.0), fixed(90.0));
    assert!(units(low_return) < 0.6);
    assert_eq!(low_return, 550_000);

    // at an average of 180 and beyond a tenth is left
    assert_eq!(system.apply_diminishing_returns(fixed(1.0), fixed(180.0)), 100_000);
    assert_eq!(system.apply_diminishing_returns(fixed(1.0), fixed(255.0)), 100_000);
    assert_eq!(diminish(fixed(2.0), 0), 2_000_000);
}

#[test]
fn complementary_focuses() {
    let system = TrainingSystem::new();
    assert!(system.are_complementary_focuses(TrainingFocus::Technical, TrainingFocus::Tactical));
    assert!(system.are_complementary_focuses(TrainingFocus::Tactical, TrainingFocus::Technical));
    assert!(system.are_complementary_focuses(TrainingFocus::Physical, TrainingFocus::Mental));
    assert!(system.are_complementary_focuses(TrainingFocus::Mental, TrainingFocus::Physical));
    assert!(!system.are_complementary_focuses(TrainingFocus::Technical, TrainingFocus::Physical));
    assert!(!system.are_complementary_focuses(TrainingFocus::Rest, TrainingFocus::Rest));
    assert_eq!(
        system.calculate_focus_alignment(TrainingFocus::Technical, Some(TrainingFocus::Tactical)),
        700_000
    );
    assert_eq!(
        system.calculate_focus_alignment(TrainingFocus::Rest, Some(TrainingFocus::Rest)),
        1_000_000
    );
}

#[test]
fn attributes_are_capped_between_one_and_hundred() {
    let system = TrainingSystem::new();
    assert_eq!(system.cap_attribute(fixed(105.0)), fixed(100.0));
    assert_eq!(system.cap_attribute(fixed(-5.0)), fixed(1.0));
    assert_eq!(system.cap_attribute(fixed(50.0)), fixed(50.0));
    assert_eq!(cap(0), fixed(1.0));
    // 70 + 18.36 * 0.3 = 75.508
    assert_eq!(improve_attribute(70, 18_360_000, 300_000), 75);
    assert_eq!(improve_attribute(0, 0, 300_000), 1);
    assert_eq!(improve_attribute(255, 0, 300_000), 100);
    assert_eq!(improve_attribute(99, fixed(100.0), 1_000_000), 100);
}

#[test]
fn injury_risk_values() {
    let system = TrainingSystem::new();
    let hidden = hidden_with(90, 60);
    // (0.6 + 22 / 200) * 0.2
    assert_eq!(system.calculate_injury_risk(fixed(60.0), fixed(22.0), &hidden), 142_000);
    assert_eq!(system.calculate_injury_risk(0, 0, &hidden), 0);
    // a fatigue below zero lowers the risk
    assert_eq!(system.calculate_injury_risk(fixed(60.0), fixed(-17.0), &hidden), 103_000);
}

#[test]
fn distributions_by_position() {
    let system = TrainingSystem::new();
    assert_eq!(
        system.get_technical_distribution(&Position::GK),
        TechnicalAttributeDistribution {
            dribbling: 50_000,
            passing: 200_000,
            shooting: 50_000,
            first_touch: 150_000,
            tackling: 100_000,
            crossing: 50_000,
        }
    );
    assert_eq!(
        system.get_technical_distribution(&Position::CF),
        TechnicalAttributeDistribution {
            dribbling: 200_000,
            passing: 150_000,
            shooting: 280_000,
            first_touch: 180_000,
            tackling: 50_000,
            crossing: 140_000,
        }
    );
    assert_eq!(
        system.get_technical_distribution(&Position::RB),
        system.get_technical_distribution(&Position::FB)
    );
    assert_eq!(
        system.get_technical_distribution(&Position::AM).crossing,
        160_000
    );
    assert_eq!(
        system.get_physical_distribution(&Position::LW),
        PhysicalAttributeDistribution {
            pace: 350_000,
            stamina: 220_000,
            strength: 100_000,
            agility: 250_000,
            jumping: 80_000,
        }
    );
    for position in [
        Position::GK,
        Position::RB,
        Position::CB,
        Position::LB,
        Position::FB,
        Position::DM,
        Position::RM,
        Position::CM,
        Position::LM,
        Position::AM,
        Position::RW,
        Position::LW,
        Position::CF,
        Position::SS,
    ] {
        let shares = system.get_physical_distribution(&position);
        assert_eq!(
            shares.pace + shares.stamina + shares.strength + shares.agility + shares.jumping,
            1_000_000
        );
    }
}

#[test]
fn a_week_of_technical_training() {
    let system = TrainingSystem::new();
    let mut player = create_test_player();
    let result = system.process_training_week(
        &mut player,
        TrainingFocus::Technical,
        Some(TrainingFocus::Technical),
        fixed(75.0),
        fixed(60.0),
        fixed(80.0),
    );
    assert_eq!(
        result,
        TrainingResult {
            focus: TrainingFocus::Technical,
            effectiveness: 2_073_600,
            alignment: 1_000_000,
            morale_change: 3_000_000,
            fatigue_increase: 6_000_000,
            injury_risk: 136_000,
        }
    );
    assert!(units(result.effectiveness) > 0.0);
    assert_eq!(player.fatigue, 16_000_000);
    assert_eq!(player.morale, 78_000_000);
    // the improvement of 1.31 is too small to lift a whole point
    assert_eq!(player.technical.dribbling, 75);
    assert_eq!(player.technical.passing, 80);
    assert_eq!(player.physical.pace, 70);
}

#[test]
fn a_week_of_rest_takes_fatigue_away() {
    let system = TrainingSystem::new();
    let mut player = create_test_player();
    let result = system.process_training_week(
        &mut player,
        TrainingFocus::Rest,
        Some(TrainingFocus::Physical),
        fixed(75.0),
        fixed(60.0),
        fixed(80.0),
    );
    assert_eq!(result.effectiveness, 0);
    assert_eq!(result.alignment, 300_000);
    assert_eq!(result.fatigue_increase, -24_000_000);
    // 10 * 0.7 - 24: rest can leave a fatigue below zero
    assert_eq!(player.fatigue, -17_000_000);
    assert_eq!(result.injury_risk, 103_000);
    assert_eq!(result.morale_change, -1_800_000);
    assert_eq!(player.morale, 73_200_000);
}

#[test]
fn strong_training_lifts_attributes() {
    let system = TrainingSystem::new();
    let mut player = create_test_player();
    player.technical = TechnicalAttributes {
        dribbling: 20,
        passing: 20,
        shooting: 20,
        first_touch: 20,
        tackling: 20,
        crossing: 20,
    };
    system.apply_training_effects(&mut player, TrainingFocus::Technical, 18_360_000);
    // improvement 18.36 * (1 - 20 / 200) = 16.524; passing takes 0.3 of it
    assert_eq!(player.technical.passing, 24);
    assert_eq!(player.technical.dribbling, 22);
    assert_eq!(player.technical.crossing, 21);
    let mut other = create_test_player();
    other.mental = MentalAttributes {
        composure: 20,
        vision: 20,
        work_rate: 20,
        determination: 20,
        positioning: 20,
        teamwork: 20,
    };
    system.apply_training_effects(&mut other, TrainingFocus::Mental, 18_360_000);
    // 16.524 * 0.17 = 2.809, 16.524 * 0.16 = 2.64
    assert_eq!(other.mental.composure, 22);
    assert_eq!(other.mental.teamwork, 22);
    let mut third = create_test_player();
    third.physical = PhysicalAttributes { pace: 20, stamina: 20, strength: 20, agility: 20, jumping: 20 };
    system.apply_training_effects(&mut third, TrainingFocus::Physical, 18_360_000);
    // a central midfielder: stamina takes 0.3, pace 0.2
    assert_eq!(third.physical.stamina, 24);
    assert_eq!(third.physical.pace, 23);
}
