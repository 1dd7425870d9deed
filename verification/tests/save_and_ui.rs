use player_manager::entities::{
    CareerStats, Contract, Foot, HiddenAttributes, MentalAttributes, PhysicalAttributes, Player,
    Position, SquadRole, TechnicalAttributes,
};
use player_manager::game_core::event_engine::{AttributeType, Consequence, ConsequenceType};
use player_manager::game_core::game_state::GameState;
use player_manager::save::save_manager::{
    parse_number, parse_version, position_name, SaveError, SaveSlot,
};
use player_manager::save::SaveManager;
use player_manager::ui::console_ui::{
    apply_consequence, apply_consequences, same_input, selected_option,
};
use player_manager::ui::tutorial::{
    MAIN_MENU_CONTENT, MATCH_REPORT_TITLE, TRAINING_SELECTION_CONTENT,
};
use player_manager::ui::{MainMenuOption, TutorialManager};
use player_manager::utils::constants::{
    EXTRA_TIME_END_MINUTE, MATCH_DURATION_MINUTES, MAX_PLAYERS_PER_SQUAD, SEASON_LENGTH_WEEKS,
};

fn create_player() -> Player {
    Player {
        id: 5,
        name: "Test Player".to_string(),
        age: 17,
        nationality: "England".to_string(),
        height: 175,
        weight: 70,
        preferred_foot: Foot::Right,
        primary_position: Position::AM,
        secondary_positions: vec![],
        technical: TechnicalAttributes {
            dribbling: 70,
            passing: 75,
            shooting: 65,
            first_touch: 72,
            tackling: 68,
            crossing: 60,
        },
        physical: PhysicalAttributes { pace: 65, stamina: 75, strength: 60, agility: 68, jumping: 62 },
        mental: MentalAttributes {
            composure: 70,
            vision: 75,
            work_rate: 72,
            determination: 78,
            positioning: 70,
            teamwork: 75,
        },
        hidden: HiddenAttributes {
            injury_proneness: 20,
            consistency: 70,
            big_match_temperament: 75,
            professionalism: 80,
            potential_ceiling: 85,
            versatility: 70,
            ambition: 80,
            loyalty: 60,
            ego: 65,
        },
        fitness: 85_000_000,
        fatigue: 15_000_000,
        form: 7_000_000,
        morale: 75_000_000,
        sharpness: 80_000_000,
        local_reputation: 45_000_000,
        international_reputation: 10_000_000,
        contract: Contract {
            club_id: 9,
            wage: 15_000_000_000,
            length_years: 3,
            squad_role: SquadRole::Prospect,
            release_clause: None,
            performance_bonuses: vec![],
            contract_end_date: 740_000,
            league_strength: 60_000_000,
        },
        career_stats: CareerStats {
            seasons_played: 0,
            total_appearances: 0,
            total_goals: 0,
            total_assists: 0,
            total_yellow_cards: 0,
            total_red_cards: 0,
            average_rating: 0,
            highest_rating: 0,
            season_stats: vec![],
            awards: vec![],
            trophies: vec![],
        },
        injury_status: None,
        form_history: vec![],
    }
}

#[test]
fn a_new_manager_has_the_five_guides() {
    let manager = TutorialManager::new();
    let guide = manager.get_guide("main_menu").unwrap();
    assert_eq!(guide.title, "Main Menu Guide");
    assert_eq!(guide.content, MAIN_MENU_CONTENT);
    assert!(guide.content.starts_with("The Main Menu is your central hub.\n- View Profile"));
    assert!(guide.content.ends_with("'help' or 'h' at any menu to see this guide again."));
    assert_eq!(manager.get_guide("player_profile").unwrap().title, "Player Profile Guide");
    assert_eq!(manager.get_guide("team_info").unwrap().title, "Team Information Guide");
    assert_eq!(manager.get_guide("match_report").unwrap().title, MATCH_REPORT_TITLE);
    assert_eq!(
        manager.get_guide("training_selection").unwrap().content,
        TRAINING_SELECTION_CONTENT
    );
    assert!(manager.get_guide("league_table").is_none());
    assert!(manager.get_guide("").is_none());
    assert!(manager.get_guide("Main_Menu").is_none());
}

#[test]
fn guides_are_registered_and_replaced() {
    let mut manager = TutorialManager::new();
    manager.register_guide("league_table", "League Table Guide", "Points decide.");
    assert_eq!(manager.get_guide("league_table").unwrap().content, "Points decide.");
    manager.register_guide("main_menu", "Menu", "Short.");
    let guide = manager.get_guide("main_menu").unwrap();
    assert_eq!((guide.title.as_str(), guide.content.as_str()), ("Menu", "Short."));
    // the other guides stay as they were
    assert_eq!(manager.get_guide("team_info").unwrap().title, "Team Information Guide");
    assert_eq!(manager.get_guide("league_table").unwrap().title, "League Table Guide");
    manager.register_guide("league_table", "Table", "Goals decide.");
    assert_eq!(manager.get_guide("league_table").unwrap().content, "Goals decide.");
}

#[test]
fn the_main_menu_reads_its_input() {
    let options = [
        ("1", MainMenuOption::ViewPlayerProfile),
        ("2", MainMenuOption::ViewTeamInfo),
        ("3", MainMenuOption::ViewLeagueTable),
        ("4", MainMenuOption::ViewMatchReport),
        ("5", MainMenuOption::ContinueGame),
        ("6", MainMenuOption::SaveGame),
        ("7", MainMenuOption::LoadGame),
        ("8", MainMenuOption::Quit),
        ("9", MainMenuOption::ContinueGame),
        ("", MainMenuOption::ContinueGame),
        ("01", MainMenuOption::ContinueGame),
        (" 1", MainMenuOption::ContinueGame),
        ("quit", MainMenuOption::ContinueGame),
    ];
    for (input, option) in options {
        assert_eq!(MainMenuOption::from_input(input), option);
    }
    assert!(same_input("help", "help"));
    assert!(!same_input("help", "Help"));
}

#[test]
fn consequences_move_morale_and_reputation() {
    let mut player = create_player();
    let morale = Consequence { consequence_type: ConsequenceType::MoraleChange, value: 5_000_000, duration: None };
    apply_consequence(&mut player, &morale);
    assert_eq!(player.morale, 80_000_000);
    apply_consequence(&mut player, &Consequence { value: 50_000_000, ..morale });
    assert_eq!(player.morale, 100_000_000);
    apply_consequence(&mut player, &Consequence { value: i64::MIN, ..morale });
    assert_eq!(player.morale, 0);
    let reputation = Consequence {
        consequence_type: ConsequenceType::ReputationChange,
        value: -5_000_000,
        duration: Some(7),
    };
    apply_consequence(&mut player, &reputation);
    assert_eq!(player.local_reputation, 40_000_000);
    assert_eq!(player.international_reputation, 10_000_000);
    for kind in [
        ConsequenceType::AttributeImprovement(AttributeType::Technical(
            player_manager::entities::TechnicalAttribute::Passing,
        )),
        ConsequenceType::RelationshipChange,
        ConsequenceType::FinancialImpact,
        ConsequenceType::PlayingTimeImpact,
        ConsequenceType::ContractStatusChange,
    ] {
        apply_consequence(
            &mut player,
            &Consequence { consequence_type: kind, value: 9_000_000, duration: None },
        );
    }
    assert_eq!(player.morale, 0);
    assert_eq!(player.local_reputation, 40_000_000);
    assert_eq!(player.technical.passing, 75);
}

#[test]
fn versions_are_read_part_by_part() {
    assert_eq!(parse_version(b"1.0"), vec![1, 0]);
    assert_eq!(parse_version(b"12.345.6"), vec![12, 345, 6]);
    assert_eq!(parse_version(b""), Vec::<u32>::new());
    assert_eq!(parse_version(b"1"), vec![1]);
    assert_eq!(parse_version(b"1."), vec![1]);
    assert_eq!(parse_version(b".1"), vec![1]);
    assert_eq!(parse_version(b"..."), Vec::<u32>::new());
    // parts that do not read as a number are passed over
    assert_eq!(parse_version(b"1.x.2"), vec![1, 2]);
    assert_eq!(parse_version(b"v1.0"), vec![0]);
    assert_eq!(parse_version(b"1.0-beta"), vec![1]);
    assert_eq!(parse_version(b"+1.+02"), vec![1, 2]);
    assert_eq!(parse_version(b"-1.2"), vec![2]);
    assert_eq!(parse_version(b"+.1"), vec![1]);
    assert_eq!(parse_version(b"1 .2"), vec![2]);
    assert_eq!(parse_version("1.\u{661}".as_bytes()), vec![1]);
    // no more than fits in 32 bits
    assert_eq!(parse_version(b"4294967295.4294967296"), vec![4294967295]);
    assert_eq!(parse_version(b"00000000000000000007.99999999999999999999"), vec![7]);
    assert_eq!(parse_number(b"a12b", 1, 3), Some(12));
    assert_eq!(parse_number(b"a12b", 1, 4), None);
    assert_eq!(parse_number(b"a12b", 2, 2), None);
    assert_eq!(parse_number(b"+", 0, 1), None);
    assert_eq!(parse_number(b"++1", 0, 3), None);
    for (text, number) in [("1", 1u32), ("+1", 1), ("007", 7), ("4294967295", u32::MAX)] {
        assert_eq!(parse_number(text.as_bytes(), 0, text.len()), text.parse::<u32>().ok());
        assert_eq!(parse_number(text.as_bytes(), 0, text.len()), Some(number));
    }
    for text in ["", "+", "-1", "1a", " 1", "4294967296", "1.0", "٣"] {
        assert_eq!(text.parse::<u32>().ok(), None);
        assert_eq!(parse_number(text.as_bytes(), 0, text.len()), None);
    }
}

#[test]
fn a_loaded_game_is_brought_up_to_date() {
    let manager = SaveManager::new();
    assert!(manager.is_version_valid("1.0"));
    assert!(manager.is_version_valid("0.9.7"));
    assert!(!manager.is_version_valid("1"));
    assert!(!manager.is_version_valid(""));
    assert!(!manager.is_version_valid("one.two"));
    let mut state = GameState::new(create_player(), 9);
    state.save_version = "0.9".to_string();
    let date = state.current_date;
    let migrated = manager.migrate_save_format(state).unwrap();
    assert_eq!(migrated.save_version, "1.0");
    assert_eq!(migrated.player.name, "Test Player");
    assert_eq!(migrated.current_club_id, 9);
    assert_eq!(migrated.current_date, date);
    let mut broken = GameState::new(create_player(), 9);
    broken.save_version = "latest".to_string();
    assert_eq!(
        manager.migrate_save_format(broken).err(),
        Some(SaveError::InvalidVersion("latest".to_string()))
    );
}

#[test]
fn a_slot_describes_a_saved_game() {
    let manager = SaveManager::new();
    let state = GameState::new(create_player(), 9);
    let slot = manager.create_save_slot(3, &state, "saves/three.json".to_string());
    assert_eq!(slot.slot_id, 3);
    assert_eq!(slot.save_name, "Save Slot 3");
    assert_eq!(slot.player_name, "Test Player");
    assert_eq!(slot.player_age, 17);
    assert_eq!(slot.player_position, "AM");
    assert_eq!(slot.game_time, state.current_date);
    assert_eq!(slot.file_path, "saves/three.json");
    assert!(slot.save_date >= state.current_date);
    assert_eq!(SaveSlot::new(4_000_000_000, &state, String::new()).save_name, "Save Slot 4000000000");
    for position in [
        Position::GK,
        Position::RB,
        Position::CB,
        Position::LB,
        Position::FB,
        Position::DM,
        Position::RM,
        Position::CM,
        Position::LM,
        Position::AM,
        Position::RW,
        Position::LW,
        Position::CF,
        Position::SS,
    ] {
        assert_eq!(position_name(position), format!("{:?}", position));
    }
}

#[test]
fn the_limits_of_the_world() {
    assert_eq!(MAX_PLAYERS_PER_SQUAD, 25);
    assert_eq!(SEASON_LENGTH_WEEKS, 38);
    assert_eq!(MATCH_DURATION_MINUTES, 90);
    assert_eq!(EXTRA_TIME_END_MINUTE, 120);
}

#[test]
fn choices_are_counted_from_one() {
    assert_eq!(selected_option(1, 3), Some(0));
    assert_eq!(selected_option(3, 3), Some(2));
    assert_eq!(selected_option(0, 3), None);
    assert_eq!(selected_option(4, 3), None);
    assert_eq!(selected_option(1, 0), None);
    let mut player = create_player();
    let both = vec![
        Consequence { consequence_type: ConsequenceType::MoraleChange, value: 30_000_000, duration: None },
        Consequence { consequence_type: ConsequenceType::MoraleChange, value: -10_000_000, duration: None },
        Consequence { consequence_type: ConsequenceType::ReputationChange, value: 1_000_000, duration: None },
    ];
    apply_consequences(&mut player, &both);
    // 75 + 30 is held at 100, then 10 go
    assert_eq!(player.morale, 90_000_000);
    assert_eq!(player.local_reputation, 46_000_000);
    apply_consequences(&mut player, &[]);
    assert_eq!(player.morale, 90_000_000);
}
