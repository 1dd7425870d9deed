use player_manager::entities::{ScheduledEvent, ScheduledEventType as CalendarEventType, NIL_ID};
use player_manager::game_core::event_engine::{
    EventEngineError, EventHandler, EventResult, HandlerRegistry, QueuedEvent,
};
use player_manager::game_core::game_state::{GameState, SeasonInfo, TransferSystemState, TransferWindows};
use player_manager::game_core::time_engine::{
    EventPriority, PauseReason, ScheduledEvent as TimedEvent, ScheduledEventType, TimeEngineError,
};
use player_manager::game_core::{EventEngine, TimeEngine};
use player_manager::entities::{
    CareerStats, Contract, Foot, HiddenAttributes, MentalAttributes, PhysicalAttributes, Player,
    Position, SquadRole, TechnicalAttributes,
};

fn now() -> i64 {
    chrono::Utc::now().timestamp()
}

fn timed(time: i64, priority: EventPriority, needs_user: bool) -> TimedEvent {
    TimedEvent::new(time, ScheduledEventType::TrainingSession, priority, needs_user)
}

fn queued(id: u128, timestamp: u64, priority: EventPriority, kind: CalendarEventType) -> QueuedEvent {
    QueuedEvent {
        event: ScheduledEvent { id, scheduled_time: 739_000, event_type: kind, data: "{}".to_string() },
        timestamp,
        priority,
    }
}

struct Handlers {
    refuse: bool,
}

struct MatchDayHandler;

impl EventHandler for MatchDayHandler {
    fn handle(&self, event: &ScheduledEvent) -> Result<EventResult, EventEngineError> {
        if event.data.is_empty() {
            Err(EventEngineError::ProcessingFailed("no data".to_string()))
        } else {
            Ok(EventResult::Handled)
        }
    }
}

impl HandlerRegistry for Handlers {
    fn dispatch(
        &self,
        event_type: &str,
        event: &ScheduledEvent,
    ) -> Option<Result<EventResult, EventEngineError>> {
        if self.refuse {
            return Some(Err(EventEngineError::ProcessingFailed(event_type.to_string())));
        }
        match event_type {
            "MatchDay" => Some(MatchDayHandler.handle(event)),
            "SeasonEnd" => Some(Ok(EventResult::Failed("over".to_string()))),
            _ => None,
        }
    }
}

fn create_player() -> Player {
    Player {
        id: 5,
        name: "Test Player".to_string(),
        age: 17,
        nationality: "England".to_string(),
        height: 175,
        weight: 70,
        preferred_foot: Foot::Right,
        primary_position: Position::CM,
        secondary_positions: vec![],
        technical: TechnicalAttributes {
            dribbling: 70,
            passing: 75,
            shooting: 65,
            first_touch: 72,
            tackling: 68,
            crossing: 60,
        },
        physical: PhysicalAttributes { pace: 65, stamina: 75, strength: 60, agility: 68, jumping: 62 },
        mental: MentalAttributes {
            composure: 70,
            vision: 75,
            work_rate: 72,
            determination: 78,
            positioning: 70,
            teamwork: 75,
        },
        hidden: HiddenAttributes {
            injury_proneness: 20,
            consistency: 70,
            big_match_temperament: 75,
            professionalism: 80,
            potential_ceiling: 85,
            versatility: 70,
            ambition: 80,
            loyalty: 60,
            ego: 65,
        },
        fitness: 85_000_000,
        fatigue: 15_000_000,
        form: 7_000_000,
        morale: 75_000_000,
        sharpness: 80_000_000,
        local_reputation: 45_000_000,
        international_reputation: 10_000_000,
        contract: Contract {
            club_id: 9,
            wage: 15_000_000_000,
            length_years: 3,
            squad_role: SquadRole::Prospect,
            release_clause: None,
            performance_bonuses: vec![],
            contract_end_date: 740_000,
            league_strength: 60_000_000,
        },
        career_stats: CareerStats {
            seasons_played: 0,
            total_appearances: 0,
            total_goals: 0,
            total_assists: 0,
            total_yellow_cards: 0,
            total_red_cards: 0,
            average_rating: 0,
            highest_rating: 0,
            season_stats: vec![],
            awards: vec![],
            trophies: vec![],
        },
        injury_status: None,
        form_history: vec![],
    }
}

#[test]
fn test_time_event_integration() {
    let mut time_engine = TimeEngine::new(now());
    let _event_engine = EventEngine::new();

    let event = TimedEvent::new(
        now() + 86_400,
        ScheduledEventType::TrainingSession,
        EventPriority::Medium,
        false,
    );

    time_engine.schedule_event(event);

    assert!(time_engine.time_until_next_event().is_some());

    assert!(time_engine.advance_time().is_ok());
}

#[test]
fn the_clock_ticks_by_the_hour() {
    let mut engine = TimeEngine::new(1_000);
    assert_eq!(engine.tick_duration, 3_600);
    assert!(!engine.is_paused);
    assert_eq!(engine.time_until_next_event(), None);
    assert_eq!(engine.advance_to_next_event(), Err(TimeEngineError::NoEventsScheduled));
    assert_eq!(engine.advance_time(), Ok(()));
    assert_eq!(engine.current_date, 4_600);
    assert!(engine.has_time_passed(4_600));
    assert!(!engine.has_time_passed(4_601));
    engine.pause_game(PauseReason::UserRequested);
    assert_eq!(engine.advance_time(), Err(TimeEngineError::Paused));
    assert_eq!(engine.advance_to_next_event(), Err(TimeEngineError::Paused));
    assert_eq!(engine.current_date, 4_600);
    assert_eq!(engine.pause_reason, Some(PauseReason::UserRequested));
    engine.resume_game();
    assert!(!engine.is_paused);
    assert_eq!(engine.pause_reason, None);
}

#[test]
fn the_queue_hands_out_its_latest_event_first() {
    let mut engine = TimeEngine::new(0);
    engine.schedule_event(timed(5_000, EventPriority::Low, false));
    engine.schedule_event(timed(9_000, EventPriority::Medium, false));
    engine.schedule_event(timed(9_000, EventPriority::High, false));
    engine.schedule_event(timed(7_000, EventPriority::High, false));
    assert_eq!(engine.top_index(), Some(2));
    assert_eq!(engine.time_until_next_event(), Some(9_000));
    // the latest event is not yet due: nothing is handled, though others are due
    engine.current_date = 8_000;
    engine.process_scheduled_events();
    assert_eq!(engine.event_queue.len(), 4);
    assert_eq!(engine.time_until_next_event(), Some(1_000));
    // the clock moves to the latest event, and all are handled
    assert_eq!(engine.advance_to_next_event(), Ok(()));
    assert_eq!(engine.current_date, 9_000);
    assert!(engine.event_queue.is_empty());
    assert!(!engine.is_paused);
    let first = timed(1, EventPriority::Low, false);
    let second = timed(1, EventPriority::Low, false);
    assert!(!first.outranks(&second) && !second.outranks(&first));
    assert!(timed(2, EventPriority::Low, false).outranks(&first));
    assert!(timed(1, EventPriority::Medium, false).outranks(&first));
    assert!(!timed(0, EventPriority::High, false).outranks(&first));
    assert_eq!(first.duplicate(), first);
    assert_ne!(first.id, NIL_ID);
    assert_ne!(first.id, second.id);
    assert_eq!(EventPriority::High.rank(), 0);
    assert_eq!(EventPriority::Medium.rank(), 1);
    assert_eq!(EventPriority::Low.rank(), 2);
}

#[test]
fn an_event_of_high_priority_that_needs_the_user_pauses_the_game() {
    let mut engine = TimeEngine::new(0);
    let early = timed(100, EventPriority::High, true);
    let late = timed(3_000, EventPriority::High, true);
    engine.schedule_event(timed(200, EventPriority::High, false));
    engine.schedule_event(late.duplicate());
    engine.schedule_event(timed(300, EventPriority::Medium, true));
    engine.schedule_event(early.duplicate());
    engine.schedule_event(timed(50, EventPriority::Low, true));
    assert_eq!(engine.last_pausing_index(), Some(3));
    assert_eq!(engine.advance_time(), Ok(()));
    assert!(engine.event_queue.is_empty());
    assert!(engine.is_paused);
    // the events are handled from the latest to the earliest: the earliest stays as the reason
    assert_eq!(engine.pause_reason, Some(PauseReason::HighPriorityEvent(early)));

    let mut calm = TimeEngine::new(0);
    calm.schedule_event(timed(10, EventPriority::Medium, true));
    calm.schedule_event(timed(20, EventPriority::High, false));
    assert_eq!(calm.last_pausing_index(), None);
    assert_eq!(calm.advance_time(), Ok(()));
    assert!(!calm.is_paused);
    assert!(calm.event_queue.is_empty());
    calm.handle_event_priority(&late);
    assert_eq!(calm.pause_reason, Some(PauseReason::HighPriorityEvent(late)));
    assert_eq!(ScheduledEventType::MatchDay(4).name(), "MatchDay");
    assert_eq!(ScheduledEventType::PersonalEvent(4).name(), "PersonalEvent");
    assert_eq!(ScheduledEventType::RandomEvent.name(), "RandomEvent");
}

#[test]
fn events_queue_by_priority() {
    let mut engine = EventEngine::new();
    assert!(!engine.has_high_priority_events());
    engine.queue_event(queued(1, 10, EventPriority::Low, CalendarEventType::MatchDay));
    engine.queue_event(queued(2, 20, EventPriority::Low, CalendarEventType::MatchDay));
    engine.queue_event(queued(3, 30, EventPriority::High, CalendarEventType::MatchDay));
    engine.queue_event(queued(4, 5, EventPriority::Low, CalendarEventType::MatchDay));
    engine.queue_event(queued(5, 40, EventPriority::Medium, CalendarEventType::MatchDay));
    engine.queue_event(queued(6, 50, EventPriority::High, CalendarEventType::MatchDay));
    engine.queue_event(queued(7, 50, EventPriority::High, CalendarEventType::MatchDay));
    let order: Vec<u128> = engine.event_queue.iter().map(|q| q.event.id).collect();
    // high before medium before low; of one priority the later queued go in front
    assert_eq!(order, vec![6, 7, 3, 5, 2, 1, 4]);
    assert!(engine.has_high_priority_events());
    let waiting = engine.get_user_input_events();
    assert_eq!(waiting.len(), 7);
    assert_eq!(waiting[3].event.id, 5);
    engine.clear_events();
    assert!(engine.event_queue.is_empty());
    assert!(!engine.has_high_priority_events());
    let fresh = QueuedEvent::new(ScheduledEvent {
        id: 1,
        scheduled_time: 1,
        event_type: CalendarEventType::YouthIntake,
        data: String::new(),
    });
    assert_eq!(fresh.priority, EventPriority::Low);
    assert!(fresh.timestamp > 1_600_000_000);
    assert_eq!(fresh.event.id, 1);
}

#[test]
fn events_are_delivered_to_their_handlers() {
    let handlers = Handlers { refuse: false };
    let mut engine = EventEngine::new();
    assert!(matches!(engine.process_next_event(&handlers), Ok(None)));
    engine.queue_event(queued(1, 10, EventPriority::High, CalendarEventType::MatchDay));
    engine.queue_event(queued(2, 20, EventPriority::Medium, CalendarEventType::YouthIntake));
    engine.queue_event(queued(3, 30, EventPriority::Low, CalendarEventType::SeasonEnd));
    assert!(matches!(engine.process_next_event(&handlers), Ok(Some(EventResult::Handled))));
    assert_eq!(engine.event_history.len(), 1);
    assert_eq!(engine.event_history[0].event_id, 1);
    assert!(matches!(engine.event_history[0].result, EventResult::Handled));
    assert!(engine.event_history[0].processed_at > 1_600_000_000);
    // no handler: the event is lost and the kind reported
    assert_eq!(
        engine.process_next_event(&handlers).err(),
        Some(EventEngineError::NoHandlerFound("YouthIntake".to_string()))
    );
    assert_eq!(engine.event_queue.len(), 1);
    assert_eq!(engine.event_history.len(), 1);
    let results = engine.process_all_events(&handlers).unwrap();
    assert_eq!(results.len(), 1);
    assert!(matches!(&results[0], EventResult::Failed(reason) if reason == "over"));
    assert_eq!(engine.event_history.len(), 2);
    assert_eq!(engine.event_history[1].event_id, 3);
    assert!(engine.process_all_events(&handlers).unwrap().is_empty());

    // a handler that fails stops the run
    engine.queue_event(queued(4, 10, EventPriority::High, CalendarEventType::MatchDay));
    engine.queue_event(queued(5, 20, EventPriority::Medium, CalendarEventType::MatchDay));
    engine.event_queue[1].event.data = String::new();
    engine.queue_event(queued(6, 30, EventPriority::Low, CalendarEventType::MatchDay));
    assert_eq!(
        engine.process_all_events(&handlers).err(),
        Some(EventEngineError::ProcessingFailed("no data".to_string()))
    );
    assert_eq!(engine.event_queue.len(), 1);
    assert_eq!(engine.event_history.len(), 3);
    let refusing = Handlers { refuse: true };
    assert_eq!(
        engine.process_next_event(&refusing).err(),
        Some(EventEngineError::ProcessingFailed("MatchDay".to_string()))
    );
    assert!(engine.event_queue.is_empty());
    let names = [
        (CalendarEventType::MatchDay, "MatchDay"),
        (CalendarEventType::TransferWindowStart, "TransferWindowStart"),
        (CalendarEventType::TransferWindowEnd, "TransferWindowEnd"),
        (CalendarEventType::ContractExpiry, "ContractExpiry"),
        (CalendarEventType::YouthIntake, "YouthIntake"),
        (CalendarEventType::InternationalBreak, "InternationalBreak"),
        (CalendarEventType::PreseasonStart, "PreseasonStart"),
        (CalendarEventType::SeasonEnd, "SeasonEnd"),
    ];
    for (kind, name) in names {
        assert_eq!(kind.name(), name);
        assert_eq!(format!("{:?}", kind), name);
    }
}

#[test]
fn a_handled_event_enters_the_history() {
    let mut engine = EventEngine::new();
    engine.queue_event(queued(8, 10, EventPriority::Low, CalendarEventType::SeasonEnd));
    let event = queued(7, 10, EventPriority::High, CalendarEventType::ContractExpiry).event;
    assert_eq!(
        engine.conclude(&event, None).err(),
        Some(EventEngineError::NoHandlerFound("ContractExpiry".to_string()))
    );
    assert!(engine.event_history.is_empty());
    assert_eq!(
        engine.conclude(&event, Some(Err(EventEngineError::SerializationError("bad".to_string())))).err(),
        Some(EventEngineError::SerializationError("bad".to_string()))
    );
    assert!(engine.event_history.is_empty());
    let outcome = engine.conclude(&event, Some(Ok(EventResult::Failed("late".to_string()))));
    assert!(matches!(outcome, Ok(Some(EventResult::Failed(reason))) if reason == "late"));
    assert_eq!(engine.event_history.len(), 1);
    assert_eq!(engine.event_history[0].event_id, 7);
    assert!(matches!(&engine.event_history[0].result, EventResult::Failed(reason) if reason == "late"));
    assert_eq!(engine.event_queue.len(), 1);
    assert_eq!(engine.event_queue[0].event.id, 8);
}

#[test]
fn a_new_game_starts_now() {
    let before = now();
    let state = GameState::new(create_player(), 9);
    assert_eq!(state.player.id, 5);
    assert_eq!(state.current_club_id, 9);
    assert!(state.clubs.is_empty() && state.leagues.is_empty() && state.competitions.is_empty());
    assert_eq!(state.save_version, "1.0");
    assert!(state.current_date >= before);
    assert!(state.relationships.is_empty());
    assert!(state.narratives.is_empty());
    assert!(state.tutorial_state.is_empty());
    let season = SeasonInfo::new();
    assert_eq!(season.year, "");
    assert_eq!(season.end_date - season.start_date, 365 * 86_400);
    assert_eq!(season.current_matchday, 1);
    assert!(season.is_active);
    let windows = TransferWindows::new();
    assert_eq!(windows.summer_end - windows.summer_start, 60 * 86_400);
    assert_eq!(windows.winter_start, None);
    assert_eq!(windows.winter_end, None);
    let market = TransferSystemState::new();
    assert!(market.interested_clubs.is_empty());
    assert!(market.active_offers.is_empty());
    assert!(market.negotiation_history.is_empty());
}
