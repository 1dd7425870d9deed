//! The time engine: the clock of the game and the events scheduled on it.
//!
//! Times are seconds since 1 January 1970. The engine hands out scheduled
//! events from the top of its queue: the event with the latest time comes
//! first, and of events with the same time the one with the highest
//! priority.

use vstd::prelude::*;
use crate::utils::helpers::generate_unique_id;

verus! {

/// How much an event may interrupt the game.
#[derive(Debug, Clone, Copy, PartialEq, Eq, PartialOrd, Ord, Hash, Structural)]
pub enum EventPriority {
    /// Interrupts the game
    High,
    /// May interrupt the game
    Medium,
    /// Appears in the feed
    Low,
}

impl EventPriority {
    /// The rank of a priority: 0 for the highest, 2 for the lowest.
    pub open spec fn spec_rank(self) -> int {
        match self {
            EventPriority::High => 0,
            EventPriority::Medium => 1,
            EventPriority::Low => 2,
        }
    }

    /// The rank of a priority: 0 for the highest, 2 for the lowest.
    pub fn rank(&self) -> (rank: u8)
        ensures
            rank == self.spec_rank(),
    {
        match self {
            EventPriority::High => 0,
            EventPriority::Medium => 1,
            EventPriority::Low => 2,
        }
    }
}

/// What a scheduled event is about.
#[derive(Debug, Clone, Copy, PartialEq, Eq, Hash, Structural)]
pub enum ScheduledEventType {
    /// A match, by its identifier
    MatchDay(u128),
    TrainingSession,
    TransferWindowOpen,
    TransferWindowClose,
    /// The contract of a player runs out
    ContractExpires(u128),
    /// The contract of a player is negotiated
    ContractNegotiation(u128),
    ManagerEvaluation,
    SeasonEnd,
    InternationalBreak,
    MediaEvent,
    /// An injury, the family, and the like, of a player
    PersonalEvent(u128),
    RandomEvent,
}

impl ScheduledEventType {
    /// The name of the kind of event, without what it carries.
    pub open spec fn spec_name(self) -> Seq<char> {
        match self {
            ScheduledEventType::MatchDay(_) => "MatchDay"@,
            ScheduledEventType::TrainingSession => "TrainingSession"@,
            ScheduledEventType::TransferWindowOpen => "TransferWindowOpen"@,
            ScheduledEventType::TransferWindowClose => "TransferWindowClose"@,
            ScheduledEventType::ContractExpires(_) => "ContractExpires"@,
            ScheduledEventType::ContractNegotiation(_) => "ContractNegotiation"@,
            ScheduledEventType::ManagerEvaluation => "ManagerEvaluation"@,
            ScheduledEventType::SeasonEnd => "SeasonEnd"@,
            ScheduledEventType::InternationalBreak => "InternationalBreak"@,
            ScheduledEventType::MediaEvent => "MediaEvent"@,
            ScheduledEventType::PersonalEvent(_) => "PersonalEvent"@,
            ScheduledEventType::RandomEvent => "RandomEvent"@,
        }
    }

    /// The name of the kind of event, without what it carries.
    pub fn name(&self) -> (name: &'static str)
        ensures
            name@ == self.spec_name(),
    {
        match self {
            ScheduledEventType::MatchDay(_) => "MatchDay",
            ScheduledEventType::TrainingSession => "TrainingSession",
            ScheduledEventType::TransferWindowOpen => "TransferWindowOpen",
            ScheduledEventType::TransferWindowClose => "TransferWindowClose",
            ScheduledEventType::ContractExpires(_) => "ContractExpires",
            ScheduledEventType::ContractNegotiation(_) => "ContractNegotiation",
            ScheduledEventType::ManagerEvaluation => "ManagerEvaluation",
            ScheduledEventType::SeasonEnd => "SeasonEnd",
            ScheduledEventType::InternationalBreak => "InternationalBreak",
            ScheduledEventType::MediaEvent => "MediaEvent",
            ScheduledEventType::PersonalEvent(_) => "PersonalEvent",
            ScheduledEventType::RandomEvent => "RandomEvent",
        }
    }
}

/// An event scheduled on the clock of the game.
#[derive(Debug, Clone, PartialEq, Eq)]
pub struct ScheduledEvent {
    pub id: u128,
    pub scheduled_time: i64,
    pub event_type: ScheduledEventType,
    pub priority: EventPriority,
    pub requires_user_input: bool,
    /// What the event carries, as JSON text
    pub data: Option<String>,
}

impl ScheduledEvent {
    /// An event of the given kind at the given time, under a fresh
    /// identifier and without data.
    pub fn new(
        scheduled_time: i64,
        event_type: ScheduledEventType,
        priority: EventPriority,
        requires_user_input: bool,
    ) -> (event: ScheduledEvent)
        ensures
            event.id != crate::entities::NIL_ID,
            event.scheduled_time == scheduled_time,
            event.event_type == event_type,
            event.priority == priority,
            event.requires_user_input == requires_user_input,
            event.data is None,
    {
        ScheduledEvent {
            id: generate_unique_id(),
            scheduled_time,
            event_type,
            priority,
            requires_user_input,
            data: None,
        }
    }

    /// A copy of the event.
    pub fn duplicate(&self) -> (copy: ScheduledEvent)
        ensures
            copy == *self,
    {
        ScheduledEvent {
            id: self.id,
            scheduled_time: self.scheduled_time,
            event_type: self.event_type,
            priority: self.priority,
            requires_user_input: self.requires_user_input,
            data: match &self.data {
                Some(text) => Some(text.clone()),
                None => None,
            },
        }
    }

    /// Whether this event comes before `other` on the way out of the queue:
    /// it is later, or as late and of higher priority.
    pub open spec fn spec_outranks(&self, other: &ScheduledEvent) -> bool {
        self.scheduled_time > other.scheduled_time || (self.scheduled_time == other.scheduled_time
            && self.priority.spec_rank() < other.priority.spec_rank())
    }

    /// Whether this event comes before `other` on the way out of the queue.
    pub fn outranks(&self, other: &ScheduledEvent) -> (before: bool)
        ensures
            before == self.spec_outranks(other),
    {
        self.scheduled_time > other.scheduled_time || (self.scheduled_time == other.scheduled_time
            && self.priority.rank() < other.priority.rank())
    }
}

/// Why the game is paused.
#[derive(Debug, Clone, PartialEq, Eq)]
pub enum PauseReason {
    /// An event of high priority awaits the user
    HighPriorityEvent(ScheduledEvent),
    UserRequested,
    MatchDay,
    TransferOffer,
    ContractNegotiation,
    ManagerConversation,
}

/// What can go wrong when the clock is moved.
#[derive(Debug, Clone, Copy, PartialEq, Eq, Hash, Structural)]
pub enum TimeEngineError {
    /// The game is paused
    Paused,
    /// No event is scheduled
    NoEventsScheduled,
}

/// The seconds of an hour, the length of a tick of a new engine.
pub const SECONDS_PER_HOUR: i64 = 3_600;

/// Whether the event at `index` is at the top of the queue: no event
/// outranks it.
pub open spec fn is_top(queue: Seq<ScheduledEvent>, index: int) -> bool {
    &&& 0 <= index < queue.len()
    &&& forall|j: int| 0 <= j < queue.len() ==> !(#[trigger] queue[j]).spec_outranks(&queue[index])
}

/// Whether an event pauses the game: it needs the user and is of high
/// priority.
pub open spec fn pauses(event: ScheduledEvent) -> bool {
    event.requires_user_input && event.priority == EventPriority::High
}

/// Whether every event of the queue is due at the given time.
pub open spec fn all_due(queue: Seq<ScheduledEvent>, time: i64) -> bool {
    forall|j: int| 0 <= j < queue.len() ==> (#[trigger] queue[j]).scheduled_time <= time
}

/// Whether some event of the queue pauses the game.
pub open spec fn any_pauses(queue: Seq<ScheduledEvent>) -> bool {
    exists|j: int| 0 <= j < queue.len() && pauses(#[trigger] queue[j])
}

/// The time engine.
#[derive(Debug, Clone)]
pub struct TimeEngine {
    /// The time in the game
    pub current_date: i64,
    /// The seconds of a tick
    pub tick_duration: i64,
    /// The events that are scheduled, in no order
    pub event_queue: Vec<ScheduledEvent>,
    pub is_paused: bool,
    pub pause_reason: Option<PauseReason>,
}

impl TimeEngine {
    /// An engine that starts at the given time, ticks by the hour, has
    /// nothing scheduled and is not paused.
    pub fn new(start_date: i64) -> (engine: TimeEngine)
        ensures
            engine.current_date == start_date,
            engine.tick_duration == SECONDS_PER_HOUR,
            engine.event_queue@.len() == 0,
            !engine.is_paused,
            engine.pause_reason is None,
    {
        TimeEngine {
            current_date: start_date,
            tick_duration: SECONDS_PER_HOUR,
            event_queue: Vec::new(),
            is_paused: false,
            pause_reason: None,
        }
    }

    /// Schedules an event.
    pub fn schedule_event(&mut self, event: ScheduledEvent)
        ensures
            final(self).event_queue@ == old(self).event_queue@.push(event),
            final(self).current_date == old(self).current_date,
            final(self).tick_duration == old(self).tick_duration,
            final(self).is_paused == old(self).is_paused,
            final(self).pause_reason == old(self).pause_reason,
    {
        self.event_queue.push(event);
    }

    /// The place of the event at the top of the queue, if there is one: the
    /// first of those that no event outranks.
    pub fn top_index(&self) -> (top: Option<usize>)
        ensures
            top is None <==> self.event_queue@.len() == 0,
            top matches Some(index) ==> is_top(self.event_queue@, index as int),
    {
        if self.event_queue.len() == 0 {
            return None;
        }
        let mut best: usize = 0;
        let mut i: usize = 1;
        while i < self.event_queue.len()
            invariant
                0 <= best < i <= self.event_queue@.len(),
                forall|j: int|
                    0 <= j < i ==> !(#[trigger] self.event_queue@[j]).spec_outranks(
                        &self.event_queue@[best as int],
                    ),
            decreases self.event_queue@.len() - i,
        {
            if self.event_queue[i].outranks(&self.event_queue[best]) {
                best = i;
            }
            i = i + 1;
        }
        Some(best)
    }

    /// Moves the clock on by one tick and handles the events that are due.
    /// A paused game does not move.
    pub fn advance_time(&mut self) -> (outcome: Result<(), TimeEngineError>)
        requires
            i64::MIN <= old(self).current_date + old(self).tick_duration <= i64::MAX,
        ensures
            old(self).is_paused ==> outcome == Err::<(), TimeEngineError>(TimeEngineError::Paused)
                && *final(self) == *old(self),
            !old(self).is_paused ==> outcome is Ok && is_processed(
                *old(self),
                *final(self),
                (old(self).current_date + old(self).tick_duration) as i64,
            ),
    {
        if self.is_paused {
            return Err(TimeEngineError::Paused);
        }
        self.current_date = self.current_date + self.tick_duration;
        self.process_scheduled_events();
        Ok(())
    }

    /// The place of the event that is handled last among those that pause the
    /// game, if there is one: the first of those that outrank no other.
    pub fn last_pausing_index(&self) -> (last: Option<usize>)
        ensures
            last is None <==> !any_pauses(self.event_queue@),
            last matches Some(index) ==> is_last_pausing(self.event_queue@, index as int),
    {
        let mut last: Option<usize> = None;
        let mut i: usize = 0;
        while i < self.event_queue.len()
            invariant
                0 <= i <= self.event_queue@.len(),
                last is None <==> !any_pauses(self.event_queue@.take(i as int)),
                last matches Some(index) ==> index < i && is_last_pausing(
                    self.event_queue@.take(i as int),
                    index as int,
                ),
            decreases self.event_queue@.len() - i,
        {
            let ghost seen = self.event_queue@.take(i as int);
            let ghost more = self.event_queue@.take(i + 1);
            let event: &ScheduledEvent = &self.event_queue[i];
            let stops: bool = event.requires_user_input && event.priority.rank() == 0;
            let ghost previous = last;
            if stops {
                match last {
                    Some(index) => {
                        if self.event_queue[index].outranks(event) {
                            last = Some(i);
                        }
                    },
                    None => {
                        last = Some(i);
                    },
                }
            }
            proof {
                if any_pauses(seen) {
                    let j = choose|j: int| 0 <= j < seen.len() && pauses(#[trigger] seen[j]);
                    assert(pauses(more[j]));
                }
                if any_pauses(more) && !stops {
                    let j = choose|j: int| 0 <= j < more.len() && pauses(#[trigger] more[j]);
                    assert(pauses(seen[j]));
                }
                if stops {
                    assert(pauses(more[i as int]));
                }
                match last {
                    Some(index) => {
                        assert forall|j: int|
                            0 <= j < more.len() && pauses(#[trigger] more[j]) implies !more[index as int].spec_outranks(
                            &more[j],
                        ) by {
                            if j < i {
                                assert(pauses(seen[j]));
                                match previous {
                                    Some(earlier) => {
                                        assert(!seen[earlier as int].spec_outranks(&seen[j]));
                                    },
                                    None => {},
                                }
                            }
                        }
                    },
                    None => {},
                }
            }
            i = i + 1;
        }
        proof {
            assert(self.event_queue@.take(self.event_queue@.len() as int) =~= self.event_queue@);
        }
        last
    }

    /// Takes the events that are due out of the queue and handles them. The
    /// queue hands out its latest event first: where that event is not yet
    /// due, nothing is taken out; where it is due, all events are, and all
    /// are handled in the order of the queue.
    pub fn process_scheduled_events(&mut self)
        ensures
            is_processed(*old(self), *final(self), old(self).current_date),
    {
        let ghost before = self.event_queue@;
        let current_time: i64 = self.current_date;
        let top: Option<usize> = self.top_index();
        let due: bool = match top {
            Some(index) => self.event_queue[index].scheduled_time <= current_time,
            None => false,
        };
        if !due {
            return ;
        }
        proof {
            let index = top->0 as int;
            assert forall|j: int| 0 <= j < before.len() implies (#[trigger] before[j]).scheduled_time
                <= current_time by {
                assert(!before[j].spec_outranks(&before[index]));
            }
        }
        match self.last_pausing_index() {
            Some(index) => {
                let event: ScheduledEvent = self.event_queue[index].duplicate();
                self.handle_event_priority(&event);
            },
            None => {},
        }
        self.event_queue.clear();
    }

    /// Handles one event that is due: an event of high priority that needs
    /// the user pauses the game; any other is a notification.
    pub fn handle_event_priority(&mut self, event: &ScheduledEvent)
        ensures
            pauses(*event) ==> final(self).is_paused && final(self).pause_reason == Some(
                PauseReason::HighPriorityEvent(*event),
            ),
            !pauses(*event) ==> final(self).is_paused == old(self).is_paused && final(self).pause_reason == old(self).pause_reason,
            final(self).current_date == old(self).current_date,
            final(self).tick_duration == old(self).tick_duration,
            final(self).event_queue == old(self).event_queue,
    {
        if event.requires_user_input {
            match event.priority {
                EventPriority::High => {
                    let copy: ScheduledEvent = event.duplicate();
                    self.pause_game(PauseReason::HighPriorityEvent(copy));
                },
                EventPriority::Medium => {},
                EventPriority::Low => {},
            }
        }
    }

    /// Pauses the game for the given reason.
    pub fn pause_game(&mut self, reason: PauseReason)
        ensures
            final(self).is_paused,
            final(self).pause_reason == Some(reason),
            final(self).current_date == old(self).current_date,
            final(self).tick_duration == old(self).tick_duration,
            final(self).event_queue == old(self).event_queue,
    {
        self.is_paused = true;
        self.pause_reason = Some(reason);
    }

    /// Lets the game go on.
    pub fn resume_game(&mut self)
        ensures
            !final(self).is_paused,
            final(self).pause_reason is None,
            final(self).current_date == old(self).current_date,
            final(self).tick_duration == old(self).tick_duration,
            final(self).event_queue == old(self).event_queue,
    {
        self.is_paused = false;
        self.pause_reason = None;
    }

    /// Moves the clock to the event at the top of the queue and handles the
    /// events that are due.
    pub fn advance_to_next_event(&mut self) -> (outcome: Result<(), TimeEngineError>)
        ensures
            old(self).is_paused ==> outcome == Err::<(), TimeEngineError>(TimeEngineError::Paused)
                && *final(self) == *old(self),
            !old(self).is_paused && old(self).event_queue@.len() == 0 ==> outcome == Err::<
                (),
                TimeEngineError,
            >(TimeEngineError::NoEventsScheduled) && *final(self) == *old(self),
            !old(self).is_paused && old(self).event_queue@.len() > 0 ==> outcome is Ok && exists|
                index: int,
            |
                #[trigger] is_top(old(self).event_queue@, index) && is_processed(
                    *old(self),
                    *final(self),
                    old(self).event_queue@[index].scheduled_time,
                ),
    {
        if self.is_paused {
            return Err(TimeEngineError::Paused);
        }
        match self.top_index() {
            Some(index) => {
                self.current_date = self.event_queue[index].scheduled_time;
                self.process_scheduled_events();
                Ok(())
            },
            None => Err(TimeEngineError::NoEventsScheduled),
        }
    }

    /// The seconds until the event at the top of the queue, none if it is
    /// due already; or nothing where no event is scheduled.
    pub fn time_until_next_event(&self) -> (wait: Option<i128>)
        ensures
            wait is None <==> self.event_queue@.len() == 0,
            wait matches Some(seconds) ==> exists|index: int|
                #[trigger] is_top(self.event_queue@, index) && seconds == (if self.event_queue@[index].scheduled_time
                    > self.current_date {
                    self.event_queue@[index].scheduled_time - self.current_date
                } else {
                    0
                }),
    {
        match self.top_index() {
            Some(index) => {
                let scheduled: i64 = self.event_queue[index].scheduled_time;
                if scheduled > self.current_date {
                    Some(scheduled as i128 - self.current_date as i128)
                } else {
                    Some(0)
                }
            },
            None => None,
        }
    }

    /// Whether the clock has reached the given time.
    pub fn has_time_passed(&self, target_time: i64) -> (passed: bool)
        ensures
            passed == (self.current_date >= target_time),
    {
        self.current_date >= target_time
    }
}

/// Whether the event at `index` is the one handled last among those that
/// pause the game: it pauses the game and outranks no other event that does.
pub open spec fn is_last_pausing(queue: Seq<ScheduledEvent>, index: int) -> bool {
    &&& 0 <= index < queue.len()
    &&& pauses(queue[index])
    &&& forall|j: int|
        0 <= j < queue.len() && pauses(#[trigger] queue[j]) ==> !queue[index].spec_outranks(
            &queue[j],
        )
}

/// Whether `after` is the engine `before` once the clock shows `time` and
/// the events that are due are handled. Where some event is not yet due, or
/// nothing is scheduled, only the clock changes. Where all events are due,
/// the queue is emptied, and if one of the events pauses the game, the game
/// is paused for the last of them.
pub open spec fn is_processed(before: TimeEngine, after: TimeEngine, time: i64) -> bool {
    let queue = before.event_queue@;
    &&& after.current_date == time
    &&& after.tick_duration == before.tick_duration
    &&& if queue.len() > 0 && all_due(queue, time) {
        &&& after.event_queue@.len() == 0
        &&& if any_pauses(queue) {
            &&& after.is_paused
            &&& exists|j: int|
                #[trigger] is_last_pausing(queue, j) && after.pause_reason == Some(
                    PauseReason::HighPriorityEvent(queue[j]),
                )
        } else {
            after.is_paused == before.is_paused && after.pause_reason == before.pause_reason
        }
    } else {
        &&& after.event_queue@ == queue
        &&& after.is_paused == before.is_paused
        &&& after.pause_reason == before.pause_reason
    }
}

} // verus!
