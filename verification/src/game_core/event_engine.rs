//! The event engine: a queue of events in the order of their priority, and
//! the history of what was handled. The handlers themselves belong to the
//! game: the engine reaches them through a registry that the game provides.
//!
//! The queue keeps events of higher priority in front; among events of the
//! same priority an event goes in front of those that were queued earlier.

use vstd::prelude::*;
use crate::entities::{MentalAttribute, PhysicalAttribute, ScheduledEvent, TechnicalAttribute};
use crate::game_core::time_engine::EventPriority;
use crate::utils::helpers::now_timestamp;

verus! {

/// What the user is asked to decide.
#[derive(Debug, Clone, Copy, PartialEq, Eq, Hash, Structural)]
pub enum DecisionType {
    MatchDayChoice,
    TransferOfferResponse,
    ContractNegotiation,
    TrainingFocusSelection,
    ManagerConversation,
    MediaInterview,
    PersonalLifeChoice,
}

/// One attribute of a player, by group.
#[derive(Debug, Clone, Copy, PartialEq, Eq, Hash, Structural)]
pub enum AttributeType {
    Technical(TechnicalAttribute),
    Physical(PhysicalAttribute),
    Mental(MentalAttribute),
}

/// What a decision can lead to.
#[derive(Debug, Clone, Copy, PartialEq, Eq, Hash, Structural)]
pub enum ConsequenceType {
    MoraleChange,
    ReputationChange,
    AttributeImprovement(AttributeType),
    RelationshipChange,
    FinancialImpact,
    PlayingTimeImpact,
    ContractStatusChange,
}

/// Where a contract stands.
#[derive(Debug, Clone, Copy, PartialEq, Eq, Hash, Structural)]
pub enum ContractStatus {
    Active,
    ExpiringSoon,
    Expired,
    Negotiating,
}

/// What choosing an option leads to.
#[derive(Debug, Clone, Copy, PartialEq, Eq)]
pub struct Consequence {
    pub consequence_type: ConsequenceType,
    /// In millionths
    pub value: i64,
    /// In days
    pub duration: Option<u32>,
}

/// What it takes to choose an option.
#[derive(Debug, Clone, Copy, PartialEq, Eq)]
pub enum Requirement {
    MinAttribute(AttributeType, u8),
    /// In millionths
    MinReputation(i64),
    /// With whom, and how good, in millionths
    RelationshipLevel(u128, i64),
    ContractStatus(ContractStatus),
}

/// An option that the user can choose.
#[derive(Debug, Clone)]
pub struct DecisionOption {
    pub id: u128,
    pub text: String,
    pub consequences: Vec<Consequence>,
    pub requirements: Vec<Requirement>,
}

/// A question to the user.
#[derive(Debug, Clone)]
pub struct UserDecisionRequest {
    pub event_id: u128,
    pub decision_type: DecisionType,
    pub options: Vec<DecisionOption>,
    /// What the decision is about, as JSON text
    pub context: String,
}

/// What handling an event led to.
#[derive(Debug, Clone)]
pub enum EventResult {
    Handled,
    NeedsUserInput(UserDecisionRequest),
    /// The event is to be handled later
    Deferred(ScheduledEvent),
    Failed(String),
}

/// An event that was handled.
#[derive(Debug, Clone)]
pub struct ProcessedEvent {
    pub event_id: u128,
    /// Seconds since 1 January 1970
    pub processed_at: i64,
    pub result: EventResult,
}

/// What can go wrong when an event is handled.
#[derive(Debug, Clone, PartialEq, Eq)]
pub enum EventEngineError {
    /// No handler is registered for the kind of event that is named
    NoHandlerFound(String),
    ProcessingFailed(String),
    SerializationError(String),
}

/// An event in the queue.
#[derive(Debug, Clone)]
pub struct QueuedEvent {
    pub event: ScheduledEvent,
    /// When it was queued, in seconds since 1 January 1970
    pub timestamp: u64,
    pub priority: EventPriority,
}

impl QueuedEvent {
    /// The event, queued now, with low priority.
    pub fn new(event: ScheduledEvent) -> (queued: QueuedEvent)
        ensures
            queued.event == event,
            queued.priority == EventPriority::Low,
    {
        let seconds: i64 = now_timestamp();
        QueuedEvent {
            timestamp: if seconds >= 0 {
                seconds as u64
            } else {
                (seconds + 0x7fff_ffff_ffff_ffff) as u64 + 0x8000_0000_0000_0001
            },
            priority: EventPriority::Low,
            event,
        }
    }
}

/// What handles the events of one kind. The game implements it; the engine
/// knows nothing of what a handler does.
pub trait EventHandler {
    /// Handles an event.
    fn handle(&self, event: &ScheduledEvent) -> Result<EventResult, EventEngineError>;
}

/// The handlers of a game, by the kind of event that each handles. The game
/// implements it; the engine knows nothing of which handlers there are.
pub trait HandlerRegistry {
    /// Delivers an event to the handler that is registered for the kind of
    /// event that `event_type` names, and returns what the handler returns;
    /// or nothing where no handler is registered for that kind.
    fn dispatch(&self, event_type: &str, event: &ScheduledEvent) -> Option<
        Result<EventResult, EventEngineError>,
    >;
}

/// Whether the queued event `queued` keeps `event` behind it: it is of lower
/// priority, or of the same priority and queued earlier.
pub open spec fn yields_to(queued: QueuedEvent, event: QueuedEvent) -> bool {
    queued.priority.spec_rank() > event.priority.spec_rank() || (queued.priority == event.priority
        && queued.timestamp < event.timestamp)
}

/// Whether `place` is where `event` goes into `queue`: in front of the first
/// queued event that yields to it, or at the end.
pub open spec fn is_place_of(queue: Seq<QueuedEvent>, event: QueuedEvent, place: int) -> bool {
    &&& 0 <= place <= queue.len()
    &&& forall|j: int| 0 <= j < place ==> !yields_to(#[trigger] queue[j], event)
    &&& place < queue.len() ==> yields_to(queue[place], event)
}

/// Whether some queued event is of high priority.
pub open spec fn has_high_priority(queue: Seq<QueuedEvent>) -> bool {
    exists|j: int| 0 <= j < queue.len() && (#[trigger] queue[j]).priority == EventPriority::High
}

/// The event engine.
#[derive(Debug, Clone)]
pub struct EventEngine {
    /// The events that await handling, the next one first
    pub event_queue: Vec<QueuedEvent>,
    /// The events that were handled, the latest last
    pub event_history: Vec<ProcessedEvent>,
}

impl EventEngine {
    /// An engine without events or history.
    pub fn new() -> (engine: EventEngine)
        ensures
            engine.event_queue@.len() == 0,
            engine.event_history@.len() == 0,
    {
        EventEngine { event_queue: Vec::new(), event_history: Vec::new() }
    }

    /// Puts an event into the queue: in front of the first queued event of
    /// lower priority, or of the same priority and queued earlier; behind all
    /// others.
    pub fn queue_event(&mut self, event: QueuedEvent)
        ensures
            exists|place: int|
                #[trigger] is_place_of(old(self).event_queue@, event, place) && final(self).event_queue@ == old(self).event_queue@.insert(place, event),
            final(self).event_history == old(self).event_history,
    {
        let ghost before = self.event_queue@;
        let mut place: usize = 0;
        while place < self.event_queue.len() && !(self.event_queue[place].priority.rank()
            > event.priority.rank() || (self.event_queue[place].priority.rank()
            == event.priority.rank() && self.event_queue[place].timestamp < event.timestamp))
            invariant
                0 <= place <= self.event_queue@.len(),
                self.event_queue@ == before,
                self.event_history == old(self).event_history,
                forall|j: int| 0 <= j < place ==> !yields_to(#[trigger] before[j], event),
            decreases self.event_queue@.len() - place,
        {
            place = place + 1;
        }
        assert(is_place_of(before, event, place as int));
        self.event_queue.insert(place, event);
    }

    /// Concludes the handling of `event`, of which `dispatched` is what the
    /// registry gave back.
    ///
    /// Without a handler for its kind the kind is reported by its name. An
    /// error of the handler is passed on. A result is passed on too, and the
    /// event enters the history; the history is otherwise left alone.
    pub fn conclude(
        &mut self,
        event: &ScheduledEvent,
        dispatched: Option<Result<EventResult, EventEngineError>>,
    ) -> (outcome: Result<Option<EventResult>, EventEngineError>)
        ensures
            final(self).event_queue == old(self).event_queue,
            match dispatched {
                Some(Ok(result)) => outcome == Ok::<Option<EventResult>, EventEngineError>(
                    Some(result),
                ) && final(self).event_history@.len() == old(self).event_history@.len() + 1
                    && final(self).event_history@.last().event_id == event.id
                    && final(self).event_history@.drop_last() == old(self).event_history@,
                Some(Err(error)) => outcome == Err::<Option<EventResult>, EventEngineError>(error)
                    && final(self).event_history == old(self).event_history,
                None => (outcome matches Err(EventEngineError::NoHandlerFound(name)) && name@
                    == event.event_type.spec_name()) && final(self).event_history == old(self).event_history,
            },
    {
        match dispatched {
            Some(Ok(result)) => {
                let ghost history = self.event_history@;
                self.event_history.push(
                    ProcessedEvent {
                        event_id: event.id,
                        processed_at: now_timestamp(),
                        result: result.clone(),
                    },
                );
                assert(self.event_history@.drop_last() =~= history);
                Ok(Some(result))
            },
            Some(Err(error)) => Err(error),
            None => Err(EventEngineError::NoHandlerFound(event.event_type.name().to_owned())),
        }
    }

    /// Takes the next event out of the queue and delivers it to the handler
    /// that the registry has for its kind.
    ///
    /// With an empty queue nothing happens. Without a handler for its kind,
    /// the event is lost and the kind is reported. What a handler returns is
    /// passed on; where it is a result, the event enters the history.
    pub fn process_next_event<R: HandlerRegistry>(&mut self, handlers: &R) -> (outcome: Result<
        Option<EventResult>,
        EventEngineError,
    >)
        ensures
            old(self).event_queue@.len() == 0 ==> (outcome matches Ok(None)) && final(self).event_queue@.len() == 0 && final(self).event_history == old(self).event_history,
            old(self).event_queue@.len() > 0 ==> final(self).event_queue@ == old(self).event_queue@.drop_first() && !(outcome matches Ok(
                None,
            )),
            outcome matches Err(EventEngineError::NoHandlerFound(name)) ==> old(self).event_queue@.len() > 0,
            outcome is Err ==> final(self).event_history == old(self).event_history,
            (outcome matches Ok(Some(_))) ==> final(self).event_history@.len() == old(self).event_history@.len() + 1 && final(self).event_history@.last().event_id == old(self).event_queue@[0].event.id && final(self).event_history@.drop_last() == old(self).event_history@,
    {
        if self.event_queue.len() == 0 {
            return Ok(None);
        }
        let queued_event: QueuedEvent = self.event_queue.remove(0);
        assert(self.event_queue@ =~= old(self).event_queue@.drop_first());
        let event_type: &'static str = queued_event.event.event_type.name();
        let dispatched = handlers.dispatch(event_type, &queued_event.event);
        self.conclude(&queued_event.event, dispatched)
    }

    /// Handles the events of the queue one after the other, until the queue
    /// is empty or an event fails; the results are returned in the order of
    /// the events.
    pub fn process_all_events<R: HandlerRegistry>(&mut self, handlers: &R) -> (outcome: Result<
        Vec<EventResult>,
        EventEngineError,
    >)
        ensures
            outcome matches Ok(results) ==> final(self).event_queue@.len() == 0 && results@.len()
                == old(self).event_queue@.len() && final(self).event_history@.len() == old(self).event_history@.len() + results@.len(),
            outcome is Err ==> final(self).event_queue@.len() < old(self).event_queue@.len(),
    {
        let mut results: Vec<EventResult> = Vec::new();
        loop
            invariant
                results@.len() + self.event_queue@.len() == old(self).event_queue@.len(),
                self.event_history@.len() == old(self).event_history@.len() + results@.len(),
            ensures
                self.event_queue@.len() == 0,
                results@.len() == old(self).event_queue@.len(),
                self.event_history@.len() == old(self).event_history@.len() + results@.len(),
            decreases self.event_queue@.len(),
        {
            match self.process_next_event(handlers) {
                Ok(Some(result)) => {
                    results.push(result);
                },
                Ok(None) => {
                    break ;
                },
                Err(error) => {
                    return Err(error);
                },
            }
        }
        Ok(results)
    }

    /// Whether an event of high priority awaits handling.
    pub fn has_high_priority_events(&self) -> (any: bool)
        ensures
            any == has_high_priority(self.event_queue@),
    {
        let mut i: usize = 0;
        while i < self.event_queue.len()
            invariant
                0 <= i <= self.event_queue@.len(),
                forall|j: int|
                    0 <= j < i ==> (#[trigger] self.event_queue@[j]).priority != EventPriority::High,
            decreases self.event_queue@.len() - i,
        {
            if self.event_queue[i].priority.rank() == 0 {
                return true;
            }
            i = i + 1;
        }
        false
    }

    /// The events that await the user: all that are queued, in the order of
    /// the queue.
    pub fn get_user_input_events(&self) -> (events: Vec<&QueuedEvent>)
        ensures
            events@.len() == self.event_queue@.len(),
            forall|i: int| 0 <= i < events@.len() ==> *(#[trigger] events@[i]) == self.event_queue@[i],
    {
        let mut events: Vec<&QueuedEvent> = Vec::new();
        let mut i: usize = 0;
        while i < self.event_queue.len()
            invariant
                0 <= i <= self.event_queue@.len(),
                events@.len() == i,
                forall|k: int| 0 <= k < i ==> *(#[trigger] events@[k]) == self.event_queue@[k],
            decreases self.event_queue@.len() - i,
        {
            events.push(&self.event_queue[i]);
            i = i + 1;
        }
        events
    }

    /// Empties the queue.
    pub fn clear_events(&mut self)
        ensures
            final(self).event_queue@.len() == 0,
            final(self).event_history == old(self).event_history,
    {
        self.event_queue.clear();
    }
}

} // verus!
