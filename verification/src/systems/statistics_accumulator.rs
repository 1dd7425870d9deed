//! The statistics accumulator: it replays an event log into the counters of
//! the players of a lineup.
//!
//! A counter of a player is the number of events of one type of which that
//! player is the primary player. The counters of the declared starters are
//! set back to zero before the replay, so that replaying a log twice counts
//! nothing twice.

use vstd::prelude::*;
use crate::entities::{EventType, Match, MatchEvent, MatchLineup, PlayerInMatch, PlayerMatchStats};
use crate::systems::match_system::{MatchEngine, MatchState};
use crate::utils::constants::MATCH_DURATION_MINUTES;

verus! {

/// The number of events of `log` of type `event_type` in which the player
/// `id` is the primary player.
pub open spec fn count_of(log: Seq<MatchEvent>, id: u128, event_type: EventType) -> int
    decreases log.len(),
{
    if log.len() == 0 {
        0
    } else if log.last().player_involved == id && log.last().event_type == event_type {
        count_of(log.drop_last(), id, event_type) + 1
    } else {
        count_of(log.drop_last(), id, event_type)
    }
}

/// The saves counted so far: none counts as zero.
pub open spec fn saves_so_far(stats: PlayerMatchStats) -> int {
    match stats.saves {
        Some(saves) => saves as int,
        None => 0,
    }
}

/// Whether the counters `stats` can take the events of the player `id` in
/// `log` without running over 255.
pub open spec fn tally_fits(stats: PlayerMatchStats, log: Seq<MatchEvent>, id: u128) -> bool {
    &&& stats.goals + count_of(log, id, EventType::Goal) <= u8::MAX
    &&& stats.assists + count_of(log, id, EventType::Assist) <= u8::MAX
    &&& stats.shots_on_target + count_of(log, id, EventType::ShotOnTarget) <= u8::MAX
    &&& stats.shots_off_target + count_of(log, id, EventType::ShotOffTarget) <= u8::MAX
    &&& stats.tackles_won + count_of(log, id, EventType::TackleWon) <= u8::MAX
    &&& stats.interceptions + count_of(log, id, EventType::Interception) <= u8::MAX
    &&& stats.clearances + count_of(log, id, EventType::Clearance) <= u8::MAX
    &&& saves_so_far(stats) + count_of(log, id, EventType::Save) <= u8::MAX
    &&& stats.yellow_cards + count_of(log, id, EventType::YellowCard) <= u8::MAX
    &&& stats.red_cards + count_of(log, id, EventType::RedCard) <= u8::MAX
}

/// The counters `stats` after the events of the player `id` in `log`: every
/// goal, assist, shot on and off target, tackle won, interception,
/// clearance, save, yellow and red card is added to its counter. The save
/// counter stays `None` until the first save. Other types of event, and the
/// other fields, leave no trace.
pub open spec fn tallied(stats: PlayerMatchStats, log: Seq<MatchEvent>, id: u128)
    -> PlayerMatchStats {
    PlayerMatchStats {
        goals: (stats.goals + count_of(log, id, EventType::Goal)) as u8,
        assists: (stats.assists + count_of(log, id, EventType::Assist)) as u8,
        shots_on_target: (stats.shots_on_target + count_of(log, id, EventType::ShotOnTarget)) as u8,
        shots_off_target: (stats.shots_off_target + count_of(
            log,
            id,
            EventType::ShotOffTarget,
        )) as u8,
        tackles_won: (stats.tackles_won + count_of(log, id, EventType::TackleWon)) as u8,
        interceptions: (stats.interceptions + count_of(log, id, EventType::Interception)) as u8,
        clearances: (stats.clearances + count_of(log, id, EventType::Clearance)) as u8,
        saves: if count_of(log, id, EventType::Save) == 0 {
            stats.saves
        } else {
            Some((saves_so_far(stats) + count_of(log, id, EventType::Save)) as u8)
        },
        yellow_cards: (stats.yellow_cards + count_of(log, id, EventType::YellowCard)) as u8,
        red_cards: (stats.red_cards + count_of(log, id, EventType::RedCard)) as u8,
        ..stats
    }
}

/// The counters `stats` after one more event of the given type.
pub open spec fn counted(stats: PlayerMatchStats, event_type: EventType) -> PlayerMatchStats {
    match event_type {
        EventType::Goal => PlayerMatchStats { goals: (stats.goals + 1) as u8, ..stats },
        EventType::Assist => PlayerMatchStats { assists: (stats.assists + 1) as u8, ..stats },
        EventType::ShotOnTarget => PlayerMatchStats {
            shots_on_target: (stats.shots_on_target + 1) as u8,
            ..stats
        },
        EventType::ShotOffTarget => PlayerMatchStats {
            shots_off_target: (stats.shots_off_target + 1) as u8,
            ..stats
        },
        EventType::TackleWon => PlayerMatchStats {
            tackles_won: (stats.tackles_won + 1) as u8,
            ..stats
        },
        EventType::Interception => PlayerMatchStats {
            interceptions: (stats.interceptions + 1) as u8,
            ..stats
        },
        EventType::Clearance => PlayerMatchStats {
            clearances: (stats.clearances + 1) as u8,
            ..stats
        },
        EventType::Save => PlayerMatchStats {
            saves: Some((saves_so_far(stats) + 1) as u8),
            ..stats
        },
        EventType::YellowCard => PlayerMatchStats {
            yellow_cards: (stats.yellow_cards + 1) as u8,
            ..stats
        },
        EventType::RedCard => PlayerMatchStats { red_cards: (stats.red_cards + 1) as u8, ..stats },
        _ => stats,
    }
}

/// Whether the counter that an event of the given type adds to is below 255.
pub open spec fn has_room(stats: PlayerMatchStats, event_type: EventType) -> bool {
    match event_type {
        EventType::Goal => stats.goals < u8::MAX,
        EventType::Assist => stats.assists < u8::MAX,
        EventType::ShotOnTarget => stats.shots_on_target < u8::MAX,
        EventType::ShotOffTarget => stats.shots_off_target < u8::MAX,
        EventType::TackleWon => stats.tackles_won < u8::MAX,
        EventType::Interception => stats.interceptions < u8::MAX,
        EventType::Clearance => stats.clearances < u8::MAX,
        EventType::Save => saves_so_far(stats) < u8::MAX,
        EventType::YellowCard => stats.yellow_cards < u8::MAX,
        EventType::RedCard => stats.red_cards < u8::MAX,
        _ => true,
    }
}

/// Whether the entry at `index` is the first of `players` for its player:
/// the one that a search by identifier finds.
pub open spec fn is_first_entry(players: Seq<PlayerInMatch>, index: int) -> bool {
    &&& 0 <= index < players.len()
    &&& forall|j: int| 0 <= j < index ==> (#[trigger] players[j]).player_id != players[index].player_id
}

/// Whether `id` is among the first `count` identifiers of `listed`.
pub open spec fn is_listed(listed: Seq<u128>, count: int, id: u128) -> bool {
    exists|i: int| 0 <= i < count && i < listed.len() && #[trigger] listed[i] == id
}

/// Whether `id` is a declared starter of either side.
pub open spec fn is_starter(lineup: MatchLineup, id: u128) -> bool {
    is_listed(lineup.home_starting_xi@, lineup.home_starting_xi@.len() as int, id) || is_listed(
        lineup.away_starting_xi@,
        lineup.away_starting_xi@.len() as int,
        id,
    )
}

/// The counters from which the replay starts for the entry at `index`: zero
/// for a starter, the entry's own for anyone else.
pub open spec fn starting_stats(lineup: MatchLineup, index: int) -> PlayerMatchStats {
    if is_starter(lineup, lineup.players@[index].player_id) {
        PlayerMatchStats::zeroed()
    } else {
        lineup.players@[index].stats
    }
}

/// Whether the replay of `log` into `lineup` keeps every counter within 255.
pub open spec fn replay_fits(lineup: MatchLineup, log: Seq<MatchEvent>) -> bool {
    forall|k: int| #[trigger]
        is_first_entry(lineup.players@, k) ==> tally_fits(
            starting_stats(lineup, k),
            log,
            lineup.players@[k].player_id,
        )
}

/// The entry at `index` after the replay of `log`. Only the first entry of a
/// player takes part: a starter's counters are counted from zero and the
/// minutes played are set to 90; anyone else's are counted on from where they
/// stood. Nothing but the counters changes.
pub open spec fn entry_after_replay(lineup: MatchLineup, log: Seq<MatchEvent>, index: int)
    -> PlayerInMatch {
    let entry = lineup.players@[index];
    let stats = tallied(starting_stats(lineup, index), log, entry.player_id);
    if !is_first_entry(lineup.players@, index) {
        entry
    } else if is_starter(lineup, entry.player_id) {
        PlayerInMatch {
            stats: PlayerMatchStats { minutes_played: MATCH_DURATION_MINUTES, ..stats },
            ..entry
        }
    } else {
        PlayerInMatch { stats, ..entry }
    }
}

/// The entry at `index` in the middle of the replay, when the events of
/// `log` are counted and the minutes played are not yet set.
pub open spec fn replayed_entry(lineup: MatchLineup, log: Seq<MatchEvent>, index: int)
    -> PlayerInMatch {
    let entry = lineup.players@[index];
    if is_first_entry(lineup.players@, index) {
        PlayerInMatch {
            stats: tallied(starting_stats(lineup, index), log, entry.player_id),
            ..entry
        }
    } else {
        entry
    }
}

/// Whether `after` is `before` with the log replayed into it.
pub open spec fn is_replayed(before: MatchLineup, log: Seq<MatchEvent>, after: MatchLineup)
    -> bool {
    &&& after.formation == before.formation
    &&& after.tactics == before.tactics
    &&& after.home_starting_xi == before.home_starting_xi
    &&& after.away_starting_xi == before.away_starting_xi
    &&& after.players@.len() == before.players@.len()
    &&& forall|k: int|
        0 <= k < before.players@.len() ==> #[trigger] after.players@[k] == entry_after_replay(
            before,
            log,
            k,
        )
}

/// Whether none of the counters that the replay adds to exceeds `limit`.
pub open spec fn counters_at_most(stats: PlayerMatchStats, limit: int) -> bool {
    &&& stats.goals <= limit
    &&& stats.assists <= limit
    &&& stats.shots_on_target <= limit
    &&& stats.shots_off_target <= limit
    &&& stats.tackles_won <= limit
    &&& stats.interceptions <= limit
    &&& stats.clearances <= limit
    &&& saves_so_far(stats) <= limit
    &&& stats.yellow_cards <= limit
    &&& stats.red_cards <= limit
}

/// Whether the counters of `lineup` can take the replay of any log of up to
/// `events` events: there are at most 255 events, and the counters that are
/// not set back to zero first are at most `255 - events`.
pub open spec fn has_room_for(lineup: MatchLineup, events: int) -> bool {
    &&& events <= u8::MAX
    &&& forall|k: int| #[trigger]
        is_first_entry(lineup.players@, k) && !is_starter(lineup, lineup.players@[k].player_id)
            ==> counters_at_most(lineup.players@[k].stats, u8::MAX - events)
}

/// A lineup with room for a number of events can take the replay of every
/// log that is no longer.
pub proof fn lemma_room_suffices(lineup: MatchLineup, log: Seq<MatchEvent>, events: int)
    requires
        has_room_for(lineup, events),
        log.len() <= events,
    ensures
        replay_fits(lineup, log),
{
    assert forall|k: int| #[trigger] is_first_entry(lineup.players@, k) implies tally_fits(
        starting_stats(lineup, k),
        log,
        lineup.players@[k].player_id,
    ) by {
        let id = lineup.players@[k].player_id;
        lemma_count_of_bounds(log, id, EventType::Goal);
        lemma_count_of_bounds(log, id, EventType::Assist);
        lemma_count_of_bounds(log, id, EventType::ShotOnTarget);
        lemma_count_of_bounds(log, id, EventType::ShotOffTarget);
        lemma_count_of_bounds(log, id, EventType::TackleWon);
        lemma_count_of_bounds(log, id, EventType::Interception);
        lemma_count_of_bounds(log, id, EventType::Clearance);
        lemma_count_of_bounds(log, id, EventType::Save);
        lemma_count_of_bounds(log, id, EventType::YellowCard);
        lemma_count_of_bounds(log, id, EventType::RedCard);
    }
}

/// Whether events of the given type are counted.
pub open spec fn is_counted(event_type: EventType) -> bool {
    event_type == EventType::Goal || event_type == EventType::Assist || event_type
        == EventType::ShotOnTarget || event_type == EventType::ShotOffTarget || event_type
        == EventType::TackleWon || event_type == EventType::Interception || event_type
        == EventType::Clearance || event_type == EventType::Save || event_type
        == EventType::YellowCard || event_type == EventType::RedCard
}

/// Whether the player `id` is the primary player of an event of `log` that
/// is counted.
pub open spec fn has_counted_event(log: Seq<MatchEvent>, id: u128) -> bool {
    exists|i: int|
        0 <= i < log.len() && (#[trigger] log[i]).player_involved == id && is_counted(
            log[i].event_type,
        )
}

/// A player without a counted event in the log has none of any type.
pub proof fn lemma_nothing_counted(log: Seq<MatchEvent>, id: u128, event_type: EventType)
    requires
        !has_counted_event(log, id),
        is_counted(event_type),
    ensures
        count_of(log, id, event_type) == 0,
    decreases log.len(),
{
    if log.len() > 0 {
        let shorter = log.drop_last();
        assert forall|i: int| 0 <= i < shorter.len() implies !((#[trigger] shorter[i]).player_involved
            == id && is_counted(shorter[i].event_type)) by {
            assert(shorter[i] == log[i]);
        }
        lemma_nothing_counted(shorter, id, event_type);
        assert(log[log.len() - 1] == log.last());
    }
}

/// Counters that take no counted event stay as they are.
pub proof fn lemma_tally_of_nothing(stats: PlayerMatchStats, log: Seq<MatchEvent>, id: u128)
    requires
        !has_counted_event(log, id),
    ensures
        tallied(stats, log, id) == stats,
{
    lemma_nothing_counted(log, id, EventType::Goal);
    lemma_nothing_counted(log, id, EventType::Assist);
    lemma_nothing_counted(log, id, EventType::ShotOnTarget);
    lemma_nothing_counted(log, id, EventType::ShotOffTarget);
    lemma_nothing_counted(log, id, EventType::TackleWon);
    lemma_nothing_counted(log, id, EventType::Interception);
    lemma_nothing_counted(log, id, EventType::Clearance);
    lemma_nothing_counted(log, id, EventType::Save);
    lemma_nothing_counted(log, id, EventType::YellowCard);
    lemma_nothing_counted(log, id, EventType::RedCard);
}

/// Replaying is idempotent: a second replay of the same log changes nothing,
/// provided that the counters are set back to zero in between, that is,
/// every player of the lineup with a counted event is a declared starter.
pub proof fn lemma_replay_idempotent(
    lineup: MatchLineup,
    log: Seq<MatchEvent>,
    once: MatchLineup,
    twice: MatchLineup,
)
    requires
        is_replayed(lineup, log, once),
        is_replayed(once, log, twice),
        forall|k: int| #[trigger]
            is_first_entry(lineup.players@, k) && has_counted_event(
                log,
                lineup.players@[k].player_id,
            ) ==> is_starter(lineup, lineup.players@[k].player_id),
    ensures
        twice.players@ == once.players@,
        twice.formation == once.formation,
        twice.tactics == once.tactics,
        twice.home_starting_xi == once.home_starting_xi,
        twice.away_starting_xi == once.away_starting_xi,
{
    assert(same_players(once.players@, lineup.players@)) by {
        assert forall|j: int| 0 <= j < once.players@.len() implies (#[trigger] once.players@[j]).player_id
            == lineup.players@[j].player_id by {
            assert(once.players@[j] == entry_after_replay(lineup, log, j));
        }
    }
    assert forall|k: int| 0 <= k < once.players@.len() implies twice.players@[k]
        == once.players@[k] by {
        let id = lineup.players@[k].player_id;
        assert(once.players@[k] == entry_after_replay(lineup, log, k));
        assert(twice.players@[k] == entry_after_replay(once, log, k));
        lemma_first_entry_by_ids(once.players@, lineup.players@, k);
        assert(is_starter(once, id) == is_starter(lineup, id));
        if is_first_entry(lineup.players@, k) && !is_starter(lineup, id) {
            lemma_tally_of_nothing(lineup.players@[k].stats, log, id);
        }
    }
    assert(twice.players@ =~= once.players@);
}

/// Whether two lists of entries name the same players in the same places.
pub open spec fn same_players(first: Seq<PlayerInMatch>, second: Seq<PlayerInMatch>) -> bool {
    &&& first.len() == second.len()
    &&& forall|j: int|
        0 <= j < first.len() ==> (#[trigger] first[j]).player_id == second[j].player_id
}

/// Which entry is the first of its player depends on the identifiers alone.
pub proof fn lemma_first_entry_by_ids(
    first: Seq<PlayerInMatch>,
    second: Seq<PlayerInMatch>,
    index: int,
)
    requires
        same_players(first, second),
    ensures
        is_first_entry(first, index) == is_first_entry(second, index),
{
    if is_first_entry(first, index) {
        assert forall|j: int| 0 <= j < index implies (#[trigger] second[j]).player_id
            != second[index].player_id by {
            assert(first[j].player_id != first[index].player_id);
        }
    }
    if is_first_entry(second, index) {
        assert forall|j: int| 0 <= j < index implies (#[trigger] first[j]).player_id
            != first[index].player_id by {
            assert(second[j].player_id != second[index].player_id);
        }
    }
}

/// A player has at most one first entry.
pub proof fn lemma_first_entry_unique(players: Seq<PlayerInMatch>, first: int, second: int)
    requires
        is_first_entry(players, first),
        is_first_entry(players, second),
        players[first].player_id == players[second].player_id,
    ensures
        first == second,
{
    if first < second {
        assert(players[first].player_id != players[second].player_id);
    } else if second < first {
        assert(players[second].player_id != players[first].player_id);
    }
}

/// A prefix of a log holds no more events of a player and a type than the
/// whole log.
pub proof fn lemma_count_of_prefix(
    log: Seq<MatchEvent>,
    length: int,
    id: u128,
    event_type: EventType,
)
    requires
        0 <= length <= log.len(),
    ensures
        0 <= count_of(log.take(length), id, event_type) <= count_of(log, id, event_type),
        count_of(log.take(length), id, event_type) <= length,
    decreases log.len() - length,
{
    lemma_count_of_bounds(log.take(length), id, event_type);
    if length < log.len() {
        lemma_count_of_prefix(log, length + 1, id, event_type);
        assert(log.take(length + 1).drop_last() =~= log.take(length));
    } else {
        assert(log.take(length) =~= log);
    }
}

/// A log holds at most as many events of a player and a type as it is long.
pub proof fn lemma_count_of_bounds(log: Seq<MatchEvent>, id: u128, event_type: EventType)
    ensures
        0 <= count_of(log, id, event_type) <= log.len(),
    decreases log.len(),
{
    if log.len() > 0 {
        lemma_count_of_bounds(log.drop_last(), id, event_type);
    }
}

/// Counting one more event of a log: the counters after the first
/// `length + 1` events are those after the first `length`, with the next
/// event counted if it is the player's.
pub proof fn lemma_tally_step(
    stats: PlayerMatchStats,
    log: Seq<MatchEvent>,
    length: int,
    id: u128,
)
    requires
        0 <= length < log.len(),
        tally_fits(stats, log, id),
    ensures
        log[length].player_involved == id ==> has_room(
            tallied(stats, log.take(length), id),
            log[length].event_type,
        ),
        tallied(stats, log.take(length + 1), id) == if log[length].player_involved == id {
            counted(tallied(stats, log.take(length), id), log[length].event_type)
        } else {
            tallied(stats, log.take(length), id)
        },
{
    assert(log.take(length + 1).drop_last() =~= log.take(length));
    assert(log.take(length + 1).last() == log[length]);
    lemma_count_of_prefix(log, length, id, EventType::Goal);
    lemma_count_of_prefix(log, length, id, EventType::Assist);
    lemma_count_of_prefix(log, length, id, EventType::ShotOnTarget);
    lemma_count_of_prefix(log, length, id, EventType::ShotOffTarget);
    lemma_count_of_prefix(log, length, id, EventType::TackleWon);
    lemma_count_of_prefix(log, length, id, EventType::Interception);
    lemma_count_of_prefix(log, length, id, EventType::Clearance);
    lemma_count_of_prefix(log, length, id, EventType::Save);
    lemma_count_of_prefix(log, length, id, EventType::YellowCard);
    lemma_count_of_prefix(log, length, id, EventType::RedCard);
    lemma_count_of_prefix(log, length + 1, id, EventType::Goal);
    lemma_count_of_prefix(log, length + 1, id, EventType::Assist);
    lemma_count_of_prefix(log, length + 1, id, EventType::ShotOnTarget);
    lemma_count_of_prefix(log, length + 1, id, EventType::ShotOffTarget);
    lemma_count_of_prefix(log, length + 1, id, EventType::TackleWon);
    lemma_count_of_prefix(log, length + 1, id, EventType::Interception);
    lemma_count_of_prefix(log, length + 1, id, EventType::Clearance);
    lemma_count_of_prefix(log, length + 1, id, EventType::Save);
    lemma_count_of_prefix(log, length + 1, id, EventType::YellowCard);
    lemma_count_of_prefix(log, length + 1, id, EventType::RedCard);
}

/// The first entry of `players` for the player `id`, by place.
pub fn first_entry_of(players: &Vec<PlayerInMatch>, id: u128) -> (place: Option<usize>)
    ensures
        place matches Some(index) ==> is_first_entry(players@, index as int)
            && players@[index as int].player_id == id,
        place.is_none() ==> forall|j: int|
            0 <= j < players@.len() ==> (#[trigger] players@[j]).player_id != id,
{
    let mut i: usize = 0;
    while i < players.len()
        invariant
            0 <= i <= players@.len(),
            forall|j: int| 0 <= j < i ==> (#[trigger] players@[j]).player_id != id,
        decreases players@.len() - i,
    {
        if players[i].player_id == id {
            return Some(i);
        }
        i = i + 1;
    }
    None
}

/// Whether `id` is among the identifiers of a list.
pub fn is_in_list(listed: &Vec<u128>, id: u128) -> (found: bool)
    ensures
        found == is_listed(listed@, listed@.len() as int, id),
{
    let mut i: usize = 0;
    while i < listed.len()
        invariant
            0 <= i <= listed@.len(),
            forall|j: int| 0 <= j < i ==> #[trigger] listed@[j] != id,
        decreases listed@.len() - i,
    {
        if listed[i] == id {
            return true;
        }
        i = i + 1;
    }
    false
}

/// Whether none of the counters that the replay adds to exceeds `limit`.
pub fn counters_within(stats: &PlayerMatchStats, limit: u8) -> (within: bool)
    ensures
        within == counters_at_most(*stats, limit as int),
{
    let saves: u8 = match stats.saves {
        Some(saves) => saves,
        None => 0,
    };
    stats.goals <= limit && stats.assists <= limit && stats.shots_on_target <= limit
        && stats.shots_off_target <= limit && stats.tackles_won <= limit && stats.interceptions
        <= limit && stats.clearances <= limit && saves <= limit && stats.yellow_cards <= limit
        && stats.red_cards <= limit
}

/// Whether the counters of a lineup can take the replay of any log of up to
/// `events` events.
pub fn lineup_has_room(lineup: &MatchLineup, events: usize) -> (room: bool)
    ensures
        room == has_room_for(*lineup, events as int),
{
    if events > 255 {
        return false;
    }
    let limit: u8 = (255 - events) as u8;
    let mut k: usize = 0;
    while k < lineup.players.len()
        invariant
            0 <= k <= lineup.players@.len(),
            events <= 255,
            limit == 255 - events,
            forall|j: int|
                0 <= j < k && #[trigger] is_first_entry(lineup.players@, j) && !is_starter(
                    *lineup,
                    lineup.players@[j].player_id,
                ) ==> counters_at_most(lineup.players@[j].stats, u8::MAX - events),
        decreases lineup.players@.len() - k,
    {
        let id: u128 = lineup.players[k].player_id;
        let first: bool = match first_entry_of(&lineup.players, id) {
            Some(index) => {
                proof {
                    if is_first_entry(lineup.players@, k as int) {
                        lemma_first_entry_unique(lineup.players@, index as int, k as int);
                    }
                }
                index == k
            },
            None => false,
        };
        if first && !is_in_list(&lineup.home_starting_xi, id) && !is_in_list(
            &lineup.away_starting_xi,
            id,
        ) {
            if !counters_within(&lineup.players[k].stats, limit) {
                assert(is_first_entry(lineup.players@, k as int));
                return false;
            }
        }
        k = k + 1;
    }
    true
}

/// What is done to the counters of a starter before and after the replay.
#[derive(Debug, Clone, Copy, PartialEq, Eq, Structural)]
pub enum StarterUpdate {
    /// All counters are set back to zero.
    ResetCounters,
    /// The minutes played are set to the length of a match.
    FullMatch,
}

/// The counters `stats` after the given update.
pub open spec fn updated(update: StarterUpdate, stats: PlayerMatchStats) -> PlayerMatchStats {
    match update {
        StarterUpdate::ResetCounters => PlayerMatchStats::zeroed(),
        StarterUpdate::FullMatch => PlayerMatchStats {
            minutes_played: MATCH_DURATION_MINUTES,
            ..stats
        },
    }
}

/// Applies `update` to the counters of every listed player, in the first
/// entry of each. A listed player without an entry is passed over.
pub fn update_listed(players: &mut Vec<PlayerInMatch>, listed: &Vec<u128>, update: StarterUpdate)
    ensures
        final(players)@.len() == old(players)@.len(),
        forall|k: int|
            0 <= k < old(players)@.len() ==> #[trigger] final(players)@[k] == if is_first_entry(
                old(players)@,
                k,
            ) && is_listed(listed@, listed@.len() as int, old(players)@[k].player_id) {
                (PlayerInMatch {
                    stats: updated(update, old(players)@[k].stats),
                    ..old(players)@[k]
                })
            } else {
                old(players)@[k]
            },
{
    let ghost before = players@;
    let mut j: usize = 0;
    while j < listed.len()
        invariant
            0 <= j <= listed@.len(),
            players@.len() == before.len(),
            forall|k: int|
                0 <= k < before.len() ==> #[trigger] players@[k] == if is_first_entry(before, k)
                    && is_listed(listed@, j as int, before[k].player_id) {
                    (PlayerInMatch { stats: updated(update, before[k].stats), ..before[k] })
                } else {
                    before[k]
                },
        decreases listed@.len() - j,
    {
        let id: u128 = listed[j];
        let ghost midway = players@;
        assert(same_players(midway, before));
        let found: Option<usize> = first_entry_of(players, id);
        if let Some(index) = found {
            match update {
                StarterUpdate::ResetCounters => {
                    players[index].stats = PlayerMatchStats::default();
                },
                StarterUpdate::FullMatch => {
                    players[index].stats.minutes_played = MATCH_DURATION_MINUTES;
                },
            }
        }
        proof {
            assert forall|k: int| 0 <= k < before.len() implies #[trigger] players@[k]
                == if is_first_entry(before, k) && is_listed(
                listed@,
                j + 1,
                before[k].player_id,
            ) {
                (PlayerInMatch { stats: updated(update, before[k].stats), ..before[k] })
            } else {
                before[k]
            } by {
                let wanted = before[k].player_id;
                lemma_first_entry_by_ids(midway, before, k);
                if is_listed(listed@, j as int, wanted) {
                    let i = choose|i: int| 0 <= i < j && i < listed@.len() && listed@[i] == wanted;
                    assert(listed@[i] == wanted);
                    assert(is_listed(listed@, j + 1, wanted));
                }
                if wanted == id {
                    assert(listed@[j as int] == wanted);
                    assert(is_listed(listed@, j + 1, wanted));
                }
                if is_listed(listed@, j + 1, wanted) && wanted != id {
                    let i = choose|i: int|
                        0 <= i < j + 1 && i < listed@.len() && listed@[i] == wanted;
                    assert(i < j);
                    assert(is_listed(listed@, j as int, wanted));
                }
                if is_first_entry(before, k) && wanted == id {
                    assert(midway[k].player_id == id);
                    match found {
                        Some(index) => {
                            lemma_first_entry_unique(midway, index as int, k);
                        },
                        None => {},
                    }
                }
            }
        }
        j = j + 1;
    }
}

impl MatchEngine {
    /// Adds an event of the given type to the counter that it belongs to.
    /// Types without a counter change nothing.
    pub fn increment_stat_for_event(&self, stats: &mut PlayerMatchStats, event_type: &EventType)
        requires
            has_room(*old(stats), *event_type),
        ensures
            *final(stats) == counted(*old(stats), *event_type),
    {
        match event_type {
            EventType::Goal => {
                stats.goals = stats.goals + 1;
            },
            EventType::Assist => {
                stats.assists = stats.assists + 1;
            },
            EventType::ShotOnTarget => {
                stats.shots_on_target = stats.shots_on_target + 1;
            },
            EventType::ShotOffTarget => {
                stats.shots_off_target = stats.shots_off_target + 1;
            },
            EventType::TackleWon => {
                stats.tackles_won = stats.tackles_won + 1;
            },
            EventType::Interception => {
                stats.interceptions = stats.interceptions + 1;
            },
            EventType::Clearance => {
                stats.clearances = stats.clearances + 1;
            },
            EventType::Save => {
                stats.saves = match stats.saves {
                    Some(saves) => Some(saves + 1),
                    None => Some(1),
                };
            },
            EventType::YellowCard => {
                stats.yellow_cards = stats.yellow_cards + 1;
            },
            EventType::RedCard => {
                stats.red_cards = stats.red_cards + 1;
            },
            _ => {},
        }
    }

    /// Counts one event for its primary player, in the first entry that the
    /// lineup has for that player. An event of a player without an entry
    /// changes nothing.
    pub fn update_stats_from_event(&self, lineup: &mut MatchLineup, event: &MatchEvent)
        requires
            forall|k: int|
                is_first_entry(old(lineup).players@, k) && (#[trigger] old(lineup).players@[k]).player_id
                    == event.player_involved ==> has_room(
                    old(lineup).players@[k].stats,
                    event.event_type,
                ),
        ensures
            final(lineup).formation == old(lineup).formation,
            final(lineup).tactics == old(lineup).tactics,
            final(lineup).home_starting_xi == old(lineup).home_starting_xi,
            final(lineup).away_starting_xi == old(lineup).away_starting_xi,
            final(lineup).players@.len() == old(lineup).players@.len(),
            forall|k: int|
                0 <= k < old(lineup).players@.len() ==> #[trigger] final(lineup).players@[k]
                    == if is_first_entry(old(lineup).players@, k) && old(lineup).players@[k].player_id
                    == event.player_involved {
                    (PlayerInMatch {
                        stats: counted(old(lineup).players@[k].stats, event.event_type),
                        ..old(lineup).players@[k]
                    })
                } else {
                    old(lineup).players@[k]
                },
    {
        let ghost before = lineup.players@;
        let found: Option<usize> = first_entry_of(&lineup.players, event.player_involved);
        if let Some(index) = found {
            self.increment_stat_for_event(&mut lineup.players[index].stats, &event.event_type);
        }
        proof {
            assert forall|k: int| 0 <= k < before.len() implies #[trigger] lineup.players@[k]
                == if is_first_entry(before, k) && before[k].player_id == event.player_involved {
                (PlayerInMatch { stats: counted(before[k].stats, event.event_type), ..before[k] })
            } else {
                before[k]
            } by {
                if is_first_entry(before, k) && before[k].player_id == event.player_involved {
                    match found {
                        Some(index) => {
                            lemma_first_entry_unique(before, index as int, k);
                        },
                        None => {},
                    }
                }
            }
        }
    }

    /// Replays the event log of a match into the counters of its lineup.
    ///
    /// The counters of the declared starters are first set back to zero; then
    /// every event is counted for its primary player; then the starters are
    /// given the full 90 minutes.
    pub fn update_player_match_stats(&self, game_match: &mut Match, _match_state: &MatchState)
        requires
            replay_fits(old(game_match).lineup, old(game_match).events@),
        ensures
            is_replayed(
                old(game_match).lineup,
                old(game_match).events@,
                final(game_match).lineup,
            ),
            final(game_match).events == old(game_match).events,
            final(game_match).player_ratings == old(game_match).player_ratings,
            final(game_match).status == old(game_match).status,
            final(game_match).id == old(game_match).id,
            final(game_match).competition_id == old(game_match).competition_id,
            final(game_match).home_team == old(game_match).home_team,
            final(game_match).away_team == old(game_match).away_team,
            final(game_match).venue == old(game_match).venue,
            final(game_match).result == old(game_match).result,
            final(game_match).half_results == old(game_match).half_results,
            final(game_match).fulltime_score == old(game_match).fulltime_score,
            final(game_match).competition_type == old(game_match).competition_type,
    {
        let ghost before = game_match.lineup;
        let ghost log = game_match.events@;
        update_listed(
            &mut game_match.lineup.players,
            &game_match.lineup.home_starting_xi,
            StarterUpdate::ResetCounters,
        );
        let ghost after_home = game_match.lineup.players@;
        update_listed(
            &mut game_match.lineup.players,
            &game_match.lineup.away_starting_xi,
            StarterUpdate::ResetCounters,
        );
        proof {
            assert(same_players(after_home, before.players@));
            assert forall|k: int| 0 <= k < before.players@.len() implies #[trigger] game_match.lineup.players@[k]
                == replayed_entry(before, log.take(0), k) by {
                lemma_first_entry_by_ids(after_home, before.players@, k);
                assert(log.take(0) =~= Seq::<MatchEvent>::empty());
            }
        }
        let mut i: usize = 0;
        while i < game_match.events.len()
            invariant
                0 <= i <= log.len(),
                game_match.events@ == log,
                game_match.events == old(game_match).events,
                replay_fits(before, log),
                game_match.lineup.formation == before.formation,
                game_match.lineup.tactics == before.tactics,
                game_match.lineup.home_starting_xi == before.home_starting_xi,
                game_match.lineup.away_starting_xi == before.away_starting_xi,
                game_match.lineup.players@.len() == before.players@.len(),
                forall|k: int|
                    0 <= k < before.players@.len() ==> #[trigger] game_match.lineup.players@[k]
                        == replayed_entry(before, log.take(i as int), k),
                game_match.player_ratings == old(game_match).player_ratings,
                game_match.status == old(game_match).status,
                game_match.id == old(game_match).id,
                game_match.competition_id == old(game_match).competition_id,
                game_match.home_team == old(game_match).home_team,
                game_match.away_team == old(game_match).away_team,
                game_match.venue == old(game_match).venue,
                game_match.result == old(game_match).result,
                game_match.half_results == old(game_match).half_results,
                game_match.fulltime_score == old(game_match).fulltime_score,
                game_match.competition_type == old(game_match).competition_type,
            decreases log.len() - i,
        {
            let event: MatchEvent = game_match.events[i];
            let ghost midway = game_match.lineup.players@;
            proof {
                assert(same_players(midway, before.players@));
                assert forall|k: int|
                    is_first_entry(midway, k) && (#[trigger] midway[k]).player_id
                        == event.player_involved implies has_room(
                    midway[k].stats,
                    event.event_type,
                ) by {
                    lemma_first_entry_by_ids(midway, before.players@, k);
                    lemma_tally_step(
                        starting_stats(before, k),
                        log,
                        i as int,
                        before.players@[k].player_id,
                    );
                }
            }
            self.update_stats_from_event(&mut game_match.lineup, &event);
            proof {
                assert forall|k: int| 0 <= k < before.players@.len() implies #[trigger] game_match.lineup.players@[k]
                    == replayed_entry(before, log.take(i + 1), k) by {
                    lemma_first_entry_by_ids(midway, before.players@, k);
                    if is_first_entry(before.players@, k) {
                        lemma_tally_step(
                            starting_stats(before, k),
                            log,
                            i as int,
                            before.players@[k].player_id,
                        );
                    }
                }
            }
            i = i + 1;
        }
        let ghost replayed = game_match.lineup.players@;
        update_listed(
            &mut game_match.lineup.players,
            &game_match.lineup.home_starting_xi,
            StarterUpdate::FullMatch,
        );
        let ghost after_home_minutes = game_match.lineup.players@;
        update_listed(
            &mut game_match.lineup.players,
            &game_match.lineup.away_starting_xi,
            StarterUpdate::FullMatch,
        );
        proof {
            assert(log.take(log.len() as int) =~= log);
            assert(same_players(replayed, before.players@));
            assert(same_players(after_home_minutes, before.players@));
            assert forall|k: int| 0 <= k < before.players@.len() implies #[trigger] game_match.lineup.players@[k]
                == entry_after_replay(before, log, k) by {
                lemma_first_entry_by_ids(replayed, before.players@, k);
                lemma_first_entry_by_ids(after_home_minutes, before.players@, k);
            }
        }
    }
}

} // verus!
