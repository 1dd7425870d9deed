//! The rating aggregator: it reduces the events of one player to a single
//! rating between 4.5 and 9.9.
//!
//! Positive and negative impact are summed apart. Repeating the same type of
//! event earns less and less (the consistency factor), mistakes weigh a fifth
//! more than merits, and a player with fewer than three meaningful events
//! cannot be rated above 6.8.

use vstd::prelude::*;
use std::collections::HashMap;
use crate::entities::{log_well_formed, EventType, Match, MatchEvent, MAX_TOTAL_IMPACT};
use crate::fixed::{clamp_to, div_toward_zero, lemma_trunc_div_bounds, magnitude, trunc_div, SCALE};
use crate::systems::match_system::{MatchEngine, MatchState};

verus! {

broadcast use vstd::std_specs::hash::group_hash_axioms;

/// The rating of a player of whom nothing is known: 6.0.
pub const BASELINE_RATING: i64 = 6_000_000;

/// The lowest rating: 4.5.
pub const MIN_RATING: i64 = 4_500_000;

/// The highest rating: 9.9.
pub const MAX_RATING: i64 = 9_900_000;

/// The highest rating of a player with low involvement: 6.8.
pub const LOW_INVOLVEMENT_CAP: i64 = 6_800_000;

/// The involvement score below which the cap applies: 0.3.
pub const LOW_INVOLVEMENT: i64 = 300_000;

/// An event is meaningful if its base impact exceeds this in magnitude: 0.3.
pub const MEANINGFUL_IMPACT: i64 = 300_000;

/// The number of meaningful events that makes for full involvement.
pub const FULL_INVOLVEMENT_EVENTS: i64 = 10;

/// The lowest consistency factor: 0.5.
pub const MIN_CONSISTENCY: i64 = 500_000;

/// The magnitude that the summed impact must exceed for the consistency
/// factor to be computed from it: 0.001.
pub const NEGLIGIBLE_IMPACT: i64 = 1_000;

/// The events of `log` in which the player `id` is the primary player.
pub open spec fn by_player(id: u128) -> spec_fn(MatchEvent) -> bool {
    |event: MatchEvent| event.player_involved == id
}

/// The events of the player `id`, in the order of the log.
pub open spec fn events_of(log: Seq<MatchEvent>, id: u128) -> Seq<MatchEvent> {
    log.filter(by_player(id))
}

/// Whether the player `id` is the primary player of some event of `log`.
pub open spec fn took_part(log: Seq<MatchEvent>, id: u128) -> bool {
    exists|i: int| 0 <= i < log.len() && (#[trigger] log[i]).player_involved == id
}

/// The sum of the total impact scores that are not negative, over the first
/// `count` events.
pub open spec fn positive_impact(events: Seq<MatchEvent>, count: int) -> int
    decreases count,
{
    if count <= 0 {
        0
    } else if events[count - 1].total_impact_score >= 0 {
        positive_impact(events, count - 1) + events[count - 1].total_impact_score
    } else {
        positive_impact(events, count - 1)
    }
}

/// The sum of the magnitudes of the negative total impact scores, over the
/// first `count` events.
pub open spec fn negative_impact(events: Seq<MatchEvent>, count: int) -> int
    decreases count,
{
    if count <= 0 {
        0
    } else if events[count - 1].total_impact_score < 0 {
        negative_impact(events, count - 1) - events[count - 1].total_impact_score
    } else {
        negative_impact(events, count - 1)
    }
}

/// Whether an event counts toward involvement: its base impact exceeds 0.3 in
/// magnitude.
pub open spec fn is_meaningful(event: MatchEvent) -> bool {
    magnitude(event.base_impact as int) > MEANINGFUL_IMPACT
}

/// The number of meaningful events among the first `count` events.
pub open spec fn meaningful_count(events: Seq<MatchEvent>, count: int) -> int
    decreases count,
{
    if count <= 0 {
        0
    } else if is_meaningful(events[count - 1]) {
        meaningful_count(events, count - 1) + 1
    } else {
        meaningful_count(events, count - 1)
    }
}

/// The involvement score: a tenth for every meaningful event, at most 1.0.
pub open spec fn involvement_score_of(events: Seq<MatchEvent>) -> int {
    let meaningful = meaningful_count(events, events.len() as int);
    if meaningful >= FULL_INVOLVEMENT_EVENTS {
        SCALE as int
    } else {
        meaningful * (SCALE / FULL_INVOLVEMENT_EVENTS)
    }
}

/// The number of events of type `event_type` among the first `count` events.
pub open spec fn earlier_of_type(events: Seq<MatchEvent>, count: int, event_type: EventType) -> int
    decreases count,
{
    if count <= 0 {
        0
    } else if events[count - 1].event_type == event_type {
        earlier_of_type(events, count - 1, event_type) + 1
    } else {
        earlier_of_type(events, count - 1, event_type)
    }
}

/// What an impact counts for when `repeats` events of the same type came
/// before it: all of it the first time, then `0.7 / repeats` of it, rounded
/// toward zero.
pub open spec fn diminished(impact: int, repeats: int) -> int {
    if repeats <= 0 {
        impact
    } else {
        trunc_div(impact * 7, 10 * repeats)
    }
}

/// The sum of the diminished total impact scores of the first `count` events.
pub open spec fn weighted_impact(events: Seq<MatchEvent>, count: int) -> int
    decreases count,
{
    if count <= 0 {
        0
    } else {
        weighted_impact(events, count - 1) + diminished(
            events[count - 1].total_impact_score as int,
            earlier_of_type(events, count - 1, events[count - 1].event_type),
        )
    }
}

/// The sum of the total impact scores of the first `count` events.
pub open spec fn summed_impact(events: Seq<MatchEvent>, count: int) -> int
    decreases count,
{
    if count <= 0 {
        0
    } else {
        summed_impact(events, count - 1) + events[count - 1].total_impact_score
    }
}

/// The quotient `weighted / summed` in millionths, rounded toward zero.
pub open spec fn impact_ratio(weighted: int, summed: int) -> int
    recommends
        summed != 0,
{
    if summed > 0 {
        trunc_div(weighted * SCALE, summed)
    } else {
        trunc_div(-weighted * SCALE, -summed)
    }
}

/// The consistency factor: the weighted impact relative to the summed impact,
/// at least 0.5; and 1.0 where there is no event or the summed impact is
/// negligible.
pub open spec fn consistency_factor_of(events: Seq<MatchEvent>) -> int {
    let weighted = weighted_impact(events, events.len() as int);
    let summed = summed_impact(events, events.len() as int);
    if events.len() == 0 || magnitude(summed) <= NEGLIGIBLE_IMPACT {
        SCALE as int
    } else if impact_ratio(weighted, summed) < MIN_CONSISTENCY {
        MIN_CONSISTENCY as int
    } else {
        impact_ratio(weighted, summed)
    }
}

/// The positive impact times the consistency factor.
pub open spec fn final_positive_of(events: Seq<MatchEvent>) -> int {
    trunc_div(
        positive_impact(events, events.len() as int) * consistency_factor_of(events),
        SCALE as int,
    )
}

/// The negative impact times 1.2.
pub open spec fn final_negative_of(events: Seq<MatchEvent>) -> int {
    trunc_div(negative_impact(events, events.len() as int) * 6, 5)
}

/// The score before any cap: 6.0 plus merits minus mistakes.
pub open spec fn raw_score_of(events: Seq<MatchEvent>) -> int {
    BASELINE_RATING + final_positive_of(events) - final_negative_of(events)
}

/// The highest rating that the involvement of a player allows: 6.8 below an
/// involvement score of 0.3, 9.9 otherwise.
pub open spec fn ceiling_of(events: Seq<MatchEvent>) -> int {
    if involvement_score_of(events) < LOW_INVOLVEMENT {
        LOW_INVOLVEMENT_CAP as int
    } else {
        MAX_RATING as int
    }
}

/// The rating of a player with the given events: 6.0 without any event,
/// otherwise the raw score, held between 4.5 and what the involvement allows.
pub open spec fn rating_of(events: Seq<MatchEvent>) -> int {
    if events.len() == 0 {
        BASELINE_RATING as int
    } else {
        clamp_to(raw_score_of(events), MIN_RATING as int, ceiling_of(events))
    }
}

/// The ratings of a log: one for every player who is the primary player of
/// some event, computed from that player's events.
pub open spec fn ratings_of(log: Seq<MatchEvent>) -> Map<u128, i64> {
    Map::new(|id: u128| took_part(log, id), |id: u128| rating_of(events_of(log, id)) as i64)
}

/// The number of events of type `event_type` among the first `count` events
/// can only grow with `count`, and is at most `count`.
pub proof fn lemma_earlier_of_type_bounds(
    events: Seq<MatchEvent>,
    count: int,
    event_type: EventType,
)
    requires
        0 <= count,
    ensures
        0 <= earlier_of_type(events, count, event_type) <= count,
    decreases count,
{
    if count > 0 {
        lemma_earlier_of_type_bounds(events, count - 1, event_type);
    }
}

/// A diminished impact is no larger in magnitude than the impact, and it
/// keeps its sign.
pub proof fn lemma_diminished_bounds(impact: int, repeats: int)
    ensures
        impact >= 0 ==> 0 <= diminished(impact, repeats) <= impact,
        impact <= 0 ==> impact <= diminished(impact, repeats) <= 0,
{
    if repeats > 0 {
        lemma_trunc_div_bounds(impact * 7, 10 * repeats);
        if impact >= 0 {
            assert(impact * 7 <= impact * 10 * repeats) by (nonlinear_arith)
                requires
                    impact >= 0,
                    repeats >= 1,
            ;
            assert((impact * 10 * repeats) / (10 * repeats) == impact) by (nonlinear_arith)
                requires
                    impact >= 0,
                    repeats >= 1,
            ;
            crate::fixed::lemma_trunc_div_monotonic(
                impact * 7,
                impact * 10 * repeats,
                10 * repeats,
            );
        } else {
            assert(impact * 10 * repeats <= impact * 7) by (nonlinear_arith)
                requires
                    impact < 0,
                    repeats >= 1,
            ;
            assert((-(impact * 10 * repeats)) / (10 * repeats) == -impact) by (nonlinear_arith)
                requires
                    impact < 0,
                    repeats >= 1,
            ;
            crate::fixed::lemma_trunc_div_monotonic(
                impact * 10 * repeats,
                impact * 7,
                10 * repeats,
            );
        }
    }
}

/// The number of events of type `event_type` among the first `count` events.
pub fn count_earlier_of_type(events: &[MatchEvent], count: usize, event_type: EventType) -> (repeats:
    usize)
    requires
        count <= events@.len(),
    ensures
        repeats == earlier_of_type(events@, count as int, event_type),
        repeats <= count,
{
    let mut repeats: usize = 0;
    let mut j: usize = 0;
    while j < count
        invariant
            0 <= j <= count <= events@.len(),
            repeats == earlier_of_type(events@, j as int, event_type),
            repeats <= j,
        decreases count - j,
    {
        if events[j].event_type == event_type {
            repeats = repeats + 1;
        }
        j = j + 1;
    }
    repeats
}

/// The positive and the negative impact of the events, each as a sum of
/// magnitudes.
pub fn sum_impacts(events: &[MatchEvent]) -> (sums: (i128, i128))
    requires
        log_well_formed(events@),
    ensures
        sums.0 == positive_impact(events@, events@.len() as int),
        sums.1 == negative_impact(events@, events@.len() as int),
        0 <= sums.0 <= events@.len() * MAX_TOTAL_IMPACT,
        0 <= sums.1 <= events@.len() * MAX_TOTAL_IMPACT,
{
    let mut positive: i128 = 0;
    let mut negative: i128 = 0;
    let mut i: usize = 0;
    while i < events.len()
        invariant
            0 <= i <= events@.len(),
            log_well_formed(events@),
            positive == positive_impact(events@, i as int),
            negative == negative_impact(events@, i as int),
            0 <= positive <= i * MAX_TOTAL_IMPACT,
            0 <= negative <= i * MAX_TOTAL_IMPACT,
        decreases events@.len() - i,
    {
        proof {
            crate::entities::lemma_total_impact_bounded(events@[i as int]);
            assert((i + 1) * MAX_TOTAL_IMPACT == i * MAX_TOTAL_IMPACT + MAX_TOTAL_IMPACT)
                by (nonlinear_arith);
            assert(i * MAX_TOTAL_IMPACT <= usize::MAX * MAX_TOTAL_IMPACT) by (nonlinear_arith)
                requires
                    i <= usize::MAX,
            ;
        }
        let impact: i128 = events[i].total_impact_score as i128;
        if impact >= 0 {
            positive = positive + impact;
        } else {
            negative = negative - impact;
        }
        i = i + 1;
    }
    (positive, negative)
}

/// The events of the player `id`, in the order of the log.
pub fn events_of_player(log: &[MatchEvent], id: u128) -> (events: Vec<MatchEvent>)
    ensures
        events@ == events_of(log@, id),
        log_well_formed(log@) ==> log_well_formed(events@),
{
    let mut events: Vec<MatchEvent> = Vec::new();
    let mut i: usize = 0;
    proof {
        reveal(Seq::filter);
        assert(log@.take(0) =~= Seq::<MatchEvent>::empty());
    }
    while i < log.len()
        invariant
            0 <= i <= log@.len(),
            events@ == log@.take(i as int).filter(by_player(id)),
            log_well_formed(log@) ==> log_well_formed(events@),
        decreases log@.len() - i,
    {
        proof {
            assert(log@.take(i + 1) =~= log@.take(i as int).push(log@[i as int]));
            log@.take(i as int).lemma_filter_push(log@[i as int], by_player(id));
        }
        if log[i].player_involved == id {
            events.push(log[i]);
        }
        i = i + 1;
    }
    assert(log@.take(log@.len() as int) =~= log@);
    events
}

impl MatchEngine {
    /// The involvement score of a player with the given events.
    pub fn calculate_involvement_score(&self, events: &[MatchEvent]) -> (score: i64)
        ensures
            score == involvement_score_of(events@),
            0 <= score <= SCALE,
            events@.len() == 0 ==> score == 0,
    {
        let mut meaningful_events: usize = 0;
        let mut i: usize = 0;
        while i < events.len()
            invariant
                0 <= i <= events@.len(),
                meaningful_events == meaningful_count(events@, i as int),
                meaningful_events <= i,
            decreases events@.len() - i,
        {
            let base_impact: i64 = events[i].base_impact;
            if base_impact > MEANINGFUL_IMPACT || base_impact < -MEANINGFUL_IMPACT {
                meaningful_events = meaningful_events + 1;
            }
            i = i + 1;
        }
        if meaningful_events >= 10 {
            SCALE
        } else {
            let step: i64 = SCALE / FULL_INVOLVEMENT_EVENTS;
            assert(meaningful_events * step <= 9 * step) by (nonlinear_arith)
                requires
                    0 <= meaningful_events <= 9,
                    step >= 0,
            ;
            (meaningful_events as i64) * step
        }
    }

    /// The consistency factor of a player with the given events: the more
    /// the impact rests on repeats of the same type of event, the lower.
    pub fn calculate_consistency_factor(&self, events: &[MatchEvent]) -> (factor: i128)
        requires
            log_well_formed(events@),
        ensures
            factor == consistency_factor_of(events@),
            factor >= MIN_CONSISTENCY,
    {
        if events.len() == 0 {
            return SCALE as i128;
        }
        let mut total_weighted_impact: i128 = 0;
        let mut total_impact: i128 = 0;
        let mut i: usize = 0;
        while i < events.len()
            invariant
                0 <= i <= events@.len(),
                log_well_formed(events@),
                total_weighted_impact == weighted_impact(events@, i as int),
                total_impact == summed_impact(events@, i as int),
                -(i * MAX_TOTAL_IMPACT) <= total_weighted_impact <= i * MAX_TOTAL_IMPACT,
                -(i * MAX_TOTAL_IMPACT) <= total_impact <= i * MAX_TOTAL_IMPACT,
            decreases events@.len() - i,
        {
            let repeats: usize = count_earlier_of_type(events, i, events[i].event_type);
            let impact: i128 = events[i].total_impact_score as i128;
            proof {
                crate::entities::lemma_total_impact_bounded(events@[i as int]);
                lemma_diminished_bounds(impact as int, repeats as int);
                assert((i + 1) * MAX_TOTAL_IMPACT == i * MAX_TOTAL_IMPACT + MAX_TOTAL_IMPACT)
                    by (nonlinear_arith);
                assert(i * MAX_TOTAL_IMPACT <= usize::MAX * MAX_TOTAL_IMPACT) by (nonlinear_arith)
                    requires
                        i <= usize::MAX,
                ;
            }
            let weighted: i128 = if repeats == 0 {
                impact
            } else {
                div_toward_zero(impact * 7, 10 * (repeats as i128))
            };
            total_weighted_impact = total_weighted_impact + weighted;
            total_impact = total_impact + impact;
            i = i + 1;
        }
        proof {
            assert(events@.len() * MAX_TOTAL_IMPACT <= usize::MAX * MAX_TOTAL_IMPACT)
                by (nonlinear_arith)
                requires
                    events@.len() <= usize::MAX,
            ;
        }
        if total_impact > NEGLIGIBLE_IMPACT as i128 {
            let ratio: i128 = div_toward_zero(total_weighted_impact * (SCALE as i128), total_impact);
            if ratio < MIN_CONSISTENCY as i128 {
                MIN_CONSISTENCY as i128
            } else {
                ratio
            }
        } else if total_impact < -(NEGLIGIBLE_IMPACT as i128) {
            let ratio: i128 = div_toward_zero(
                -total_weighted_impact * (SCALE as i128),
                -total_impact,
            );
            if ratio < MIN_CONSISTENCY as i128 {
                MIN_CONSISTENCY as i128
            } else {
                ratio
            }
        } else {
            SCALE as i128
        }
    }

    /// The rating of a player with the given events, between 4.5 and 9.9.
    ///
    /// A player without events is rated 6.0. A player whose involvement score
    /// is below 0.3 is rated 6.8 at most. The state of the match does not
    /// enter.
    pub fn calculate_single_player_rating(&self, events: &[MatchEvent], _match_state: &MatchState)
        -> (rating: i64)
        requires
            log_well_formed(events@),
        ensures
            rating == rating_of(events@),
            MIN_RATING <= rating <= MAX_RATING,
            events@.len() == 0 ==> rating == BASELINE_RATING,
            involvement_score_of(events@) < LOW_INVOLVEMENT ==> rating <= LOW_INVOLVEMENT_CAP,
    {
        if events.len() == 0 {
            return BASELINE_RATING;
        }
        let (positive_impact, negative_impact): (i128, i128) = sum_impacts(events);
        let involvement_score: i64 = self.calculate_involvement_score(events);
        let consistency_factor: i128 = self.calculate_consistency_factor(events);
        proof {
            assert(events@.len() * MAX_TOTAL_IMPACT <= usize::MAX * MAX_TOTAL_IMPACT)
                by (nonlinear_arith)
                requires
                    events@.len() <= usize::MAX,
            ;
            assert(positive_impact * consistency_factor >= 0) by (nonlinear_arith)
                requires
                    positive_impact >= 0,
                    consistency_factor >= 0,
            ;
        }
        let final_negative: i128 = negative_impact * 6 / 5;
        let ceiling: i64 = if involvement_score < LOW_INVOLVEMENT {
            LOW_INVOLVEMENT_CAP
        } else {
            MAX_RATING
        };
        match positive_impact.checked_mul(consistency_factor) {
            Some(product) => {
                let final_positive: i128 = product / (SCALE as i128);
                let raw_score: i128 = BASELINE_RATING as i128 + final_positive - final_negative;
                if raw_score < MIN_RATING as i128 {
                    MIN_RATING
                } else if raw_score > ceiling as i128 {
                    ceiling
                } else {
                    raw_score as i64
                }
            },
            None => {
                proof {
                    let product = positive_impact * consistency_factor;
                    assert(product > i128::MAX);
                    crate::fixed::lemma_trunc_div_monotonic(
                        i128::MAX as int,
                        product,
                        SCALE as int,
                    );
                }
                ceiling
            },
        }
    }

    /// The ratings of a match: one for every player who is the primary player
    /// of some event of the log, each between 4.5 and 9.9. The state of the
    /// match does not enter.
    pub fn calculate_player_ratings(&self, game_match: &Match, match_state: &MatchState) -> (ratings:
        HashMap<u128, i64>)
        requires
            log_well_formed(game_match.events@),
        ensures
            ratings@ == ratings_of(game_match.events@),
            forall|id: u128| #[trigger]
                ratings@.contains_key(id) ==> MIN_RATING <= ratings@[id] <= MAX_RATING,
    {
        let mut ratings: HashMap<u128, i64> = HashMap::new();
        let mut i: usize = 0;
        while i < game_match.events.len()
            invariant
                0 <= i <= game_match.events@.len(),
                log_well_formed(game_match.events@),
                forall|id: u128| #[trigger]
                    ratings@.contains_key(id) <==> took_part(game_match.events@.take(i as int), id),
                forall|id: u128| #[trigger]
                    ratings@.contains_key(id) ==> ratings@[id] == rating_of(
                        events_of(game_match.events@, id),
                    ) && MIN_RATING <= ratings@[id] <= MAX_RATING,
            decreases game_match.events@.len() - i,
        {
            let player_id: u128 = game_match.events[i].player_involved;
            if !ratings.contains_key(&player_id) {
                let player_events: Vec<MatchEvent> = events_of_player(
                    game_match.events.as_slice(),
                    player_id,
                );
                let rating: i64 = self.calculate_single_player_rating(
                    player_events.as_slice(),
                    match_state,
                );
                ratings.insert(player_id, rating);
            }
            proof {
                let before = game_match.events@.take(i as int);
                let after = game_match.events@.take(i + 1);
                assert(after[i as int].player_involved == player_id);
                assert forall|id: u128| took_part(after, id) <==> (took_part(before, id) || id
                    == player_id) by {
                    if took_part(after, id) {
                        let k = choose|k: int|
                            0 <= k < after.len() && (#[trigger] after[k]).player_involved == id;
                        if k < i {
                            assert(before[k].player_involved == id);
                        }
                    }
                    if took_part(before, id) {
                        let k = choose|k: int|
                            0 <= k < before.len() && (#[trigger] before[k]).player_involved == id;
                        assert(after[k].player_involved == id);
                    }
                }
            }
            i = i + 1;
        }
        proof {
            assert(game_match.events@.take(game_match.events@.len() as int) =~= game_match.events@);
            assert(ratings@ =~= ratings_of(game_match.events@));
        }
        ratings
    }
}

/// Every rating lies between 4.5 and 9.9, a player without events is rated
/// 6.0, and a player with fewer than three meaningful events is rated 6.8 at
/// most, however large their impact.
pub proof fn lemma_rating_within_band(events: Seq<MatchEvent>)
    ensures
        MIN_RATING <= rating_of(events) <= MAX_RATING,
        events.len() == 0 ==> rating_of(events) == BASELINE_RATING,
        meaningful_count(events, events.len() as int) < 3 ==> rating_of(events)
            <= LOW_INVOLVEMENT_CAP,
        involvement_score_of(events) < LOW_INVOLVEMENT <==> meaningful_count(
            events,
            events.len() as int,
        ) < 3,
{
    lemma_meaningful_count_bounds(events, events.len() as int);
}

/// There are no more meaningful events than events.
pub proof fn lemma_meaningful_count_bounds(events: Seq<MatchEvent>, count: int)
    requires
        0 <= count,
    ensures
        0 <= meaningful_count(events, count) <= count,
    decreases count,
{
    if count > 0 {
        lemma_meaningful_count_bounds(events, count - 1);
    }
}

/// Whether all events are of one type and have the total impact `impact`.
pub open spec fn is_repetition(events: Seq<MatchEvent>, impact: int) -> bool {
    forall|i: int|
        0 <= i < events.len() ==> (#[trigger] events[i]).event_type == events[0].event_type
            && events[i].total_impact_score == impact
}

/// Whether no two events are of the same type and no total impact is
/// negative.
pub open spec fn is_varied(events: Seq<MatchEvent>) -> bool {
    &&& forall|i: int, j: int|
        0 <= i < j < events.len() ==> (#[trigger] events[i]).event_type
            != (#[trigger] events[j]).event_type
    &&& forall|i: int| 0 <= i < events.len() ==> (#[trigger] events[i]).total_impact_score >= 0
}

/// The sums over the first `count` events of a repetition of a positive
/// impact: the weighted impact falls short of the summed impact from the
/// second event on.
pub proof fn lemma_repetition_sums(events: Seq<MatchEvent>, impact: int, count: int)
    requires
        is_repetition(events, impact),
        impact > 0,
        0 <= count <= events.len(),
    ensures
        earlier_of_type(events, count, events[0].event_type) == count,
        summed_impact(events, count) == count * impact,
        positive_impact(events, count) == count * impact,
        negative_impact(events, count) == 0,
        0 <= weighted_impact(events, count),
        count >= 1 ==> weighted_impact(events, count) <= count * impact - (count - 1),
    decreases count,
{
    if count > 0 {
        lemma_repetition_sums(events, impact, count - 1);
        assert(events[count - 1].event_type == events[0].event_type);
        assert(events[count - 1].total_impact_score == impact);
        assert(count * impact == (count - 1) * impact + impact) by (nonlinear_arith);
        lemma_diminished_bounds(impact, count - 1);
        if count >= 2 {
            let repeats = count - 1;
            assert(impact * 7 < impact * 10 * repeats) by (nonlinear_arith)
                requires
                    impact > 0,
                    repeats >= 1,
            ;
            assert((impact * 7) / (10 * repeats) < impact) by (nonlinear_arith)
                requires
                    0 <= impact * 7 < impact * 10 * repeats,
                    repeats >= 1,
            ;
        }
    }
}

/// The sums over the first `count` events of varied events: nothing is
/// diminished, so the weighted impact is the summed impact.
pub proof fn lemma_varied_sums(events: Seq<MatchEvent>, count: int)
    requires
        is_varied(events),
        0 <= count <= events.len(),
    ensures
        weighted_impact(events, count) == summed_impact(events, count),
        positive_impact(events, count) == summed_impact(events, count),
        negative_impact(events, count) == 0,
    decreases count,
{
    if count > 0 {
        lemma_varied_sums(events, count - 1);
        lemma_no_earlier_of_type(events, count - 1, count - 1);
    }
}

/// Among varied events, none before the event at `index` is of its type.
pub proof fn lemma_no_earlier_of_type(events: Seq<MatchEvent>, index: int, count: int)
    requires
        is_varied(events),
        0 <= count <= index < events.len(),
    ensures
        earlier_of_type(events, count, events[index].event_type) == 0,
    decreases count,
{
    if count > 0 {
        lemma_no_earlier_of_type(events, index, count - 1);
        assert(events[count - 1].event_type != events[index].event_type);
    }
}

/// Diminishing returns: a player whose events all repeat one type of event
/// is rated strictly lower than a player with as many events of different
/// types and the same summed impact.
///
/// The events of the first player have one type and one positive total
/// impact each; those of the second have pairwise different types, no
/// negative impact, and the same sum, which is more than negligible. Two
/// ratings can only differ below the ceiling: so either the raw score of the
/// first player is below the ceiling of the second, or the first player has
/// the lower ceiling.
pub proof fn lemma_repeats_earn_less(
    repeated: Seq<MatchEvent>,
    varied: Seq<MatchEvent>,
    impact: int,
)
    requires
        repeated.len() == varied.len(),
        repeated.len() >= 2,
        is_repetition(repeated, impact),
        is_varied(varied),
        summed_impact(varied, varied.len() as int) == repeated.len() * impact,
        repeated.len() * impact > NEGLIGIBLE_IMPACT,
        raw_score_of(repeated) < ceiling_of(varied) || ceiling_of(repeated) < ceiling_of(varied),
    ensures
        consistency_factor_of(repeated) < consistency_factor_of(varied) == SCALE,
        raw_score_of(repeated) < raw_score_of(varied),
        rating_of(repeated) < rating_of(varied),
{
    let count = repeated.len() as int;
    let summed = count * impact;
    assert(impact > 0) by (nonlinear_arith)
        requires
            count * impact > 0,
            count >= 2,
    ;
    lemma_repetition_sums(repeated, impact, count);
    lemma_varied_sums(varied, count);
    let weighted = weighted_impact(repeated, count);
    assert(0 <= weighted < summed);
    // The repeated events: a factor below 1.0.
    let low = consistency_factor_of(repeated);
    assert((weighted * SCALE) / summed < SCALE) by (nonlinear_arith)
        requires
            0 <= weighted < summed,
    ;
    assert(weighted * SCALE >= 0) by (nonlinear_arith)
        requires
            weighted >= 0,
    ;
    assert(MIN_CONSISTENCY <= low < SCALE);
    let earned_low = final_positive_of(repeated);
    assert(summed * low >= 0) by (nonlinear_arith)
        requires
            summed > 0,
            low > 0,
    ;
    assert((summed * low) / (SCALE as int) < summed) by (nonlinear_arith)
        requires
            summed > 0,
            0 < low < SCALE,
    ;
    assert(earned_low < summed);
    // The varied events: a factor of exactly 1.0.
    assert((summed * SCALE) / summed == SCALE) by (nonlinear_arith)
        requires
            summed > 0,
    ;
    assert(summed * SCALE >= 0) by (nonlinear_arith)
        requires
            summed > 0,
    ;
    assert(consistency_factor_of(varied) == SCALE);
    assert((summed * SCALE) / (SCALE as int) == summed) by (nonlinear_arith);
    assert(final_positive_of(varied) == summed);
    assert(final_negative_of(repeated) == 0);
    assert(final_negative_of(varied) == 0);
    assert(earned_low >= 0) by {
        lemma_trunc_div_bounds(summed * low, SCALE as int);
    }
}

} // verus!
