//! The competition system: fixtures, results, standings and the table of a
//! competition.
//!
//! A table ranks by points, then by goal difference, then by goals scored;
//! teams that are level in all three keep the order in which they stood.

use vstd::prelude::*;
use crate::entities::{
    Competition, Fixture, FormResult, Match, MatchResult as FixtureResult, MatchStatus, Standing,
    Team, NIL_ID,
};
use crate::utils::helpers::{generate_unique_id, today};

verus! {

/// The kinds of competition.
#[derive(Debug, Clone, Copy, PartialEq, Eq, Hash, Structural)]
pub enum CompetitionType {
    League,
    DomesticCup,
    Continental,
    YouthLeague,
    Knockout,
}

/// The score of a match.
#[derive(Debug, Clone, Copy, PartialEq, Eq)]
pub struct MatchResult {
    pub home_goals: u8,
    pub away_goals: u8,
    pub match_id: u128,
}

/// The most teams that a competition can have fixtures generated for.
pub const MAX_TEAMS: usize = 65_535;

/// The number of results that the form of a team holds.
pub const FORM_LENGTH: usize = 5;

/// The line of a team at the start of a season: nothing played, no position.
pub open spec fn is_fresh_standing(standing: Standing, team_id: u128) -> bool {
    &&& standing.team_id == team_id
    &&& standing.position == 0
    &&& standing.points == 0
    &&& standing.played == 0
    &&& standing.won == 0
    &&& standing.drawn == 0
    &&& standing.lost == 0
    &&& standing.goals_for == 0
    &&& standing.goals_against == 0
    &&& standing.goal_difference == 0
    &&& standing.form@.len() == 0
}

/// The place in the list of teams of the home team (first) and of the away
/// team (second) of the fixture with the given number, among `teams` teams:
/// every team is at home against every other in turn.
pub open spec fn fixture_pairing(teams: int, number: int) -> (int, int)
    recommends
        teams >= 2,
        0 <= number < teams * (teams - 1),
{
    let home = number / (teams - 1);
    let rest = number % (teams - 1);
    (home, if rest < home {
        rest
    } else {
        rest + 1
    })
}

/// Whether `fixture` is the fixture with the given number of a competition
/// with the given teams: scheduled, without a result, at the ground of the
/// home team, on the match day of the home team's place in the list.
pub open spec fn is_fixture_of(
    fixture: Fixture,
    teams: Seq<u128>,
    competition_id: u128,
    number: int,
) -> bool {
    let pairing = fixture_pairing(teams.len() as int, number);
    &&& fixture.id != NIL_ID
    &&& fixture.competition_id == competition_id
    &&& fixture.home_team == teams[pairing.0]
    &&& fixture.away_team == teams[pairing.1]
    &&& fixture.venue == teams[pairing.0]
    &&& fixture.status == MatchStatus::Scheduled
    &&& fixture.result is None
    &&& fixture.matchday == pairing.0 + 1
}

/// Whether `fixtures` are the fixtures of a double round of all teams.
pub open spec fn is_schedule_of(fixtures: Seq<Fixture>, teams: Seq<u128>, competition_id: u128)
    -> bool {
    &&& fixtures.len() == teams.len() * (teams.len() - 1)
    &&& forall|k: int|
        0 <= k < fixtures.len() ==> is_fixture_of(#[trigger] fixtures[k], teams, competition_id, k)
}

/// How a match ended for a team.
pub open spec fn result_for(team_goals: u8, opponent_goals: u8) -> FormResult {
    if team_goals > opponent_goals {
        FormResult::Win
    } else if team_goals == opponent_goals {
        FormResult::Draw
    } else {
        FormResult::Loss
    }
}

/// The form after one more result: the new result comes last, and of more
/// than five the oldest goes.
pub open spec fn form_after(form: Seq<FormResult>, result: FormResult) -> Seq<FormResult> {
    if form.len() + 1 > FORM_LENGTH {
        form.push(result).subrange(1, form.len() as int + 1)
    } else {
        form.push(result)
    }
}

/// Whether the line of a team can take `matches` more results without any
/// counter running over.
pub open spec fn has_room_for(standing: Standing, matches: int) -> bool {
    &&& standing.played + matches <= u8::MAX
    &&& standing.won + matches <= u8::MAX
    &&& standing.drawn + matches <= u8::MAX
    &&& standing.lost + matches <= u8::MAX
    &&& standing.points + 3 * matches <= u8::MAX
    &&& standing.goals_for + 255 * matches <= i32::MAX
    &&& standing.goals_against + 255 * matches <= i32::MAX
    &&& standing.form@.len() + matches <= usize::MAX
}

/// Whether `after` is the line `before` with one more result: a match more
/// played, the goals added, the goal difference set, three points for a win
/// and one for a draw, and the result at the end of the form.
pub open spec fn is_updated_standing(
    before: Standing,
    after: Standing,
    team_goals: u8,
    opponent_goals: u8,
) -> bool {
    let result = result_for(team_goals, opponent_goals);
    &&& after.team_id == before.team_id
    &&& after.position == before.position
    &&& after.played == before.played + 1
    &&& after.goals_for == before.goals_for + team_goals
    &&& after.goals_against == before.goals_against + opponent_goals
    &&& after.goal_difference == after.goals_for - after.goals_against
    &&& after.won == before.won + (if result == FormResult::Win {
        1int
    } else {
        0int
    })
    &&& after.drawn == before.drawn + (if result == FormResult::Draw {
        1int
    } else {
        0int
    })
    &&& after.lost == before.lost + (if result == FormResult::Loss {
        1int
    } else {
        0int
    })
    &&& after.points == before.points + (if result == FormResult::Win {
        3int
    } else if result == FormResult::Draw {
        1int
    } else {
        0int
    })
    &&& after.form@ == form_after(before.form@, result)
}

/// Whether the line at `index` is the first of the team `team_id`.
pub open spec fn is_first_standing(standings: Seq<Standing>, index: int, team_id: u128) -> bool {
    &&& 0 <= index < standings.len()
    &&& standings[index].team_id == team_id
    &&& forall|j: int| 0 <= j < index ==> (#[trigger] standings[j]).team_id != team_id
}

/// Whether `after` is the table `before` with one more result for the team
/// `team_id`, entered in the first line of that team; a team without a line
/// leaves the table as it is.
pub open spec fn standings_updated(
    before: Seq<Standing>,
    after: Seq<Standing>,
    team_id: u128,
    team_goals: u8,
    opponent_goals: u8,
) -> bool {
    &&& after.len() == before.len()
    &&& forall|k: int|
        0 <= k < before.len() ==> if is_first_standing(before, k, team_id) {
            is_updated_standing(before[k], #[trigger] after[k], team_goals, opponent_goals)
        } else {
            after[k] == before[k]
        }
}

/// Whether the first line of the team `team_id`, if there is one, has room
/// for `matches` more results.
pub open spec fn team_has_room(standings: Seq<Standing>, team_id: u128, matches: int) -> bool {
    forall|k: int| #[trigger]
        is_first_standing(standings, k, team_id) ==> has_room_for(standings[k], matches)
}

/// Whether the first line ranks strictly above the second: by more points,
/// or the same points and a better goal difference, or the same of both and
/// more goals scored.
pub open spec fn ranks_above(first: Standing, second: Standing) -> bool {
    ||| first.points > second.points
    ||| (first.points == second.points && first.goal_difference > second.goal_difference)
    ||| (first.points == second.points && first.goal_difference == second.goal_difference
        && first.goals_for > second.goals_for)
}

/// Whether two lines are level in points, goal difference and goals scored.
pub open spec fn ranks_level(first: Standing, second: Standing) -> bool {
    first.points == second.points && first.goal_difference == second.goal_difference
        && first.goals_for == second.goals_for
}

/// Whether `after` is the ranking of `before`, where the line in place `i`
/// of `after` comes from place `origin[i]` of `before`: every line of
/// `before` appears once, no line stands below one that it ranks above, lines
/// that are level keep their order, and every line carries its place in the
/// table, counted from 1 (modulo 256).
pub open spec fn is_ranking(before: Seq<Standing>, after: Seq<Standing>, origin: Seq<int>) -> bool {
    &&& after.len() == before.len()
    &&& origin.len() == before.len()
    &&& forall|i: int| 0 <= i < origin.len() ==> 0 <= #[trigger] origin[i] < before.len()
    &&& forall|i: int, j: int|
        0 <= i < j < origin.len() ==> #[trigger] origin[i] != #[trigger] origin[j]
    &&& forall|i: int|
        0 <= i < after.len() ==> is_placed(before[origin[i]], #[trigger] after[i], i)
    &&& forall|i: int, j: int|
        0 <= i < j < after.len() ==> !ranks_above(#[trigger] after[j], #[trigger] after[i])
    &&& forall|i: int, j: int|
        0 <= i < j < after.len() && ranks_level(after[i], after[j]) ==> #[trigger] origin[i]
            < #[trigger] origin[j]
}

/// Whether `after` is the line `before` put in the given place of the table.
pub open spec fn is_placed(before: Standing, after: Standing, place: int) -> bool {
    &&& after.team_id == before.team_id
    &&& after.position == ((place + 1) % 256) as u8
    &&& after.played == before.played
    &&& after.won == before.won
    &&& after.drawn == before.drawn
    &&& after.lost == before.lost
    &&& after.goals_for == before.goals_for
    &&& after.goals_against == before.goals_against
    &&& after.points == before.points
    &&& after.form == before.form
    &&& after.goal_difference == before.goal_difference
}

/// Whether two lines of a table say the same.
pub open spec fn is_same_line(first: Standing, second: Standing) -> bool {
    &&& first.team_id == second.team_id
    &&& first.position == second.position
    &&& first.played == second.played
    &&& first.won == second.won
    &&& first.drawn == second.drawn
    &&& first.lost == second.lost
    &&& first.goals_for == second.goals_for
    &&& first.goals_against == second.goals_against
    &&& first.points == second.points
    &&& first.form@ == second.form@
    &&& first.goal_difference == second.goal_difference
}

/// Whether the fixture at `index` is the first with the identifier `id`.
pub open spec fn is_first_fixture(fixtures: Seq<Fixture>, index: int, id: u128) -> bool {
    &&& 0 <= index < fixtures.len()
    &&& fixtures[index].id == id
    &&& forall|j: int| 0 <= j < index ==> (#[trigger] fixtures[j]).id != id
}

/// The result of a fixture with the given score: the team with more goals
/// wins, and there is no winner of a draw.
pub open spec fn fixture_result_of(home_goals: u8, away_goals: u8, home_id: u128, away_id: u128)
    -> FixtureResult {
    FixtureResult {
        home_score: home_goals,
        away_score: away_goals,
        winner: if home_goals > away_goals {
            Some(home_id)
        } else if away_goals > home_goals {
            Some(away_id)
        } else {
            None
        },
    }
}

/// Whether `after` are the fixtures `before` with the result entered in the
/// first fixture with the identifier `id`, which is then finished.
pub open spec fn fixtures_recorded(
    before: Seq<Fixture>,
    after: Seq<Fixture>,
    id: u128,
    result: FixtureResult,
) -> bool {
    &&& after.len() == before.len()
    &&& forall|k: int|
        0 <= k < before.len() ==> #[trigger] after[k] == if is_first_fixture(before, k, id) {
            (Fixture { result: Some(result), status: MatchStatus::Finished, ..before[k] })
        } else {
            before[k]
        }
}

/// Whether `after` is the competition `before` with a match recorded: the
/// result is entered in the fixture of the match, both teams get the result
/// in their lines, and the table is ranked anew. A match without a final
/// score changes nothing.
pub open spec fn match_recorded(
    before: Competition,
    after: Competition,
    played: Match,
    home_team: u128,
    away_team: u128,
) -> bool {
    match played.fulltime_score {
        Some(score) => {
            &&& after.id == before.id
            &&& after.name == before.name
            &&& after.country == before.country
            &&& after.level == before.level
            &&& after.teams == before.teams
            &&& after.competition_type == before.competition_type
            &&& after.season_start == before.season_start
            &&& after.season_end == before.season_end
            &&& after.current_season == before.current_season
            &&& fixtures_recorded(
                before.fixtures@,
                after.fixtures@,
                played.id,
                fixture_result_of(score.0, score.1, home_team, away_team),
            )
            &&& exists|first: Seq<Standing>, second: Seq<Standing>, origin: Seq<int>|
                #![trigger
                    standings_updated(first, second, away_team, score.1, score.0),
                    is_ranking(second, after.standings@, origin),
                ]
                {
                    &&& standings_updated(before.standings@, first, home_team, score.0, score.1)
                    &&& standings_updated(first, second, away_team, score.1, score.0)
                    &&& is_ranking(second, after.standings@, origin)
                }
        },
        None => after == before,
    }
}

/// Whether a match between the two teams can be recorded in a competition
/// without any counter running over.
pub open spec fn can_record(competition: Competition, home_team: u128, away_team: u128) -> bool {
    &&& team_has_room(competition.standings@, home_team, 2)
    &&& team_has_room(competition.standings@, away_team, 2)
}

/// Whether `id` is one of the teams.
pub open spec fn has_team(teams: Seq<u128>, id: u128) -> bool {
    exists|i: int| 0 <= i < teams.len() && #[trigger] teams[i] == id
}

/// Whether a fixture concerns a team and is still to be played.
pub open spec fn is_open_fixture_of(fixture: Fixture, team_id: u128) -> bool {
    (fixture.home_team == team_id || fixture.away_team == team_id) && fixture.status
        == MatchStatus::Scheduled
}

/// Whether the fixture at `index` is the next of a team: the first among
/// those of the earliest match day that concern the team and are still to be
/// played.
pub open spec fn is_next_fixture(fixtures: Seq<Fixture>, index: int, team_id: u128) -> bool {
    &&& 0 <= index < fixtures.len()
    &&& is_open_fixture_of(fixtures[index], team_id)
    &&& forall|j: int|
        0 <= j < fixtures.len() && is_open_fixture_of(#[trigger] fixtures[j], team_id)
            ==> fixtures[index].matchday <= fixtures[j].matchday
    &&& forall|j: int|
        0 <= j < index && is_open_fixture_of(#[trigger] fixtures[j], team_id)
            ==> fixtures[index].matchday < fixtures[j].matchday
}

/// The test of a fixture for a match day.
pub open spec fn on_matchday(matchday: u32) -> spec_fn(Fixture) -> bool {
    |fixture: Fixture| fixture.matchday == matchday
}

/// Whether all fixtures are finished.
pub open spec fn all_finished(fixtures: Seq<Fixture>) -> bool {
    forall|i: int| 0 <= i < fixtures.len() ==> (#[trigger] fixtures[i]).status == MatchStatus::Finished
}

/// The test of a line for a range of positions.
pub open spec fn in_positions(start_pos: u8, end_pos: u8) -> spec_fn(Standing) -> bool {
    |standing: Standing| start_pos <= standing.position <= end_pos
}

/// The team of a line.
pub open spec fn team_of() -> spec_fn(Standing) -> u128 {
    |standing: Standing| standing.team_id
}

/// The first line of the team `team_id`, by place.
pub fn first_standing_of(standings: &Vec<Standing>, team_id: u128) -> (place: Option<usize>)
    ensures
        place matches Some(index) ==> is_first_standing(standings@, index as int, team_id),
        place is None ==> forall|j: int|
            0 <= j < standings@.len() ==> (#[trigger] standings@[j]).team_id != team_id,
{
    let mut i: usize = 0;
    while i < standings.len()
        invariant
            0 <= i <= standings@.len(),
            forall|j: int| 0 <= j < i ==> (#[trigger] standings@[j]).team_id != team_id,
        decreases standings@.len() - i,
    {
        if standings[i].team_id == team_id {
            return Some(i);
        }
        i = i + 1;
    }
    None
}

/// Whether `id` is one of the teams.
pub fn contains_team(teams: &Vec<u128>, id: u128) -> (found: bool)
    ensures
        found == has_team(teams@, id),
{
    let mut i: usize = 0;
    while i < teams.len()
        invariant
            0 <= i <= teams@.len(),
            forall|j: int| 0 <= j < i ==> #[trigger] teams@[j] != id,
        decreases teams@.len() - i,
    {
        if teams[i] == id {
            return true;
        }
        i = i + 1;
    }
    false
}

/// Whether the first line ranks strictly above the second.
pub fn ranks_higher(first: &Standing, second: &Standing) -> (above: bool)
    ensures
        above == ranks_above(*first, *second),
{
    first.points > second.points || (first.points == second.points && first.goal_difference
        > second.goal_difference) || (first.points == second.points && first.goal_difference
        == second.goal_difference && first.goals_for > second.goals_for)
}

/// Ranks the lines of a table: by points, then by goal difference, then by
/// goals scored, the best first. Lines that are level keep their order.
pub fn rank(standings: &mut Vec<Standing>) -> (origin: Ghost<Seq<int>>)
    ensures
        is_sorting(old(standings)@, final(standings)@, origin@),
{
    let ghost before = standings@;
    let ghost mut origin: Seq<int> = Seq::new(before.len(), |i: int| i);
    let mut k: usize = 0;
    while k < standings.len()
        invariant
            0 <= k <= before.len(),
            standings@.len() == before.len(),
            origin.len() == before.len(),
            forall|i: int| 0 <= i < k ==> 0 <= #[trigger] origin[i] < k,
            forall|i: int| k <= i < origin.len() ==> #[trigger] origin[i] == i,
            forall|i: int, j: int| 0 <= i < j < k ==> #[trigger] origin[i] != #[trigger] origin[j],
            forall|i: int| 0 <= i < standings@.len() ==> #[trigger] standings@[i] == before[origin[i]],
            forall|i: int, j: int|
                0 <= i < j < k ==> !ranks_above(#[trigger] standings@[j], #[trigger] standings@[i]),
            forall|i: int, j: int|
                0 <= i < j < k && ranks_level(standings@[i], standings@[j]) ==> #[trigger] origin[i]
                    < #[trigger] origin[j],
        decreases before.len() - k,
    {
        let mut place: usize = 0;
        while place < k && !ranks_higher(&standings[k], &standings[place])
            invariant
                0 <= place <= k < standings@.len(),
                forall|i: int|
                    0 <= i < place ==> !ranks_above(standings@[k as int], #[trigger] standings@[i]),
            decreases k - place,
        {
            place = place + 1;
        }
        let ghost sorted = standings@;
        let ghost came = origin;
        let moved: Standing = standings.remove(k);
        standings.insert(place, moved);
        proof {
            origin = came.remove(k as int).insert(place as int, came[k as int]);
            assert forall|i: int| 0 <= i < standings@.len() implies {
                &&& #[trigger] standings@[i] == (if i < place {
                    sorted[i]
                } else if i == place {
                    sorted[k as int]
                } else if i <= k {
                    sorted[i - 1]
                } else {
                    sorted[i]
                })
                &&& #[trigger] origin[i] == (if i < place {
                    came[i]
                } else if i == place {
                    came[k as int]
                } else if i <= k {
                    came[i - 1]
                } else {
                    came[i]
                })
            } by {}
            assert forall|i: int, j: int| 0 <= i < j < k + 1 implies !ranks_above(
                #[trigger] standings@[j],
                #[trigger] standings@[i],
            ) by {
                if j == place {
                } else if i == place {
                    assert(ranks_above(sorted[k as int], sorted[place as int]));
                    if j - 1 > place {
                        assert(!ranks_above(sorted[j - 1], sorted[place as int]));
                    }
                } else {
                    let from_i = if i < place {
                        i
                    } else {
                        i - 1
                    };
                    let from_j = if j < place {
                        j
                    } else {
                        j - 1
                    };
                    assert(!ranks_above(sorted[from_j], sorted[from_i]));
                }
            }
            assert forall|i: int, j: int|
                0 <= i < j < k + 1 && ranks_level(standings@[i], standings@[j]) implies #[trigger] origin[i]
                < #[trigger] origin[j] by {
                if j == place {
                    assert(came[i] < k);
                } else if i == place {
                    assert(ranks_above(sorted[k as int], sorted[place as int]));
                    if j - 1 > place {
                        assert(!ranks_above(sorted[j - 1], sorted[place as int]));
                    }
                } else {
                    let from_i = if i < place {
                        i
                    } else {
                        i - 1
                    };
                    let from_j = if j < place {
                        j
                    } else {
                        j - 1
                    };
                    assert(ranks_level(sorted[from_i], sorted[from_j]));
                    assert(came[from_i] < came[from_j]);
                }
            }
            assert forall|i: int, j: int| 0 <= i < j < k + 1 implies #[trigger] origin[i]
                != #[trigger] origin[j] by {
                let from_i = if i < place {
                    i
                } else if i == place {
                    k as int
                } else {
                    i - 1
                };
                let from_j = if j < place {
                    j
                } else if j == place {
                    k as int
                } else {
                    j - 1
                };
                if from_i < k && from_j < k {
                    if from_i < from_j {
                        assert(came[from_i] != came[from_j]);
                    } else {
                        assert(came[from_j] != came[from_i]);
                    }
                } else if from_i < k {
                    assert(came[from_i] < k);
                } else {
                    assert(came[from_j] < k);
                }
            }
            assert forall|i: int| 0 <= i < k + 1 implies 0 <= #[trigger] origin[i] < k + 1 by {
                if i < place {
                    assert(came[i] < k);
                } else if i > place {
                    assert(came[i - 1] < k);
                }
            }
        }
        k = k + 1;
    }
    Ghost(origin)
}

/// Whether `after` is `before` in the order of the table, where the line in
/// place `i` of `after` comes from place `origin[i]` of `before`.
pub open spec fn is_sorting(before: Seq<Standing>, after: Seq<Standing>, origin: Seq<int>) -> bool {
    &&& after.len() == before.len()
    &&& origin.len() == before.len()
    &&& forall|i: int| 0 <= i < origin.len() ==> 0 <= #[trigger] origin[i] < before.len()
    &&& forall|i: int, j: int|
        0 <= i < j < origin.len() ==> #[trigger] origin[i] != #[trigger] origin[j]
    &&& forall|i: int| 0 <= i < after.len() ==> #[trigger] after[i] == before[origin[i]]
    &&& forall|i: int, j: int|
        0 <= i < j < after.len() ==> !ranks_above(#[trigger] after[j], #[trigger] after[i])
    &&& forall|i: int, j: int|
        0 <= i < j < after.len() && ranks_level(after[i], after[j]) ==> #[trigger] origin[i]
            < #[trigger] origin[j]
}

/// The competition engine.
#[derive(Debug, Clone, Copy)]
pub struct CompetitionEngine;

impl CompetitionEngine {
    pub fn new() -> (engine: CompetitionEngine) {
        CompetitionEngine
    }

    /// Starts a season: every team gets a fresh line in the table, the
    /// fixtures of a double round are generated, and the season is active on
    /// its first match day.
    pub fn initialize_season(&self, competition: &mut Competition)
        requires
            old(competition).teams@.len() <= MAX_TEAMS,
        ensures
            final(competition).standings@.len() == old(competition).teams@.len(),
            forall|i: int|
                0 <= i < old(competition).teams@.len() ==> is_fresh_standing(
                    #[trigger] final(competition).standings@[i],
                    old(competition).teams@[i],
                ),
            is_schedule_of(
                final(competition).fixtures@,
                old(competition).teams@,
                old(competition).id,
            ),
            final(competition).current_season.is_active,
            final(competition).current_season.current_matchday == 1,
            final(competition).current_season.start_date == old(competition).current_season.start_date,
            final(competition).current_season.end_date == old(competition).current_season.end_date,
            final(competition).id == old(competition).id,
            final(competition).name == old(competition).name,
            final(competition).country == old(competition).country,
            final(competition).level == old(competition).level,
            final(competition).teams == old(competition).teams,
            final(competition).competition_type == old(competition).competition_type,
            final(competition).season_start == old(competition).season_start,
            final(competition).season_end == old(competition).season_end,
    {
        let mut standings: Vec<Standing> = Vec::new();
        let mut i: usize = 0;
        while i < competition.teams.len()
            invariant
                0 <= i <= competition.teams@.len(),
                *competition == *old(competition),
                standings@.len() == i,
                forall|j: int|
                    0 <= j < i ==> is_fresh_standing(#[trigger] standings@[j], competition.teams@[j]),
            decreases competition.teams@.len() - i,
        {
            standings.push(
                Standing {
                    team_id: competition.teams[i],
                    position: 0,
                    points: 0,
                    played: 0,
                    won: 0,
                    drawn: 0,
                    lost: 0,
                    goals_for: 0,
                    goals_against: 0,
                    goal_difference: 0,
                    form: Vec::new(),
                },
            );
            i = i + 1;
        }
        competition.standings = standings;
        let fixtures: Vec<Fixture> = self.generate_fixtures(
            competition.teams.as_slice(),
            competition.id,
            competition.name.as_str(),
        );
        competition.fixtures = fixtures;
        competition.current_season.is_active = true;
        competition.current_season.current_matchday = 1;
    }

    /// Generates the fixtures of a double round: every team is at home
    /// against every other, in the order of the list of teams. Every fixture
    /// gets a fresh identifier and today's date. The name of the competition
    /// does not enter.
    pub fn generate_fixtures(&self, teams: &[u128], competition_id: u128, _competition_name: &str)
        -> (fixtures: Vec<Fixture>)
        requires
            teams@.len() <= MAX_TEAMS,
        ensures
            is_schedule_of(fixtures@, teams@, competition_id),
    {
        let mut fixtures: Vec<Fixture> = Vec::new();
        let count: usize = teams.len();
        let mut i: usize = 0;
        while i < count
            invariant
                0 <= i <= count,
                count == teams@.len(),
                count <= MAX_TEAMS,
                fixtures@.len() == i * (count - 1),
                forall|k: int|
                    0 <= k < fixtures@.len() ==> is_fixture_of(
                        #[trigger] fixtures@[k],
                        teams@,
                        competition_id,
                        k,
                    ),
            decreases count - i,
        {
            let mut j: usize = 0;
            while j < count
                invariant
                    0 <= i < count,
                    0 <= j <= count,
                    count == teams@.len(),
                    count <= MAX_TEAMS,
                    fixtures@.len() == i * (count - 1) + (if j <= i {
                        j as int
                    } else {
                        j - 1
                    }),
                    forall|k: int|
                        0 <= k < fixtures@.len() ==> is_fixture_of(
                            #[trigger] fixtures@[k],
                            teams@,
                            competition_id,
                            k,
                        ),
                decreases count - j,
            {
                if i != j {
                    let ghost number = fixtures@.len() as int;
                    let ghost rest: int = if j < i {
                        j as int
                    } else {
                        j - 1
                    };
                    proof {
                        assert(number == i * (count - 1) + rest);
                        assert(0 <= rest < count - 1);
                        assert(i * (count - 1) <= 65_535 * 65_534) by (nonlinear_arith)
                            requires
                                0 <= i <= 65_535,
                                0 <= count - 1 <= 65_534,
                        ;
                        assert((i * (count - 1) + rest) / (count - 1) == i && (i * (count - 1)
                            + rest) % (count - 1) == rest) by (nonlinear_arith)
                            requires
                                0 <= rest < count - 1,
                                0 <= i,
                        ;
                    }
                    let matchday: u32 = fixtures.len() as u32 / (count as u32 - 1) + 1;
                    fixtures.push(
                        Fixture {
                            id: generate_unique_id(),
                            competition_id,
                            home_team: teams[i],
                            away_team: teams[j],
                            scheduled_date: today(),
                            venue: teams[i],
                            status: MatchStatus::Scheduled,
                            result: None,
                            matchday,
                        },
                    );
                }
                j = j + 1;
            }
            proof {
                assert((i + 1) * (count - 1) == i * (count - 1) + (count - 1)) by (nonlinear_arith);
            }
            i = i + 1;
        }
        proof {
            assert(count * (count - 1) == teams@.len() * (teams@.len() - 1));
        }
        fixtures
    }

    /// Records a finished match in a competition: the result is entered in
    /// the fixture of the match, both teams get the result in their lines,
    /// and the table is ranked anew. A match without a final score changes
    /// nothing.
    pub fn process_match_result(
        &self,
        competition: &mut Competition,
        match_result: &Match,
        home_team: &Team,
        away_team: &Team,
    )
        requires
            can_record(*old(competition), home_team.id, away_team.id),
        ensures
            match_recorded(
                *old(competition),
                *final(competition),
                *match_result,
                home_team.id,
                away_team.id,
            ),
    {
        if let Some((home_goals, away_goals)) = match_result.fulltime_score {
            let ghost fixtures_before = competition.fixtures@;
            let mut i: usize = 0;
            let mut found: Option<usize> = None;
            while i < competition.fixtures.len() && found.is_none()
                invariant
                    0 <= i <= competition.fixtures@.len(),
                    *competition == *old(competition),
                    found matches Some(index) ==> is_first_fixture(
                        competition.fixtures@,
                        index as int,
                        match_result.id,
                    ),
                    found is None ==> forall|j: int|
                        0 <= j < i ==> (#[trigger] competition.fixtures@[j]).id != match_result.id,
                decreases competition.fixtures@.len() - i + (if found is None {
                    1int
                } else {
                    0int
                }),
            {
                if competition.fixtures[i].id == match_result.id {
                    found = Some(i);
                } else {
                    i = i + 1;
                }
            }
            if let Some(index) = found {
                competition.fixtures[index].result = Some(
                    FixtureResult {
                        home_score: home_goals,
                        away_score: away_goals,
                        winner: if home_goals > away_goals {
                            Some(home_team.id)
                        } else if away_goals > home_goals {
                            Some(away_team.id)
                        } else {
                            None
                        },
                    },
                );
                competition.fixtures[index].status = MatchStatus::Finished;
            }
            proof {
                assert forall|k: int| 0 <= k < fixtures_before.len() implies #[trigger] competition.fixtures@[k]
                    == if is_first_fixture(fixtures_before, k, match_result.id) {
                    (Fixture {
                        result: Some(
                            fixture_result_of(home_goals, away_goals, home_team.id, away_team.id),
                        ),
                        status: MatchStatus::Finished,
                        ..fixtures_before[k]
                    })
                } else {
                    fixtures_before[k]
                } by {
                    if is_first_fixture(fixtures_before, k, match_result.id) {
                        match found {
                            Some(index) => {
                                if index < k {
                                    assert(fixtures_before[index as int].id != match_result.id);
                                }
                                if k < index {
                                    assert(fixtures_before[k].id != match_result.id);
                                }
                            },
                            None => {
                                assert(fixtures_before[k].id != match_result.id);
                            },
                        }
                    }
                }
            }
            let ghost standings_before = competition.standings@;
            self.update_standings(competition, home_team.id, home_goals, away_goals, true);
            let ghost first = competition.standings@;
            proof {
                assert forall|k: int| #[trigger]
                    is_first_standing(first, k, away_team.id) implies has_room_for(first[k], 1) by {
                    lemma_first_standing_kept(standings_before, first, k, away_team.id);
                    assert(is_first_standing(standings_before, k, away_team.id));
                }
            }
            self.update_standings(competition, away_team.id, away_goals, home_goals, false);
            let ghost second = competition.standings@;
            self.sort_standings(competition);
            proof {
                let origin = choose|origin: Seq<int>| #[trigger]
                    is_ranking(second, competition.standings@, origin);
                assert(standings_updated(first, second, away_team.id, away_goals, home_goals));
                assert(is_ranking(second, competition.standings@, origin));
            }
        }
    }

    /// Enters one more result in the first line of the team `team_id`. A
    /// team without a line leaves the table as it is.
    pub fn update_standings(
        &self,
        competition: &mut Competition,
        team_id: u128,
        team_goals: u8,
        opponent_goals: u8,
        _is_home: bool,
    )
        requires
            team_has_room(old(competition).standings@, team_id, 1),
        ensures
            standings_updated(
                old(competition).standings@,
                final(competition).standings@,
                team_id,
                team_goals,
                opponent_goals,
            ),
            final(competition).fixtures == old(competition).fixtures,
            final(competition).id == old(competition).id,
            final(competition).name == old(competition).name,
            final(competition).country == old(competition).country,
            final(competition).level == old(competition).level,
            final(competition).teams == old(competition).teams,
            final(competition).competition_type == old(competition).competition_type,
            final(competition).season_start == old(competition).season_start,
            final(competition).season_end == old(competition).season_end,
            final(competition).current_season == old(competition).current_season,
    {
        let ghost before = competition.standings@;
        let found: Option<usize> = first_standing_of(&competition.standings, team_id);
        if let Some(index) = found {
            assert(is_first_standing(before, index as int, team_id));
            assert(has_room_for(before[index as int], 1));
            competition.standings[index].played = competition.standings[index].played + 1;
            competition.standings[index].goals_for = competition.standings[index].goals_for
                + team_goals as u32;
            competition.standings[index].goals_against = competition.standings[index].goals_against
                + opponent_goals as u32;
            competition.standings[index].goal_difference = competition.standings[index].goals_for as i32
                - competition.standings[index].goals_against as i32;
            let result: FormResult = if team_goals > opponent_goals {
                competition.standings[index].won = competition.standings[index].won + 1;
                competition.standings[index].points = competition.standings[index].points + 3;
                FormResult::Win
            } else if team_goals == opponent_goals {
                competition.standings[index].drawn = competition.standings[index].drawn + 1;
                competition.standings[index].points = competition.standings[index].points + 1;
                FormResult::Draw
            } else {
                competition.standings[index].lost = competition.standings[index].lost + 1;
                FormResult::Loss
            };
            competition.standings[index].form.push(result);
            if competition.standings[index].form.len() > FORM_LENGTH {
                competition.standings[index].form.remove(0);
            }
            assert(competition.standings@[index as int].form@ =~= form_after(
                before[index as int].form@,
                result,
            ));
        }
        proof {
            assert forall|k: int| 0 <= k < before.len() implies if is_first_standing(
                before,
                k,
                team_id,
            ) {
                is_updated_standing(
                    before[k],
                    #[trigger] competition.standings@[k],
                    team_goals,
                    opponent_goals,
                )
            } else {
                competition.standings@[k] == before[k]
            } by {
                if is_first_standing(before, k, team_id) {
                    match found {
                        Some(index) => {
                            if index < k {
                                assert(before[index as int].team_id != team_id);
                            }
                            if k < index {
                                assert(before[k].team_id != team_id);
                            }
                        },
                        None => {
                            assert(before[k].team_id != team_id);
                        },
                    }
                }
            }
        }
    }

    /// Ranks the table and gives every line its position, counted from 1.
    pub fn sort_standings(&self, competition: &mut Competition)
        ensures
            exists|origin: Seq<int>| #[trigger]
                is_ranking(old(competition).standings@, final(competition).standings@, origin),
            final(competition).fixtures == old(competition).fixtures,
            final(competition).id == old(competition).id,
            final(competition).name == old(competition).name,
            final(competition).country == old(competition).country,
            final(competition).level == old(competition).level,
            final(competition).teams == old(competition).teams,
            final(competition).competition_type == old(competition).competition_type,
            final(competition).season_start == old(competition).season_start,
            final(competition).season_end == old(competition).season_end,
            final(competition).current_season == old(competition).current_season,
    {
        let ghost before = competition.standings@;
        let origin = rank(&mut competition.standings);
        let ghost sorted = competition.standings@;
        let mut i: usize = 0;
        while i < competition.standings.len()
            invariant
                0 <= i <= sorted.len(),
                competition.standings@.len() == sorted.len(),
                is_sorting(before, sorted, origin@),
                forall|k: int| 0 <= k < i ==> is_placed(sorted[k], #[trigger] competition.standings@[k], k),
                forall|k: int| i <= k < sorted.len() ==> #[trigger] competition.standings@[k] == sorted[k],
                competition.fixtures == old(competition).fixtures,
                competition.id == old(competition).id,
                competition.name == old(competition).name,
                competition.country == old(competition).country,
                competition.level == old(competition).level,
                competition.teams == old(competition).teams,
                competition.competition_type == old(competition).competition_type,
                competition.season_start == old(competition).season_start,
                competition.season_end == old(competition).season_end,
                competition.current_season == old(competition).current_season,
            decreases sorted.len() - i,
        {
            competition.standings[i].position = ((i + 1) % 256) as u8;
            i = i + 1;
        }
        proof {
            assert forall|a: int, b: int| 0 <= a < b < sorted.len() implies !ranks_above(
                #[trigger] competition.standings@[b],
                #[trigger] competition.standings@[a],
            ) by {
                assert(is_placed(sorted[a], competition.standings@[a], a));
                assert(is_placed(sorted[b], competition.standings@[b], b));
                assert(!ranks_above(sorted[b], sorted[a]));
            }
            assert forall|a: int, b: int|
                0 <= a < b < sorted.len() && ranks_level(
                    competition.standings@[a],
                    competition.standings@[b],
                ) implies #[trigger] origin@[a] < #[trigger] origin@[b] by {
                assert(is_placed(sorted[a], competition.standings@[a], a));
                assert(is_placed(sorted[b], competition.standings@[b], b));
                assert(ranks_level(sorted[a], sorted[b]));
            }
            assert forall|a: int| 0 <= a < sorted.len() implies is_placed(
                before[origin@[a]],
                #[trigger] competition.standings@[a],
                a,
            ) by {
                assert(is_placed(sorted[a], competition.standings@[a], a));
                assert(sorted[a] == before[origin@[a]]);
            }
            assert(is_ranking(before, competition.standings@, origin@));
        }
    }

    /// Records a finished match in every competition that both teams play
    /// in.
    pub fn update_competition_after_match(
        &self,
        competitions: &mut [Competition],
        match_result: &Match,
        home_team: &Team,
        away_team: &Team,
    )
        requires
            forall|i: int|
                0 <= i < old(competitions)@.len() ==> can_record(
                    #[trigger] old(competitions)@[i],
                    home_team.id,
                    away_team.id,
                ),
        ensures
            final(competitions)@.len() == old(competitions)@.len(),
            forall|i: int|
                0 <= i < old(competitions)@.len() ==> if has_team(
                    old(competitions)@[i].teams@,
                    home_team.id,
                ) && has_team(old(competitions)@[i].teams@, away_team.id) {
                    match_recorded(
                        old(competitions)@[i],
                        #[trigger] final(competitions)@[i],
                        *match_result,
                        home_team.id,
                        away_team.id,
                    )
                } else {
                    final(competitions)@[i] == old(competitions)@[i]
                },
    {
        let mut i: usize = 0;
        while i < competitions.len()
            invariant
                0 <= i <= competitions@.len(),
                competitions@.len() == old(competitions)@.len(),
                forall|k: int|
                    i <= k < competitions@.len() ==> #[trigger] competitions@[k] == old(competitions)@[k],
                forall|k: int|
                    0 <= k < old(competitions)@.len() ==> can_record(
                        #[trigger] old(competitions)@[k],
                        home_team.id,
                        away_team.id,
                    ),
                forall|k: int|
                    0 <= k < i ==> if has_team(old(competitions)@[k].teams@, home_team.id)
                        && has_team(old(competitions)@[k].teams@, away_team.id) {
                        match_recorded(
                            old(competitions)@[k],
                            #[trigger] competitions@[k],
                            *match_result,
                            home_team.id,
                            away_team.id,
                        )
                    } else {
                        competitions@[k] == old(competitions)@[k]
                    },
            decreases competitions@.len() - i,
        {
            if contains_team(&competitions[i].teams, home_team.id) && contains_team(
                &competitions[i].teams,
                away_team.id,
            ) {
                assert(can_record(old(competitions)@[i as int], home_team.id, away_team.id));
                self.process_match_result(&mut competitions[i], match_result, home_team, away_team);
            }
            i = i + 1;
        }
    }

    /// A copy of the table of a competition.
    pub fn get_league_table(&self, competition: &Competition) -> (table: Vec<Standing>)
        ensures
            table@.len() == competition.standings@.len(),
            forall|i: int|
                0 <= i < table@.len() ==> is_same_line(
                    #[trigger] table@[i],
                    competition.standings@[i],
                ),
    {
        let mut table: Vec<Standing> = Vec::new();
        let mut i: usize = 0;
        while i < competition.standings.len()
            invariant
                0 <= i <= competition.standings@.len(),
                table@.len() == i,
                forall|k: int|
                    0 <= k < i ==> is_same_line(#[trigger] table@[k], competition.standings@[k]),
            decreases competition.standings@.len() - i,
        {
            let line: &Standing = &competition.standings[i];
            let mut form: Vec<FormResult> = Vec::new();
            let mut j: usize = 0;
            while j < line.form.len()
                invariant
                    0 <= j <= line.form@.len(),
                    form@ == line.form@.take(j as int),
                decreases line.form@.len() - j,
            {
                form.push(line.form[j]);
                assert(form@ =~= line.form@.take(j + 1));
                j = j + 1;
            }
            assert(line.form@.take(line.form@.len() as int) =~= line.form@);
            table.push(
                Standing {
                    team_id: line.team_id,
                    position: line.position,
                    played: line.played,
                    won: line.won,
                    drawn: line.drawn,
                    lost: line.lost,
                    goals_for: line.goals_for,
                    goals_against: line.goals_against,
                    points: line.points,
                    form,
                    goal_difference: line.goal_difference,
                },
            );
            i = i + 1;
        }
        table
    }

    /// The next fixture of a team: the first among those of the earliest
    /// match day that concern the team and are still to be played.
    pub fn get_next_fixture_for_team<'a>(&self, competition: &'a Competition, team_id: u128) -> (next:
        Option<&'a Fixture>)
        ensures
            match next {
                Some(fixture) => exists|index: int|
                    #[trigger] is_next_fixture(competition.fixtures@, index, team_id) && *fixture
                        == competition.fixtures@[index],
                None => forall|j: int|
                    0 <= j < competition.fixtures@.len() ==> !is_open_fixture_of(
                        #[trigger] competition.fixtures@[j],
                        team_id,
                    ),
            },
    {
        let mut best: Option<usize> = None;
        let mut i: usize = 0;
        while i < competition.fixtures.len()
            invariant
                0 <= i <= competition.fixtures@.len(),
                match best {
                    Some(index) => is_next_fixture(
                        competition.fixtures@.take(i as int),
                        index as int,
                        team_id,
                    ),
                    None => forall|j: int|
                        0 <= j < i ==> !is_open_fixture_of(
                            #[trigger] competition.fixtures@[j],
                            team_id,
                        ),
                },
            decreases competition.fixtures@.len() - i,
        {
            let fixture: &Fixture = &competition.fixtures[i];
            let ghost seen = competition.fixtures@.take(i as int);
            let ghost more = competition.fixtures@.take(i + 1);
            let open: bool = (fixture.home_team == team_id || fixture.away_team == team_id)
                && fixture.status == MatchStatus::Scheduled;
            if open {
                match best {
                    Some(index) => {
                        if fixture.matchday < competition.fixtures[index].matchday {
                            best = Some(i);
                            proof {
                                assert forall|j: int|
                                    0 <= j < more.len() && is_open_fixture_of(
                                        #[trigger] more[j],
                                        team_id,
                                    ) implies more[i as int].matchday <= more[j].matchday by {
                                    if j < i {
                                        assert(is_open_fixture_of(seen[j], team_id));
                                    }
                                }
                                assert forall|j: int|
                                    0 <= j < i && is_open_fixture_of(
                                        #[trigger] more[j],
                                        team_id,
                                    ) implies more[i as int].matchday < more[j].matchday by {
                                    assert(is_open_fixture_of(seen[j], team_id));
                                }
                            }
                        } else {
                            proof {
                                assert forall|j: int|
                                    0 <= j < more.len() && is_open_fixture_of(
                                        #[trigger] more[j],
                                        team_id,
                                    ) implies more[index as int].matchday <= more[j].matchday by {
                                    if j < i {
                                        assert(is_open_fixture_of(seen[j], team_id));
                                    }
                                }
                                assert forall|j: int|
                                    0 <= j < index && is_open_fixture_of(
                                        #[trigger] more[j],
                                        team_id,
                                    ) implies more[index as int].matchday < more[j].matchday by {
                                    assert(is_open_fixture_of(seen[j], team_id));
                                }
                            }
                        }
                    },
                    None => {
                        best = Some(i);
                        proof {
                            assert forall|j: int|
                                0 <= j < i implies !is_open_fixture_of(#[trigger] more[j], team_id) by {
                                assert(more[j] == competition.fixtures@[j]);
                            }
                        }
                    },
                }
            } else {
                proof {
                    match best {
                        Some(index) => {
                            assert forall|j: int|
                                0 <= j < more.len() && is_open_fixture_of(
                                    #[trigger] more[j],
                                    team_id,
                                ) implies more[index as int].matchday <= more[j].matchday by {
                                if j < i {
                                    assert(is_open_fixture_of(seen[j], team_id));
                                }
                            }
                            assert forall|j: int|
                                0 <= j < index && is_open_fixture_of(
                                    #[trigger] more[j],
                                    team_id,
                                ) implies more[index as int].matchday < more[j].matchday by {
                                assert(is_open_fixture_of(seen[j], team_id));
                            }
                        },
                        None => {},
                    }
                }
            }
            i = i + 1;
        }
        proof {
            assert(competition.fixtures@.take(competition.fixtures@.len() as int)
                =~= competition.fixtures@);
        }
        match best {
            Some(index) => Some(&competition.fixtures[index]),
            None => None,
        }
    }

    /// The fixtures of a match day, in their order.
    pub fn get_fixtures_for_matchday(&self, competition: &Competition, matchday: u32) -> (fixtures:
        Vec<Fixture>)
        ensures
            fixtures@ == competition.fixtures@.filter(on_matchday(matchday)),
    {
        let mut fixtures: Vec<Fixture> = Vec::new();
        let mut i: usize = 0;
        proof {
            reveal(Seq::filter);
            assert(competition.fixtures@.take(0) =~= Seq::<Fixture>::empty());
        }
        while i < competition.fixtures.len()
            invariant
                0 <= i <= competition.fixtures@.len(),
                fixtures@ == competition.fixtures@.take(i as int).filter(on_matchday(matchday)),
            decreases competition.fixtures@.len() - i,
        {
            proof {
                assert(competition.fixtures@.take(i + 1) =~= competition.fixtures@.take(
                    i as int,
                ).push(competition.fixtures@[i as int]));
                competition.fixtures@.take(i as int).lemma_filter_push(
                    competition.fixtures@[i as int],
                    on_matchday(matchday),
                );
            }
            if competition.fixtures[i].matchday == matchday {
                fixtures.push(competition.fixtures[i]);
            }
            i = i + 1;
        }
        proof {
            assert(competition.fixtures@.take(competition.fixtures@.len() as int)
                =~= competition.fixtures@);
        }
        fixtures
    }

    /// The strength of a team: its reputation.
    pub fn calculate_team_strength(&self, team: &Team) -> (strength: i64)
        ensures
            strength == team.reputation,
    {
        team.reputation
    }

    /// Whether every fixture of a competition is finished.
    pub fn is_competition_finished(&self, competition: &Competition) -> (finished: bool)
        ensures
            finished == all_finished(competition.fixtures@),
    {
        let mut i: usize = 0;
        while i < competition.fixtures.len()
            invariant
                0 <= i <= competition.fixtures@.len(),
                forall|j: int|
                    0 <= j < i ==> (#[trigger] competition.fixtures@[j]).status
                        == MatchStatus::Finished,
            decreases competition.fixtures@.len() - i,
        {
            match competition.fixtures[i].status {
                MatchStatus::Finished => {},
                _ => {
                    return false;
                },
            }
            i = i + 1;
        }
        true
    }

    /// The winner of a finished competition: the team on top of the table.
    /// There is none while a fixture is open, or where the table is empty.
    pub fn get_competition_winner(&self, competition: &Competition) -> (winner: Option<u128>)
        ensures
            winner == (if all_finished(competition.fixtures@) && competition.standings@.len() > 0 {
                Some(competition.standings@[0].team_id)
            } else {
                None
            }),
    {
        if !self.is_competition_finished(competition) {
            return None;
        }
        if competition.standings.len() > 0 {
            Some(competition.standings[0].team_id)
        } else {
            None
        }
    }

    /// Ends the season of a competition.
    pub fn finalize_season(&self, competition: &mut Competition)
        ensures
            !final(competition).current_season.is_active,
            final(competition).current_season.current_matchday == old(competition).current_season.current_matchday,
            final(competition).current_season.start_date == old(competition).current_season.start_date,
            final(competition).current_season.end_date == old(competition).current_season.end_date,
            final(competition).standings == old(competition).standings,
            final(competition).fixtures == old(competition).fixtures,
            final(competition).teams == old(competition).teams,
            final(competition).id == old(competition).id,
            final(competition).name == old(competition).name,
            final(competition).country == old(competition).country,
            final(competition).level == old(competition).level,
            final(competition).competition_type == old(competition).competition_type,
            final(competition).season_start == old(competition).season_start,
            final(competition).season_end == old(competition).season_end,
    {
        competition.current_season.is_active = false;
    }

    /// The teams whose position lies between `start_pos` and `end_pos`, in
    /// the order of the table.
    pub fn get_teams_by_position_range(&self, competition: &Competition, start_pos: u8, end_pos: u8)
        -> (teams: Vec<u128>)
        ensures
            teams@ == competition.standings@.filter(in_positions(start_pos, end_pos)).map_values(
                team_of(),
            ),
    {
        let mut teams: Vec<u128> = Vec::new();
        let mut i: usize = 0;
        proof {
            reveal(Seq::filter);
            assert(competition.standings@.take(0) =~= Seq::<Standing>::empty());
            assert(teams@ =~= competition.standings@.take(0).filter(
                in_positions(start_pos, end_pos),
            ).map_values(team_of()));
        }
        while i < competition.standings.len()
            invariant
                0 <= i <= competition.standings@.len(),
                teams@ == competition.standings@.take(i as int).filter(
                    in_positions(start_pos, end_pos),
                ).map_values(team_of()),
            decreases competition.standings@.len() - i,
        {
            let ghost seen = competition.standings@.take(i as int);
            proof {
                assert(competition.standings@.take(i + 1) =~= seen.push(
                    competition.standings@[i as int],
                ));
                seen.lemma_filter_push(
                    competition.standings@[i as int],
                    in_positions(start_pos, end_pos),
                );
            }
            if competition.standings[i].position >= start_pos && competition.standings[i].position
                <= end_pos {
                teams.push(competition.standings[i].team_id);
                proof {
                    assert(teams@ =~= seen.filter(in_positions(start_pos, end_pos)).push(
                        competition.standings@[i as int],
                    ).map_values(team_of()));
                }
            }
            i = i + 1;
        }
        proof {
            assert(competition.standings@.take(competition.standings@.len() as int)
                =~= competition.standings@);
        }
        teams
    }

    /// The teams of the last `num_teams` lines of the table, the last line
    /// first.
    pub fn get_bottom_teams(&self, competition: &Competition, num_teams: usize) -> (teams: Vec<u128>)
        ensures
            teams@.len() == (if num_teams < competition.standings@.len() {
                num_teams as int
            } else {
                competition.standings@.len() as int
            }),
            forall|k: int|
                0 <= k < teams@.len() ==> #[trigger] teams@[k] == competition.standings@[competition.standings@.len()
                    - 1 - k].team_id,
    {
        let mut teams: Vec<u128> = Vec::new();
        let length: usize = competition.standings.len();
        let mut taken: usize = 0;
        while taken < num_teams && taken < length
            invariant
                0 <= taken <= length,
                taken <= num_teams,
                length == competition.standings@.len(),
                teams@.len() == taken,
                forall|k: int|
                    0 <= k < taken ==> #[trigger] teams@[k] == competition.standings@[length - 1
                        - k].team_id,
            decreases length - taken,
        {
            teams.push(competition.standings[length - 1 - taken].team_id);
            taken = taken + 1;
        }
        teams
    }
}

/// A line that is not the first of a team before an update of the table is
/// not the first after it, and the other way round: an update leaves the
/// teams where they are.
pub proof fn lemma_first_standing_kept(
    before: Seq<Standing>,
    after: Seq<Standing>,
    index: int,
    team_id: u128,
)
    requires
        after.len() == before.len(),
        forall|k: int| 0 <= k < before.len() ==> (#[trigger] after[k]).team_id == before[k].team_id,
    ensures
        is_first_standing(after, index, team_id) == is_first_standing(before, index, team_id),
{
    if is_first_standing(after, index, team_id) {
        assert forall|j: int| 0 <= j < index implies (#[trigger] before[j]).team_id != team_id by {
            assert(after[j].team_id != team_id);
        }
    }
    if is_first_standing(before, index, team_id) {
        assert forall|j: int| 0 <= j < index implies (#[trigger] after[j]).team_id != team_id by {
            assert(before[j].team_id != team_id);
        }
    }
}

} // verus!
