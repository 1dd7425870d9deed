//! The reputation system: how performances build a player's name at home,
//! how a name at home becomes a name abroad, and how both fade.

use vstd::prelude::*;
use crate::entities::{is_percentage, Player, Position};
use crate::fixed::{clamp, clamp_to, fmul, lemma_fmul_bound, times, times_wide, SCALE};
use crate::utils::helpers::{lowercase_of, same_text, to_lowercase};

verus! {

/// How much is at stake in a match.
#[derive(Debug, Clone, Copy, PartialEq, Eq, Hash, Structural)]
pub enum MatchImportance {
    Friendly,
    League,
    Cup,
    Final,
    Continental,
}

/// How the team fared in a match.
#[derive(Debug, Clone, Copy, PartialEq, Eq, Hash, Structural)]
pub enum TeamPerformance {
    Win,
    Draw,
    Loss,
}

/// How the team fared in a season.
#[derive(Debug, Clone, Copy, PartialEq, Eq, Hash, Structural)]
pub enum TeamSuccess {
    LeagueWinner,
    CupWinner,
    /// Qualified for a continental competition
    Top4,
    MidTable,
    /// Relegated or fighting against it
    Relegation,
}

/// The figures of a season that count for awards.
#[derive(Debug, Clone, Copy, PartialEq, Eq)]
pub struct SeasonPerformance {
    /// In millionths
    pub average_match_rating: i64,
    pub goals: u32,
    pub assists: u32,
    pub appearances: u32,
    /// Counted for goalkeepers and defenders
    pub clean_sheets: u32,
}

/// The figures of a season that count for reputation.
#[derive(Debug, Clone, Copy, PartialEq, Eq)]
pub struct SeasonStats {
    pub appearances: u32,
    pub goals: u32,
    pub assists: u32,
    /// In millionths
    pub average_rating: i64,
    /// Counted for goalkeepers and defenders
    pub clean_sheets: u32,
}

impl Position {
    /// Whether the position is that of the goalkeeper, a centre back or a
    /// left or right back.
    pub open spec fn spec_is_goalkeeper_or_defender(self) -> bool {
        self == Position::GK || self == Position::CB || self == Position::LB || self
            == Position::RB
    }

    /// Whether the position is that of the goalkeeper, a centre back or a
    /// left or right back.
    pub fn is_goalkeeper_or_defender(&self) -> (yes: bool)
        ensures
            yes == self.spec_is_goalkeeper_or_defender(),
    {
        match self {
            Position::GK | Position::CB | Position::LB | Position::RB => true,
            _ => false,
        }
    }
}

/// What a match rating does to the name at home before anything else
/// enters.
pub open spec fn rating_reputation_change(rating: int) -> int {
    if rating >= 9_000_000 {
        3_000_000
    } else if rating >= 8_000_000 {
        2_000_000
    } else if rating >= 7_000_000 {
        1_000_000
    } else if rating >= 6_500_000 {
        200_000
    } else if rating >= 6_000_000 {
        -500_000
    } else if rating >= 5_000_000 {
        -1_000_000
    } else {
        -2_000_000
    }
}

/// How much the importance of a match multiplies what the rating does.
pub open spec fn importance_multiplier_of(importance: MatchImportance) -> int {
    match importance {
        MatchImportance::Friendly => 500_000,
        MatchImportance::League => 1_000_000,
        MatchImportance::Cup => 1_500_000,
        MatchImportance::Final => 2_000_000,
        MatchImportance::Continental => 2_500_000,
    }
}

/// What the result of the team adds.
pub open spec fn team_modifier_of(team_performance: TeamPerformance) -> int {
    match team_performance {
        TeamPerformance::Win => 500_000,
        TeamPerformance::Draw => 100_000,
        TeamPerformance::Loss => -300_000,
    }
}

/// The change of the name at home after a match: what the rating does,
/// times the importance of the match, plus 1.0 for a big moment, plus what
/// the result of the team adds.
pub open spec fn local_reputation_change_of(
    rating: int,
    importance: MatchImportance,
    is_big_moment: bool,
    team_performance: TeamPerformance,
) -> int {
    fmul(rating_reputation_change(rating), importance_multiplier_of(importance)) + (if is_big_moment {
        SCALE as int
    } else {
        0
    }) + team_modifier_of(team_performance)
}

/// How much faster a name travels abroad from an important match.
pub open spec fn conversion_importance_of(importance: MatchImportance) -> int {
    match importance {
        MatchImportance::Continental => 1_500_000,
        MatchImportance::Final => 1_300_000,
        _ => 1_000_000,
    }
}

/// What the name at home adds to the name abroad: the name at home and the
/// strength of the league, each as a share of 100, times the importance of
/// the match, times the base rate of 0.5.
pub open spec fn international_gain_of(
    local_reputation: int,
    league_strength: int,
    importance: MatchImportance,
) -> int {
    fmul(
        fmul(fmul(local_reputation / 100, league_strength / 100), conversion_importance_of(importance)),
        500_000,
    )
}

/// How fast a name abroad fades: the greater the name, the slower.
pub open spec fn decay_factor_of(international_reputation: int) -> int {
    if international_reputation > 70 * SCALE {
        10_000
    } else if international_reputation > 40 * SCALE {
        20_000
    } else {
        50_000
    }
}

/// The name at home after a match.
pub open spec fn local_reputation_after(
    player: Player,
    rating: int,
    importance: MatchImportance,
    is_big_moment: bool,
    team_performance: TeamPerformance,
) -> int {
    clamp_to(
        player.local_reputation + local_reputation_change_of(
            rating,
            importance,
            is_big_moment,
            team_performance,
        ),
        0,
        100 * SCALE,
    )
}

/// The name abroad after a match: the gain from the new name at home, less
/// the decay.
pub open spec fn international_reputation_after(
    player: Player,
    new_local_reputation: int,
    league_strength: int,
    importance: MatchImportance,
) -> int {
    clamp_to(
        player.international_reputation + international_gain_of(
            new_local_reputation,
            league_strength,
            importance,
        ) - decay_factor_of(player.international_reputation as int),
        0,
        100 * SCALE,
    )
}

/// How much the age of a player raises or lowers the interest in a
/// transfer.
pub open spec fn age_factor_of(age: int) -> int {
    if 15 <= age <= 21 {
        1_300_000
    } else if 22 <= age <= 25 {
        1_100_000
    } else if 26 <= age <= 29 {
        1_000_000
    } else if 30 <= age <= 32 {
        800_000
    } else if 33 <= age <= 35 {
        600_000
    } else {
        400_000
    }
}

/// The ability of a player in one number: 0.35 of the technical, 0.25 of
/// the physical and 0.40 of the mental average.
pub open spec fn ability_score_of(player: Player) -> int {
    fmul(player.technical.spec_average(), 350_000) + fmul(player.physical.spec_average(), 250_000)
        + fmul(player.mental.spec_average(), 400_000)
}

/// The interest that a club takes in a player: ability, half the potential,
/// half the form and 0.7 of the name abroad, times the age factor, times
/// `1 + club reputation / 200`, times `1 + positional needs / 100`.
pub open spec fn transfer_interest_score_of(
    player: Player,
    target_club_reputation: int,
    positional_needs: int,
) -> int {
    let base = ability_score_of(player) + player.hidden.potential_ceiling * (SCALE / 2) + fmul(
        player.form as int,
        500_000,
    ) + fmul(player.international_reputation as int, 700_000);
    fmul(
        fmul(fmul(base, age_factor_of(player.age as int)), SCALE + target_club_reputation / 200),
        SCALE + positional_needs / 100,
    )
}

/// What the success of the team adds to the chances of an award.
pub open spec fn team_success_factor_of(team_success: TeamSuccess) -> int {
    match team_success {
        TeamSuccess::LeagueWinner => 15_000_000,
        TeamSuccess::CupWinner => 10_000_000,
        TeamSuccess::Top4 => 5_000_000,
        TeamSuccess::MidTable => 0,
        TeamSuccess::Relegation => -5_000_000,
    }
}

/// How strong a contender for an award a player is: the average rating,
/// plus 0.1 a goal and 0.05 an assist, plus 0.15 a clean sheet for
/// goalkeepers and defenders, plus what the success of the team adds, plus
/// a fifth of the name abroad.
pub open spec fn award_contender_score_of(
    player: Player,
    season: SeasonPerformance,
    team_success: TeamSuccess,
) -> int {
    season.average_match_rating + season.goals * 100_000 + season.assists * 50_000 + (if player.primary_position.spec_is_goalkeeper_or_defender() {
        season.clean_sheets * 150_000
    } else {
        0
    }) + team_success_factor_of(team_success) + fmul(player.international_reputation as int, 200_000)
}

/// What the place of the team in the table adds to the score of a season.
pub open spec fn season_team_factor_of(team_position: int) -> int {
    if team_position == 1 {
        10_000_000
    } else if 2 <= team_position <= 4 {
        5_000_000
    } else if 5 <= team_position <= 6 {
        2_000_000
    } else if 16 <= team_position <= 17 {
        -2_000_000
    } else if 18 <= team_position <= 20 {
        -5_000_000
    } else {
        0
    }
}

/// The score of a season: 0.1 an appearance, 0.3 a goal, 0.2 an assist,
/// twice the average rating, plus what the place of the team adds.
pub open spec fn season_performance_score_of(stats: SeasonStats, team_position: int) -> int {
    stats.appearances * 100_000 + stats.goals * 300_000 + stats.assists * 200_000
        + stats.average_rating * 2 + season_team_factor_of(team_position)
}

/// What an award adds to the name abroad, by its name in lower case.
pub open spec fn award_boost_for(lowered: Seq<char>) -> int {
    if lowered == "ballon d'or"@ || lowered == "world player of the year"@ {
        25_000_000
    } else if lowered == "league best player"@ {
        15_000_000
    } else if lowered == "top scorer"@ {
        10_000_000
    } else if lowered == "best young player"@ {
        8_000_000
    } else if lowered == "team of the season"@ {
        5_000_000
    } else {
        2_000_000
    }
}

/// What an award adds to the name abroad. Upper and lower case are not told
/// apart.
pub open spec fn award_reputation_boost_of(award: Seq<char>) -> int {
    award_boost_for(lowercase_of(award))
}

/// What the place of the team in the table adds to the name abroad.
pub open spec fn team_success_reputation_boost_of(position: int) -> int {
    if position == 1 {
        12_000_000
    } else if 2 <= position <= 3 {
        8_000_000
    } else if 4 <= position <= 6 {
        5_000_000
    } else if 7 <= position <= 10 {
        2_000_000
    } else if 11 <= position <= 17 {
        0
    } else {
        -3_000_000
    }
}

/// The name abroad after the first `count` awards, each added in turn to a
/// name of at most 100.
pub open spec fn reputation_after_awards(reputation: int, awards: Seq<String>, count: int) -> int
    decreases count,
{
    if count <= 0 {
        reputation
    } else {
        clamp_to(
            reputation_after_awards(reputation, awards, count - 1) + award_reputation_boost_of(
                awards[count - 1]@,
            ),
            0,
            100 * SCALE,
        )
    }
}

/// The largest magnitude of an average rating that a season can be scored
/// with: 100.
pub const MAX_AVERAGE_RATING: i64 = 100_000_000;

/// The reputation engine.
#[derive(Debug, Clone, Copy)]
pub struct ReputationEngine;

impl ReputationEngine {
    pub fn new() -> (engine: ReputationEngine) {
        ReputationEngine
    }

    /// Moves the name of a player at home and abroad after a match.
    pub fn update_reputation(
        &self,
        player: &mut Player,
        match_rating: i64,
        match_importance: MatchImportance,
        is_big_moment: bool,
        league_strength: i64,
        team_performance: TeamPerformance,
    )
        requires
            is_percentage(old(player).local_reputation as int),
            is_percentage(old(player).international_reputation as int),
            is_percentage(league_strength as int),
        ensures
            final(player).local_reputation == local_reputation_after(
                *old(player),
                match_rating as int,
                match_importance,
                is_big_moment,
                team_performance,
            ),
            final(player).international_reputation == international_reputation_after(
                *old(player),
                final(player).local_reputation as int,
                league_strength as int,
                match_importance,
            ),
            *final(player) == (Player {
                local_reputation: final(player).local_reputation,
                international_reputation: final(player).international_reputation,
                ..*old(player)
            }),
            is_percentage(final(player).local_reputation as int),
            is_percentage(final(player).international_reputation as int),
    {
        let local_change: i64 = self.calculate_local_reputation_change(
            match_rating,
            match_importance,
            is_big_moment,
            team_performance,
        );
        player.local_reputation = clamp(player.local_reputation + local_change, 0, 100 * SCALE);
        let international_gain: i64 = self.convert_local_to_international(
            player.local_reputation,
            league_strength,
            match_importance,
        );
        let international_change: i64 = international_gain - self.calculate_decay_factor(
            player.international_reputation,
        );
        player.international_reputation = clamp(
            player.international_reputation + international_change,
            0,
            100 * SCALE,
        );
    }

    /// The change of the name at home after a match.
    pub fn calculate_local_reputation_change(
        &self,
        rating: i64,
        importance: MatchImportance,
        is_big_moment: bool,
        team_performance: TeamPerformance,
    ) -> (change: i64)
        ensures
            change == local_reputation_change_of(
                rating as int,
                importance,
                is_big_moment,
                team_performance,
            ),
            -5_300_000 <= change <= 9_000_000,
    {
        let base_change: i64 = if rating >= 9_000_000 {
            3_000_000
        } else if rating >= 8_000_000 {
            2_000_000
        } else if rating >= 7_000_000 {
            1_000_000
        } else if rating >= 6_500_000 {
            200_000
        } else if rating >= 6_000_000 {
            -500_000
        } else if rating >= 5_000_000 {
            -1_000_000
        } else {
            -2_000_000
        };
        let importance_multiplier: i64 = match importance {
            MatchImportance::Friendly => 500_000,
            MatchImportance::League => 1_000_000,
            MatchImportance::Cup => 1_500_000,
            MatchImportance::Final => 2_000_000,
            MatchImportance::Continental => 2_500_000,
        };
        let big_moment_bonus: i64 = if is_big_moment {
            SCALE
        } else {
            0
        };
        let team_modifier: i64 = match team_performance {
            TeamPerformance::Win => 500_000,
            TeamPerformance::Draw => 100_000,
            TeamPerformance::Loss => -300_000,
        };
        proof {
            lemma_fmul_bound(base_change as int, importance_multiplier as int, 3_000_000, 2_500_000);
            if base_change < 0 {
                lemma_fmul_bound(
                    base_change as int,
                    importance_multiplier as int,
                    2_000_000,
                    2_500_000,
                );
            }
        }
        times(base_change, importance_multiplier) + big_moment_bonus + team_modifier
    }

    /// What the name at home adds to the name abroad.
    pub fn convert_local_to_international(
        &self,
        local_rep: i64,
        league_strength: i64,
        match_importance: MatchImportance,
    ) -> (gain: i64)
        requires
            is_percentage(local_rep as int),
            is_percentage(league_strength as int),
        ensures
            gain == international_gain_of(local_rep as int, league_strength as int, match_importance),
            0 <= gain <= 750_000,
    {
        let league_factor: i64 = league_strength / 100;
        let importance_factor: i64 = match match_importance {
            MatchImportance::Continental => 1_500_000,
            MatchImportance::Final => 1_300_000,
            _ => 1_000_000,
        };
        proof {
            lemma_fmul_bound(local_rep / 100, league_factor as int, 1_000_000, 1_000_000);
        }
        let in_league: i64 = times(local_rep / 100, league_factor);
        proof {
            lemma_fmul_bound(in_league as int, importance_factor as int, 1_000_000, 1_500_000);
        }
        let weighted: i64 = times(in_league, importance_factor);
        proof {
            lemma_fmul_bound(weighted as int, 500_000, 1_500_000, 500_000);
        }
        times(weighted, 500_000)
    }

    /// How fast a name abroad fades.
    pub fn calculate_decay_factor(&self, international_rep: i64) -> (decay: i64)
        ensures
            decay == decay_factor_of(international_rep as int),
            10_000 <= decay <= 50_000,
    {
        if international_rep > 70 * SCALE {
            10_000
        } else if international_rep > 40 * SCALE {
            20_000
        } else {
            50_000
        }
    }

    /// The interest that a club of the given reputation takes in a player
    /// for whose position it has the given need.
    pub fn calculate_transfer_interest_score(
        &self,
        player: &Player,
        target_club_reputation: i64,
        positional_needs: i64,
    ) -> (score: i64)
        requires
            player.valued(),
            is_percentage(target_club_reputation as int),
            is_percentage(positional_needs as int),
        ensures
            score == transfer_interest_score_of(
                *player,
                target_club_reputation as int,
                positional_needs as int,
            ),
            0 <= score <= 1_965_600_000,
    {
        let ability_score: i64 = self.calculate_player_ability_score(player);
        let potential_score: i64 = (player.hidden.potential_ceiling as i64) * (SCALE / 2);
        proof {
            lemma_fmul_bound(player.form as int, 500_000, 100_000_000, 500_000);
            lemma_fmul_bound(player.international_reputation as int, 700_000, 100_000_000, 700_000);
        }
        let form_score: i64 = times(player.form, 500_000);
        let reputation_score: i64 = times(player.international_reputation, 700_000);
        let age_factor: i64 = self.calculate_age_factor(player.age);
        let base: i64 = ability_score + potential_score + form_score + reputation_score;
        proof {
            lemma_fmul_bound(base as int, age_factor as int, 504_000_000, 1_300_000);
        }
        let with_age: i64 = times(base, age_factor);
        proof {
            lemma_fmul_bound(with_age as int, SCALE + target_club_reputation / 200, 655_200_000, 1_500_000);
        }
        let with_club: i64 = times(with_age, SCALE + target_club_reputation / 200);
        proof {
            lemma_fmul_bound(with_club as int, SCALE + positional_needs / 100, 982_800_000, 2_000_000);
        }
        times(with_club, SCALE + positional_needs / 100)
    }

    /// The ability of a player in one number.
    pub fn calculate_player_ability_score(&self, player: &Player) -> (score: i64)
        ensures
            score == ability_score_of(*player),
            0 <= score <= 255_000_000,
    {
        let technical_avg: i64 = player.technical.average();
        let physical_avg: i64 = player.physical.average();
        let mental_avg: i64 = player.mental.average();
        proof {
            lemma_fmul_bound(technical_avg as int, 350_000, 255_000_000, 350_000);
            lemma_fmul_bound(physical_avg as int, 250_000, 255_000_000, 250_000);
            lemma_fmul_bound(mental_avg as int, 400_000, 255_000_000, 400_000);
        }
        times(technical_avg, 350_000) + times(physical_avg, 250_000) + times(mental_avg, 400_000)
    }

    /// How much the age of a player raises or lowers the interest in a
    /// transfer.
    pub fn calculate_age_factor(&self, age: u8) -> (factor: i64)
        ensures
            factor == age_factor_of(age as int),
            400_000 <= factor <= 1_300_000,
    {
        if 15 <= age && age <= 21 {
            1_300_000
        } else if 22 <= age && age <= 25 {
            1_100_000
        } else if 26 <= age && age <= 29 {
            1_000_000
        } else if 30 <= age && age <= 32 {
            800_000
        } else if 33 <= age && age <= 35 {
            600_000
        } else {
            400_000
        }
    }

    /// How strong a contender for an award a player is after a season.
    pub fn calculate_award_contender_score(
        &self,
        player: &Player,
        season_performance: SeasonPerformance,
        team_success: TeamSuccess,
    ) -> (score: i64)
        requires
            is_percentage(player.international_reputation as int),
            -MAX_AVERAGE_RATING <= season_performance.average_match_rating <= MAX_AVERAGE_RATING,
        ensures
            score == award_contender_score_of(*player, season_performance, team_success),
    {
        let match_rating_avg: i64 = season_performance.average_match_rating;
        let goal_count: i64 = (season_performance.goals as i64) * 100_000;
        let assist_count: i64 = (season_performance.assists as i64) * 50_000;
        let clean_sheet_bonus: i64 = if player.primary_position.is_goalkeeper_or_defender() {
            (season_performance.clean_sheets as i64) * 150_000
        } else {
            0
        };
        let team_success_factor: i64 = match team_success {
            TeamSuccess::LeagueWinner => 15_000_000,
            TeamSuccess::CupWinner => 10_000_000,
            TeamSuccess::Top4 => 5_000_000,
            TeamSuccess::MidTable => 0,
            TeamSuccess::Relegation => -5_000_000,
        };
        proof {
            lemma_fmul_bound(player.international_reputation as int, 200_000, 100_000_000, 200_000);
        }
        let reputation_boost: i64 = times(player.international_reputation, 200_000);
        match_rating_avg + goal_count + assist_count + clean_sheet_bonus + team_success_factor
            + reputation_boost
    }

    /// Moves the name of a player at home and abroad after a season: three
    /// tenths of the score of the season go to the name at home; every award
    /// and the place of the team go to the name abroad.
    pub fn update_seasonal_reputation(
        &self,
        player: &mut Player,
        season_stats: &SeasonStats,
        team_finish_position: u8,
        awards: &[String],
    )
        requires
            is_percentage(old(player).local_reputation as int),
            is_percentage(old(player).international_reputation as int),
            -MAX_AVERAGE_RATING <= season_stats.average_rating <= MAX_AVERAGE_RATING,
        ensures
            final(player).local_reputation == clamp_to(
                old(player).local_reputation + fmul(
                    season_performance_score_of(*season_stats, team_finish_position as int),
                    300_000,
                ),
                0,
                100 * SCALE,
            ),
            final(player).international_reputation == clamp_to(
                reputation_after_awards(
                    old(player).international_reputation as int,
                    awards@,
                    awards@.len() as int,
                ) + team_success_reputation_boost_of(team_finish_position as int),
                0,
                100 * SCALE,
            ),
            *final(player) == (Player {
                local_reputation: final(player).local_reputation,
                international_reputation: final(player).international_reputation,
                ..*old(player)
            }),
    {
        let performance_score: i64 = self.calculate_season_performance_score(
            season_stats,
            team_finish_position,
        );
        let seasonal_local_change: i128 = times_wide(performance_score, 300_000);
        let moved: i128 = player.local_reputation as i128 + seasonal_local_change;
        player.local_reputation = if moved < 0 {
            0
        } else if moved > 100_000_000 {
            100_000_000
        } else {
            moved as i64
        };
        let mut i: usize = 0;
        while i < awards.len()
            invariant
                0 <= i <= awards@.len(),
                player.international_reputation == reputation_after_awards(
                    old(player).international_reputation as int,
                    awards@,
                    i as int,
                ),
                is_percentage(player.international_reputation as int),
                *player == (Player {
                    local_reputation: player.local_reputation,
                    international_reputation: player.international_reputation,
                    ..*old(player)
                }),
                player.local_reputation == clamp_to(
                    old(player).local_reputation + fmul(
                        season_performance_score_of(*season_stats, team_finish_position as int),
                        300_000,
                    ),
                    0,
                    100 * SCALE,
                ),
            decreases awards@.len() - i,
        {
            let award_boost: i64 = self.get_award_reputation_boost(awards[i].as_str());
            player.international_reputation = clamp(
                player.international_reputation + award_boost,
                0,
                100 * SCALE,
            );
            i = i + 1;
        }
        let team_success_boost: i64 = self.get_team_success_reputation_boost(team_finish_position);
        player.international_reputation = clamp(
            player.international_reputation + team_success_boost,
            0,
            100 * SCALE,
        );
    }

    /// The score of a season.
    pub fn calculate_season_performance_score(&self, stats: &SeasonStats, team_position: u8) -> (score:
        i64)
        requires
            -MAX_AVERAGE_RATING <= stats.average_rating <= MAX_AVERAGE_RATING,
        ensures
            score == season_performance_score_of(*stats, team_position as int),
            -205_000_000 <= score <= 3_000_000_000_000_000,
    {
        let appearance_factor: i64 = (stats.appearances as i64) * 100_000;
        let goal_factor: i64 = (stats.goals as i64) * 300_000;
        let assist_factor: i64 = (stats.assists as i64) * 200_000;
        let rating_factor: i64 = stats.average_rating * 2;
        let team_factor: i64 = if team_position == 1 {
            10_000_000
        } else if 2 <= team_position && team_position <= 4 {
            5_000_000
        } else if 5 <= team_position && team_position <= 6 {
            2_000_000
        } else if 16 <= team_position && team_position <= 17 {
            -2_000_000
        } else if 18 <= team_position && team_position <= 20 {
            -5_000_000
        } else {
            0
        };
        appearance_factor + goal_factor + assist_factor + rating_factor + team_factor
    }

    /// What an award adds to the name abroad.
    pub fn get_award_reputation_boost(&self, award: &str) -> (boost: i64)
        ensures
            boost == award_reputation_boost_of(award@),
            2_000_000 <= boost <= 25_000_000,
    {
        let lowered: String = to_lowercase(award);
        self.award_boost_for_lowered(&lowered)
    }

    /// What an award adds to the name abroad, by its name in lower case: 25
    /// for the greatest awards in the world, down to 2 for an award that is
    /// not listed.
    pub fn award_boost_for_lowered(&self, lowered: &String) -> (boost: i64)
        ensures
            boost == award_boost_for(lowered@),
            2_000_000 <= boost <= 25_000_000,
    {
        if same_text(lowered, "ballon d'or") || same_text(lowered, "world player of the year") {
            25_000_000
        } else if same_text(lowered, "league best player") {
            15_000_000
        } else if same_text(lowered, "top scorer") {
            10_000_000
        } else if same_text(lowered, "best young player") {
            8_000_000
        } else if same_text(lowered, "team of the season") {
            5_000_000
        } else {
            2_000_000
        }
    }

    /// What the place of the team in the table adds to the name abroad.
    pub fn get_team_success_reputation_boost(&self, position: u8) -> (boost: i64)
        ensures
            boost == team_success_reputation_boost_of(position as int),
            -3_000_000 <= boost <= 12_000_000,
    {
        if position == 1 {
            12_000_000
        } else if 2 <= position && position <= 3 {
            8_000_000
        } else if 4 <= position && position <= 6 {
            5_000_000
        } else if 7 <= position && position <= 10 {
            2_000_000
        } else if 11 <= position && position <= 17 {
            0
        } else {
            -3_000_000
        }
    }

    /// Lets the name of an inactive player fade: by 0.1 a week at home and by
    /// 0.3 a week abroad, down to nothing.
    pub fn apply_inactive_decay(&self, player: &mut Player, weeks_inactive: u32)
        requires
            is_percentage(old(player).local_reputation as int),
            is_percentage(old(player).international_reputation as int),
        ensures
            final(player).local_reputation == clamp_to(
                old(player).local_reputation - weeks_inactive * 100_000,
                0,
                100 * SCALE,
            ),
            final(player).international_reputation == clamp_to(
                old(player).international_reputation - weeks_inactive * 300_000,
                0,
                100 * SCALE,
            ),
            *final(player) == (Player {
                local_reputation: final(player).local_reputation,
                international_reputation: final(player).international_reputation,
                ..*old(player)
            }),
    {
        let local_decay: i64 = (weeks_inactive as i64) * 100_000;
        let international_decay: i64 = (weeks_inactive as i64) * 300_000;
        player.local_reputation = clamp(player.local_reputation - local_decay, 0, 100 * SCALE);
        player.international_reputation = clamp(
            player.international_reputation - international_decay,
            0,
            100 * SCALE,
        );
    }
}

} // verus!
