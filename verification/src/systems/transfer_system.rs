//! The transfer system: which clubs take an interest in a player, what they
//! offer, how the player answers, and how contracts are negotiated and
//! renewed.
//!
//! Money is counted in millionths of the currency, times in seconds since
//! 1 January 1970, and dates in days of the common era.

use vstd::prelude::*;
use crate::entities::{is_percentage, Contract, Player, Position, Team};
use crate::fixed::{fmul, lemma_fmul_bound, times, times_wide, MAX_OPERAND, SCALE};
use crate::utils::helpers::{
    calendar_month, calendar_of, generate_unique_id, now_timestamp, today,
};

verus! {

/// How far the interest of a club in a player has come.
#[derive(Debug, Clone, Copy, PartialEq, Eq, Hash, Structural)]
pub enum InterestLevel {
    Monitoring,
    Scouting,
    Shortlisted,
    PreparingOffer,
    OfficialOffer,
}

/// The interest of one club in a player.
#[derive(Debug, Clone, Copy, PartialEq, Eq)]
pub struct TransferInterest {
    pub club_id: u128,
    pub interest_level: InterestLevel,
    pub last_evaluation_date: i64,
    pub evaluation_score: i64,
}

/// An offer for a player.
#[derive(Debug, Clone, Copy, PartialEq, Eq)]
pub struct TransferOffer {
    pub id: u128,
    pub buying_club_id: u128,
    pub target_player_id: u128,
    pub offered_wage: i64,
    pub contract_length_years: u8,
    /// None for a renewal
    pub transfer_fee: Option<i64>,
    pub offer_date: i64,
    pub expiry_date: i64,
}

/// How a player answers an offer.
#[derive(Debug, Clone, Copy, PartialEq, Eq, Hash, Structural)]
pub enum PlayerResponse {
    Interested,
    NotInterested,
    LetAgentHandle,
}

/// What becomes of an offer.
#[derive(Debug, Clone, Copy, PartialEq, Eq, Hash, Structural)]
pub enum TransferOutcome {
    NegotiationStarted,
    CounterOfferSuggested,
    OfferRejected,
    AgentActionRequired,
}

/// What a player wants from a negotiation.
#[derive(Debug, Clone, Copy, PartialEq, Eq, Hash, Structural)]
pub struct NegotiationPreferences {
    pub prefer_longer_contract: bool,
    pub prefer_higher_wage: bool,
    pub prefer_prestige_club: bool,
    pub prefer_playing_time: bool,
}

/// How a negotiation ended.
#[derive(Debug, Clone, Copy, PartialEq, Eq)]
pub enum ContractNegotiationResult {
    Accepted(TransferOffer),
    Rejected,
}

/// The seconds of a day.
pub const SECONDS_PER_DAY: i64 = 86_400;

/// The days that a club waits for an answer to an offer.
pub const OFFER_DAYS: i64 = 14;

/// The days that a club waits for an answer to a renewal.
pub const RENEWAL_DAYS: i64 = 30;

/// The score above which a club is interested: 30.
pub const INTEREST_THRESHOLD: i64 = 30_000_000;

/// The ability of a player in one number: 0.35 of the technical, 0.25 of
/// the physical and 0.40 of the mental average.
pub open spec fn ability_score_of(player: Player) -> int {
    fmul(player.technical.spec_average(), 350_000) + fmul(player.physical.spec_average(), 250_000)
        + fmul(player.mental.spec_average(), 400_000)
}

/// How much the age of a player raises or lowers the interest of a club.
pub open spec fn age_factor_of(age: int) -> int {
    if 15 <= age <= 21 {
        1_300_000
    } else if 22 <= age <= 25 {
        1_100_000
    } else if 26 <= age <= 29 {
        1_000_000
    } else if 30 <= age <= 32 {
        800_000
    } else if 33 <= age <= 35 {
        600_000
    } else {
        400_000
    }
}

/// How much a club needs a player of the given position, from 10 for a
/// goalkeeper to 18 for a forward. The club does not enter.
pub open spec fn positional_need_of(position: Position) -> int {
    match position {
        Position::GK => 10_000_000,
        Position::CB => 15_000_000,
        Position::FB | Position::RB | Position::LB => 12_000_000,
        Position::DM => 14_000_000,
        Position::CM | Position::AM => 16_000_000,
        Position::RM | Position::LM => 13_000_000,
        Position::RW | Position::LW => 15_000_000,
        Position::CF | Position::SS => 18_000_000,
    }
}

/// The score of a player before the club enters: ability, half the
/// potential, half the form and 0.7 of the name abroad.
pub open spec fn base_interest_of(player: Player) -> int {
    ability_score_of(player) + player.hidden.potential_ceiling * (SCALE / 2) + fmul(
        player.form as int,
        500_000,
    ) + fmul(player.international_reputation as int, 700_000)
}

/// The interest that a club takes in a player: the base score, times the
/// age factor, times `1 + club reputation / 200`, times
/// `1 + positional need / 100`, times the financial power of the club
/// relative to 50.
pub open spec fn interest_score_of(player: Player, team: Team) -> int {
    fmul(
        fmul(
            fmul(
                fmul(base_interest_of(player), age_factor_of(player.age as int)),
                SCALE + team.reputation / 200,
            ),
            SCALE + positional_need_of(player.primary_position) / 100,
        ),
        team.financial_power / 50,
    )
}

/// How far the interest has come at a given score.
pub open spec fn interest_level_of(score: int) -> InterestLevel {
    if score >= 80 * SCALE {
        InterestLevel::OfficialOffer
    } else if score >= 70 * SCALE {
        InterestLevel::PreparingOffer
    } else if score >= 60 * SCALE {
        InterestLevel::Shortlisted
    } else if score >= 50 * SCALE {
        InterestLevel::Scouting
    } else {
        InterestLevel::Monitoring
    }
}

/// Whether a club's reputation and financial power lie between 0 and 100.
pub open spec fn club_valid(team: Team) -> bool {
    is_percentage(team.reputation as int) && is_percentage(team.financial_power as int)
}

/// Whether every club of a list is valid.
pub open spec fn clubs_valid(teams: Seq<Team>) -> bool {
    forall|i: int| 0 <= i < teams.len() ==> club_valid(#[trigger] teams[i])
}

/// Whether a club is interested in a player: it is not the player's own
/// club, and its score exceeds 30.
pub open spec fn is_interested(player: Player, team: Team, current_club_id: u128) -> bool {
    team.id != current_club_id && interest_score_of(player, team) > INTEREST_THRESHOLD
}

/// The clubs among the first `count` that are interested in a player, in
/// their order.
pub open spec fn interested_clubs(
    player: Player,
    teams: Seq<Team>,
    current_club_id: u128,
    count: int,
) -> Seq<Team>
    decreases count,
{
    if count <= 0 {
        Seq::empty()
    } else if is_interested(player, teams[count - 1], current_club_id) {
        interested_clubs(player, teams, current_club_id, count - 1).push(teams[count - 1])
    } else {
        interested_clubs(player, teams, current_club_id, count - 1)
    }
}

/// What a player is worth on the market: a hundred times the ability, fifty
/// times the name abroad, thirty times the form and twenty times the
/// potential.
pub open spec fn market_value_of(player: Player) -> int {
    ability_score_of(player) * 100 + player.international_reputation * 50 + player.form * 30
        + player.hidden.potential_ceiling * 20 * SCALE
}

/// How much the age of a player raises or lowers the fee.
pub open spec fn fee_age_factor_of(age: int) -> int {
    if 18 <= age <= 24 {
        1_200_000
    } else if 25 <= age <= 28 {
        1_000_000
    } else if 29 <= age <= 31 {
        800_000
    } else if 32 <= age <= 34 {
        600_000
    } else {
        400_000
    }
}

/// The fee that a club offers for a player: the market value, times the
/// reputation of the club relative to 50, times the age factor, times the
/// form relative to 50; but a club pays no more than 800 times its financial
/// power where the fee would exceed 1000 times that power.
pub open spec fn transfer_fee_of(player: Player, club: Team) -> int {
    let base_fee = fmul(
        fmul(fmul(market_value_of(player), club.reputation / 50), fee_age_factor_of(player.age as int)),
        player.form / 50,
    );
    if base_fee > club.financial_power * 1000 {
        fmul(club.financial_power * 1000, 800_000)
    } else {
        base_fee
    }
}

/// The wage that a club offers a player: a thousand times the ability,
/// times the financial power of the club relative to 50, times
/// `1 + name abroad / 200`.
pub open spec fn wage_offer_of(player: Player, club: Team) -> int {
    fmul(
        fmul(ability_score_of(player) * 1000, club.financial_power / 50),
        SCALE + player.international_reputation / 200,
    )
}

/// The years that a club offers a player of the given age: the younger, the
/// more; and a club with a youth focus above 70 offers the youngest a fifth
/// year.
pub open spec fn contract_length_of(age: int, youth_focus: int) -> int {
    if 15 <= age <= 21 {
        if youth_focus > 70 * SCALE {
            5
        } else {
            4
        }
    } else if 22 <= age <= 25 {
        4
    } else if 26 <= age <= 28 {
        3
    } else if 29 <= age <= 31 {
        2
    } else {
        1
    }
}

/// What a player believes to be worth: a thousand times the ability, times
/// name abroad, form and ego, each relative to 50.
pub open spec fn perceived_value_of(player: Player) -> int {
    fmul(
        fmul(fmul(ability_score_of(player) * 1000, player.international_reputation / 50), player.form / 50),
        player.hidden.ego * 20_000,
    )
}

/// Whether a wage meets the expectations of a player: it lies within a fifth
/// of what the player believes to be worth. A player who believes to be
/// worth nothing is never met.
pub open spec fn meets_expectations(player: Player, offered_wage: int) -> bool {
    let perceived = perceived_value_of(player);
    perceived > 0 && perceived * 8 <= offered_wage * 10 <= perceived * 12
}

/// What becomes of an offer after the answer of the player.
pub open spec fn outcome_of(player: Player, offer: TransferOffer, response: PlayerResponse)
    -> TransferOutcome {
    match response {
        PlayerResponse::Interested => if meets_expectations(player, offer.offered_wage as int) {
            TransferOutcome::NegotiationStarted
        } else {
            TransferOutcome::CounterOfferSuggested
        },
        PlayerResponse::NotInterested => TransferOutcome::OfferRejected,
        PlayerResponse::LetAgentHandle => TransferOutcome::AgentActionRequired,
    }
}

/// The offer as the player's side asks for it: a wish for a longer contract
/// holds the length to six years at most, a wish for a higher wage adds a
/// twentieth.
pub open spec fn negotiated_offer(offer: TransferOffer, preferences: NegotiationPreferences)
    -> TransferOffer {
    TransferOffer {
        contract_length_years: if preferences.prefer_longer_contract && offer.contract_length_years
            > 6 {
            6
        } else {
            offer.contract_length_years
        },
        offered_wage: if preferences.prefer_higher_wage {
            fmul(offer.offered_wage as int, 1_050_000) as i64
        } else {
            offer.offered_wage
        },
        ..offer
    }
}

/// The chance that a club accepts the terms of an offer: 0.7, whatever the
/// terms.
pub const CLUB_ACCEPTANCE: i64 = 700_000;

/// The months from one calendar month to another.
pub open spec fn months_between(from: (i32, u32), until: (i32, u32)) -> int {
    (until.0 - from.0) * 12 + (until.1 - from.1)
}

/// Whether a contract that ends in the month `expiry` runs out within
/// `months_threshold` months of the month `today`, and not before.
pub open spec fn expires_within(today: (i32, u32), expiry: (i32, u32), months_threshold: u32)
    -> bool {
    0 <= months_between(today, expiry) <= months_threshold
}

/// Whether a contract that ends on the day `end` runs out within
/// `months_threshold` calendar months of the day `on`; both are day numbers,
/// and neither may lie outside the calendar.
pub open spec fn expires_soon(on: i32, end: i32, months_threshold: u32) -> bool {
    calendar_of(on) is Some && calendar_of(end) is Some && expires_within(
        calendar_of(on)->0,
        calendar_of(end)->0,
        months_threshold,
    )
}

/// The wage of a renewal: the wage of the contract, raised by a tenth of
/// what the form exceeds 6.5 by.
pub open spec fn renewal_wage_of(player: Player, contract: Contract) -> int {
    let improvement = if player.form > 6_500_000 {
        fmul(player.form - 6_500_000, 100_000)
    } else {
        0
    };
    fmul(contract.wage as int, SCALE + improvement)
}

/// The years of a renewal: those of the contract, but five at most before the
/// age of 28 and three at most from then on.
pub open spec fn renewal_length_of(age: int, length_years: int) -> int {
    let most: int = if age < 28 {
        5
    } else {
        3
    };
    if length_years > most {
        most
    } else {
        length_years
    }
}

/// The transfer engine.
#[derive(Debug, Clone, Copy)]
pub struct TransferEngine;

impl TransferEngine {
    pub fn new() -> (engine: TransferEngine) {
        TransferEngine
    }

    /// Looks at all clubs but the player's own, and records the interest of
    /// those whose score exceeds 30, in the order of the clubs, with the time
    /// of the evaluation.
    pub fn evaluate_transfer_interest(
        &self,
        player: &Player,
        all_teams: &[Team],
        current_club_id: u128,
    ) -> (interests: Vec<TransferInterest>)
        requires
            player.valued(),
            clubs_valid(all_teams@),
        ensures
            interests@.len() == interested_clubs(
                *player,
                all_teams@,
                current_club_id,
                all_teams@.len() as int,
            ).len(),
            forall|k: int|
                0 <= k < interests@.len() ==> {
                    let club = interested_clubs(
                        *player,
                        all_teams@,
                        current_club_id,
                        all_teams@.len() as int,
                    )[k];
                    &&& (#[trigger] interests@[k]).club_id == club.id
                    &&& interests@[k].evaluation_score == interest_score_of(*player, club)
                    &&& interests@[k].interest_level == interest_level_of(
                        interests@[k].evaluation_score as int,
                    )
                    &&& interests@[k].evaluation_score > INTEREST_THRESHOLD
                },
    {
        let mut interests: Vec<TransferInterest> = Vec::new();
        let mut i: usize = 0;
        while i < all_teams.len()
            invariant
                0 <= i <= all_teams@.len(),
                player.valued(),
                clubs_valid(all_teams@),
                interests@.len() == interested_clubs(
                    *player,
                    all_teams@,
                    current_club_id,
                    i as int,
                ).len(),
                forall|k: int|
                    0 <= k < interests@.len() ==> {
                        let club = interested_clubs(*player, all_teams@, current_club_id, i as int)[k];
                        &&& (#[trigger] interests@[k]).club_id == club.id
                        &&& interests@[k].evaluation_score == interest_score_of(*player, club)
                        &&& interests@[k].interest_level == interest_level_of(
                            interests@[k].evaluation_score as int,
                        )
                        &&& interests@[k].evaluation_score > INTEREST_THRESHOLD
                    },
            decreases all_teams@.len() - i,
        {
            let team: &Team = &all_teams[i];
            assert(club_valid(all_teams@[i as int]));
            if team.id != current_club_id {
                let interest_score: i64 = self.calculate_transfer_interest_score(player, team);
                if interest_score > INTEREST_THRESHOLD {
                    let interest_level: InterestLevel = self.determine_interest_level(
                        interest_score,
                    );
                    interests.push(
                        TransferInterest {
                            club_id: team.id,
                            interest_level,
                            last_evaluation_date: now_timestamp(),
                            evaluation_score: interest_score,
                        },
                    );
                }
            }
            i = i + 1;
        }
        interests
    }

    /// The interest that a club takes in a player.
    pub fn calculate_transfer_interest_score(&self, player: &Player, team: &Team) -> (score: i64)
        requires
            player.valued(),
            club_valid(*team),
        ensures
            score == interest_score_of(*player, *team),
            0 <= score <= 2_319_408_000,
    {
        let ability_score: i64 = self.calculate_player_ability_score(player);
        let potential_score: i64 = (player.hidden.potential_ceiling as i64) * (SCALE / 2);
        proof {
            lemma_fmul_bound(player.form as int, 500_000, 100_000_000, 500_000);
            lemma_fmul_bound(player.international_reputation as int, 700_000, 100_000_000, 700_000);
        }
        let form_score: i64 = times(player.form, 500_000);
        let reputation_score: i64 = times(player.international_reputation, 700_000);
        let age_factor: i64 = self.calculate_age_factor(player.age);
        let positional_need: i64 = self.calculate_positional_need(player.primary_position, team);
        let financial_factor: i64 = self.calculate_financial_capacity(team);
        let base: i64 = ability_score + potential_score + form_score + reputation_score;
        proof {
            lemma_fmul_bound(base as int, age_factor as int, 504_000_000, 1_300_000);
        }
        let with_age: i64 = times(base, age_factor);
        proof {
            lemma_fmul_bound(with_age as int, SCALE + team.reputation / 200, 655_200_000, 1_500_000);
        }
        let with_club: i64 = times(with_age, SCALE + team.reputation / 200);
        proof {
            lemma_fmul_bound(with_club as int, SCALE + positional_need / 100, 982_800_000, 1_180_000);
        }
        let with_need: i64 = times(with_club, SCALE + positional_need / 100);
        proof {
            lemma_fmul_bound(with_need as int, financial_factor as int, 1_159_704_000, 2_000_000);
        }
        times(with_need, financial_factor)
    }

    /// The ability of a player in one number.
    pub fn calculate_player_ability_score(&self, player: &Player) -> (score: i64)
        ensures
            score == ability_score_of(*player),
            0 <= score <= 255_000_000,
    {
        let technical_avg: i64 = player.technical.average();
        let physical_avg: i64 = player.physical.average();
        let mental_avg: i64 = player.mental.average();
        proof {
            lemma_fmul_bound(technical_avg as int, 350_000, 255_000_000, 350_000);
            lemma_fmul_bound(physical_avg as int, 250_000, 255_000_000, 250_000);
            lemma_fmul_bound(mental_avg as int, 400_000, 255_000_000, 400_000);
        }
        times(technical_avg, 350_000) + times(physical_avg, 250_000) + times(mental_avg, 400_000)
    }

    /// How much the age of a player raises or lowers the interest of a club.
    pub fn calculate_age_factor(&self, age: u8) -> (factor: i64)
        ensures
            factor == age_factor_of(age as int),
            400_000 <= factor <= 1_300_000,
    {
        if 15 <= age && age <= 21 {
            1_300_000
        } else if 22 <= age && age <= 25 {
            1_100_000
        } else if 26 <= age && age <= 29 {
            1_000_000
        } else if 30 <= age && age <= 32 {
            800_000
        } else if 33 <= age && age <= 35 {
            600_000
        } else {
            400_000
        }
    }

    /// How much a club needs a player of the given position. The club does
    /// not enter.
    pub fn calculate_positional_need(&self, position: Position, _team: &Team) -> (need: i64)
        ensures
            need == positional_need_of(position),
            10_000_000 <= need <= 18_000_000,
    {
        match position {
            Position::GK => 10_000_000,
            Position::CB => 15_000_000,
            Position::FB => 12_000_000,
            Position::DM => 14_000_000,
            Position::CM => 16_000_000,
            Position::RM | Position::LM => 13_000_000,
            Position::RW | Position::LW => 15_000_000,
            Position::CF | Position::SS => 18_000_000,
            Position::RB => 12_000_000,
            Position::LB => 12_000_000,
            Position::AM => 16_000_000,
        }
    }

    /// The financial power of a club relative to 50.
    pub fn calculate_financial_capacity(&self, team: &Team) -> (factor: i64)
        requires
            is_percentage(team.financial_power as int),
        ensures
            factor == team.financial_power / 50,
            0 <= factor <= 2_000_000,
    {
        team.financial_power / 50
    }

    /// How far the interest has come at a given score.
    pub fn determine_interest_level(&self, score: i64) -> (level: InterestLevel)
        ensures
            level == interest_level_of(score as int),
    {
        if score >= 80 * SCALE {
            InterestLevel::OfficialOffer
        } else if score >= 70 * SCALE {
            InterestLevel::PreparingOffer
        } else if score >= 60 * SCALE {
            InterestLevel::Shortlisted
        } else if score >= 50 * SCALE {
            InterestLevel::Scouting
        } else {
            InterestLevel::Monitoring
        }
    }

    /// The offer that an interested club makes for a player, under a fresh
    /// identifier, dated now and open for two weeks. The current contract
    /// does not enter.
    pub fn generate_transfer_offer(
        &self,
        player: &Player,
        interested_club: &Team,
        current_contract: &Contract,
    ) -> (offer: TransferOffer)
        requires
            player.valued(),
            club_valid(*interested_club),
        ensures
            offer.buying_club_id == interested_club.id,
            offer.target_player_id == player.id,
            offer.offered_wage == wage_offer_of(*player, *interested_club),
            offer.contract_length_years == contract_length_of(
                player.age as int,
                interested_club.youth_focus as int,
            ),
            offer.transfer_fee == Some(transfer_fee_of(*player, *interested_club) as i64),
            offer.expiry_date == offer.offer_date + OFFER_DAYS * SECONDS_PER_DAY,
            offer.id != crate::entities::NIL_ID,
    {
        let transfer_fee: Option<i64> = self.calculate_transfer_fee(
            player,
            interested_club,
            current_contract,
        );
        let offered_wage: i64 = self.calculate_wage_offer(player, interested_club);
        let contract_length: u8 = self.calculate_contract_length(
            player.age,
            interested_club.youth_focus,
        );
        let offer_date: i64 = now_timestamp();
        TransferOffer {
            id: generate_unique_id(),
            buying_club_id: interested_club.id,
            target_player_id: player.id,
            offered_wage,
            contract_length_years: contract_length,
            transfer_fee,
            offer_date,
            expiry_date: offer_date + OFFER_DAYS * SECONDS_PER_DAY,
        }
    }

    /// The fee that a club offers for a player. There always is one.
    pub fn calculate_transfer_fee(
        &self,
        player: &Player,
        interested_club: &Team,
        _current_contract: &Contract,
    ) -> (fee: Option<i64>)
        requires
            player.valued(),
            club_valid(*interested_club),
        ensures
            fee == Some(transfer_fee_of(*player, *interested_club) as i64),
            0 <= transfer_fee_of(*player, *interested_club) <= 185_280_000_000,
    {
        let base_value: i64 = self.calculate_player_market_value(player);
        let reputation_multiplier: i64 = interested_club.reputation / 50;
        let age: u8 = player.age;
        let age_factor: i64 = if 18 <= age && age <= 24 {
            1_200_000
        } else if 25 <= age && age <= 28 {
            1_000_000
        } else if 29 <= age && age <= 31 {
            800_000
        } else if 32 <= age && age <= 34 {
            600_000
        } else {
            400_000
        };
        let performance_factor: i64 = player.form / 50;
        proof {
            lemma_fmul_bound(base_value as int, reputation_multiplier as int, 38_600_000_000, 2_000_000);
        }
        let with_reputation: i64 = times(base_value, reputation_multiplier);
        proof {
            lemma_fmul_bound(with_reputation as int, age_factor as int, 77_200_000_000, 1_200_000);
        }
        let with_age: i64 = times(with_reputation, age_factor);
        proof {
            lemma_fmul_bound(with_age as int, performance_factor as int, 92_640_000_000, 2_000_000);
        }
        let base_fee: i64 = times(with_age, performance_factor);
        let capacity: i64 = interested_club.financial_power * 1000;
        if base_fee > capacity {
            proof {
                lemma_fmul_bound(capacity as int, 800_000, 100_000_000_000, 800_000);
            }
            Some(times(capacity, 800_000))
        } else {
            Some(base_fee)
        }
    }

    /// What a player is worth on the market.
    pub fn calculate_player_market_value(&self, player: &Player) -> (value: i64)
        requires
            player.valued(),
        ensures
            value == market_value_of(*player),
            0 <= value <= 38_600_000_000,
    {
        let ability_value: i64 = self.calculate_player_ability_score(player) * 100;
        let reputation_value: i64 = player.international_reputation * 50;
        let form_value: i64 = player.form * 30;
        let potential_value: i64 = (player.hidden.potential_ceiling as i64) * 20 * SCALE;
        ability_value + reputation_value + form_value + potential_value
    }

    /// The wage that a club offers a player.
    pub fn calculate_wage_offer(&self, player: &Player, interested_club: &Team) -> (wage: i64)
        requires
            player.valued(),
            club_valid(*interested_club),
        ensures
            wage == wage_offer_of(*player, *interested_club),
            0 <= wage <= 765_000_000_000,
    {
        let base_wage: i64 = self.calculate_player_ability_score(player) * 1000;
        let financial_multiplier: i64 = interested_club.financial_power / 50;
        let reputation_multiplier: i64 = SCALE + player.international_reputation / 200;
        proof {
            lemma_fmul_bound(base_wage as int, financial_multiplier as int, 255_000_000_000, 2_000_000);
        }
        let with_finances: i64 = times(base_wage, financial_multiplier);
        proof {
            lemma_fmul_bound(
                with_finances as int,
                reputation_multiplier as int,
                510_000_000_000,
                1_500_000,
            );
        }
        times(with_finances, reputation_multiplier)
    }

    /// The years that a club offers a player of the given age.
    pub fn calculate_contract_length(&self, age: u8, youth_focus: i64) -> (years: u8)
        ensures
            years == contract_length_of(age as int, youth_focus as int),
            1 <= years <= 5,
    {
        if 15 <= age && age <= 21 {
            if youth_focus > 70 * SCALE {
                5
            } else {
                4
            }
        } else if 22 <= age && age <= 25 {
            4
        } else if 26 <= age && age <= 28 {
            3
        } else if 29 <= age && age <= 31 {
            2
        } else {
            1
        }
    }

    /// What becomes of an offer after the answer of the player.
    pub fn process_player_response(
        &self,
        player: &Player,
        offer: &TransferOffer,
        response: PlayerResponse,
    ) -> (outcome: TransferOutcome)
        requires
            player.valued(),
        ensures
            outcome == outcome_of(*player, *offer, response),
    {
        match response {
            PlayerResponse::Interested => {
                if self.offer_meets_expectations(player, offer) {
                    TransferOutcome::NegotiationStarted
                } else {
                    TransferOutcome::CounterOfferSuggested
                }
            },
            PlayerResponse::NotInterested => TransferOutcome::OfferRejected,
            PlayerResponse::LetAgentHandle => TransferOutcome::AgentActionRequired,
        }
    }

    /// Whether the wage of an offer meets the expectations of a player.
    pub fn offer_meets_expectations(&self, player: &Player, offer: &TransferOffer) -> (meets: bool)
        requires
            player.valued(),
        ensures
            meets == meets_expectations(*player, offer.offered_wage as int),
    {
        let player_perceived_value: i128 = self.calculate_player_perceived_value(player) as i128;
        let wage: i128 = offer.offered_wage as i128;
        player_perceived_value > 0 && player_perceived_value * 8 <= wage * 10 && wage * 10
            <= player_perceived_value * 12
    }

    /// What a player believes to be worth.
    pub fn calculate_player_perceived_value(&self, player: &Player) -> (value: i64)
        requires
            player.valued(),
        ensures
            value == perceived_value_of(*player),
            0 <= value <= 5_202_000_000_000,
    {
        let reputation_factor: i64 = player.international_reputation / 50;
        let form_factor: i64 = player.form / 50;
        let ego_factor: i64 = (player.hidden.ego as i64) * 20_000;
        let base_value: i64 = self.calculate_player_ability_score(player) * 1000;
        proof {
            lemma_fmul_bound(base_value as int, reputation_factor as int, 255_000_000_000, 2_000_000);
        }
        let with_reputation: i64 = times(base_value, reputation_factor);
        proof {
            lemma_fmul_bound(with_reputation as int, form_factor as int, 510_000_000_000, 2_000_000);
        }
        let with_form: i64 = times(with_reputation, form_factor);
        proof {
            lemma_fmul_bound(with_form as int, ego_factor as int, 1_020_000_000_000, 5_100_000);
            reveal(fmul);
        }
        let wide: i128 = times_wide(with_form, ego_factor);
        wide as i64
    }

    /// Negotiates the terms of an offer as the player's side prefers them.
    /// The club accepts with a fixed chance of 0.7, which is more than the
    /// half that it takes: every negotiation ends in acceptance. The player
    /// does not enter.
    pub fn negotiate_contract(
        &self,
        _player: &Player,
        offer: &TransferOffer,
        negotiation_preferences: &NegotiationPreferences,
    ) -> (result: ContractNegotiationResult)
        requires
            -MAX_OPERAND <= offer.offered_wage <= MAX_OPERAND,
        ensures
            result == ContractNegotiationResult::Accepted(
                negotiated_offer(*offer, *negotiation_preferences),
            ),
    {
        let mut final_offer: TransferOffer = *offer;
        if negotiation_preferences.prefer_longer_contract {
            if final_offer.contract_length_years > 6 {
                final_offer.contract_length_years = 6;
            }
        }
        if negotiation_preferences.prefer_higher_wage {
            proof {
                lemma_fmul_bound(final_offer.offered_wage as int, 1_050_000, MAX_OPERAND as int, 1_050_000);
            }
            final_offer.offered_wage = times(final_offer.offered_wage, 1_050_000);
        }
        let club_acceptance: i64 = self.club_acceptance_probability(&final_offer);
        if club_acceptance > 500_000 {
            ContractNegotiationResult::Accepted(final_offer)
        } else {
            ContractNegotiationResult::Rejected
        }
    }

    /// The chance that a club accepts the terms of an offer.
    pub fn club_acceptance_probability(&self, _offer: &TransferOffer) -> (chance: i64)
        ensures
            chance == CLUB_ACCEPTANCE,
    {
        CLUB_ACCEPTANCE
    }

    /// Whether a contract that ends in the month `expiry` runs out within
    /// `months_threshold` months of the month `today`, and not before.
    pub fn expires_within_months(&self, today: (i32, u32), expiry: (i32, u32), months_threshold: u32)
        -> (soon: bool)
        ensures
            soon == expires_within(today, expiry, months_threshold),
    {
        let month_diff: i64 = (expiry.0 as i64 - today.0 as i64) * 12 + (expiry.1 as i64
            - today.1 as i64);
        month_diff <= months_threshold as i64 && month_diff >= 0
    }

    /// Whether a contract runs out within `months_threshold` months of the
    /// day `on`, counted in calendar months. A contract whose end is no day
    /// of the calendar does not, nor does any when `on` is none.
    pub fn is_contract_expiring_on(&self, contract: &Contract, on: i32, months_threshold: u32) -> (soon:
        bool)
        ensures
            soon == expires_soon(on, contract.contract_end_date, months_threshold),
    {
        match (calendar_month(on), calendar_month(contract.contract_end_date)) {
            (Some(today_month), Some(expiry_month)) => self.expires_within_months(
                today_month,
                expiry_month,
                months_threshold,
            ),
            _ => false,
        }
    }

    /// Whether a contract runs out within `months_threshold` months of today,
    /// counted in calendar months: what [`Self::is_contract_expiring_on`]
    /// says for the day that the clock gives. A contract whose end is no day
    /// of the calendar does not.
    pub fn is_contract_expiring_soon(&self, contract: &Contract, months_threshold: u32) -> (soon: bool)
        ensures
            exists|on: i32|
                soon == #[trigger] expires_soon(on, contract.contract_end_date, months_threshold),
            calendar_of(contract.contract_end_date) is None ==> !soon,
    {
        let on: i32 = today();
        self.is_contract_expiring_on(contract, on, months_threshold)
    }

    /// The renewal that the current club offers a player: a wage that grows
    /// with good form, no fee, dated now and open for thirty days.
    pub fn generate_contract_renewal(
        &self,
        player: &Player,
        current_club: &Team,
        current_contract: &Contract,
    ) -> (offer: TransferOffer)
        requires
            player.valued(),
            -MAX_OPERAND <= current_contract.wage <= MAX_OPERAND,
        ensures
            offer.buying_club_id == current_club.id,
            offer.target_player_id == player.id,
            offer.offered_wage == renewal_wage_of(*player, *current_contract),
            offer.contract_length_years == renewal_length_of(
                player.age as int,
                current_contract.length_years as int,
            ),
            offer.transfer_fee is None,
            offer.expiry_date == offer.offer_date + RENEWAL_DAYS * SECONDS_PER_DAY,
            offer.id != crate::entities::NIL_ID,
    {
        let performance_improvement: i64 = if player.form > 6_500_000 {
            proof {
                lemma_fmul_bound(player.form - 6_500_000, 100_000, 93_500_000, 100_000);
            }
            times(player.form - 6_500_000, 100_000)
        } else {
            0
        };
        proof {
            lemma_fmul_bound(
                current_contract.wage as int,
                SCALE + performance_improvement,
                MAX_OPERAND as int,
                10_350_000,
            );
        }
        let new_wage: i64 = times(current_contract.wage, SCALE + performance_improvement);
        let most: u8 = if player.age < 28 {
            5
        } else {
            3
        };
        let new_length: u8 = if current_contract.length_years > most {
            most
        } else {
            current_contract.length_years
        };
        let offer_date: i64 = now_timestamp();
        TransferOffer {
            id: generate_unique_id(),
            buying_club_id: current_club.id,
            target_player_id: player.id,
            offered_wage: new_wage,
            contract_length_years: new_length,
            transfer_fee: None,
            offer_date,
            expiry_date: offer_date + RENEWAL_DAYS * SECONDS_PER_DAY,
        }
    }
}

} // verus!
