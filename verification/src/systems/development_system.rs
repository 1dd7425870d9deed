//! The development system: how the attributes of a player grow and decline
//! with age, training and match performance, what injuries take away, and
//! how the form follows the latest ratings.

use vstd::prelude::*;
use crate::entities::{
    AffectedAttribute, AttributeType, HiddenAttributes, MentalAttribute, MentalAttributes,
    PhysicalAttribute, PhysicalAttributes, Player, TechnicalAttribute, TechnicalAttributes,
};
use crate::fixed::{
    clamp, clamp_to, div_toward_zero, fmul, lemma_fmul_bound, lemma_trunc_div_bounds,
    lemma_trunc_div_monotonic, times, trunc_div, MAX_OPERAND, SCALE,
};
use crate::systems::training_system::{
    cap, capped_attribute, diminish, diminished_improvement, improve_attribute, improved_attribute,
    TrainingFocus,
};

verus! {

/// Which attributes grow in a phase of a career.
#[derive(Debug, Clone, Copy, PartialEq, Eq, Hash, Structural)]
pub enum GrowthCategory {
    Technical,
    Physical,
    Mental,
    /// Nothing grows; everything declines.
    Decline,
}

/// The most days that one update can cover.
pub const MAX_DAYS: u32 = 100_000;

/// The number of ratings that the form is the mean of.
pub const FORM_WINDOW: usize = 5;

/// How fast a player of the given age develops: from 1.2 for the youngest
/// down to 0.4 from the age of 33.
pub open spec fn age_development_factor_of(age: int) -> int {
    if 15 <= age <= 18 {
        1_200_000
    } else if 19 <= age <= 23 {
        1_000_000
    } else if 24 <= age <= 28 {
        800_000
    } else if 29 <= age <= 32 {
        600_000
    } else {
        400_000
    }
}

/// The effectiveness that a focus has in development before the player
/// enters.
pub open spec fn development_base_of(focus: TrainingFocus) -> int {
    match focus {
        TrainingFocus::Technical => 900_000,
        TrainingFocus::Physical => 900_000,
        TrainingFocus::Tactical => 700_000,
        TrainingFocus::Mental => 750_000,
        TrainingFocus::Rest => 0,
    }
}

/// How effective training is for development: the base of the focus, times
/// determination and potential, each as a share of 100.
pub open spec fn development_effectiveness_of(
    focus: TrainingFocus,
    potential_ceiling: int,
    determination: int,
) -> int {
    fmul(fmul(development_base_of(focus), determination * 10_000), potential_ceiling * 10_000)
}

/// A rating as a performance between -1.0 and 1.0: `(rating - 6) / 4`,
/// held within those bounds.
pub open spec fn normalized_performance(rating: int) -> int {
    clamp_to(trunc_div(rating - 6 * SCALE, 4), -SCALE, SCALE as int)
}

/// What a phase of a career does with the effectiveness of training and the
/// age factor, and which attributes it lets grow: the young grow in
/// technique, those at their physical peak in physique, those from 24 to 32
/// in mind at 0.7 and 0.5 of the effectiveness, and from 33 on everything
/// declines.
pub open spec fn growth_plan_of(age: int) -> (int, int, GrowthCategory) {
    if 15 <= age <= 18 {
        (1_000_000, 1_000_000, GrowthCategory::Technical)
    } else if 19 <= age <= 23 {
        (1_000_000, 1_000_000, GrowthCategory::Physical)
    } else if 24 <= age <= 28 {
        (700_000, 1_000_000, GrowthCategory::Mental)
    } else if 29 <= age <= 32 {
        (500_000, 1_000_000, GrowthCategory::Mental)
    } else {
        (300_000, 800_000, GrowthCategory::Decline)
    }
}

/// The growth before the performance enters: effectiveness times age factor
/// times the weeks that passed.
pub open spec fn base_growth_of(training_effectiveness: int, age_factor: int, days_passed: int)
    -> int {
    fmul(fmul(training_effectiveness, age_factor), days_passed * SCALE / 7)
}

/// The technical attributes after a growth, of which 0.20 goes to passing,
/// 0.18 to shooting, 0.17 to first touch and 0.15 to each of the others.
pub open spec fn grown_technical(technical: TechnicalAttributes, growth_amount: int)
    -> TechnicalAttributes {
    let growth = diminished_improvement(growth_amount, technical.spec_average());
    TechnicalAttributes {
        dribbling: improved_attribute(technical.dribbling, growth, 150_000),
        passing: improved_attribute(technical.passing, growth, 200_000),
        shooting: improved_attribute(technical.shooting, growth, 180_000),
        first_touch: improved_attribute(technical.first_touch, growth, 170_000),
        tackling: improved_attribute(technical.tackling, growth, 150_000),
        crossing: improved_attribute(technical.crossing, growth, 150_000),
    }
}

/// The physical attributes after a growth, of which 0.25 goes to stamina,
/// 0.20 to pace and strength each, 0.18 to agility and 0.17 to jumping.
pub open spec fn grown_physical(physical: PhysicalAttributes, growth_amount: int)
    -> PhysicalAttributes {
    let growth = diminished_improvement(growth_amount, physical.spec_average());
    PhysicalAttributes {
        pace: improved_attribute(physical.pace, growth, 200_000),
        stamina: improved_attribute(physical.stamina, growth, 250_000),
        strength: improved_attribute(physical.strength, growth, 200_000),
        agility: improved_attribute(physical.agility, growth, 180_000),
        jumping: improved_attribute(physical.jumping, growth, 170_000),
    }
}

/// The mental attributes after a growth, of which 0.20 goes to vision and
/// determination each, 0.18 to composure, 0.17 to work rate, 0.15 to
/// positioning and 0.10 to teamwork.
pub open spec fn grown_mental(mental: MentalAttributes, growth_amount: int) -> MentalAttributes {
    let growth = diminished_improvement(growth_amount, mental.spec_average());
    MentalAttributes {
        composure: improved_attribute(mental.composure, growth, 180_000),
        vision: improved_attribute(mental.vision, growth, 200_000),
        work_rate: improved_attribute(mental.work_rate, growth, 170_000),
        determination: improved_attribute(mental.determination, growth, 200_000),
        positioning: improved_attribute(mental.positioning, growth, 150_000),
        teamwork: improved_attribute(mental.teamwork, growth, 100_000),
    }
}

/// An attribute after its share of a decline: the whole part of what is
/// left, and at least 1.
pub open spec fn declined_attribute(attribute: u8, decline: int, share: int) -> u8 {
    let left = attribute * SCALE - fmul(decline, share);
    (if left < SCALE {
        1
    } else {
        left / (SCALE as int)
    }) as u8
}

/// The player after a natural decline: pace and agility lose 0.15 of it,
/// most mental attributes 0.05, all others 0.10.
#[verifier::opaque]
pub open spec fn declined(player: Player, decline: int) -> Player {
    Player {
        technical: TechnicalAttributes {
            dribbling: declined_attribute(player.technical.dribbling, decline, 100_000),
            passing: declined_attribute(player.technical.passing, decline, 100_000),
            shooting: declined_attribute(player.technical.shooting, decline, 100_000),
            first_touch: declined_attribute(player.technical.first_touch, decline, 100_000),
            tackling: declined_attribute(player.technical.tackling, decline, 100_000),
            crossing: declined_attribute(player.technical.crossing, decline, 100_000),
        },
        physical: PhysicalAttributes {
            pace: declined_attribute(player.physical.pace, decline, 150_000),
            stamina: declined_attribute(player.physical.stamina, decline, 100_000),
            strength: declined_attribute(player.physical.strength, decline, 100_000),
            agility: declined_attribute(player.physical.agility, decline, 150_000),
            jumping: declined_attribute(player.physical.jumping, decline, 100_000),
        },
        mental: MentalAttributes {
            composure: declined_attribute(player.mental.composure, decline, 50_000),
            vision: declined_attribute(player.mental.vision, decline, 50_000),
            work_rate: declined_attribute(player.mental.work_rate, decline, 100_000),
            determination: declined_attribute(player.mental.determination, decline, 50_000),
            positioning: declined_attribute(player.mental.positioning, decline, 50_000),
            teamwork: declined_attribute(player.mental.teamwork, decline, 50_000),
        },
        ..player
    }
}

/// The player after the growth of one update: the attributes of the
/// category grow by the base growth times `1 + performance`; without a
/// category the player declines by a tenth of the base growth.
#[verifier::opaque]
pub open spec fn grown(
    player: Player,
    training_effectiveness: int,
    performance_factor: int,
    age_factor: int,
    days_passed: int,
    category: GrowthCategory,
) -> Player {
    let base_growth = base_growth_of(training_effectiveness, age_factor, days_passed);
    let amount = fmul(base_growth, SCALE + performance_factor);
    match category {
        GrowthCategory::Technical => Player {
            technical: grown_technical(player.technical, amount),
            ..player
        },
        GrowthCategory::Physical => Player {
            physical: grown_physical(player.physical, amount),
            ..player
        },
        GrowthCategory::Mental => Player { mental: grown_mental(player.mental, amount), ..player },
        GrowthCategory::Decline => declined(player, fmul(base_growth, 100_000)),
    }
}

/// An attribute under an injury that takes the share `reduction` of it
/// away, rounded to the nearest whole number.
pub open spec fn reduced_attribute(attribute: u8, reduction: int) -> u8 {
    ((attribute * (SCALE - reduction) + SCALE / 2) / (SCALE as int)) as u8
}

/// The player with one attribute reduced.
#[verifier::opaque]
pub open spec fn with_reduced(player: Player, affected: AffectedAttribute) -> Player {
    let reduction = affected.reduction_percentage as int;
    match affected.attribute {
        AttributeType::Technical(attribute) => Player {
            technical: match attribute {
                TechnicalAttribute::Dribbling => TechnicalAttributes {
                    dribbling: reduced_attribute(player.technical.dribbling, reduction),
                    ..player.technical
                },
                TechnicalAttribute::Passing => TechnicalAttributes {
                    passing: reduced_attribute(player.technical.passing, reduction),
                    ..player.technical
                },
                TechnicalAttribute::Shooting => TechnicalAttributes {
                    shooting: reduced_attribute(player.technical.shooting, reduction),
                    ..player.technical
                },
                TechnicalAttribute::FirstTouch => TechnicalAttributes {
                    first_touch: reduced_attribute(player.technical.first_touch, reduction),
                    ..player.technical
                },
                TechnicalAttribute::Tackling => TechnicalAttributes {
                    tackling: reduced_attribute(player.technical.tackling, reduction),
                    ..player.technical
                },
                TechnicalAttribute::Crossing => TechnicalAttributes {
                    crossing: reduced_attribute(player.technical.crossing, reduction),
                    ..player.technical
                },
            },
            ..player
        },
        AttributeType::Physical(attribute) => Player {
            physical: match attribute {
                PhysicalAttribute::Pace => PhysicalAttributes {
                    pace: reduced_attribute(player.physical.pace, reduction),
                    ..player.physical
                },
                PhysicalAttribute::Stamina => PhysicalAttributes {
                    stamina: reduced_attribute(player.physical.stamina, reduction),
                    ..player.physical
                },
                PhysicalAttribute::Strength => PhysicalAttributes {
                    strength: reduced_attribute(player.physical.strength, reduction),
                    ..player.physical
                },
                PhysicalAttribute::Agility => PhysicalAttributes {
                    agility: reduced_attribute(player.physical.agility, reduction),
                    ..player.physical
                },
                PhysicalAttribute::Jumping => PhysicalAttributes {
                    jumping: reduced_attribute(player.physical.jumping, reduction),
                    ..player.physical
                },
            },
            ..player
        },
        AttributeType::Mental(attribute) => Player {
            mental: match attribute {
                MentalAttribute::Composure => MentalAttributes {
                    composure: reduced_attribute(player.mental.composure, reduction),
                    ..player.mental
                },
                MentalAttribute::Vision => MentalAttributes {
                    vision: reduced_attribute(player.mental.vision, reduction),
                    ..player.mental
                },
                MentalAttribute::WorkRate => MentalAttributes {
                    work_rate: reduced_attribute(player.mental.work_rate, reduction),
                    ..player.mental
                },
                MentalAttribute::Determination => MentalAttributes {
                    determination: reduced_attribute(player.mental.determination, reduction),
                    ..player.mental
                },
                MentalAttribute::Positioning => MentalAttributes {
                    positioning: reduced_attribute(player.mental.positioning, reduction),
                    ..player.mental
                },
                MentalAttribute::Teamwork => MentalAttributes {
                    teamwork: reduced_attribute(player.mental.teamwork, reduction),
                    ..player.mental
                },
            },
            ..player
        },
    }
}

/// The player with the first `count` of the affected attributes reduced, one
/// after the other.
pub open spec fn with_reductions(player: Player, affected: Seq<AffectedAttribute>, count: int)
    -> Player
    decreases count,
{
    if count <= 0 {
        player
    } else {
        with_reduced(with_reductions(player, affected, count - 1), affected[count - 1])
    }
}

/// Whether every reduction is a share between 0.0 and 1.0.
pub open spec fn reductions_valid(affected: Seq<AffectedAttribute>) -> bool {
    forall|i: int|
        0 <= i < affected.len() ==> 0 <= (#[trigger] affected[i]).reduction_percentage <= SCALE
}

/// Whether the injury of the player, if there is one, takes shares between
/// 0.0 and 1.0.
pub open spec fn injury_valid(player: Player) -> bool {
    match player.injury_status {
        Some(injury) => reductions_valid(injury.affected_attributes@),
        None => true,
    }
}

/// The player under their injury: every affected attribute is reduced.
pub open spec fn injured(player: Player) -> Player {
    match player.injury_status {
        Some(injury) => with_reductions(
            player,
            injury.affected_attributes@,
            injury.affected_attributes@.len() as int,
        ),
        None => player,
    }
}

/// The sum of the first `count` ratings.
pub open spec fn rating_sum(ratings: Seq<i64>, count: int) -> int
    decreases count,
{
    if count <= 0 {
        0
    } else {
        rating_sum(ratings, count - 1) + ratings[count - 1]
    }
}

/// The ratings on record after a new one: the new one comes last, and of
/// more than five the oldest goes.
pub open spec fn history_after(history: Seq<i64>, rating: i64) -> Seq<i64> {
    if history.len() + 1 > FORM_WINDOW {
        history.push(rating).subrange(1, history.len() as int + 1)
    } else {
        history.push(rating)
    }
}

/// The form that a record of ratings gives: their mean.
pub open spec fn form_of(history: Seq<i64>) -> int
    recommends
        history.len() > 0,
{
    trunc_div(rating_sum(history, history.len() as int), history.len() as int)
}

/// The development engine.
#[derive(Debug, Clone, Copy)]
pub struct PlayerDevelopmentEngine;

impl PlayerDevelopmentEngine {
    pub fn new() -> (engine: PlayerDevelopmentEngine) {
        PlayerDevelopmentEngine
    }

    /// How fast a player of the given age develops.
    pub fn calculate_age_development_factor(&self, age: u8) -> (factor: i64)
        ensures
            factor == age_development_factor_of(age as int),
            400_000 <= factor <= 1_200_000,
    {
        if 15 <= age && age <= 18 {
            1_200_000
        } else if 19 <= age && age <= 23 {
            1_000_000
        } else if 24 <= age && age <= 28 {
            800_000
        } else if 29 <= age && age <= 32 {
            600_000
        } else {
            400_000
        }
    }

    /// How effective training is for the development of a player.
    pub fn calculate_training_effectiveness(
        &self,
        training_focus: TrainingFocus,
        hidden_attrs: &HiddenAttributes,
        determination: u8,
    ) -> (effectiveness: i64)
        ensures
            effectiveness == development_effectiveness_of(
                training_focus,
                hidden_attrs.potential_ceiling as int,
                determination as int,
            ),
            0 <= effectiveness <= 5_852_250,
            training_focus == TrainingFocus::Rest ==> effectiveness == 0,
    {
        let base_effectiveness: i64 = match training_focus {
            TrainingFocus::Technical => 900_000,
            TrainingFocus::Physical => 900_000,
            TrainingFocus::Tactical => 700_000,
            TrainingFocus::Mental => 750_000,
            TrainingFocus::Rest => 0,
        };
        let determination_modifier: i64 = (determination as i64) * 10_000;
        let potential_modifier: i64 = (hidden_attrs.potential_ceiling as i64) * 10_000;
        proof {
            lemma_fmul_bound(base_effectiveness as int, determination_modifier as int, 900_000, 2_550_000);
        }
        let with_determination: i64 = times(base_effectiveness, determination_modifier);
        proof {
            lemma_fmul_bound(with_determination as int, potential_modifier as int, 2_295_000, 2_550_000);
        }
        times(with_determination, potential_modifier)
    }

    /// A rating as a performance between -1.0 and 1.0.
    pub fn normalize_performance(&self, rating: i64) -> (performance: i64)
        ensures
            performance == normalized_performance(rating as int),
            -SCALE <= performance <= SCALE,
    {
        let distance: i128 = rating as i128 - 6_000_000;
        let quarter: i128 = div_toward_zero(distance, 4);
        if quarter < -(SCALE as i128) {
            -SCALE
        } else if quarter > SCALE as i128 {
            SCALE
        } else {
            quarter as i64
        }
    }

    /// An attribute value held between 1 and 100.
    pub fn cap_attribute(&self, value: i64) -> (capped: i64)
        ensures
            capped == capped_attribute(value as int),
            SCALE <= capped <= 100 * SCALE,
    {
        cap(value)
    }

    /// What is left of a growth at the given average of the attributes.
    pub fn apply_diminishing_returns(&self, base_growth: i64, current_average: i64) -> (growth: i64)
        requires
            0 <= base_growth <= MAX_OPERAND,
            0 <= current_average <= 255 * SCALE,
        ensures
            growth == diminished_improvement(base_growth as int, current_average as int),
            0 <= growth <= base_growth,
    {
        diminish(base_growth, current_average)
    }

    /// Lets the technical attributes of a player grow.
    pub fn increase_technical_attributes(&self, player: &mut Player, growth_amount: i64)
        requires
            0 <= growth_amount <= MAX_OPERAND,
        ensures
            *final(player) == (Player {
                technical: grown_technical(old(player).technical, growth_amount as int),
                ..*old(player)
            }),
            final(player).form_history == old(player).form_history,
            final(player).injury_status == old(player).injury_status,
            final(player).fatigue == old(player).fatigue,
    {
        let growth: i64 = self.apply_diminishing_returns(growth_amount, player.technical.average());
        let technical = TechnicalAttributes {
            dribbling: improve_attribute(player.technical.dribbling, growth, 150_000),
            passing: improve_attribute(player.technical.passing, growth, 200_000),
            shooting: improve_attribute(player.technical.shooting, growth, 180_000),
            first_touch: improve_attribute(player.technical.first_touch, growth, 170_000),
            tackling: improve_attribute(player.technical.tackling, growth, 150_000),
            crossing: improve_attribute(player.technical.crossing, growth, 150_000),
        };
        player.technical = technical;
    }

    /// Lets the physical attributes of a player grow.
    pub fn increase_physical_attributes(&self, player: &mut Player, growth_amount: i64)
        requires
            0 <= growth_amount <= MAX_OPERAND,
        ensures
            *final(player) == (Player {
                physical: grown_physical(old(player).physical, growth_amount as int),
                ..*old(player)
            }),
            final(player).form_history == old(player).form_history,
            final(player).injury_status == old(player).injury_status,
            final(player).fatigue == old(player).fatigue,
    {
        let growth: i64 = self.apply_diminishing_returns(growth_amount, player.physical.average());
        let physical = PhysicalAttributes {
            pace: improve_attribute(player.physical.pace, growth, 200_000),
            stamina: improve_attribute(player.physical.stamina, growth, 250_000),
            strength: improve_attribute(player.physical.strength, growth, 200_000),
            agility: improve_attribute(player.physical.agility, growth, 180_000),
            jumping: improve_attribute(player.physical.jumping, growth, 170_000),
        };
        player.physical = physical;
    }

    /// Lets the mental attributes of a player grow.
    pub fn increase_mental_attributes(&self, player: &mut Player, growth_amount: i64)
        requires
            0 <= growth_amount <= MAX_OPERAND,
        ensures
            *final(player) == (Player {
                mental: grown_mental(old(player).mental, growth_amount as int),
                ..*old(player)
            }),
            final(player).form_history == old(player).form_history,
            final(player).injury_status == old(player).injury_status,
            final(player).fatigue == old(player).fatigue,
    {
        let growth: i64 = self.apply_diminishing_returns(growth_amount, player.mental.average());
        let mental = MentalAttributes {
            composure: improve_attribute(player.mental.composure, growth, 180_000),
            vision: improve_attribute(player.mental.vision, growth, 200_000),
            work_rate: improve_attribute(player.mental.work_rate, growth, 170_000),
            determination: improve_attribute(player.mental.determination, growth, 200_000),
            positioning: improve_attribute(player.mental.positioning, growth, 150_000),
            teamwork: improve_attribute(player.mental.teamwork, growth, 100_000),
        };
        player.mental = mental;
    }

    /// An attribute after its share of a decline.
    pub fn decline_attribute(&self, attribute: u8, decline_amount: i64, share: i64) -> (declined: u8)
        requires
            0 <= decline_amount <= MAX_OPERAND,
            0 <= share <= SCALE,
        ensures
            declined == declined_attribute(attribute, decline_amount as int, share as int),
            1 <= declined,
            declined <= attribute || declined == 1,
    {
        proof {
            lemma_fmul_bound(decline_amount as int, share as int, MAX_OPERAND as int, 1_000_000);
        }
        let left: i64 = (attribute as i64) * SCALE - times(decline_amount, share);
        if left < SCALE {
            1
        } else {
            (left / SCALE) as u8
        }
    }

    /// Lets every attribute of a player decline.
    pub fn apply_natural_decline(&self, player: &mut Player, decline_amount: i64)
        requires
            0 <= decline_amount <= MAX_OPERAND,
        ensures
            *final(player) == declined(*old(player), decline_amount as int),
            final(player).form_history == old(player).form_history,
            final(player).injury_status == old(player).injury_status,
            final(player).fatigue == old(player).fatigue,
    {
        proof {
            reveal(declined);
        }
        let technical = TechnicalAttributes {
            dribbling: self.decline_attribute(player.technical.dribbling, decline_amount, 100_000),
            passing: self.decline_attribute(player.technical.passing, decline_amount, 100_000),
            shooting: self.decline_attribute(player.technical.shooting, decline_amount, 100_000),
            first_touch: self.decline_attribute(
                player.technical.first_touch,
                decline_amount,
                100_000,
            ),
            tackling: self.decline_attribute(player.technical.tackling, decline_amount, 100_000),
            crossing: self.decline_attribute(player.technical.crossing, decline_amount, 100_000),
        };
        let physical = PhysicalAttributes {
            pace: self.decline_attribute(player.physical.pace, decline_amount, 150_000),
            stamina: self.decline_attribute(player.physical.stamina, decline_amount, 100_000),
            strength: self.decline_attribute(player.physical.strength, decline_amount, 100_000),
            agility: self.decline_attribute(player.physical.agility, decline_amount, 150_000),
            jumping: self.decline_attribute(player.physical.jumping, decline_amount, 100_000),
        };
        let mental = MentalAttributes {
            composure: self.decline_attribute(player.mental.composure, decline_amount, 50_000),
            vision: self.decline_attribute(player.mental.vision, decline_amount, 50_000),
            work_rate: self.decline_attribute(player.mental.work_rate, decline_amount, 100_000),
            determination: self.decline_attribute(
                player.mental.determination,
                decline_amount,
                50_000,
            ),
            positioning: self.decline_attribute(player.mental.positioning, decline_amount, 50_000),
            teamwork: self.decline_attribute(player.mental.teamwork, decline_amount, 50_000),
        };
        player.technical = technical;
        player.physical = physical;
        player.mental = mental;
    }

    /// Applies the growth of one update to the attributes of the category.
    pub fn apply_attribute_growth(
        &self,
        player: &mut Player,
        training_effectiveness: i64,
        performance_factor: i64,
        age_factor: i64,
        days_passed: u32,
        category: GrowthCategory,
    )
        requires
            0 <= training_effectiveness <= 6_000_000,
            -SCALE <= performance_factor <= SCALE,
            0 <= age_factor <= 1_200_000,
            days_passed <= MAX_DAYS,
        ensures
            *final(player) == grown(
                *old(player),
                training_effectiveness as int,
                performance_factor as int,
                age_factor as int,
                days_passed as int,
                category,
            ),
            final(player).form_history == old(player).form_history,
            final(player).injury_status == old(player).injury_status,
            final(player).fatigue == old(player).fatigue,
    {
        proof {
            reveal(grown);
        }
        let time_factor: i64 = (days_passed as i64) * SCALE / 7;
        proof {
            lemma_fmul_bound(training_effectiveness as int, age_factor as int, 6_000_000, 1_200_000);
        }
        let aged: i64 = times(training_effectiveness, age_factor);
        proof {
            lemma_fmul_bound(aged as int, time_factor as int, 7_200_000, 14_285_714_285);
        }
        let base_growth: i64 = times(aged, time_factor);
        proof {
            lemma_fmul_bound(base_growth as int, SCALE + performance_factor, 102_857_142_852, 2_000_000);
            lemma_fmul_bound(base_growth as int, 100_000, 102_857_142_852, 100_000);
        }
        match category {
            GrowthCategory::Technical => {
                self.increase_technical_attributes(
                    player,
                    times(base_growth, SCALE + performance_factor),
                );
            },
            GrowthCategory::Physical => {
                self.increase_physical_attributes(
                    player,
                    times(base_growth, SCALE + performance_factor),
                );
            },
            GrowthCategory::Mental => {
                self.increase_mental_attributes(
                    player,
                    times(base_growth, SCALE + performance_factor),
                );
            },
            GrowthCategory::Decline => {
                self.apply_natural_decline(player, times(base_growth, 100_000));
            },
        }
    }

    /// Holds the fatigue of a player between 0 and 100.
    pub fn apply_fatigue_effects(&self, player: &mut Player)
        ensures
            *final(player) == (Player {
                fatigue: clamp_to(old(player).fatigue as int, 0, 100 * SCALE) as i64,
                ..*old(player)
            }),
    {
        player.fatigue = clamp(player.fatigue, 0, 100 * SCALE);
    }

    /// An attribute under an injury that takes the share `reduction` of it
    /// away.
    pub fn reduce_attribute(&self, attribute: u8, reduction: i64) -> (reduced: u8)
        requires
            0 <= reduction <= SCALE,
        ensures
            reduced == reduced_attribute(attribute, reduction as int),
            reduced <= attribute,
    {
        let kept: i64 = SCALE - reduction;
        assert(0 <= attribute * kept <= 255 * SCALE) by (nonlinear_arith)
            requires
                0 <= attribute <= 255,
                0 <= kept <= SCALE,
        ;
        assert(attribute * kept <= attribute * SCALE) by (nonlinear_arith)
            requires
                0 <= attribute,
                0 <= kept <= SCALE,
        ;
        (((attribute as i64) * kept + SCALE / 2) / SCALE) as u8
    }

    /// Reduces one technical attribute of a player by a share.
    pub fn reduce_technical_attribute(
        &self,
        player: &mut Player,
        attr: TechnicalAttribute,
        reduction: i64,
    )
        requires
            0 <= reduction <= SCALE,
        ensures
            *final(player) == with_reduced(
                *old(player),
                (AffectedAttribute {
                    attribute: AttributeType::Technical(attr),
                    reduction_percentage: reduction,
                }),
            ),
            final(player).form_history == old(player).form_history,
            final(player).injury_status == old(player).injury_status,
            final(player).fatigue == old(player).fatigue,
    {
        proof {
            reveal(with_reduced);
        }
        match attr {
            TechnicalAttribute::Dribbling => {
                player.technical.dribbling = self.reduce_attribute(
                    player.technical.dribbling,
                    reduction,
                );
            },
            TechnicalAttribute::Passing => {
                player.technical.passing = self.reduce_attribute(player.technical.passing, reduction);
            },
            TechnicalAttribute::Shooting => {
                player.technical.shooting = self.reduce_attribute(
                    player.technical.shooting,
                    reduction,
                );
            },
            TechnicalAttribute::FirstTouch => {
                player.technical.first_touch = self.reduce_attribute(
                    player.technical.first_touch,
                    reduction,
                );
            },
            TechnicalAttribute::Tackling => {
                player.technical.tackling = self.reduce_attribute(
                    player.technical.tackling,
                    reduction,
                );
            },
            TechnicalAttribute::Crossing => {
                player.technical.crossing = self.reduce_attribute(
                    player.technical.crossing,
                    reduction,
                );
            },
        }
    }

    /// Reduces one physical attribute of a player by a share.
    pub fn reduce_physical_attribute(
        &self,
        player: &mut Player,
        attr: PhysicalAttribute,
        reduction: i64,
    )
        requires
            0 <= reduction <= SCALE,
        ensures
            *final(player) == with_reduced(
                *old(player),
                (AffectedAttribute {
                    attribute: AttributeType::Physical(attr),
                    reduction_percentage: reduction,
                }),
            ),
            final(player).form_history == old(player).form_history,
            final(player).injury_status == old(player).injury_status,
            final(player).fatigue == old(player).fatigue,
    {
        proof {
            reveal(with_reduced);
        }
        match attr {
            PhysicalAttribute::Pace => {
                player.physical.pace = self.reduce_attribute(player.physical.pace, reduction);
            },
            PhysicalAttribute::Stamina => {
                player.physical.stamina = self.reduce_attribute(player.physical.stamina, reduction);
            },
            PhysicalAttribute::Strength => {
                player.physical.strength = self.reduce_attribute(player.physical.strength, reduction);
            },
            PhysicalAttribute::Agility => {
                player.physical.agility = self.reduce_attribute(player.physical.agility, reduction);
            },
            PhysicalAttribute::Jumping => {
                player.physical.jumping = self.reduce_attribute(player.physical.jumping, reduction);
            },
        }
    }

    /// Reduces one mental attribute of a player by a share.
    pub fn reduce_mental_attribute(&self, player: &mut Player, attr: MentalAttribute, reduction: i64)
        requires
            0 <= reduction <= SCALE,
        ensures
            *final(player) == with_reduced(
                *old(player),
                (AffectedAttribute {
                    attribute: AttributeType::Mental(attr),
                    reduction_percentage: reduction,
                }),
            ),
            final(player).form_history == old(player).form_history,
            final(player).injury_status == old(player).injury_status,
            final(player).fatigue == old(player).fatigue,
    {
        proof {
            reveal(with_reduced);
        }
        match attr {
            MentalAttribute::Composure => {
                player.mental.composure = self.reduce_attribute(player.mental.composure, reduction);
            },
            MentalAttribute::Vision => {
                player.mental.vision = self.reduce_attribute(player.mental.vision, reduction);
            },
            MentalAttribute::WorkRate => {
                player.mental.work_rate = self.reduce_attribute(player.mental.work_rate, reduction);
            },
            MentalAttribute::Determination => {
                player.mental.determination = self.reduce_attribute(
                    player.mental.determination,
                    reduction,
                );
            },
            MentalAttribute::Positioning => {
                player.mental.positioning = self.reduce_attribute(
                    player.mental.positioning,
                    reduction,
                );
            },
            MentalAttribute::Teamwork => {
                player.mental.teamwork = self.reduce_attribute(player.mental.teamwork, reduction);
            },
        }
    }

    /// The attribute that the injury of a player affects in the given place,
    /// if there is one.
    pub fn affected_at(&self, player: &Player, place: usize) -> (affected: Option<AffectedAttribute>)
        ensures
            affected == (match player.injury_status {
                Some(injury) => if place < injury.affected_attributes@.len() {
                    Some(injury.affected_attributes@[place as int])
                } else {
                    None
                },
                None => None,
            }),
            affected is Some ==> place < usize::MAX,
    {
        match &player.injury_status {
            Some(injury) => {
                if place < injury.affected_attributes.len() {
                    Some(injury.affected_attributes[place])
                } else {
                    None
                }
            },
            None => None,
        }
    }

    /// Reduces one attribute of a player by the share that an injury takes.
    pub fn reduce_affected_attribute(&self, player: &mut Player, affected: AffectedAttribute)
        requires
            0 <= affected.reduction_percentage <= SCALE,
        ensures
            *final(player) == with_reduced(*old(player), affected),
            final(player).form_history == old(player).form_history,
            final(player).injury_status == old(player).injury_status,
            final(player).fatigue == old(player).fatigue,
    {
        match affected.attribute {
            AttributeType::Technical(attr) => {
                self.reduce_technical_attribute(player, attr, affected.reduction_percentage);
            },
            AttributeType::Physical(attr) => {
                self.reduce_physical_attribute(player, attr, affected.reduction_percentage);
            },
            AttributeType::Mental(attr) => {
                self.reduce_mental_attribute(player, attr, affected.reduction_percentage);
            },
        }
    }

    /// Reduces the attributes that the injury of a player affects, one after
    /// the other.
    pub fn apply_injury_effects(&self, player: &mut Player)
        requires
            injury_valid(*old(player)),
        ensures
            *final(player) == injured(*old(player)),
            final(player).form_history == old(player).form_history,
            final(player).injury_status == old(player).injury_status,
            final(player).fatigue == old(player).fatigue,
    {
        let mut i: usize = 0;
        loop
            invariant
                player.injury_status == old(player).injury_status,
                player.form_history == old(player).form_history,
                player.fatigue == old(player).fatigue,
                injury_valid(*old(player)),
                match old(player).injury_status {
                    Some(injury) => i <= injury.affected_attributes@.len() && *player
                        == with_reductions(*old(player), injury.affected_attributes@, i as int),
                    None => *player == *old(player),
                },
            ensures
                *player == injured(*old(player)),
                player.injury_status == old(player).injury_status,
                player.form_history == old(player).form_history,
                player.fatigue == old(player).fatigue,
            decreases
                    (match old(player).injury_status {
                        Some(injury) => injury.affected_attributes@.len() - i,
                        None => 0,
                    }),
        {
            match self.affected_at(player, i) {
                Some(affected) => {
                    assert(old(player).injury_status is Some);
                    assert(i < old(player).injury_status->0.affected_attributes@.len());
                    self.reduce_affected_attribute(player, affected);
                    i = i + 1;
                },
                None => {
                    break ;
                },
            }
        }
    }

    /// Puts a rating on record, keeps the last five, and sets the form to
    /// their mean.
    pub fn update_form(&self, player: &mut Player, match_rating: i64)
        requires
            old(player).form_history@.len() < usize::MAX,
        ensures
            final(player).form_history@ == history_after(old(player).form_history@, match_rating),
            final(player).form == form_of(final(player).form_history@),
            *final(player) == (Player {
                form_history: final(player).form_history,
                form: final(player).form,
                ..*old(player)
            }),
    {
        player.form_history.push(match_rating);
        if player.form_history.len() > FORM_WINDOW {
            player.form_history.remove(0);
        }
        assert(player.form_history@ =~= history_after(old(player).form_history@, match_rating));
        let length: usize = player.form_history.len();
        let mut sum: i128 = 0;
        let mut i: usize = 0;
        while i < length
            invariant
                0 <= i <= length,
                length == player.form_history@.len(),
                sum == rating_sum(player.form_history@, i as int),
                i * i64::MIN <= sum <= i * i64::MAX,
                player.form_history@ == history_after(old(player).form_history@, match_rating),
                *player == (Player { form_history: player.form_history, ..*old(player) }),
            decreases length - i,
        {
            proof {
                assert((i + 1) * i64::MIN == i * i64::MIN + i64::MIN) by (nonlinear_arith);
                assert((i + 1) * i64::MAX == i * i64::MAX + i64::MAX) by (nonlinear_arith);
                assert(i * i64::MAX <= usize::MAX * i64::MAX) by (nonlinear_arith)
                    requires
                        i <= usize::MAX,
                ;
                assert(i * i64::MIN >= usize::MAX * i64::MIN) by (nonlinear_arith)
                    requires
                        0 <= i <= usize::MAX,
                ;
            }
            sum = sum + player.form_history[i] as i128;
            i = i + 1;
        }
        proof {
            lemma_trunc_div_bounds(sum as int, length as int);
            lemma_trunc_div_monotonic(sum as int, length * i64::MAX, length as int);
            lemma_trunc_div_monotonic(length * i64::MIN, sum as int, length as int);
            assert((length * i64::MAX) / (length as int) == i64::MAX) by (nonlinear_arith)
                requires
                    length > 0,
            ;
            assert((-(length * i64::MIN)) / (length as int) == -i64::MIN) by (nonlinear_arith)
                requires
                    length > 0,
            ;
            assert(length * i64::MIN <= 0) by (nonlinear_arith)
                requires
                    length > 0,
            ;
            assert(length * i64::MAX >= 0) by (nonlinear_arith)
                requires
                    length > 0,
            ;
            assert(length * i64::MAX <= usize::MAX * i64::MAX) by (nonlinear_arith)
                requires
                    length <= usize::MAX,
            ;
            assert(length * i64::MIN >= usize::MAX * i64::MIN) by (nonlinear_arith)
                requires
                    0 <= length <= usize::MAX,
            ;
        }
        player.form = div_toward_zero(sum, length as i128) as i64;
    }

    /// Develops a player over the days that passed: the attributes grow or
    /// decline as the age demands, the fatigue is held within bounds, an
    /// injury takes its toll, and a match rating enters the form.
    #[verifier::rlimit(100)]
    pub fn update_player_attributes(
        &self,
        player: &mut Player,
        training_focus: TrainingFocus,
        match_performance: Option<i64>,
        days_passed: u32,
    )
        requires
            days_passed <= MAX_DAYS,
            injury_valid(*old(player)),
            old(player).form_history@.len() < usize::MAX,
        ensures
            match match_performance {
                Some(rating) => {
                    let before_form = developed(*old(player), training_focus, match_performance, days_passed);
                    &&& final(player).form_history@ == history_after(before_form.form_history@, rating)
                    &&& final(player).form == form_of(final(player).form_history@)
                    &&& *final(player) == (Player {
                        form_history: final(player).form_history,
                        form: final(player).form,
                        ..before_form
                    })
                },
                None => *final(player) == developed(
                    *old(player),
                    training_focus,
                    match_performance,
                    days_passed,
                ),
            },
    {
        let age_factor: i64 = self.calculate_age_development_factor(player.age);
        let training_effectiveness: i64 = self.calculate_training_effectiveness(
            training_focus,
            &player.hidden,
            player.mental.determination,
        );
        let performance_factor: i64 = match match_performance {
            Some(rating) => self.normalize_performance(rating),
            None => 0,
        };
        self.apply_growth_phase(
            player,
            training_effectiveness,
            performance_factor,
            age_factor,
            days_passed,
        );
        self.apply_fatigue_effects(player);
        self.apply_injury_effects(player);
        if let Some(rating) = match_performance {
            self.update_form(player, rating);
        }
    }

    /// Applies the growth that the age of a player plans.
    pub fn apply_growth_phase(
        &self,
        player: &mut Player,
        training_effectiveness: i64,
        performance_factor: i64,
        age_factor: i64,
        days_passed: u32,
    )
        requires
            0 <= training_effectiveness <= 6_000_000,
            -SCALE <= performance_factor <= SCALE,
            0 <= age_factor <= 1_200_000,
            days_passed <= MAX_DAYS,
        ensures
            *final(player) == grown(
                *old(player),
                fmul(training_effectiveness as int, growth_plan_of(old(player).age as int).0),
                performance_factor as int,
                fmul(age_factor as int, growth_plan_of(old(player).age as int).1),
                days_passed as int,
                growth_plan_of(old(player).age as int).2,
            ),
            final(player).form_history == old(player).form_history,
            final(player).injury_status == old(player).injury_status,
            final(player).fatigue == old(player).fatigue,
    {
        proof {
            crate::fixed::lemma_fmul_unit(training_effectiveness as int);
            crate::fixed::lemma_fmul_unit(age_factor as int);
        }
        let age: u8 = player.age;
        if 15 <= age && age <= 18 {
            self.update_young_development(
                player,
                training_effectiveness,
                performance_factor,
                age_factor,
                days_passed,
            );
        } else if 19 <= age && age <= 23 {
            self.update_physical_peak_development(
                player,
                training_effectiveness,
                performance_factor,
                age_factor,
                days_passed,
            );
        } else if 24 <= age && age <= 28 {
            self.update_peak_maintenance(
                player,
                training_effectiveness,
                performance_factor,
                age_factor,
                days_passed,
            );
        } else if 29 <= age && age <= 32 {
            self.update_aging_phase(
                player,
                training_effectiveness,
                performance_factor,
                age_factor,
                days_passed,
            );
        } else {
            self.update_late_career_decline(
                player,
                training_effectiveness,
                performance_factor,
                age_factor,
                days_passed,
            );
        }
    }

    /// The growth of the youngest players: in technique.
    pub fn update_young_development(
        &self,
        player: &mut Player,
        training_effectiveness: i64,
        performance_factor: i64,
        age_factor: i64,
        days_passed: u32,
    )
        requires
            0 <= training_effectiveness <= 6_000_000,
            -SCALE <= performance_factor <= SCALE,
            0 <= age_factor <= 1_200_000,
            days_passed <= MAX_DAYS,
        ensures
            *final(player) == grown(
                *old(player),
                training_effectiveness as int,
                performance_factor as int,
                age_factor as int,
                days_passed as int,
                GrowthCategory::Technical,
            ),
            final(player).form_history == old(player).form_history,
            final(player).injury_status == old(player).injury_status,
            final(player).fatigue == old(player).fatigue,
    {
        self.apply_attribute_growth(
            player,
            training_effectiveness,
            performance_factor,
            age_factor,
            days_passed,
            GrowthCategory::Technical,
        );
    }

    /// The growth of players at their physical peak: in physique.
    pub fn update_physical_peak_development(
        &self,
        player: &mut Player,
        training_effectiveness: i64,
        performance_factor: i64,
        age_factor: i64,
        days_passed: u32,
    )
        requires
            0 <= training_effectiveness <= 6_000_000,
            -SCALE <= performance_factor <= SCALE,
            0 <= age_factor <= 1_200_000,
            days_passed <= MAX_DAYS,
        ensures
            *final(player) == grown(
                *old(player),
                training_effectiveness as int,
                performance_factor as int,
                age_factor as int,
                days_passed as int,
                GrowthCategory::Physical,
            ),
            final(player).form_history == old(player).form_history,
            final(player).injury_status == old(player).injury_status,
            final(player).fatigue == old(player).fatigue,
    {
        self.apply_attribute_growth(
            player,
            training_effectiveness,
            performance_factor,
            age_factor,
            days_passed,
            GrowthCategory::Physical,
        );
    }

    /// The growth of players at their peak: in mind, at 0.7 of the
    /// effectiveness.
    pub fn update_peak_maintenance(
        &self,
        player: &mut Player,
        training_effectiveness: i64,
        performance_factor: i64,
        age_factor: i64,
        days_passed: u32,
    )
        requires
            0 <= training_effectiveness <= 6_000_000,
            -SCALE <= performance_factor <= SCALE,
            0 <= age_factor <= 1_200_000,
            days_passed <= MAX_DAYS,
        ensures
            *final(player) == grown(
                *old(player),
                fmul(training_effectiveness as int, 700_000),
                performance_factor as int,
                age_factor as int,
                days_passed as int,
                GrowthCategory::Mental,
            ),
            final(player).form_history == old(player).form_history,
            final(player).injury_status == old(player).injury_status,
            final(player).fatigue == old(player).fatigue,
    {
        proof {
            lemma_fmul_bound(training_effectiveness as int, 700_000, 6_000_000, 700_000);
        }
        self.apply_attribute_growth(
            player,
            times(training_effectiveness, 700_000),
            performance_factor,
            age_factor,
            days_passed,
            GrowthCategory::Mental,
        );
    }

    /// The growth of ageing players: in mind, at half the effectiveness.
    pub fn update_aging_phase(
        &self,
        player: &mut Player,
        training_effectiveness: i64,
        performance_factor: i64,
        age_factor: i64,
        days_passed: u32,
    )
        requires
            0 <= training_effectiveness <= 6_000_000,
            -SCALE <= performance_factor <= SCALE,
            0 <= age_factor <= 1_200_000,
            days_passed <= MAX_DAYS,
        ensures
            *final(player) == grown(
                *old(player),
                fmul(training_effectiveness as int, 500_000),
                performance_factor as int,
                age_factor as int,
                days_passed as int,
                GrowthCategory::Mental,
            ),
            final(player).form_history == old(player).form_history,
            final(player).injury_status == old(player).injury_status,
            final(player).fatigue == old(player).fatigue,
    {
        proof {
            lemma_fmul_bound(training_effectiveness as int, 500_000, 6_000_000, 500_000);
        }
        self.apply_attribute_growth(
            player,
            times(training_effectiveness, 500_000),
            performance_factor,
            age_factor,
            days_passed,
            GrowthCategory::Mental,
        );
    }

    /// The decline of players late in their career: at 0.3 of the
    /// effectiveness and 0.8 of the age factor.
    pub fn update_late_career_decline(
        &self,
        player: &mut Player,
        training_effectiveness: i64,
        performance_factor: i64,
        age_factor: i64,
        days_passed: u32,
    )
        requires
            0 <= training_effectiveness <= 6_000_000,
            -SCALE <= performance_factor <= SCALE,
            0 <= age_factor <= 1_200_000,
            days_passed <= MAX_DAYS,
        ensures
            *final(player) == grown(
                *old(player),
                fmul(training_effectiveness as int, 300_000),
                performance_factor as int,
                fmul(age_factor as int, 800_000),
                days_passed as int,
                GrowthCategory::Decline,
            ),
            final(player).form_history == old(player).form_history,
            final(player).injury_status == old(player).injury_status,
            final(player).fatigue == old(player).fatigue,
    {
        proof {
            lemma_fmul_bound(training_effectiveness as int, 300_000, 6_000_000, 300_000);
            lemma_fmul_bound(age_factor as int, 800_000, 1_200_000, 800_000);
        }
        self.apply_attribute_growth(
            player,
            times(training_effectiveness, 300_000),
            performance_factor,
            times(age_factor, 800_000),
            days_passed,
            GrowthCategory::Decline,
        );
    }
}

/// The player after one update of the development, before a match rating
/// enters the form: the growth that the age plans, the fatigue held within
/// bounds, and the toll of an injury.
pub open spec fn developed(
    player: Player,
    training_focus: TrainingFocus,
    match_performance: Option<i64>,
    days_passed: u32,
) -> Player {
    let plan = growth_plan_of(player.age as int);
    let effectiveness = development_effectiveness_of(
        training_focus,
        player.hidden.potential_ceiling as int,
        player.mental.determination as int,
    );
    let performance = match match_performance {
        Some(rating) => normalized_performance(rating as int),
        None => 0,
    };
    let after_growth = grown(
        player,
        fmul(effectiveness, plan.0),
        performance,
        fmul(age_development_factor_of(player.age as int), plan.1),
        days_passed as int,
        plan.2,
    );
    let rested = Player {
        fatigue: clamp_to(after_growth.fatigue as int, 0, 100 * SCALE) as i64,
        ..after_growth
    };
    injured(rested)
}

} // verus!
