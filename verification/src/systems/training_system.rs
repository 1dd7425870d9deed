//! The training system: a week of training under a focus that the manager
//! assigns, its effect on attributes, fatigue and morale, and the risk of
//! injury that comes with it.
//!
//! Qualities and intensities run from 0 to 100; like every fractional
//! quantity they are fixed-point millionths.

use vstd::prelude::*;
use crate::entities::{
    is_percentage, HiddenAttributes, MentalAttributes, PhysicalAttributes, Player, Position,
    TechnicalAttributes,
};
use crate::fixed::{
    clamp, clamp_to, fmul, lemma_fmul_bound, lemma_fmul_monotonic, lemma_fmul_unit, times,
    MAX_OPERAND, SCALE,
};

verus! {

/// What a week of training is spent on.
#[derive(Debug, Clone, Copy, PartialEq, Eq, Hash, Structural)]
pub enum TrainingFocus {
    Technical,
    Physical,
    Tactical,
    Mental,
    Rest,
}

/// What a week of training brought. All fields but the focus are in
/// millionths.
#[derive(Debug, Clone, Copy, PartialEq, Eq)]
pub struct TrainingResult {
    pub focus: TrainingFocus,
    pub effectiveness: i64,
    /// How well the focus matched what the player wanted
    pub alignment: i64,
    pub morale_change: i64,
    pub fatigue_increase: i64,
    pub injury_risk: i64,
}

/// The shares in which an improvement is spread over the technical
/// attributes, in millionths.
#[derive(Debug, Clone, Copy, PartialEq, Eq)]
pub struct TechnicalAttributeDistribution {
    pub dribbling: i64,
    pub passing: i64,
    pub shooting: i64,
    pub first_touch: i64,
    pub tackling: i64,
    pub crossing: i64,
}

/// The shares in which an improvement is spread over the physical
/// attributes, in millionths.
#[derive(Debug, Clone, Copy, PartialEq, Eq)]
pub struct PhysicalAttributeDistribution {
    pub pace: i64,
    pub stamina: i64,
    pub strength: i64,
    pub agility: i64,
    pub jumping: i64,
}

/// Whether two different focuses go well together: technical with tactical,
/// physical with mental.
pub open spec fn complementary(first: TrainingFocus, second: TrainingFocus) -> bool {
    ||| (first == TrainingFocus::Technical && second == TrainingFocus::Tactical)
    ||| (first == TrainingFocus::Tactical && second == TrainingFocus::Technical)
    ||| (first == TrainingFocus::Physical && second == TrainingFocus::Mental)
    ||| (first == TrainingFocus::Mental && second == TrainingFocus::Physical)
}

/// How well the assigned focus matches the player's wish: 1.0 for the same
/// focus, 0.7 for a complementary one, 0.3 for any other, and 0.5 where the
/// player has no wish.
pub open spec fn focus_alignment_of(assigned: TrainingFocus, preference: Option<TrainingFocus>)
    -> int {
    match preference {
        Some(wish) => if wish == assigned {
            1_000_000
        } else if complementary(assigned, wish) {
            700_000
        } else {
            300_000
        },
        None => 500_000,
    }
}

/// The effectiveness that a focus has before anything else enters.
pub open spec fn base_effectiveness_of(focus: TrainingFocus) -> int {
    match focus {
        TrainingFocus::Technical => 800_000,
        TrainingFocus::Physical => 900_000,
        TrainingFocus::Tactical => 700_000,
        TrainingFocus::Mental => 750_000,
        TrainingFocus::Rest => 0,
    }
}

/// The effectiveness of a week of training: the base effectiveness of the
/// focus, times coach, intensity and facilities, each taken relative to 50,
/// times `0.5 + alignment / 2`, times the player's professionalism as a
/// share of 100. Every product is rounded toward zero.
pub open spec fn training_effectiveness_of(
    focus: TrainingFocus,
    alignment: int,
    coach_quality: int,
    intensity: int,
    facilities: int,
    professionalism: int,
) -> int {
    let with_coach = fmul(base_effectiveness_of(focus), coach_quality / 50);
    let with_intensity = fmul(with_coach, intensity / 50);
    let with_facilities = fmul(with_intensity, facilities / 50);
    let with_alignment = fmul(with_facilities, 500_000 + alignment / 2);
    fmul(with_alignment, professionalism * 10_000)
}

/// The fatigue that a focus brings at an intensity of 50. Rest takes fatigue
/// away.
pub open spec fn base_fatigue_of(focus: TrainingFocus) -> int {
    match focus {
        TrainingFocus::Technical => 5_000_000,
        TrainingFocus::Physical => 15_000_000,
        TrainingFocus::Tactical => 8_000_000,
        TrainingFocus::Mental => 6_000_000,
        TrainingFocus::Rest => -20_000_000,
    }
}

/// The fatigue that a week of training brings: the base fatigue of the focus
/// times the intensity relative to 50.
pub open spec fn fatigue_increase_of(focus: TrainingFocus, intensity: int) -> int {
    fmul(base_fatigue_of(focus), intensity / 50)
}

/// What the alignment does to morale: `(alignment - 0.5) * 10`, which is
/// between -5 and 5; a gain is scaled by the player's loyalty as a share of
/// 100, a loss by `1.5` minus that share.
pub open spec fn alignment_morale_effect_of(alignment: int, loyalty: int) -> int {
    let effect = (alignment - 500_000) * 10;
    if effect < 0 {
        fmul(effect, 1_500_000 - loyalty * 10_000)
    } else {
        fmul(effect, loyalty * 10_000)
    }
}

/// The risk of injury in training: `intensity / 100 + fatigue / 200`, scaled
/// by the player's proneness to injury as a share of 100.
pub open spec fn injury_risk_of(intensity: int, fatigue: int, injury_proneness: int) -> int {
    fmul(intensity / 100 + crate::fixed::trunc_div(fatigue, 200), injury_proneness * 10_000)
}

/// What is left of an improvement at the given average of the attributes:
/// the higher the average, the less, down to a tenth.
pub open spec fn diminished_improvement(base_improvement: int, current_average: int) -> int {
    let factor = SCALE - current_average / 200;
    if factor < 100_000 {
        fmul(base_improvement, 100_000)
    } else {
        fmul(base_improvement, factor)
    }
}

/// An attribute value held between 1 and 100.
pub open spec fn capped_attribute(value: int) -> int {
    clamp_to(value, SCALE as int, 100 * SCALE)
}

/// An attribute after its share of an improvement: the whole part of the
/// capped sum.
pub open spec fn improved_attribute(attribute: u8, improvement: int, share: int) -> u8 {
    (capped_attribute(attribute * SCALE + fmul(improvement, share)) / (SCALE as int)) as u8
}

/// The shares of the technical attributes for a position, in hundredths,
/// in the order dribbling, passing, shooting, first touch, tackling,
/// crossing.
pub open spec fn technical_shares(position: Position) -> (int, int, int, int, int, int) {
    match position {
        Position::GK => (5, 20, 5, 15, 10, 5),
        Position::CB => (8, 25, 12, 18, 25, 5),
        Position::FB | Position::RB | Position::LB => (12, 22, 10, 15, 25, 16),
        Position::DM => (10, 28, 12, 20, 22, 8),
        Position::CM => (15, 30, 15, 18, 15, 7),
        Position::RM | Position::LM => (22, 22, 18, 15, 10, 13),
        Position::RW | Position::LW => (25, 18, 20, 15, 8, 14),
        Position::CF | Position::SS => (20, 15, 28, 18, 5, 14),
        Position::AM => (18, 28, 20, 18, 12, 16),
    }
}

/// The distribution of a technical improvement for a position.
pub open spec fn technical_distribution_of(position: Position) -> TechnicalAttributeDistribution {
    let shares = technical_shares(position);
    TechnicalAttributeDistribution {
        dribbling: (shares.0 * 10_000) as i64,
        passing: (shares.1 * 10_000) as i64,
        shooting: (shares.2 * 10_000) as i64,
        first_touch: (shares.3 * 10_000) as i64,
        tackling: (shares.4 * 10_000) as i64,
        crossing: (shares.5 * 10_000) as i64,
    }
}

/// The shares of the physical attributes for a position, in hundredths, in
/// the order pace, stamina, strength, agility, jumping. They always sum to
/// 100.
pub open spec fn physical_shares(position: Position) -> (int, int, int, int, int) {
    match position {
        Position::GK => (10, 15, 25, 20, 30),
        Position::CB => (15, 20, 30, 15, 20),
        Position::FB | Position::RB | Position::LB => (25, 25, 15, 20, 15),
        Position::DM => (18, 30, 20, 17, 15),
        Position::CM => (20, 30, 15, 20, 15),
        Position::RM | Position::LM | Position::AM => (28, 25, 12, 25, 10),
        Position::RW | Position::LW => (35, 22, 10, 25, 8),
        Position::CF | Position::SS => (30, 20, 22, 18, 10),
    }
}

/// The distribution of a physical improvement for a position.
pub open spec fn physical_distribution_of(position: Position) -> PhysicalAttributeDistribution {
    let shares = physical_shares(position);
    PhysicalAttributeDistribution {
        pace: (shares.0 * 10_000) as i64,
        stamina: (shares.1 * 10_000) as i64,
        strength: (shares.2 * 10_000) as i64,
        agility: (shares.3 * 10_000) as i64,
        jumping: (shares.4 * 10_000) as i64,
    }
}

/// The shares of a physical improvement leave nothing over: they sum to 1.0
/// for every position.
pub proof fn lemma_physical_shares_are_whole(position: Position)
    ensures
        ({
            let shares = physical_shares(position);
            shares.0 + shares.1 + shares.2 + shares.3 + shares.4 == 100
        }),
{
}

/// The technical attributes after an improvement spread as `distribution`
/// says.
pub open spec fn improved_technical(
    technical: TechnicalAttributes,
    improvement: int,
    distribution: TechnicalAttributeDistribution,
) -> TechnicalAttributes {
    TechnicalAttributes {
        dribbling: improved_attribute(technical.dribbling, improvement, distribution.dribbling as int),
        passing: improved_attribute(technical.passing, improvement, distribution.passing as int),
        shooting: improved_attribute(technical.shooting, improvement, distribution.shooting as int),
        first_touch: improved_attribute(
            technical.first_touch,
            improvement,
            distribution.first_touch as int,
        ),
        tackling: improved_attribute(technical.tackling, improvement, distribution.tackling as int),
        crossing: improved_attribute(technical.crossing, improvement, distribution.crossing as int),
    }
}

/// The physical attributes after an improvement spread as `distribution`
/// says.
pub open spec fn improved_physical(
    physical: PhysicalAttributes,
    improvement: int,
    distribution: PhysicalAttributeDistribution,
) -> PhysicalAttributes {
    PhysicalAttributes {
        pace: improved_attribute(physical.pace, improvement, distribution.pace as int),
        stamina: improved_attribute(physical.stamina, improvement, distribution.stamina as int),
        strength: improved_attribute(physical.strength, improvement, distribution.strength as int),
        agility: improved_attribute(physical.agility, improvement, distribution.agility as int),
        jumping: improved_attribute(physical.jumping, improvement, distribution.jumping as int),
    }
}

/// The mental attributes after an improvement: 0.17 of it goes to composure,
/// vision, determination and positioning each, 0.16 to work rate and
/// teamwork each.
pub open spec fn improved_mental(mental: MentalAttributes, improvement: int) -> MentalAttributes {
    MentalAttributes {
        composure: improved_attribute(mental.composure, improvement, 170_000),
        vision: improved_attribute(mental.vision, improvement, 170_000),
        work_rate: improved_attribute(mental.work_rate, improvement, 160_000),
        determination: improved_attribute(mental.determination, improvement, 170_000),
        positioning: improved_attribute(mental.positioning, improvement, 170_000),
        teamwork: improved_attribute(mental.teamwork, improvement, 160_000),
    }
}

/// The largest effectiveness that training can have at qualities of up to
/// 100 and an alignment of up to 1.0: 18.36.
pub const MAX_EFFECTIVENESS: i64 = 18_360_000;

/// Whether the three qualities of a week of training lie between 0 and 100.
pub open spec fn training_conditions_valid(coach_quality: int, intensity: int, facilities: int)
    -> bool {
    is_percentage(coach_quality) && is_percentage(intensity) && is_percentage(facilities)
}

/// The player after the effects of training under `focus`: technical,
/// physical or mental attributes improve; tactical training improves the
/// mental attributes at 0.7 of its effectiveness; rest takes away three
/// tenths of the fatigue.
pub open spec fn trained(player: Player, focus: TrainingFocus, effectiveness: int) -> Player {
    match focus {
        TrainingFocus::Technical => Player {
            technical: improved_technical(
                player.technical,
                diminished_improvement(effectiveness, player.technical.spec_average()),
                technical_distribution_of(player.primary_position),
            ),
            ..player
        },
        TrainingFocus::Physical => Player {
            physical: improved_physical(
                player.physical,
                diminished_improvement(effectiveness, player.physical.spec_average()),
                physical_distribution_of(player.primary_position),
            ),
            ..player
        },
        TrainingFocus::Tactical => Player {
            mental: improved_mental(
                player.mental,
                diminished_improvement(fmul(effectiveness, 700_000), player.mental.spec_average()),
            ),
            ..player
        },
        TrainingFocus::Mental => Player {
            mental: improved_mental(
                player.mental,
                diminished_improvement(effectiveness, player.mental.spec_average()),
            ),
            ..player
        },
        TrainingFocus::Rest => Player { fatigue: fmul(player.fatigue as int, 700_000) as i64, ..player },
    }
}

/// The result of a week of training under `focus` for `player`.
pub open spec fn week_result(
    player: Player,
    focus: TrainingFocus,
    preference: Option<TrainingFocus>,
    coach_quality: int,
    intensity: int,
    facilities: int,
) -> TrainingResult {
    let alignment = focus_alignment_of(focus, preference);
    let effectiveness = training_effectiveness_of(
        focus,
        alignment,
        coach_quality,
        intensity,
        facilities,
        player.hidden.professionalism as int,
    );
    TrainingResult {
        focus,
        effectiveness: effectiveness as i64,
        alignment: alignment as i64,
        morale_change: alignment_morale_effect_of(alignment, player.hidden.loyalty as int) as i64,
        fatigue_increase: fatigue_increase_of(focus, intensity) as i64,
        injury_risk: injury_risk_of(
            intensity,
            after_week(player, focus, preference, coach_quality, intensity, facilities).fatigue as int,
            player.hidden.injury_proneness as int,
        ) as i64,
    }
}

/// The player after a week of training under `focus`: the attributes are
/// trained, the fatigue of the week is added to a fatigue of at most 100, and
/// the morale changes with the alignment, within 0 and 100. Rest can leave a
/// fatigue below zero.
pub open spec fn after_week(
    player: Player,
    focus: TrainingFocus,
    preference: Option<TrainingFocus>,
    coach_quality: int,
    intensity: int,
    facilities: int,
) -> Player {
    let alignment = focus_alignment_of(focus, preference);
    let effectiveness = training_effectiveness_of(
        focus,
        alignment,
        coach_quality,
        intensity,
        facilities,
        player.hidden.professionalism as int,
    );
    let worked = trained(player, focus, effectiveness);
    let tired = worked.fatigue + fatigue_increase_of(focus, intensity);
    Player {
        fatigue: (if tired > 100 * SCALE {
            100 * SCALE
        } else {
            tired
        }) as i64,
        morale: clamp_to(
            worked.morale + alignment_morale_effect_of(alignment, player.hidden.loyalty as int),
            0,
            100 * SCALE,
        ) as i64,
        ..worked
    }
}

/// What is left of an improvement at the given average of the attributes.
pub fn diminish(base_improvement: i64, current_average: i64) -> (improvement: i64)
    requires
        0 <= base_improvement <= MAX_OPERAND,
        0 <= current_average <= 255 * SCALE,
    ensures
        improvement == diminished_improvement(base_improvement as int, current_average as int),
        0 <= improvement <= base_improvement,
{
    let diminishing_factor: i64 = SCALE - current_average / 200;
    let factor: i64 = if diminishing_factor < 100_000 {
        100_000
    } else {
        diminishing_factor
    };
    proof {
        lemma_fmul_bound(base_improvement as int, factor as int, MAX_OPERAND as int, 1_000_000);
        lemma_fmul_monotonic(factor as int, SCALE as int, base_improvement as int);
        lemma_fmul_unit(base_improvement as int);
        lemma_fmul_bound(factor as int, base_improvement as int, 1_000_000, MAX_OPERAND as int);
    }
    times(base_improvement, factor)
}

/// An attribute value held between 1 and 100.
pub fn cap(value: i64) -> (capped: i64)
    ensures
        capped == capped_attribute(value as int),
        SCALE <= capped <= 100 * SCALE,
{
    clamp(value, SCALE, 100 * SCALE)
}

/// An attribute after its share of an improvement.
pub fn improve_attribute(attribute: u8, improvement: i64, share: i64) -> (improved: u8)
    requires
        0 <= improvement <= MAX_OPERAND,
        0 <= share <= SCALE,
    ensures
        improved == improved_attribute(attribute, improvement as int, share as int),
        1 <= improved <= 100,
{
    proof {
        lemma_fmul_bound(improvement as int, share as int, MAX_OPERAND as int, 1_000_000);
    }
    let gain: i64 = times(improvement, share);
    let capped: i64 = cap((attribute as i64) * SCALE + gain);
    (capped / SCALE) as u8
}

/// The training system.
#[derive(Debug, Clone, Copy)]
pub struct TrainingSystem;

impl TrainingSystem {
    pub fn new() -> (system: TrainingSystem) {
        TrainingSystem
    }

    /// Puts a player through a week of training under the focus that the
    /// manager assigned, and says what it brought.
    pub fn process_training_week(
        &self,
        player: &mut Player,
        manager_assigned_focus: TrainingFocus,
        player_preferred_focus: Option<TrainingFocus>,
        coach_quality: i64,
        training_intensity: i64,
        facilities_quality: i64,
    ) -> (result: TrainingResult)
        requires
            is_percentage(old(player).fatigue as int),
            is_percentage(old(player).morale as int),
            training_conditions_valid(
                coach_quality as int,
                training_intensity as int,
                facilities_quality as int,
            ),
        ensures
            result == week_result(
                *old(player),
                manager_assigned_focus,
                player_preferred_focus,
                coach_quality as int,
                training_intensity as int,
                facilities_quality as int,
            ),
            *final(player) == after_week(
                *old(player),
                manager_assigned_focus,
                player_preferred_focus,
                coach_quality as int,
                training_intensity as int,
                facilities_quality as int,
            ),
            -40 * SCALE <= final(player).fatigue <= 100 * SCALE,
            is_percentage(final(player).morale as int),
    {
        let alignment: i64 = self.calculate_focus_alignment(
            manager_assigned_focus,
            player_preferred_focus,
        );
        let effectiveness: i64 = self.calculate_training_effectiveness(
            manager_assigned_focus,
            alignment,
            coach_quality,
            training_intensity,
            facilities_quality,
            &player.hidden,
        );
        let morale_change: i64 = self.calculate_alignment_morale_effect(alignment, &player.hidden);
        let ghost before = *player;
        self.apply_training_effects(player, manager_assigned_focus, effectiveness);
        proof {
            lemma_fmul_bound(before.fatigue as int, 700_000, 100_000_000, 1_000_000);
        }
        let fatigue_increase: i64 = self.calculate_fatigue_increase(
            manager_assigned_focus,
            training_intensity,
        );
        let tired: i64 = player.fatigue + fatigue_increase;
        player.fatigue = if tired > 100 * SCALE {
            100 * SCALE
        } else {
            tired
        };
        player.morale = clamp(player.morale + morale_change, 0, 100 * SCALE);
        let injury_risk: i64 = self.calculate_injury_risk(
            training_intensity,
            player.fatigue,
            &player.hidden,
        );
        TrainingResult {
            focus: manager_assigned_focus,
            effectiveness,
            alignment,
            morale_change,
            fatigue_increase,
            injury_risk,
        }
    }

    /// How well the assigned focus matches the player's wish.
    pub fn calculate_focus_alignment(
        &self,
        assigned_focus: TrainingFocus,
        player_preference: Option<TrainingFocus>,
    ) -> (alignment: i64)
        ensures
            alignment == focus_alignment_of(assigned_focus, player_preference),
            300_000 <= alignment <= SCALE,
    {
        match player_preference {
            Some(pref) => {
                if pref == assigned_focus {
                    1_000_000
                } else if self.are_complementary_focuses(assigned_focus, pref) {
                    700_000
                } else {
                    300_000
                }
            },
            None => 500_000,
        }
    }

    /// Whether two focuses go well together.
    pub fn are_complementary_focuses(&self, focus1: TrainingFocus, focus2: TrainingFocus) -> (yes:
        bool)
        ensures
            yes == complementary(focus1, focus2),
    {
        match (focus1, focus2) {
            (TrainingFocus::Technical, TrainingFocus::Tactical) => true,
            (TrainingFocus::Tactical, TrainingFocus::Technical) => true,
            (TrainingFocus::Physical, TrainingFocus::Mental) => true,
            (TrainingFocus::Mental, TrainingFocus::Physical) => true,
            _ => false,
        }
    }

    /// The effectiveness of a week of training.
    pub fn calculate_training_effectiveness(
        &self,
        focus: TrainingFocus,
        alignment: i64,
        coach_quality: i64,
        intensity: i64,
        facilities: i64,
        hidden_attributes: &HiddenAttributes,
    ) -> (effectiveness: i64)
        requires
            0 <= alignment <= SCALE,
            training_conditions_valid(coach_quality as int, intensity as int, facilities as int),
        ensures
            effectiveness == training_effectiveness_of(
                focus,
                alignment as int,
                coach_quality as int,
                intensity as int,
                facilities as int,
                hidden_attributes.professionalism as int,
            ),
            0 <= effectiveness <= MAX_EFFECTIVENESS,
            focus == TrainingFocus::Rest ==> effectiveness == 0,
    {
        let base_effectiveness: i64 = match focus {
            TrainingFocus::Technical => 800_000,
            TrainingFocus::Physical => 900_000,
            TrainingFocus::Tactical => 700_000,
            TrainingFocus::Mental => 750_000,
            TrainingFocus::Rest => 0,
        };
        let coach_multiplier: i64 = coach_quality / 50;
        let intensity_multiplier: i64 = intensity / 50;
        let facilities_multiplier: i64 = facilities / 50;
        let alignment_multiplier: i64 = 500_000 + alignment / 2;
        let professionalism_multiplier: i64 = (hidden_attributes.professionalism as i64) * 10_000;
        proof {
            lemma_fmul_bound(base_effectiveness as int, coach_multiplier as int, 900_000, 2_000_000);
        }
        let with_coach: i64 = times(base_effectiveness, coach_multiplier);
        proof {
            lemma_fmul_bound(with_coach as int, intensity_multiplier as int, 1_800_000, 2_000_000);
        }
        let with_intensity: i64 = times(with_coach, intensity_multiplier);
        proof {
            lemma_fmul_bound(
                with_intensity as int,
                facilities_multiplier as int,
                3_600_000,
                2_000_000,
            );
        }
        let with_facilities: i64 = times(with_intensity, facilities_multiplier);
        proof {
            lemma_fmul_bound(
                with_facilities as int,
                alignment_multiplier as int,
                7_200_000,
                1_000_000,
            );
        }
        let with_alignment: i64 = times(with_facilities, alignment_multiplier);
        proof {
            lemma_fmul_bound(
                with_alignment as int,
                professionalism_multiplier as int,
                7_200_000,
                2_550_000,
            );
        }
        times(with_alignment, professionalism_multiplier)
    }

    /// The fatigue that a week of training brings; rest gives a negative
    /// increase.
    pub fn calculate_fatigue_increase(&self, focus: TrainingFocus, intensity: i64) -> (increase: i64)
        requires
            is_percentage(intensity as int),
        ensures
            increase == fatigue_increase_of(focus, intensity as int),
            -40_000_000 <= increase <= 30_000_000,
            focus != TrainingFocus::Rest ==> increase >= 0,
            focus == TrainingFocus::Rest ==> increase <= 0,
    {
        let base_fatigue: i64 = match focus {
            TrainingFocus::Technical => 5_000_000,
            TrainingFocus::Physical => 15_000_000,
            TrainingFocus::Tactical => 8_000_000,
            TrainingFocus::Mental => 6_000_000,
            TrainingFocus::Rest => -20_000_000,
        };
        proof {
            lemma_fmul_bound(base_fatigue as int, intensity / 50, 20_000_000, 2_000_000);
            if base_fatigue >= 0 {
                lemma_fmul_bound(base_fatigue as int, intensity / 50, 15_000_000, 2_000_000);
            }
            crate::fixed::lemma_trunc_div_bounds(base_fatigue * (intensity / 50), SCALE as int);
            assert(base_fatigue >= 0 ==> base_fatigue * (intensity / 50) >= 0) by (nonlinear_arith)
                requires
                    intensity / 50 >= 0,
            ;
            assert(base_fatigue <= 0 ==> base_fatigue * (intensity / 50) <= 0) by (nonlinear_arith)
                requires
                    intensity / 50 >= 0,
            ;
        }
        times(base_fatigue, intensity / 50)
    }

    /// What the alignment of the training does to the player's morale.
    pub fn calculate_alignment_morale_effect(
        &self,
        alignment: i64,
        hidden_attributes: &HiddenAttributes,
    ) -> (change: i64)
        requires
            0 <= alignment <= SCALE,
        ensures
            change == alignment_morale_effect_of(alignment as int, hidden_attributes.loyalty as int),
            -12_750_000 <= change <= 12_750_000,
    {
        let alignment_effect: i64 = (alignment - 500_000) * 10;
        let loyalty_modifier: i64 = (hidden_attributes.loyalty as i64) * 10_000;
        if alignment_effect < 0 {
            proof {
                lemma_fmul_bound(
                    alignment_effect as int,
                    1_500_000 - loyalty_modifier,
                    5_000_000,
                    1_500_000,
                );
            }
            times(alignment_effect, 1_500_000 - loyalty_modifier)
        } else {
            proof {
                lemma_fmul_bound(alignment_effect as int, loyalty_modifier as int, 5_000_000, 2_550_000);
            }
            times(alignment_effect, loyalty_modifier)
        }
    }

    /// The risk of injury in training.
    pub fn calculate_injury_risk(
        &self,
        intensity: i64,
        fatigue: i64,
        hidden_attributes: &HiddenAttributes,
    ) -> (risk: i64)
        requires
            is_percentage(intensity as int),
            -100 * SCALE <= fatigue <= 100 * SCALE,
        ensures
            risk == injury_risk_of(
                intensity as int,
                fatigue as int,
                hidden_attributes.injury_proneness as int,
            ),
            -1_275_000 <= risk <= 3_825_000,
    {
        let intensity_risk: i64 = intensity / 100;
        let fatigue_risk: i64 = crate::fixed::div_toward_zero(fatigue as i128, 200) as i64;
        let proneness_factor: i64 = (hidden_attributes.injury_proneness as i64) * 10_000;
        proof {
            crate::fixed::lemma_trunc_div_bounds(fatigue as int, 200);
            crate::fixed::lemma_trunc_div_monotonic(fatigue as int, 100 * SCALE, 200);
            crate::fixed::lemma_trunc_div_monotonic(-100 * SCALE, fatigue as int, 200);
            lemma_fmul_bound(
                (intensity_risk + fatigue_risk) as int,
                proneness_factor as int,
                1_500_000,
                2_550_000,
            );
            crate::fixed::lemma_fmul_monotonic(
                -500_000,
                (intensity_risk + fatigue_risk) as int,
                proneness_factor as int,
            );
            lemma_fmul_bound(-500_000, proneness_factor as int, 500_000, 2_550_000);
        }
        times(intensity_risk + fatigue_risk, proneness_factor)
    }

    /// What is left of an improvement at the given average of the attributes.
    pub fn apply_diminishing_returns(&self, base_improvement: i64, current_average: i64) -> (improvement:
        i64)
        requires
            0 <= base_improvement <= MAX_OPERAND,
            0 <= current_average <= 255 * SCALE,
        ensures
            improvement == diminished_improvement(base_improvement as int, current_average as int),
            0 <= improvement <= base_improvement,
    {
        diminish(base_improvement, current_average)
    }

    /// An attribute value held between 1 and 100.
    pub fn cap_attribute(&self, value: i64) -> (capped: i64)
        ensures
            capped == capped_attribute(value as int),
            SCALE <= capped <= 100 * SCALE,
    {
        cap(value)
    }

    /// The distribution of a technical improvement for a position.
    pub fn get_technical_distribution(&self, position: &Position) -> (distribution:
        TechnicalAttributeDistribution)
        ensures
            distribution == technical_distribution_of(*position),
            0 <= distribution.dribbling <= SCALE,
            0 <= distribution.passing <= SCALE,
            0 <= distribution.shooting <= SCALE,
            0 <= distribution.first_touch <= SCALE,
            0 <= distribution.tackling <= SCALE,
            0 <= distribution.crossing <= SCALE,
    {
        match position {
            Position::GK => TechnicalAttributeDistribution {
                dribbling: 50_000,
                passing: 200_000,
                shooting: 50_000,
                first_touch: 150_000,
                tackling: 100_000,
                crossing: 50_000,
            },
            Position::CB => TechnicalAttributeDistribution {
                dribbling: 80_000,
                passing: 250_000,
                shooting: 120_000,
                first_touch: 180_000,
                tackling: 250_000,
                crossing: 50_000,
            },
            Position::FB => TechnicalAttributeDistribution {
                dribbling: 120_000,
                passing: 220_000,
                shooting: 100_000,
                first_touch: 150_000,
                tackling: 250_000,
                crossing: 160_000,
            },
            Position::DM => TechnicalAttributeDistribution {
                dribbling: 100_000,
                passing: 280_000,
                shooting: 120_000,
                first_touch: 200_000,
                tackling: 220_000,
                crossing: 80_000,
            },
            Position::CM => TechnicalAttributeDistribution {
                dribbling: 150_000,
                passing: 300_000,
                shooting: 150_000,
                first_touch: 180_000,
                tackling: 150_000,
                crossing: 70_000,
            },
            Position::RM | Position::LM => TechnicalAttributeDistribution {
                dribbling: 220_000,
                passing: 220_000,
                shooting: 180_000,
                first_touch: 150_000,
                tackling: 100_000,
                crossing: 130_000,
            },
            Position::RW | Position::LW => TechnicalAttributeDistribution {
                dribbling: 250_000,
                passing: 180_000,
                shooting: 200_000,
                first_touch: 150_000,
                tackling: 80_000,
                crossing: 140_000,
            },
            Position::CF | Position::SS => TechnicalAttributeDistribution {
                dribbling: 200_000,
                passing: 150_000,
                shooting: 280_000,
                first_touch: 180_000,
                tackling: 50_000,
                crossing: 140_000,
            },
            Position::RB => TechnicalAttributeDistribution {
                dribbling: 120_000,
                passing: 220_000,
                shooting: 100_000,
                first_touch: 150_000,
                tackling: 250_000,
                crossing: 160_000,
            },
            Position::LB => TechnicalAttributeDistribution {
                dribbling: 120_000,
                passing: 220_000,
                shooting: 100_000,
                first_touch: 150_000,
                tackling: 250_000,
                crossing: 160_000,
            },
            Position::AM => TechnicalAttributeDistribution {
                dribbling: 180_000,
                passing: 280_000,
                shooting: 200_000,
                first_touch: 180_000,
                tackling: 120_000,
                crossing: 160_000,
            },
        }
    }

    /// The distribution of a physical improvement for a position.
    pub fn get_physical_distribution(&self, position: &Position) -> (distribution:
        PhysicalAttributeDistribution)
        ensures
            distribution == physical_distribution_of(*position),
            0 <= distribution.pace <= SCALE,
            0 <= distribution.stamina <= SCALE,
            0 <= distribution.strength <= SCALE,
            0 <= distribution.agility <= SCALE,
            0 <= distribution.jumping <= SCALE,
            distribution.pace + distribution.stamina + distribution.strength + distribution.agility
                + distribution.jumping == SCALE,
    {
        match position {
            Position::GK => PhysicalAttributeDistribution {
                pace: 100_000,
                stamina: 150_000,
                strength: 250_000,
                agility: 200_000,
                jumping: 300_000,
            },
            Position::CB => PhysicalAttributeDistribution {
                pace: 150_000,
                stamina: 200_000,
                strength: 300_000,
                agility: 150_000,
                jumping: 200_000,
            },
            Position::FB => PhysicalAttributeDistribution {
                pace: 250_000,
                stamina: 250_000,
                strength: 150_000,
                agility: 200_000,
                jumping: 150_000,
            },
            Position::DM => PhysicalAttributeDistribution {
                pace: 180_000,
                stamina: 300_000,
                strength: 200_000,
                agility: 170_000,
                jumping: 150_000,
            },
            Position::CM => PhysicalAttributeDistribution {
                pace: 200_000,
                stamina: 300_000,
                strength: 150_000,
                agility: 200_000,
                jumping: 150_000,
            },
            Position::RM | Position::LM => PhysicalAttributeDistribution {
                pace: 280_000,
                stamina: 250_000,
                strength: 120_000,
                agility: 250_000,
                jumping: 100_000,
            },
            Position::RW | Position::LW => PhysicalAttributeDistribution {
                pace: 350_000,
                stamina: 220_000,
                strength: 100_000,
                agility: 250_000,
                jumping: 80_000,
            },
            Position::CF | Position::SS => PhysicalAttributeDistribution {
                pace: 300_000,
                stamina: 200_000,
                strength: 220_000,
                agility: 180_000,
                jumping: 100_000,
            },
            Position::RB => PhysicalAttributeDistribution {
                pace: 250_000,
                stamina: 250_000,
                strength: 150_000,
                agility: 200_000,
                jumping: 150_000,
            },
            Position::LB => PhysicalAttributeDistribution {
                pace: 250_000,
                stamina: 250_000,
                strength: 150_000,
                agility: 200_000,
                jumping: 150_000,
            },
            Position::AM => PhysicalAttributeDistribution {
                pace: 280_000,
                stamina: 250_000,
                strength: 120_000,
                agility: 250_000,
                jumping: 100_000,
            },
        }
    }

    /// Improves the technical attributes of a player, each by its share for
    /// the player's position.
    pub fn improve_technical_attributes(&self, player: &mut Player, effectiveness: i64)
        requires
            0 <= effectiveness <= MAX_EFFECTIVENESS,
        ensures
            *final(player) == trained(*old(player), TrainingFocus::Technical, effectiveness as int),
    {
        let improvement: i64 = self.apply_diminishing_returns(
            effectiveness,
            player.technical.average(),
        );
        let distribution = self.get_technical_distribution(&player.primary_position);
        let dribbling: u8 = improve_attribute(
            player.technical.dribbling,
            improvement,
            distribution.dribbling,
        );
        let passing: u8 = improve_attribute(
            player.technical.passing,
            improvement,
            distribution.passing,
        );
        let shooting: u8 = improve_attribute(
            player.technical.shooting,
            improvement,
            distribution.shooting,
        );
        let first_touch: u8 = improve_attribute(
            player.technical.first_touch,
            improvement,
            distribution.first_touch,
        );
        let tackling: u8 = improve_attribute(
            player.technical.tackling,
            improvement,
            distribution.tackling,
        );
        let crossing: u8 = improve_attribute(
            player.technical.crossing,
            improvement,
            distribution.crossing,
        );
        player.technical = TechnicalAttributes {
            dribbling,
            passing,
            shooting,
            first_touch,
            tackling,
            crossing,
        };
    }

    /// Improves the physical attributes of a player, each by its share for
    /// the player's position.
    pub fn improve_physical_attributes(&self, player: &mut Player, effectiveness: i64)
        requires
            0 <= effectiveness <= MAX_EFFECTIVENESS,
        ensures
            *final(player) == trained(*old(player), TrainingFocus::Physical, effectiveness as int),
    {
        let improvement: i64 = self.apply_diminishing_returns(
            effectiveness,
            player.physical.average(),
        );
        let distribution = self.get_physical_distribution(&player.primary_position);
        let pace: u8 = improve_attribute(player.physical.pace, improvement, distribution.pace);
        let stamina: u8 = improve_attribute(
            player.physical.stamina,
            improvement,
            distribution.stamina,
        );
        let strength: u8 = improve_attribute(
            player.physical.strength,
            improvement,
            distribution.strength,
        );
        let agility: u8 = improve_attribute(
            player.physical.agility,
            improvement,
            distribution.agility,
        );
        let jumping: u8 = improve_attribute(
            player.physical.jumping,
            improvement,
            distribution.jumping,
        );
        player.physical = PhysicalAttributes { pace, stamina, strength, agility, jumping };
    }

    /// Improves the mental attributes of a player, in nearly even shares.
    pub fn improve_mental_attributes(&self, player: &mut Player, effectiveness: i64)
        requires
            0 <= effectiveness <= MAX_EFFECTIVENESS,
        ensures
            final(player).mental == improved_mental(
                old(player).mental,
                diminished_improvement(effectiveness as int, old(player).mental.spec_average()),
            ),
            *final(player) == (Player { mental: final(player).mental, ..*old(player) }),
    {
        let improvement: i64 = self.apply_diminishing_returns(effectiveness, player.mental.average());
        let composure: u8 = improve_attribute(player.mental.composure, improvement, 170_000);
        let vision: u8 = improve_attribute(player.mental.vision, improvement, 170_000);
        let work_rate: u8 = improve_attribute(player.mental.work_rate, improvement, 160_000);
        let determination: u8 = improve_attribute(
            player.mental.determination,
            improvement,
            170_000,
        );
        let positioning: u8 = improve_attribute(player.mental.positioning, improvement, 170_000);
        let teamwork: u8 = improve_attribute(player.mental.teamwork, improvement, 160_000);
        player.mental = MentalAttributes {
            composure,
            vision,
            work_rate,
            determination,
            positioning,
            teamwork,
        };
    }

    /// Applies the effects of a week of training under `focus` to the
    /// player.
    pub fn apply_training_effects(&self, player: &mut Player, focus: TrainingFocus, effectiveness: i64)
        requires
            0 <= effectiveness <= MAX_EFFECTIVENESS,
            is_percentage(old(player).fatigue as int),
        ensures
            *final(player) == trained(*old(player), focus, effectiveness as int),
    {
        match focus {
            TrainingFocus::Technical => {
                self.improve_technical_attributes(player, effectiveness);
            },
            TrainingFocus::Physical => {
                self.improve_physical_attributes(player, effectiveness);
            },
            TrainingFocus::Tactical => {
                proof {
                    lemma_fmul_bound(effectiveness as int, 700_000, MAX_EFFECTIVENESS as int, 1_000_000);
                }
                self.improve_mental_attributes(player, times(effectiveness, 700_000));
            },
            TrainingFocus::Mental => {
                self.improve_mental_attributes(player, effectiveness);
            },
            TrainingFocus::Rest => {
                proof {
                    lemma_fmul_bound(player.fatigue as int, 700_000, 100_000_000, 1_000_000);
                }
                player.fatigue = times(player.fatigue, 700_000);
            },
        }
    }
}

} // verus!
