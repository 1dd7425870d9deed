//! The records of the simulation: players and their attributes, matches,
//! events, lineups and competitions.
//!
//! Identifiers are 128-bit integers; `0` is the nil identifier. Fractional
//! fields are fixed-point millionths (see [`crate::fixed`]).

use vstd::prelude::*;
use crate::fixed::SCALE;

verus! {

/// The nil identifier: it names no player, team or match.
pub const NIL_ID: u128 = 0;

/// The fourteen roles a player can hold on the pitch.
#[derive(Debug, Clone, Copy, PartialEq, Eq, Hash, Structural)]
pub enum Position {
    /// Goalkeeper
    GK,
    /// Right back
    RB,
    /// Centre back
    CB,
    /// Left back
    LB,
    /// Full back on either side
    FB,
    /// Defensive midfielder
    DM,
    /// Right midfielder
    RM,
    /// Central midfielder
    CM,
    /// Left midfielder
    LM,
    /// Attacking midfielder
    AM,
    /// Right winger
    RW,
    /// Left winger
    LW,
    /// Centre forward
    CF,
    /// Second striker
    SS,
}

#[derive(Debug, Clone, Copy, PartialEq, Eq, Hash, Structural)]
pub enum Foot {
    Right,
    Left,
    Both,
}

/// The standing a contract gives a player in the squad.
#[derive(Debug, Clone, Copy, PartialEq, Eq, Hash, Structural)]
pub enum SquadRole {
    KeyPlayer,
    FirstTeam,
    Rotation,
    Backup,
    Prospect,
}

impl SquadRole {
    /// How strongly the role feeds a player's wish for more, in millionths.
    pub open spec fn spec_ambition_factor(self) -> int {
        match self {
            SquadRole::KeyPlayer => 500_000,
            SquadRole::FirstTeam => 1_000_000,
            SquadRole::Rotation => 2_000_000,
            SquadRole::Backup => 3_000_000,
            SquadRole::Prospect => 2_500_000,
        }
    }

    /// How strongly the role feeds a player's wish for more: 0.5 for a key
    /// player, up to 3.0 for a backup.
    pub fn ambition_factor(&self) -> (factor: i64)
        ensures
            factor == self.spec_ambition_factor(),
    {
        match self {
            SquadRole::KeyPlayer => 500_000,
            SquadRole::FirstTeam => 1_000_000,
            SquadRole::Rotation => 2_000_000,
            SquadRole::Backup => 3_000_000,
            SquadRole::Prospect => 2_500_000,
        }
    }
}

#[derive(Debug, Clone, Copy, PartialEq, Eq, Hash, Structural)]
pub enum InjuryType {
    MuscleStrain,
    LigamentSprain,
    Fracture,
    Concussion,
    TornLigament,
    BrokenBone,
}

#[derive(Debug, Clone, Copy, PartialEq, Eq, Hash, Structural)]
pub enum InjurySeverity {
    /// One to two weeks out
    Minor,
    /// Three to eight weeks out
    Moderate,
    /// Nine weeks or more
    Major,
}

#[derive(Debug, Clone, Copy, PartialEq, Eq, Hash, Structural)]
pub enum TechnicalAttribute {
    Dribbling,
    Passing,
    Shooting,
    FirstTouch,
    Tackling,
    Crossing,
}

#[derive(Debug, Clone, Copy, PartialEq, Eq, Hash, Structural)]
pub enum PhysicalAttribute {
    Pace,
    Stamina,
    Strength,
    Agility,
    Jumping,
}

#[derive(Debug, Clone, Copy, PartialEq, Eq, Hash, Structural)]
pub enum MentalAttribute {
    Composure,
    Vision,
    WorkRate,
    Determination,
    Positioning,
    Teamwork,
}

/// One attribute of a player, by group.
#[derive(Debug, Clone, Copy, PartialEq, Eq, Hash, Structural)]
pub enum AttributeType {
    Technical(TechnicalAttribute),
    Physical(PhysicalAttribute),
    Mental(MentalAttribute),
}

#[derive(Debug, Clone, Copy, PartialEq, Eq, Hash, Structural)]
pub enum CompetitionType {
    League,
    Knockout,
    GroupAndKnockout,
}

#[derive(Debug, Clone, Copy, PartialEq, Eq, Hash, Structural)]
pub enum FormResult {
    Win,
    Draw,
    Loss,
}

#[derive(Debug, Clone, Copy, PartialEq, Eq, Hash, Structural)]
pub enum MatchStatus {
    Scheduled,
    InProgress,
    Finished,
    Postponed,
    Cancelled,
}

/// Why a player leaves the pitch for another.
#[derive(Debug, Clone, Copy, PartialEq, Eq, Hash, Structural)]
pub enum SubstitutionReason {
    Tactical,
    Injury,
    Fatigue,
    Performance,
}

/// A player leaves the pitch for another.
#[derive(Debug, Clone, Copy, PartialEq, Eq)]
pub struct Substitution {
    pub minute: u8,
    pub player_out: u128,
    pub player_in: u128,
    pub reason: SubstitutionReason,
}

/// The closed set of things that can happen in a match.
#[derive(Debug, Clone, Copy, PartialEq, Eq, Hash, Structural)]
pub enum EventType {
    Goal,
    Assist,
    YellowCard,
    RedCard,
    SubstitutionIn,
    SubstitutionOut,
    Injury,
    Offside,
    PenaltyTaken,
    PenaltySaved,
    PenaltyMissed,
    OwnGoal,
    Save,
    TackleWon,
    TackleLost,
    ChanceCreated,
    ChanceMissed,
    FoulCommitted,
    FoulSuffered,
    SuccessfulDribble,
    UnsuccessfulDribble,
    KeyPass,
    ShotOnTarget,
    ShotOffTarget,
    CrossSuccessful,
    CrossUnsuccessful,
    PassSuccessful,
    PassUnsuccessful,
    AerialDuelWon,
    AerialDuelLost,
    Clearance,
    Interception,
    Block,
    Dispossessed,
    DuelWon,
    DuelLost,
    ClaimCross,
    PunchClear,
    SweeperClearance,
    GoalConceded,
    MissedBigChance,
    PenaltyWon,
    PenaltyConceded,
    DribbleSuccessful,
    ThroughBall,
    ReflexSave,
    OneOnOneSave,
    CrossSuccess,
    PassSuccess,
    DribbleSuccess,
}

#[derive(Debug, Clone, Copy, PartialEq, Eq, Hash, Structural)]
pub enum PitchZone {
    DefensiveThird,
    MiddleThird,
    AttackingThird,
    LeftFlank,
    RightFlank,
    Center,
    FinalThird,
    Box,
}

#[derive(Debug, Clone, Copy, PartialEq, Eq, Hash, Structural)]
pub enum MatchHalf {
    First,
    Second,
    ExtraFirst,
    ExtraSecond,
    Penalties,
}

#[derive(Debug, Clone, Copy, PartialEq, Eq, Hash, Structural)]
pub enum TacticalStyle {
    Possession,
    CounterAttack,
    HighPress,
    Defensive,
    Attacking,
    Flexible,
    Balanced,
}

#[derive(Debug, Clone, Copy, PartialEq, Eq, Hash, Structural)]
pub enum ScheduledEventType {
    MatchDay,
    TransferWindowStart,
    TransferWindowEnd,
    ContractExpiry,
    YouthIntake,
    InternationalBreak,
    PreseasonStart,
    SeasonEnd,
}

/// Ball skills, each on a scale of 1 to 100.
#[derive(Debug, Clone, Copy, PartialEq, Eq, Structural)]
pub struct TechnicalAttributes {
    pub dribbling: u8,
    pub passing: u8,
    pub shooting: u8,
    pub first_touch: u8,
    pub tackling: u8,
    pub crossing: u8,
}

impl TechnicalAttributes {
    /// The sum of the six skills.
    pub open spec fn total(self) -> int {
        self.dribbling + self.passing + self.shooting + self.first_touch + self.tackling
            + self.crossing
    }

    /// The arithmetic mean of the six skills, in millionths.
    pub open spec fn spec_average(self) -> int {
        self.total() * SCALE / 6
    }

    /// The arithmetic mean of the six skills, in millionths.
    pub fn average(&self) -> (mean: i64)
        ensures
            mean == self.spec_average(),
            0 <= mean <= 255 * SCALE,
    {
        let sum: i64 = self.dribbling as i64 + self.passing as i64 + self.shooting as i64
            + self.first_touch as i64 + self.tackling as i64 + self.crossing as i64;
        sum * SCALE / 6
    }
}

/// Athletic qualities, each on a scale of 1 to 100.
#[derive(Debug, Clone, Copy, PartialEq, Eq, Structural)]
pub struct PhysicalAttributes {
    pub pace: u8,
    pub stamina: u8,
    pub strength: u8,
    pub agility: u8,
    pub jumping: u8,
}

impl PhysicalAttributes {
    /// The sum of the five qualities.
    pub open spec fn total(self) -> int {
        self.pace + self.stamina + self.strength + self.agility + self.jumping
    }

    /// The arithmetic mean of the five qualities, in millionths.
    pub open spec fn spec_average(self) -> int {
        self.total() * SCALE / 5
    }

    /// The arithmetic mean of the five qualities, in millionths.
    pub fn average(&self) -> (mean: i64)
        ensures
            mean == self.spec_average(),
            0 <= mean <= 255 * SCALE,
    {
        let sum: i64 = self.pace as i64 + self.stamina as i64 + self.strength as i64
            + self.agility as i64 + self.jumping as i64;
        sum * SCALE / 5
    }
}

/// Qualities of the mind, each on a scale of 1 to 100.
#[derive(Debug, Clone, Copy, PartialEq, Eq, Structural)]
pub struct MentalAttributes {
    pub composure: u8,
    pub vision: u8,
    pub work_rate: u8,
    pub determination: u8,
    pub positioning: u8,
    pub teamwork: u8,
}

impl MentalAttributes {
    /// The sum of the six qualities.
    pub open spec fn total(self) -> int {
        self.composure + self.vision + self.work_rate + self.determination + self.positioning
            + self.teamwork
    }

    /// The arithmetic mean of the six qualities, in millionths.
    pub open spec fn spec_average(self) -> int {
        self.total() * SCALE / 6
    }

    /// The arithmetic mean of the six qualities, in millionths.
    pub fn average(&self) -> (mean: i64)
        ensures
            mean == self.spec_average(),
            0 <= mean <= 255 * SCALE,
    {
        let sum: i64 = self.composure as i64 + self.vision as i64 + self.work_rate as i64
            + self.determination as i64 + self.positioning as i64 + self.teamwork as i64;
        sum * SCALE / 6
    }
}

/// Traits that are never shown to the player, each on a scale of 0 to 100.
#[derive(Debug, Clone, Copy, PartialEq, Eq, Structural)]
pub struct HiddenAttributes {
    pub injury_proneness: u8,
    pub consistency: u8,
    pub big_match_temperament: u8,
    pub professionalism: u8,
    pub potential_ceiling: u8,
    pub versatility: u8,
    pub ambition: u8,
    pub loyalty: u8,
    pub ego: u8,
}

/// What a bonus is paid for.
#[derive(Debug, Clone, PartialEq, Eq)]
pub enum BonusCondition {
    Goals(u32),
    Appearances(u32),
    CleanSheets(u32),
    LeaguePosition(u8),
    CupWin,
    IndividualAward(String),
}

/// A bonus that a contract promises.
#[derive(Debug, Clone)]
pub struct Bonus {
    pub condition: BonusCondition,
    /// In millionths of the currency
    pub amount: i64,
    pub achieved: bool,
}

/// The contract that binds a player to a club. Dates are days of the common
/// era, counted from 1 January of the year 1.
#[derive(Debug, Clone)]
pub struct Contract {
    pub club_id: u128,
    /// Per week, in millionths of the currency
    pub wage: i64,
    pub length_years: u8,
    pub squad_role: SquadRole,
    /// In millionths of the currency
    pub release_clause: Option<i64>,
    pub performance_bonuses: Vec<Bonus>,
    pub contract_end_date: i32,
    /// The strength of the league, 0 to 100, in millionths
    pub league_strength: i64,
}

/// The figures of one season.
#[derive(Debug, Clone)]
pub struct SeasonStats {
    /// As in "2023-24"
    pub season_year: String,
    pub appearances: u32,
    pub goals: u32,
    pub assists: u32,
    pub yellow_cards: u32,
    pub red_cards: u32,
    /// In millionths
    pub average_rating: i64,
    pub team_finish_position: Option<u8>,
    /// Counted for goalkeepers
    pub goals_conceded: u32,
}

#[derive(Debug, Clone, PartialEq, Eq)]
pub struct Award {
    pub name: String,
    pub season: String,
    pub competition: String,
}

#[derive(Debug, Clone, PartialEq, Eq)]
pub struct Trophy {
    pub name: String,
    pub season: String,
    pub competition: String,
}

/// The figures of a career.
#[derive(Debug, Clone)]
pub struct CareerStats {
    pub seasons_played: u8,
    pub total_appearances: u32,
    pub total_goals: u32,
    pub total_assists: u32,
    pub total_yellow_cards: u32,
    pub total_red_cards: u32,
    /// In millionths
    pub average_rating: i64,
    /// In millionths
    pub highest_rating: i64,
    pub season_stats: Vec<SeasonStats>,
    pub awards: Vec<Award>,
    pub trophies: Vec<Trophy>,
}

/// An attribute that an injury holds down.
#[derive(Debug, Clone, Copy, PartialEq, Eq)]
pub struct AffectedAttribute {
    pub attribute: AttributeType,
    /// The share that is lost, 0.0 to 1.0, in millionths
    pub reduction_percentage: i64,
}

#[derive(Debug, Clone)]
pub struct Injury {
    pub injury_type: InjuryType,
    pub severity: InjurySeverity,
    pub weeks_remaining: u8,
    pub affected_attributes: Vec<AffectedAttribute>,
}

/// The money of a club, in millionths of the currency.
#[derive(Debug, Clone, Copy, PartialEq, Eq)]
pub struct Finances {
    pub balance: i64,
    pub weekly_wage_bill: i64,
    pub revenue_per_week: i64,
    pub debt: i64,
}

/// The grounds of a club. Qualities run from 1 to 10.
#[derive(Debug, Clone, Copy, PartialEq, Eq, Structural)]
pub struct Facilities {
    pub training_ground_quality: u8,
    pub stadium_capacity: u32,
    pub stadium_quality: u8,
    pub youth_facilities: u8,
}

/// A club.
#[derive(Debug, Clone)]
pub struct Team {
    pub id: u128,
    pub name: String,
    pub country: String,
    pub city: String,
    /// 0 to 100, in millionths
    pub reputation: i64,
    pub finances: Finances,
    /// The identifiers of the players
    pub squad: Vec<u128>,
    /// The identifiers of the staff
    pub staff: Vec<u128>,
    /// 1 to 10
    pub youth_academy_level: u8,
    pub facilities: Facilities,
    /// 0 to 100, in millionths
    pub financial_power: i64,
    /// 0 to 100, in millionths
    pub youth_focus: i64,
    /// 0 to 100, in millionths
    pub facilities_quality: i64,
    /// 0 to 100, in millionths
    pub medical_quality: i64,
    pub tactical_identity: String,
}

/// The state of the running season. Dates are days of the common era.
#[derive(Debug, Clone, Copy, PartialEq, Eq)]
pub struct CurrentSeason {
    pub is_active: bool,
    pub current_matchday: u32,
    pub start_date: i32,
    pub end_date: i32,
}

/// A match that a competition has scheduled.
#[derive(Debug, Clone, Copy, PartialEq, Eq)]
pub struct Fixture {
    pub id: u128,
    pub competition_id: u128,
    pub home_team: u128,
    pub away_team: u128,
    /// A day of the common era
    pub scheduled_date: i32,
    /// The home team, whose ground it is
    pub venue: u128,
    pub status: MatchStatus,
    pub result: Option<MatchResult>,
    pub matchday: u32,
}

/// The line of a team in a table.
#[derive(Debug, Clone)]
pub struct Standing {
    pub team_id: u128,
    pub position: u8,
    pub played: u8,
    pub won: u8,
    pub drawn: u8,
    pub lost: u8,
    pub goals_for: u32,
    pub goals_against: u32,
    pub points: u8,
    /// The last five results, newest last
    pub form: Vec<FormResult>,
    pub goal_difference: i32,
}

/// A competition with its teams, fixtures and table.
#[derive(Debug, Clone)]
pub struct Competition {
    pub id: u128,
    pub name: String,
    pub country: String,
    /// 1 is the top tier
    pub level: u8,
    pub teams: Vec<u128>,
    pub fixtures: Vec<Fixture>,
    pub standings: Vec<Standing>,
    pub competition_type: CompetitionType,
    /// A day of the common era
    pub season_start: i32,
    /// A day of the common era
    pub season_end: i32,
    pub current_season: CurrentSeason,
}

/// Something that happened in the world of the game.
#[derive(Debug, Clone)]
pub struct Event {
    pub id: u128,
    /// A day of the common era
    pub date: i32,
    pub event_type: EventType,
    pub description: String,
    /// The identifiers of those whom the event concerns
    pub affected_entities: Vec<u128>,
    /// 0.0 to 1.0, in millionths
    pub importance: i64,
}

/// Something that is to happen on a day of the calendar.
#[derive(Debug, Clone, PartialEq, Eq)]
pub struct ScheduledEvent {
    pub id: u128,
    /// A day of the common era
    pub scheduled_time: i32,
    pub event_type: ScheduledEventType,
    /// What the event carries, as JSON text
    pub data: String,
}

impl ScheduledEventType {
    /// The name of the kind of event.
    pub open spec fn spec_name(self) -> Seq<char> {
        match self {
            ScheduledEventType::MatchDay => "MatchDay"@,
            ScheduledEventType::TransferWindowStart => "TransferWindowStart"@,
            ScheduledEventType::TransferWindowEnd => "TransferWindowEnd"@,
            ScheduledEventType::ContractExpiry => "ContractExpiry"@,
            ScheduledEventType::YouthIntake => "YouthIntake"@,
            ScheduledEventType::InternationalBreak => "InternationalBreak"@,
            ScheduledEventType::PreseasonStart => "PreseasonStart"@,
            ScheduledEventType::SeasonEnd => "SeasonEnd"@,
        }
    }

    /// The name of the kind of event.
    pub fn name(&self) -> (name: &'static str)
        ensures
            name@ == self.spec_name(),
    {
        match self {
            ScheduledEventType::MatchDay => "MatchDay",
            ScheduledEventType::TransferWindowStart => "TransferWindowStart",
            ScheduledEventType::TransferWindowEnd => "TransferWindowEnd",
            ScheduledEventType::ContractExpiry => "ContractExpiry",
            ScheduledEventType::YouthIntake => "YouthIntake",
            ScheduledEventType::InternationalBreak => "InternationalBreak",
            ScheduledEventType::PreseasonStart => "PreseasonStart",
            ScheduledEventType::SeasonEnd => "SeasonEnd",
        }
    }
}

/// A player as the simulation sees them.
#[derive(Debug, Clone)]
pub struct Player {
    pub id: u128,
    pub name: String,
    pub age: u8,
    pub nationality: String,
    /// In centimetres
    pub height: u16,
    /// In kilograms
    pub weight: u16,
    pub preferred_foot: Foot,
    pub primary_position: Position,
    pub secondary_positions: Vec<Position>,
    pub technical: TechnicalAttributes,
    pub physical: PhysicalAttributes,
    pub mental: MentalAttributes,
    pub hidden: HiddenAttributes,
    /// 0 to 100, in millionths
    pub fitness: i64,
    /// 0 to 100, in millionths
    pub fatigue: i64,
    /// 0 to 100, in millionths
    pub form: i64,
    /// 0 to 100, in millionths
    pub morale: i64,
    /// 0 to 100, in millionths
    pub sharpness: i64,
    /// 0 to 100, in millionths
    pub local_reputation: i64,
    /// 0 to 100, in millionths
    pub international_reputation: i64,
    pub contract: Contract,
    pub career_stats: CareerStats,
    pub injury_status: Option<Injury>,
    /// The ratings of the last matches, newest last, in millionths
    pub form_history: Vec<i64>,
}

/// Whether `x` is a fixed-point value between 0 and 100.
pub open spec fn is_percentage(x: int) -> bool {
    0 <= x <= 100 * SCALE
}

impl Player {
    /// Every state field that is documented as running from 0 to 100 does so.
    pub open spec fn well_formed(&self) -> bool {
        &&& is_percentage(self.fitness as int)
        &&& is_percentage(self.fatigue as int)
        &&& is_percentage(self.form as int)
        &&& is_percentage(self.morale as int)
        &&& is_percentage(self.sharpness as int)
        &&& is_percentage(self.local_reputation as int)
        &&& is_percentage(self.international_reputation as int)
    }

    /// Form and morale run from 0 to 100: all that the match engine asks of a
    /// player.
    pub open spec fn fit_to_play(&self) -> bool {
        is_percentage(self.form as int) && is_percentage(self.morale as int)
    }

    /// Decides [`Player::fit_to_play`].
    pub fn is_fit_to_play(&self) -> (ok: bool)
        ensures
            ok == self.fit_to_play(),
    {
        let top: i64 = 100 * SCALE;
        0 <= self.form && self.form <= top && 0 <= self.morale && self.morale <= top
    }

    /// Form and name abroad run from 0 to 100: all that the transfer market
    /// asks of a player.
    pub open spec fn valued(&self) -> bool {
        is_percentage(self.form as int) && is_percentage(self.international_reputation as int)
    }

    /// Decides [`Player::valued`].
    pub fn is_valued(&self) -> (ok: bool)
        ensures
            ok == self.valued(),
    {
        let top: i64 = 100 * SCALE;
        0 <= self.form && self.form <= top && 0 <= self.international_reputation
            && self.international_reputation <= top
    }

    /// Decides [`Player::well_formed`].
    pub fn is_well_formed(&self) -> (ok: bool)
        ensures
            ok == self.well_formed(),
    {
        let top: i64 = 100 * SCALE;
        0 <= self.fitness && self.fitness <= top && 0 <= self.fatigue && self.fatigue <= top && 0
            <= self.form && self.form <= top && 0 <= self.morale && self.morale <= top && 0
            <= self.sharpness && self.sharpness <= top && 0 <= self.local_reputation
            && self.local_reputation <= top && 0 <= self.international_reputation
            && self.international_reputation <= top
    }
}

/// Every player of a roster is fit to play.
pub open spec fn roster_fit_to_play(roster: Seq<Player>) -> bool {
    forall|i: int| 0 <= i < roster.len() ==> (#[trigger] roster[i]).fit_to_play()
}

/// The final score of a match.
#[derive(Debug, Clone, Copy, PartialEq, Eq)]
pub struct MatchResult {
    pub home_score: u8,
    pub away_score: u8,
    /// The winning team, or `None` for a draw
    pub winner: Option<u128>,
}

/// The largest magnitude a stored impact factor may have: 10.0.
pub const MAX_FACTOR: i64 = 10_000_000;

/// The largest magnitude a total impact score can reach: 100 000.0.
pub const MAX_TOTAL_IMPACT: i64 = 100_000_000_000;

/// The total impact of an event with base impact `base` and the four
/// multipliers `time`, `position`, `difficulty` and `clutch`: their product,
/// rounded toward zero to a whole number of millionths.
pub open spec fn impact_product(
    base: int,
    time: int,
    position: int,
    difficulty: int,
    clutch: int,
) -> int {
    crate::fixed::trunc_div(
        base * time * position * difficulty * clutch,
        1_000_000_000_000_000_000_000_000,
    )
}

/// One atomic action of a match, with its score.
#[derive(Debug, Clone, Copy, PartialEq, Eq)]
pub struct MatchEvent {
    pub id: u128,
    pub match_id: u128,
    /// 0 to 120
    pub minute: u8,
    pub half: MatchHalf,
    pub event_type: EventType,
    pub player_involved: u128,
    /// The assist provider or the challenged opponent
    pub secondary_player: Option<u128>,
    pub pitch_zone: PitchZone,
    pub success: bool,
    pub base_impact: i64,
    pub time_multiplier: i64,
    pub position_multiplier: i64,
    pub difficulty_multiplier: i64,
    pub clutch_multiplier: i64,
    /// Always the product of the five factors above
    pub total_impact_score: i64,
}

impl MatchEvent {
    /// The four multipliers lie between 0 and 10, and the base impact between
    /// -10 and 10.
    pub open spec fn factors_in_range(&self) -> bool {
        &&& -MAX_FACTOR <= self.base_impact <= MAX_FACTOR
        &&& 0 <= self.time_multiplier <= MAX_FACTOR
        &&& 0 <= self.position_multiplier <= MAX_FACTOR
        &&& 0 <= self.difficulty_multiplier <= MAX_FACTOR
        &&& 0 <= self.clutch_multiplier <= MAX_FACTOR
    }

    /// The product of the five stored factors.
    pub open spec fn product_of_factors(&self) -> int {
        impact_product(
            self.base_impact as int,
            self.time_multiplier as int,
            self.position_multiplier as int,
            self.difficulty_multiplier as int,
            self.clutch_multiplier as int,
        )
    }

    /// The factors are in range and the total impact score is their product.
    pub open spec fn well_formed(&self) -> bool {
        &&& self.factors_in_range()
        &&& self.total_impact_score == self.product_of_factors()
    }
}

/// The total impact score of a well-formed event is at most 100 000 in
/// magnitude, and it has the sign of the base impact.
pub proof fn lemma_total_impact_bounded(event: MatchEvent)
    requires
        event.well_formed(),
    ensures
        -MAX_TOTAL_IMPACT <= event.total_impact_score <= MAX_TOTAL_IMPACT,
        event.base_impact >= 0 ==> event.total_impact_score >= 0,
        event.base_impact <= 0 ==> event.total_impact_score <= 0,
{
    let base = event.base_impact as int;
    let size = crate::fixed::magnitude(base);
    let time = event.time_multiplier as int;
    let position = event.position_multiplier as int;
    let difficulty = event.difficulty_multiplier as int;
    let clutch = event.clutch_multiplier as int;
    let limit = MAX_FACTOR as int;
    let rest = time * position * difficulty * clutch;
    assert(0 <= rest <= limit * limit * limit * limit) by (nonlinear_arith)
        requires
            rest == time * position * difficulty * clutch,
            0 <= time <= limit,
            0 <= position <= limit,
            0 <= difficulty <= limit,
            0 <= clutch <= limit,
    ;
    assert(0 <= size * rest <= limit * (limit * limit * limit * limit)) by (nonlinear_arith)
        requires
            0 <= size <= limit,
            0 <= rest <= limit * limit * limit * limit,
    ;
    let exact = base * time * position * difficulty * clutch;
    assert(exact == base * rest) by (nonlinear_arith)
        requires
            exact == base * time * position * difficulty * clutch,
            rest == time * position * difficulty * clutch,
    ;
    assert(base >= 0 ==> exact == size * rest);
    assert(base < 0 ==> exact == -(size * rest)) by (nonlinear_arith)
        requires
            exact == base * rest,
            base < 0 ==> size == -base,
    ;
    assert(base == 0 ==> exact == 0) by (nonlinear_arith)
        requires
            exact == base * rest,
    ;
    crate::fixed::lemma_trunc_div_bounds(exact, 1_000_000_000_000_000_000_000_000);
    crate::fixed::lemma_trunc_div_monotonic(
        exact,
        100_000_000_000_000_000_000_000_000_000_000_000,
        1_000_000_000_000_000_000_000_000,
    );
    crate::fixed::lemma_trunc_div_monotonic(
        -100_000_000_000_000_000_000_000_000_000_000_000,
        exact,
        1_000_000_000_000_000_000_000_000,
    );
}

/// Every event of a log is well formed.
pub open spec fn log_well_formed(log: Seq<MatchEvent>) -> bool {
    forall|i: int| 0 <= i < log.len() ==> (#[trigger] log[i]).well_formed()
}

/// The discrete counters of one player in one match.
#[derive(Debug, Clone, Copy, PartialEq, Eq)]
pub struct PlayerMatchStats {
    pub tackles: u8,
    pub tackles_won: u8,
    pub interceptions: u8,
    pub passes_completed: u8,
    pub passes_attempted: u8,
    pub shots_on_target: u8,
    pub shots_off_target: u8,
    pub dribbles_successful: u8,
    pub dribbles_attempted: u8,
    pub aerials_won: u8,
    pub aerials_lost: u8,
    pub fouls_committed: u8,
    pub fouls_suffered: u8,
    pub offsides: u8,
    pub clearances: u8,
    pub blocks: u8,
    pub duels_won: u8,
    pub duels_lost: u8,
    /// Counted for goalkeepers only; `None` until the first save
    pub saves: Option<u8>,
    pub goals: u8,
    pub assists: u8,
    pub yellow_cards: u8,
    pub red_cards: u8,
    pub minutes_played: u8,
    /// Share of the time on the ball, in millionths of a percent
    pub possession_time: i64,
    /// In millionths of a metre
    pub distance_covered: i64,
}

impl PlayerMatchStats {
    /// The counters before anything has happened: all zero, no save counted.
    pub open spec fn zeroed() -> PlayerMatchStats {
        PlayerMatchStats {
            tackles: 0,
            tackles_won: 0,
            interceptions: 0,
            passes_completed: 0,
            passes_attempted: 0,
            shots_on_target: 0,
            shots_off_target: 0,
            dribbles_successful: 0,
            dribbles_attempted: 0,
            aerials_won: 0,
            aerials_lost: 0,
            fouls_committed: 0,
            fouls_suffered: 0,
            offsides: 0,
            clearances: 0,
            blocks: 0,
            duels_won: 0,
            duels_lost: 0,
            saves: None,
            goals: 0,
            assists: 0,
            yellow_cards: 0,
            red_cards: 0,
            minutes_played: 0,
            possession_time: 0,
            distance_covered: 0,
        }
    }
}

impl Default for PlayerMatchStats {
    fn default() -> (stats: PlayerMatchStats)
        ensures
            stats == PlayerMatchStats::zeroed(),
    {
        PlayerMatchStats {
            tackles: 0,
            tackles_won: 0,
            interceptions: 0,
            passes_completed: 0,
            passes_attempted: 0,
            shots_on_target: 0,
            shots_off_target: 0,
            dribbles_successful: 0,
            dribbles_attempted: 0,
            aerials_won: 0,
            aerials_lost: 0,
            fouls_committed: 0,
            fouls_suffered: 0,
            offsides: 0,
            clearances: 0,
            blocks: 0,
            duels_won: 0,
            duels_lost: 0,
            saves: None,
            goals: 0,
            assists: 0,
            yellow_cards: 0,
            red_cards: 0,
            minutes_played: 0,
            possession_time: 0,
            distance_covered: 0,
        }
    }
}

/// A player's entry in a match lineup.
#[derive(Debug, Clone)]
pub struct PlayerInMatch {
    pub player_id: u128,
    pub team_id: u128,
    pub position: Position,
    pub shirt_number: u8,
    /// In millionths
    pub rating: Option<i64>,
    pub events: Vec<MatchEvent>,
    pub minutes_played: u8,
    pub substitution_minute: Option<u8>,
    pub was_substituted_on: bool,
    pub was_substituted_off: bool,
    pub stats: PlayerMatchStats,
}

/// Who plays where.
#[derive(Debug, Clone)]
pub struct Formation {
    pub goalkeeper: u128,
    pub defenders: Vec<u128>,
    pub midfielders: Vec<u128>,
    pub forwards: Vec<u128>,
}

/// The tactical settings of a side. The four dials are in millionths.
#[derive(Debug, Clone, Copy, PartialEq, Eq)]
pub struct Tactics {
    pub style: TacticalStyle,
    /// -1.0 (defensive) to 1.0 (attacking)
    pub mentality: i64,
    /// 0.0 (slow) to 1.0 (fast)
    pub tempo: i64,
    /// 0.0 (narrow) to 1.0 (wide)
    pub width: i64,
    /// 0.0 (low) to 1.0 (high)
    pub pressing_intensity: i64,
}

/// The players named for a match and the starters of both sides.
#[derive(Debug, Clone)]
pub struct MatchLineup {
    pub formation: Formation,
    pub players: Vec<PlayerInMatch>,
    pub tactics: Tactics,
    pub home_starting_xi: Vec<u128>,
    pub away_starting_xi: Vec<u128>,
}

/// A match record: created with an empty log, filled by the simulation.
#[derive(Debug, Clone)]
pub struct Match {
    pub id: u128,
    pub competition_id: u128,
    pub home_team: u128,
    pub away_team: u128,
    /// The home team, whose ground it is
    pub venue: u128,
    pub status: MatchStatus,
    pub result: Option<MatchResult>,
    pub events: Vec<MatchEvent>,
    /// The score at half time, home first
    pub half_results: Option<(u8, u8)>,
    /// Rating by player, in millionths
    pub player_ratings: std::collections::HashMap<u128, i64>,
    /// The final score, home first
    pub fulltime_score: Option<(u8, u8)>,
    pub competition_type: CompetitionType,
    pub lineup: MatchLineup,
}

} // verus!
