//! What the console interface decides: which entry of the main menu an input
//! stands for, and what the consequence of a decision does to the player.

use vstd::prelude::*;
use crate::entities::Player;
use crate::fixed::{clamp_to, SCALE};
use crate::game_core::event_engine::{Consequence, ConsequenceType};

verus! {

/// The entries of the main menu.
#[derive(Debug, Clone, Copy, PartialEq, Eq, Hash, Structural)]
pub enum MainMenuOption {
    ViewPlayerProfile,
    ViewTeamInfo,
    ViewLeagueTable,
    ViewMatchReport,
    ContinueGame,
    SaveGame,
    LoadGame,
    Quit,
}

/// The entry of the main menu that an input stands for: the digits 1 to 8
/// stand for the entries in their order, and anything else lets the game go
/// on.
pub open spec fn menu_option_of(input: Seq<char>) -> MainMenuOption {
    if input == "1"@ {
        MainMenuOption::ViewPlayerProfile
    } else if input == "2"@ {
        MainMenuOption::ViewTeamInfo
    } else if input == "3"@ {
        MainMenuOption::ViewLeagueTable
    } else if input == "4"@ {
        MainMenuOption::ViewMatchReport
    } else if input == "5"@ {
        MainMenuOption::ContinueGame
    } else if input == "6"@ {
        MainMenuOption::SaveGame
    } else if input == "7"@ {
        MainMenuOption::LoadGame
    } else if input == "8"@ {
        MainMenuOption::Quit
    } else {
        MainMenuOption::ContinueGame
    }
}

/// Whether two texts read the same.
pub fn same_input(input: &str, text: &str) -> (same: bool)
    ensures
        same == (input@ == text@),
{
    let first: String = input.to_owned();
    let second: String = text.to_owned();
    first == second
}

impl MainMenuOption {
    /// The entry of the main menu that an input stands for.
    pub fn from_input(input: &str) -> (option: MainMenuOption)
        ensures
            option == menu_option_of(input@),
    {
        if same_input(input, "1") {
            MainMenuOption::ViewPlayerProfile
        } else if same_input(input, "2") {
            MainMenuOption::ViewTeamInfo
        } else if same_input(input, "3") {
            MainMenuOption::ViewLeagueTable
        } else if same_input(input, "4") {
            MainMenuOption::ViewMatchReport
        } else if same_input(input, "5") {
            MainMenuOption::ContinueGame
        } else if same_input(input, "6") {
            MainMenuOption::SaveGame
        } else if same_input(input, "7") {
            MainMenuOption::LoadGame
        } else if same_input(input, "8") {
            MainMenuOption::Quit
        } else {
            MainMenuOption::ContinueGame
        }
    }
}

/// The player after the consequence of a decision: a change of morale moves
/// the morale, a change of reputation the name at home, each within 0 and
/// 100; the other consequences leave the player as they are.
pub open spec fn with_consequence(player: Player, consequence: Consequence) -> Player {
    match consequence.consequence_type {
        ConsequenceType::MoraleChange => Player {
            morale: clamp_to(player.morale + consequence.value, 0, 100 * SCALE) as i64,
            ..player
        },
        ConsequenceType::ReputationChange => Player {
            local_reputation: clamp_to(
                player.local_reputation + consequence.value,
                0,
                100 * SCALE,
            ) as i64,
            ..player
        },
        _ => player,
    }
}

/// Applies the consequence of a decision to the player.
pub fn apply_consequence(player: &mut Player, consequence: &Consequence)
    ensures
        *final(player) == with_consequence(*old(player), *consequence),
{
    match consequence.consequence_type {
        ConsequenceType::MoraleChange => {
            let moved: i128 = player.morale as i128 + consequence.value as i128;
            player.morale = if moved < 0 {
                0
            } else if moved > 100_000_000 {
                100_000_000
            } else {
                moved as i64
            };
        },
        ConsequenceType::ReputationChange => {
            let moved: i128 = player.local_reputation as i128 + consequence.value as i128;
            player.local_reputation = if moved < 0 {
                0
            } else if moved > 100_000_000 {
                100_000_000
            } else {
                moved as i64
            };
        },
        _ => {},
    }
}

/// The player after the first `count` consequences, one after the other.
pub open spec fn with_consequences(player: Player, consequences: Seq<Consequence>, count: int)
    -> Player
    decreases count,
{
    if count <= 0 {
        player
    } else {
        with_consequence(with_consequences(player, consequences, count - 1), consequences[count - 1])
    }
}

/// Applies the consequences of a decision to the player, one after the
/// other.
pub fn apply_consequences(player: &mut Player, consequences: &[Consequence])
    ensures
        *final(player) == with_consequences(
            *old(player),
            consequences@,
            consequences@.len() as int,
        ),
{
    let mut i: usize = 0;
    while i < consequences.len()
        invariant
            0 <= i <= consequences@.len(),
            *player == with_consequences(*old(player), consequences@, i as int),
        decreases consequences@.len() - i,
    {
        apply_consequence(player, &consequences[i]);
        i = i + 1;
    }
}

/// The place of the option that a choice stands for among `options`
/// options: choices are counted from 1, and a choice beyond the options
/// stands for none.
pub fn selected_option(choice: usize, options: usize) -> (place: Option<usize>)
    ensures
        place == (if 1 <= choice <= options {
            Some((choice - 1) as usize)
        } else {
            None
        }),
{
    if choice > 0 && choice <= options {
        Some(choice - 1)
    } else {
        None
    }
}

} // verus!
