//! The save manager: it reads the version of a saved game, brings a loaded
//! game up to the current version, and describes saved games in slots.
//!
//! A version is a text such as "1.0": numbers with dots in between. Every
//! part between two dots that reads as a number counts: an optional plus
//! sign and then decimal digits, no more than fit in 32 bits. A version needs
//! two such numbers.

use vstd::prelude::*;
use vstd::utf8::encode_utf8;
use crate::entities::Position;
use crate::game_core::game_state::{current_save_version, GameState};
use crate::utils::helpers::{now_timestamp, slot_name, slot_name_of};

verus! {

/// What can go wrong with a saved game.
#[derive(Debug, Clone, PartialEq, Eq)]
pub enum SaveError {
    /// Reading or writing failed, with the reason
    IoError(String),
    SerializationError(String),
    DeserializationError(String),
    /// The file that is named does not exist
    FileNotFound(String),
    /// The version that is named has fewer than two numbers
    InvalidVersion(String),
    ValidationFailed,
}

/// A saved game in a list of saved games. Times are seconds since 1 January
/// 1970.
#[derive(Debug, Clone, PartialEq, Eq)]
pub struct SaveSlot {
    pub slot_id: u32,
    pub save_name: String,
    pub save_date: i64,
    pub player_name: String,
    pub player_age: u8,
    pub player_position: String,
    pub game_time: i64,
    pub file_path: String,
}

/// The byte of a dot.
pub const DOT: u8 = 46;

/// The byte of a plus sign.
pub const PLUS: u8 = 43;

/// The byte of the digit zero.
pub const ZERO: u8 = 48;

/// The byte of the digit nine.
pub const NINE: u8 = 57;

/// Whether a byte is a decimal digit.
pub open spec fn is_digit(byte: u8) -> bool {
    ZERO <= byte <= NINE
}

/// Whether all bytes are decimal digits.
pub open spec fn all_digits(bytes: Seq<u8>) -> bool {
    forall|i: int| 0 <= i < bytes.len() ==> is_digit(#[trigger] bytes[i])
}

/// The number that decimal digits spell.
pub open spec fn digits_value(digits: Seq<u8>) -> int
    decreases digits.len(),
{
    if digits.len() == 0 {
        0
    } else {
        digits_value(digits.drop_last()) * 10 + (digits.last() - ZERO)
    }
}

/// The digits of a part: the part without a plus sign in front.
pub open spec fn digits_of(part: Seq<u8>) -> Seq<u8> {
    if part.len() > 0 && part[0] == PLUS {
        part.subrange(1, part.len() as int)
    } else {
        part
    }
}

/// The number that a part of a version reads as, if it reads as one: an
/// optional plus sign, then at least one digit and nothing but digits, and a
/// value that fits in 32 bits.
pub open spec fn parsed_number(part: Seq<u8>) -> Option<u32> {
    let digits = digits_of(part);
    if digits.len() > 0 && all_digits(digits) && digits_value(digits) <= u32::MAX {
        Some(digits_value(digits) as u32)
    } else {
        None
    }
}

/// Where the part that ends at `end` starts: behind the last dot before
/// `end`, or at the start of the text.
pub open spec fn part_start(bytes: Seq<u8>, end: int) -> int
    decreases end,
{
    if end <= 0 {
        0
    } else if bytes[end - 1] == DOT {
        end
    } else {
        part_start(bytes, end - 1)
    }
}

/// The numbers of the parts of the text up to `end`, where a part ends, in
/// their order.
pub open spec fn numbers_upto(bytes: Seq<u8>, end: int) -> Seq<u32>
    decreases end,
{
    let start = part_start(bytes, end);
    let before = if start <= 0 || start > end {
        Seq::<u32>::empty()
    } else {
        numbers_upto(bytes, start - 1)
    };
    match parsed_number(bytes.subrange(start, end)) {
        Some(number) => before.push(number),
        None => before,
    }
}

/// The numbers of a version, in their order.
pub open spec fn version_numbers(bytes: Seq<u8>) -> Seq<u32> {
    numbers_upto(bytes, bytes.len() as int)
}

/// Whether a version is valid: it has at least two numbers.
pub open spec fn is_valid_version(bytes: Seq<u8>) -> bool {
    version_numbers(bytes).len() >= 2
}

/// The name of a position.
pub open spec fn position_name_of(position: Position) -> Seq<char> {
    match position {
        Position::GK => "GK"@,
        Position::RB => "RB"@,
        Position::CB => "CB"@,
        Position::LB => "LB"@,
        Position::FB => "FB"@,
        Position::DM => "DM"@,
        Position::RM => "RM"@,
        Position::CM => "CM"@,
        Position::LM => "LM"@,
        Position::AM => "AM"@,
        Position::RW => "RW"@,
        Position::LW => "LW"@,
        Position::CF => "CF"@,
        Position::SS => "SS"@,
    }
}

/// The name of a position.
pub fn position_name(position: Position) -> (name: &'static str)
    ensures
        name@ == position_name_of(position),
{
    match position {
        Position::GK => "GK",
        Position::RB => "RB",
        Position::CB => "CB",
        Position::LB => "LB",
        Position::FB => "FB",
        Position::DM => "DM",
        Position::RM => "RM",
        Position::CM => "CM",
        Position::LM => "LM",
        Position::AM => "AM",
        Position::RW => "RW",
        Position::LW => "LW",
        Position::CF => "CF",
        Position::SS => "SS",
    }
}

/// The start of a part never lies behind its end.
pub proof fn lemma_part_start_bounds(bytes: Seq<u8>, end: int)
    requires
        0 <= end <= bytes.len(),
    ensures
        0 <= part_start(bytes, end) <= end,
        part_start(bytes, end) > 0 ==> bytes[part_start(bytes, end) - 1] == DOT,
    decreases end,
{
    if end > 0 && bytes[end - 1] != DOT {
        lemma_part_start_bounds(bytes, end - 1);
    }
}

/// The number that the bytes from `start` up to `end` read as, if they read
/// as one.
pub fn parse_number(bytes: &[u8], start: usize, end: usize) -> (number: Option<u32>)
    requires
        start <= end <= bytes@.len(),
    ensures
        number == parsed_number(bytes@.subrange(start as int, end as int)),
{
    let ghost part = bytes@.subrange(start as int, end as int);
    let first: usize = if start < end && bytes[start] == PLUS {
        start + 1
    } else {
        start
    };
    let ghost digits = digits_of(part);
    assert(digits =~= bytes@.subrange(first as int, end as int));
    if first == end {
        return None;
    }
    let mut value: u64 = 0;
    let mut too_large: bool = false;
    let mut i: usize = first;
    assert(digits.take(0) =~= Seq::<u8>::empty());
    while i < end
        invariant
            first <= i <= end <= bytes@.len(),
            start <= first,
            digits == bytes@.subrange(first as int, end as int),
            digits == digits_of(bytes@.subrange(start as int, end as int)),
            all_digits(digits.take(i - first)),
            too_large <==> digits_value(digits.take(i - first)) > u32::MAX,
            !too_large ==> value == digits_value(digits.take(i - first)),
            digits_value(digits.take(i - first)) >= 0,
        decreases end - i,
    {
        let byte: u8 = bytes[i];
        if byte < ZERO || byte > NINE {
            proof {
                assert(0 <= i - first < digits.len());
                assert(digits[i - first] == byte);
                assert(!is_digit(digits[i - first]));
                assert(!all_digits(digits));
            }
            return None;
        }
        proof {
            let seen = digits.take(i - first);
            let more = digits.take(i - first + 1);
            assert(more.drop_last() =~= seen);
            assert(more.last() == byte);
            assert forall|k: int| 0 <= k < more.len() implies is_digit(#[trigger] more[k]) by {
                if k < seen.len() {
                    assert(more[k] == seen[k]);
                }
            }
        }
        if !too_large {
            value = value * 10 + (byte - ZERO) as u64;
            if value > 0xffff_ffff {
                too_large = true;
            }
        }
        i = i + 1;
    }
    proof {
        assert(digits.take(end - first) =~= digits);
    }
    if too_large {
        None
    } else {
        Some(value as u32)
    }
}

/// The numbers of a version, in their order.
pub fn parse_version(bytes: &[u8]) -> (numbers: Vec<u32>)
    ensures
        numbers@ == version_numbers(bytes@),
{
    let mut numbers: Vec<u32> = Vec::new();
    let mut start: usize = 0;
    let mut i: usize = 0;
    while i < bytes.len()
        invariant
            0 <= start <= i <= bytes@.len(),
            start == part_start(bytes@, i as int),
            numbers@ == (if start == 0 {
                Seq::<u32>::empty()
            } else {
                numbers_upto(bytes@, start - 1)
            }),
        decreases bytes@.len() - i,
    {
        if bytes[i] == DOT {
            match parse_number(bytes, start, i) {
                Some(number) => {
                    numbers.push(number);
                },
                None => {},
            }
            start = i + 1;
        }
        i = i + 1;
    }
    match parse_number(bytes, start, i) {
        Some(number) => {
            numbers.push(number);
        },
        None => {},
    }
    numbers
}

/// The save manager.
#[derive(Debug, Clone, Copy)]
pub struct SaveManager;

impl SaveManager {
    pub fn new() -> (manager: SaveManager) {
        SaveManager
    }

    /// Whether a version is valid: it has at least two numbers.
    pub fn is_version_valid(&self, version: &str) -> (valid: bool)
        ensures
            valid == is_valid_version(encode_utf8(version@)),
    {
        let numbers: Vec<u32> = parse_version(version.as_bytes());
        numbers.len() >= 2
    }

    /// Brings a loaded game up to the current version. A game whose version
    /// has fewer than two numbers is refused, and its version reported.
    pub fn migrate_save_format(&self, game_state: GameState) -> (migrated: Result<
        GameState,
        SaveError,
    >)
        ensures
            match migrated {
                Ok(state) => is_valid_version(encode_utf8(game_state.save_version@))
                    && state.save_version@ == current_save_version() && state.player
                    == game_state.player && state.current_club_id == game_state.current_club_id
                    && state.clubs == game_state.clubs && state.season == game_state.season
                    && state.leagues == game_state.leagues && state.competitions
                    == game_state.competitions && state.transfer_system
                    == game_state.transfer_system && state.relationships
                    == game_state.relationships && state.narratives == game_state.narratives
                    && state.tutorial_state == game_state.tutorial_state && state.current_date
                    == game_state.current_date,
                Err(error) => !is_valid_version(encode_utf8(game_state.save_version@))
                    && error == SaveError::InvalidVersion(game_state.save_version),
            },
    {
        let mut game_state = game_state;
        if !self.is_version_valid(game_state.save_version.as_str()) {
            return Err(SaveError::InvalidVersion(game_state.save_version));
        }
        game_state.save_version = "1.0".to_owned();
        Ok(game_state)
    }

    /// Describes a game that is saved now in the slot with the given number
    /// and file.
    pub fn create_save_slot(&self, slot_id: u32, game_state: &GameState, file_path: String) -> (slot:
        SaveSlot)
        ensures
            slot.slot_id == slot_id,
            slot.save_name@ == slot_name_of(slot_id),
            slot.player_name@ == game_state.player.name@,
            slot.player_age == game_state.player.age,
            slot.player_position@ == position_name_of(game_state.player.primary_position),
            slot.game_time == game_state.current_date,
            slot.file_path == file_path,
    {
        SaveSlot::new(slot_id, game_state, file_path)
    }
}

impl SaveSlot {
    /// The description of a game that is saved now in the slot with the given
    /// number and file.
    pub fn new(slot_id: u32, game_state: &GameState, file_path: String) -> (slot: SaveSlot)
        ensures
            slot.slot_id == slot_id,
            slot.save_name@ == slot_name_of(slot_id),
            slot.player_name@ == game_state.player.name@,
            slot.player_age == game_state.player.age,
            slot.player_position@ == position_name_of(game_state.player.primary_position),
            slot.game_time == game_state.current_date,
            slot.file_path == file_path,
    {
        SaveSlot {
            slot_id,
            save_name: slot_name(slot_id),
            save_date: now_timestamp(),
            player_name: game_state.player.name.clone(),
            player_age: game_state.player.age,
            player_position: position_name(game_state.player.primary_position).to_owned(),
            game_time: game_state.current_date,
            file_path,
        }
    }
}

} // verus!
