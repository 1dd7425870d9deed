//! Helpers that reach outside the library: fresh identifiers, random draws,
//! the clock and the calendar. The bodies of the trusted ones are not
//! verified; their contracts say what the crates behind them promise.

use vstd::prelude::*;
use chrono::Datelike;
use rand::Rng;
use crate::entities::NIL_ID;
use crate::fixed::SCALE;

verus! {

/// The thread-local generator of the `rand` crate. Nothing is known of its
/// state.
#[verifier::external_type_specification]
#[verifier::external_body]
pub struct ExThreadRng(rand::rngs::ThreadRng);

/// `rand::thread_rng` hands out the generator of the current thread; nothing
/// is claimed of it.
pub assume_specification[ rand::thread_rng ]() -> (rng: rand::rngs::ThreadRng)
;

/// A fresh random identifier: `uuid::Uuid::new_v4`, read as a 128-bit
/// integer by `Uuid::as_u128`. A version-4 identifier has its version and
/// variant bits set, so it is never the nil identifier; nothing else is
/// claimed of it.
#[verifier::external_body]
pub fn generate_unique_id() -> (id: u128)
    ensures
        id != NIL_ID,
{
    uuid::Uuid::new_v4().as_u128()
}

/// The year and the month (1 to 12) of the day with the given number in the
/// proleptic Gregorian calendar, where 1 January of the year 1 is day 1; or
/// nothing where the calendar of the `chrono` crate does not reach that far.
pub uninterp spec fn calendar_of(days: i32) -> Option<(i32, u32)>;

/// The year and the month of a day: `chrono::NaiveDate::from_num_days_from_ce_opt`,
/// read by `Datelike::year` and `Datelike::month`. The result is named, not
/// spelt out; the crate documents that the month runs from 1 to 12, and the
/// year is kept in 19 bits.
#[verifier::external_body]
pub(crate) fn calendar_month(days: i32) -> (calendar: Option<(i32, u32)>)
    ensures
        calendar == calendar_of(days),
        calendar matches Some(date) ==> -262_144 <= date.0 < 262_144 && 1 <= date.1 <= 12,
{
    match chrono::NaiveDate::from_num_days_from_ce_opt(days) {
        Some(date) => Some((date.year(), date.month())),
        None => None,
    }
}

/// The number of today's day in the proleptic Gregorian calendar:
/// `chrono::Utc::now`, read by `DateTime::date_naive` and
/// `Datelike::num_days_from_ce`. It depends on the clock; nothing is claimed
/// of it.
#[verifier::external_body]
pub(crate) fn today() -> (days: i32) {
    chrono::Utc::now().date_naive().num_days_from_ce()
}

/// The seconds since 1 January 1970: `chrono::Utc::now`, read by
/// `DateTime::timestamp`. It depends on the clock. The crate computes it from
/// a day number of 32 bits and the seconds of a day, so its magnitude stays
/// below 200 million million.
#[verifier::external_body]
pub(crate) fn now_timestamp() -> (seconds: i64)
    ensures
        -200_000_000_000_000 <= seconds <= 200_000_000_000_000,
{
    chrono::Utc::now().timestamp()
}

/// The age in whole years of 365 days of someone born on `birth_date`, on the
/// day `on`; both are day numbers. The years are counted modulo 256.
pub open spec fn age_on(birth_date: i32, on: i32) -> u8 {
    (crate::fixed::trunc_div(on - birth_date, 365) % 256) as u8
}

/// The age of someone born on `birth_date`, on the day `on`.
pub fn calculate_age_on(birth_date: i32, on: i32) -> (age: u8)
    ensures
        age == age_on(birth_date, on),
{
    let days: i64 = on as i64 - birth_date as i64;
    let years: i64 = crate::fixed::div_toward_zero(days as i128, 365) as i64;
    proof {
        crate::fixed::lemma_trunc_div_bounds(days as int, 365);
    }
    if years >= 0 {
        (years % 256) as u8
    } else {
        let rest: i64 = (-years) % 256;
        if rest == 0 {
            0
        } else {
            (256 - rest) as u8
        }
    }
}

/// The age today of someone born on the day with the number `birth_date`.
pub fn calculate_age(birth_date: i32) -> (age: u8)
    ensures
        exists|on: i32| age == #[trigger] age_on(birth_date, on),
{
    let on: i32 = today();
    calculate_age_on(birth_date, on)
}

/// The name of the save slot with the given number: the words "Save Slot"
/// and the number in decimal digits.
pub uninterp spec fn slot_name_of(slot_id: u32) -> Seq<char>;

/// The name of a save slot: `format!` with the number of the slot behind the
/// words "Save Slot". The result is named, not spelt out.
#[verifier::external_body]
pub(crate) fn slot_name(slot_id: u32) -> (name: String)
    ensures
        name@ == slot_name_of(slot_id),
{
    format!("Save Slot {}", slot_id)
}

/// The lower-case form of a text, as `str::to_lowercase` gives it.
pub uninterp spec fn lowercase_of(text: Seq<char>) -> Seq<char>;

/// The lower-case form of a text: `str::to_lowercase`, which maps every
/// character as Unicode says. The result is named, not spelt out.
#[verifier::external_body]
pub(crate) fn to_lowercase(text: &str) -> (lowered: String)
    ensures
        lowered@ == lowercase_of(text@),
{
    text.to_lowercase()
}

/// Whether a string reads as the given text.
pub(crate) fn same_text(value: &String, text: &str) -> (same: bool)
    ensures
        same == (value@ == text@),
{
    let other: String = text.to_owned();
    *value == other
}

/// A uniform draw from the whole numbers below `bound`:
/// `rand::Rng::gen_range` on the range `0..bound`, which panics on an empty
/// range and otherwise returns a number of the range. Nothing is claimed of
/// which one.
#[verifier::external_body]
pub(crate) fn random_below(rng: &mut rand::rngs::ThreadRng, bound: u128) -> (drawn: u128)
    requires
        bound > 0,
    ensures
        drawn < bound,
{
    rng.gen_range(0..bound)
}

/// A roll: a uniform draw from the millionths at least 0 and below 1.0.
pub(crate) fn roll(rng: &mut rand::rngs::ThreadRng) -> (drawn: i64)
    ensures
        0 <= drawn < SCALE,
{
    random_below(rng, SCALE as u128) as i64
}

} // verus!
