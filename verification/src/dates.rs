//! Date and time fields.
//!
//! Statement rows carry a local calendar date (`2023-05-01`) or a local date
//! and time (`2023-05-01 12:30:00`); the source data names no time zone, so
//! the values are read as UTC by convention and stored as epoch seconds. The
//! calendar arithmetic itself is done by the `chrono` crate; each call's
//! result is a function of the field's characters alone and is named by an
//! uninterpreted function, so every contract downstream is exact in terms of
//! that name.
use vstd::prelude::*;

verus! {

/// The epoch second of midnight (UTC) on the calendar day a `%Y-%m-%d` field
/// names, or nothing when the field does not parse as such a date.
pub uninterp spec fn date_epoch(s: Seq<char>) -> Option<i64>;

/// The epoch second (UTC) of the instant a `%Y-%m-%d %H:%M:%S` field names,
/// or nothing when the field does not parse as such a timestamp.
pub uninterp spec fn datetime_epoch(s: Seq<char>) -> Option<i64>;

/// Relies on `chrono::NaiveDate::parse_from_str` with the `%Y-%m-%d` format,
/// `NaiveDate::and_hms_opt(0, 0, 0)` (midnight exists on every day, so the
/// unwrap cannot panic) and `DateTime::<Utc>::timestamp`: the parse either
/// fails or names one calendar day, and the result depends on the characters
/// alone.
#[verifier::external_body]
pub(crate) fn date_field_epoch(field: &Vec<char>) -> (r: Option<i64>)
    ensures
        r == date_epoch(field@),
{
    let s: String = field.iter().collect();
    match chrono::NaiveDate::parse_from_str(&s, "%Y-%m-%d") {
        Ok(d) => Some(d.and_hms_opt(0, 0, 0).unwrap().and_utc().timestamp()),
        Err(_) => None,
    }
}

/// Relies on `chrono::NaiveDateTime::parse_from_str` with the
/// `%Y-%m-%d %T` format and `DateTime::<Utc>::timestamp`: the parse either
/// fails or names one instant, and the result depends on the characters
/// alone.
#[verifier::external_body]
pub(crate) fn datetime_field_epoch(field: &Vec<char>) -> (r: Option<i64>)
    ensures
        r == datetime_epoch(field@),
{
    let s: String = field.iter().collect();
    match chrono::NaiveDateTime::parse_from_str(&s, "%Y-%m-%d %T") {
        Ok(d) => Some(d.and_utc().timestamp()),
        Err(_) => None,
    }
}

} // verus!
