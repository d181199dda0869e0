//! Stored UTC timestamps shown in New York local time.
use vstd::prelude::*;
use std::fmt::Write;

verus! {

/// What parsing `text` with `chrono::NaiveDateTime::parse_from_str(text, in_format)`,
/// reading it as UTC, converting it to the `chrono_tz::Tz` named `zone` and formatting it
/// with `out_format` gives back; `None` where the text does not parse, the zone is unknown
/// or the output format is invalid.
pub uninterp spec fn zoned_time_text(text: Seq<char>, in_format: Seq<char>, zone: Seq<char>, out_format: Seq<char>) -> Option<Seq<char>>;

/// Parses a UTC timestamp with `NaiveDateTime::parse_from_str`, looks the zone up with
/// `chrono_tz::Tz`'s `FromStr`, converts with `with_timezone` and renders the result with
/// `format` (written through `write!`, so an invalid format gives `None` rather than a panic).
/// The result is named by `zoned_time_text`.
#[verifier::external_body]
fn zoned_time_of(text: &str, in_format: &str, zone: &str, out_format: &str) -> (r: Option<String>)
    ensures
        r matches Some(s) ==> zoned_time_text(text@, in_format@, zone@, out_format@) == Some(s@),
        r is None ==> zoned_time_text(text@, in_format@, zone@, out_format@) is None,
{
    let naive = chrono::NaiveDateTime::parse_from_str(text, in_format).ok()?;
    let tz = zone.parse::<chrono_tz::Tz>().ok()?;
    let local = chrono::DateTime::<chrono::Utc>::from_naive_utc_and_offset(naive, chrono::Utc).with_timezone(&tz);
    let mut out = String::new();
    write!(out, "{}", local.format(out_format)).ok()?;
    Some(out)
}

/// How SQLite's `datetime('now')` writes a UTC timestamp.
pub open spec fn stored_format() -> Seq<char> { "%Y-%m-%d %H:%M:%S"@ }

/// The zone the household lives in.
pub open spec fn home_zone() -> Seq<char> { "America/New_York"@ }

/// How a local time is shown, with the zone's abbreviation (EST or EDT).
pub open spec fn shown_format() -> Seq<char> { "%Y-%m-%d %H:%M:%S %Z"@ }

/// A stored UTC timestamp in New York time, as shown to users.
pub open spec fn eastern_time_text(utc: Seq<char>) -> Option<Seq<char>> {
    zoned_time_text(utc, stored_format(), home_zone(), shown_format())
}

/// Converts a stored UTC timestamp (`YYYY-MM-DD HH:MM:SS`) into New York local time.
pub fn to_eastern_time(utc: &str) -> (r: Option<String>)
    ensures
        r matches Some(s) ==> eastern_time_text(utc@) == Some(s@),
        r is None ==> eastern_time_text(utc@) is None,
{
    zoned_time_of(utc, "%Y-%m-%d %H:%M:%S", "America/New_York", "%Y-%m-%d %H:%M:%S %Z")
}

/// The text shown for a stored timestamp: its New York time, or `fallback` where there is
/// no timestamp or it does not parse.
pub open spec fn display_time_spec(stored: Option<Seq<char>>, fallback: Seq<char>) -> Seq<char> {
    match stored {
        Some(t) => match eastern_time_text(t) {
            Some(e) => e,
            None => fallback,
        },
        None => fallback,
    }
}

/// Renders an optional stored timestamp for display, with `fallback` (such as `unknown` or
/// `never`) where there is nothing to show.
pub fn display_time(stored: Option<&str>, fallback: &str) -> (r: String)
    ensures
        r@ == display_time_spec(match stored { Some(t) => Some(t@), None => None }, fallback@),
{
    match stored {
        Some(t) => match to_eastern_time(t) {
            Some(e) => e,
            None => fallback.to_owned(),
        },
        None => fallback.to_owned(),
    }
}

} // verus!
