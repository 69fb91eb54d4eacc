//! The calls into chrono and chrono-tz, each with the contract the library relies on.

use chrono::{Local, TimeZone, Utc};
use vstd::prelude::*;

verus! {

/// Whether chrono-tz knows `zone` as an IANA time-zone name.
pub uninterp spec fn is_zone_name(zone: Seq<char>) -> bool;

/// Seconds since the epoch of the local time `text` (`%Y-%m-%d-%H-%M-%S`) in
/// the named zone; `None` where the text does not parse or the local time is
/// skipped or repeated there.
pub uninterp spec fn zone_local_seconds(text: Seq<char>, zone: Seq<char>) -> Option<i64>;

/// Whether chrono can represent `timestamp` seconds since the epoch as a date
/// and time (`TimeZone::timestamp_opt` gives a single result).
pub uninterp spec fn in_chrono_range(timestamp: i64) -> bool;

/// `%Y-%m-%d %H:%M:%S %Z` of `timestamp` in the named zone.
pub uninterp spec fn zone_text(timestamp: i64, zone: Seq<char>) -> Seq<char>;

/// Relies on chrono's `Utc::now` and `DateTime::timestamp`: the current time,
/// in whole seconds since the epoch.
#[verifier::external_body]
pub(crate) fn utc_now_seconds() -> (r: i64) {
    Utc::now().timestamp()
}

/// Relies on chrono-tz's `FromStr for Tz`: whether the name is in its database.
#[verifier::external_body]
pub(crate) fn zone_known(zone: &str) -> (r: bool)
    ensures
        r == is_zone_name(zone@),
{
    zone.parse::<chrono_tz::Tz>().is_ok()
}

/// Relies on chrono's `NaiveDateTime::parse_from_str` and on chrono-tz's
/// `TimeZone::from_local_datetime` with `single`: the epoch seconds of a local
/// time in a known zone.
#[verifier::external_body]
pub(crate) fn zone_local_to_utc(text: &str, zone: &str) -> (r: Option<i64>)
    requires
        is_zone_name(zone@),
    ensures
        r == zone_local_seconds(text@, zone@),
{
    let tz: chrono_tz::Tz = zone.parse().ok()?;
    let naive = chrono::NaiveDateTime::parse_from_str(text, "%Y-%m-%d-%H-%M-%S").ok()?;
    tz.from_local_datetime(&naive).single().map(|t| t.timestamp())
}

/// Relies on chrono's `TimeZone::timestamp_opt` with `single`: whether the
/// timestamp lies in chrono's range of dates.
#[verifier::external_body]
pub(crate) fn timestamp_representable(timestamp: i64) -> (r: bool)
    ensures
        r == in_chrono_range(timestamp),
{
    Utc.timestamp_opt(timestamp, 0).single().is_some()
}

/// Relies on chrono's `TimeZone::timestamp_opt` with `single`, and on
/// chrono-tz's `Tz` for the conversion and its abbreviation: text exactly
/// where the timestamp is in chrono's range.
#[verifier::external_body]
pub(crate) fn zone_format(timestamp: i64, zone: &str) -> (r: Option<String>)
    requires
        is_zone_name(zone@),
    ensures
        match r {
            Some(s) => s@ == zone_text(timestamp, zone@),
            None => true,
        },
        r is Some <==> in_chrono_range(timestamp),
{
    let tz: chrono_tz::Tz = zone.parse().ok()?;
    let utc = Utc.timestamp_opt(timestamp, 0).single()?;
    Some(utc.with_timezone(&tz).format("%Y-%m-%d %H:%M:%S %Z").to_string())
}

/// Relies on chrono's `TimeZone::timestamp_opt` with `single`, converted to the
/// machine's `Local` zone: text exactly where the timestamp is in chrono's
/// range; what the text says depends on that zone.
#[verifier::external_body]
pub(crate) fn local_format(timestamp: i64) -> (r: Option<String>)
    ensures
        r is Some <==> in_chrono_range(timestamp),
{
    let utc = Utc.timestamp_opt(timestamp, 0).single()?;
    Some(utc.with_timezone(&Local).format("%Y-%m-%d %H:%M:%S").to_string())
}

} // verus!
