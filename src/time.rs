use crate::clock::{
    in_chrono_range, is_zone_name, local_format, timestamp_representable, utc_now_seconds,
    zone_format, zone_known, zone_local_seconds, zone_local_to_utc, zone_text,
};
use vstd::prelude::*;

verus! {

/// A moment as seconds since the Unix epoch, with the name of the time zone it
/// was recorded in.
#[derive(Debug, Clone)]
pub struct TimeInfo {
    pub timestamp: i64,
    pub timezone: String,
}

/// Why a time could not be read or shown; each carries the offending text.
#[derive(Debug, Clone)]
pub enum TimeError {
    InvalidTimeFormat(String),
    InvalidTimezone(String),
}

impl TimeInfo {
    pub fn new(timestamp: i64, timezone: String) -> (r: Self)
        ensures
            r.timestamp == timestamp,
            r.timezone@ == timezone@,
    {
        TimeInfo { timestamp, timezone }
    }

    /// The current time, recorded as being in `timezone`.
    pub fn now(timezone: String) -> (r: Self)
        ensures
            r.timezone@ == timezone@,
    {
        TimeInfo::new(utc_now_seconds(), timezone)
    }

    /// The moment in the machine's local zone, as `%Y-%m-%d %H:%M:%S`; an
    /// error where chrono cannot represent the timestamp.
    pub fn to_local_string(&self) -> (r: Result<String, TimeError>)
        ensures
            r is Ok <==> in_chrono_range(self.timestamp),
            r is Err ==> (r matches Err(TimeError::InvalidTimeFormat(m)) && m@
                == "Invalid timestamp"@),
    {
        match local_format(self.timestamp) {
            Some(s) => Ok(s),
            None => Err(TimeError::InvalidTimeFormat("Invalid timestamp".to_owned())),
        }
    }

    /// The moment in the zone it was recorded in, as `%Y-%m-%d %H:%M:%S %Z`.
    /// A timestamp out of chrono's range is reported before an unknown zone.
    pub fn to_original_timezone_string(&self) -> (r: Result<String, TimeError>)
        ensures
            !in_chrono_range(self.timestamp) ==> (r matches Err(TimeError::InvalidTimeFormat(m))
                && m@ == "Invalid timestamp"@),
            in_chrono_range(self.timestamp) && !is_zone_name(self.timezone@) ==> (r matches Err(
                TimeError::InvalidTimezone(z),
            ) && z@ == self.timezone@),
            in_chrono_range(self.timestamp) && is_zone_name(self.timezone@) ==> (r matches Ok(s)
                && s@ == zone_text(self.timestamp, self.timezone@)),
    {
        if !timestamp_representable(self.timestamp) {
            return Err(TimeError::InvalidTimeFormat("Invalid timestamp".to_owned()));
        }
        if !zone_known(self.timezone.as_str()) {
            return Err(TimeError::InvalidTimezone(self.timezone.clone()));
        }
        match zone_format(self.timestamp, self.timezone.as_str()) {
            Some(s) => Ok(s),
            None => Err(TimeError::InvalidTimeFormat("Invalid timestamp".to_owned())),
        }
    }
}

/// Reads `time_str` (`%Y-%m-%d-%H-%M-%S`) as a local time in `timezone`.
pub fn parse_time(time_str: &str, timezone: &str) -> (r: Result<TimeInfo, TimeError>)
    ensures
        !is_zone_name(timezone@) ==> (r matches Err(TimeError::InvalidTimezone(z)) && z@
            == timezone@),
        is_zone_name(timezone@) ==> match zone_local_seconds(time_str@, timezone@) {
            Some(ts) => r matches Ok(t) && t.timestamp == ts && t.timezone@ == timezone@,
            None => r matches Err(TimeError::InvalidTimeFormat(s)) && s@ == time_str@,
        },
{
    if !zone_known(timezone) {
        return Err(TimeError::InvalidTimezone(timezone.to_owned()));
    }
    match zone_local_to_utc(time_str, timezone) {
        Some(ts) => Ok(TimeInfo::new(ts, timezone.to_owned())),
        None => Err(TimeError::InvalidTimeFormat(time_str.to_owned())),
    }
}

} // verus!
