use commemorate::{format_duration, parse_time, TimeError, TimeInfo};

#[test]
fn time_info_keeps_its_fields() {
    let t = TimeInfo::new(1_700_000_000, "Europe/Paris".to_string());
    assert_eq!(t.timestamp, 1_700_000_000);
    assert_eq!(t.timezone, "Europe/Paris");
}

#[test]
fn now_keeps_the_zone_and_is_recent() {
    let t = TimeInfo::now("UTC".to_string());
    assert_eq!(t.timezone, "UTC");
    assert!(t.timestamp > 1_700_000_000);
}

#[test]
fn parse_time_in_utc() {
    let t = parse_time("2024-01-01-00-00-00", "UTC").unwrap();
    assert_eq!(t.timestamp, 1_704_067_200);
    assert_eq!(t.timezone, "UTC");
}

#[test]
fn parse_time_applies_the_zone_offset() {
    let t = parse_time("2024-01-01-09-00-00", "Asia/Tokyo").unwrap();
    assert_eq!(t.timestamp, 1_704_067_200);
}

#[test]
fn parse_time_rejects_unknown_zone() {
    match parse_time("2024-01-01-00-00-00", "Nowhere/Atlantis") {
        Err(TimeError::InvalidTimezone(z)) => assert_eq!(z, "Nowhere/Atlantis"),
        _ => panic!("expected an unknown zone"),
    }
}

#[test]
fn parse_time_rejects_bad_format() {
    match parse_time("2024/01/01", "UTC") {
        Err(TimeError::InvalidTimeFormat(s)) => assert_eq!(s, "2024/01/01"),
        _ => panic!("expected a bad format"),
    }
}

#[test]
fn zone_string_in_recorded_zone() {
    let t = TimeInfo::new(1_704_067_200, "Asia/Tokyo".to_string());
    assert_eq!(t.to_original_timezone_string().unwrap(), "2024-01-01 09:00:00 JST");
    let u = TimeInfo::new(0, "UTC".to_string());
    assert_eq!(u.to_original_timezone_string().unwrap(), "1970-01-01 00:00:00 UTC");
}

#[test]
fn original_zone_string_rejects_unknown_zone() {
    let t = TimeInfo::new(0, "Mars/Olympus".to_string());
    assert!(matches!(t.to_original_timezone_string(), Err(TimeError::InvalidTimezone(_))));
}

#[test]
fn out_of_range_timestamp_is_invalid() {
    let t = TimeInfo::new(i64::MAX, "UTC".to_string());
    assert!(matches!(t.to_original_timezone_string(), Err(TimeError::InvalidTimeFormat(_))));
    assert!(matches!(t.to_local_string(), Err(TimeError::InvalidTimeFormat(_))));
}

#[test]
fn local_string_has_the_expected_shape() {
    let s = TimeInfo::new(0, "UTC".to_string()).to_local_string().unwrap();
    assert_eq!(s.len(), 19);
}

#[test]
fn durations_in_words() {
    assert_eq!(format_duration(0), "0 seconds");
    assert_eq!(format_duration(1), "1 second");
    assert_eq!(format_duration(2), "2 seconds");
    assert_eq!(format_duration(60), "1 minute");
    assert_eq!(format_duration(3661), "1 hour, 1 minute, 1 second");
    assert_eq!(format_duration(86_400 * 367 + 7_200), "1 year, 2 days, 2 hours");
    assert_eq!(format_duration(86_400 * 730 + 125), "2 years, 2 minutes, 5 seconds");
    assert_eq!(format_duration(-90), "-30 seconds");
    assert_eq!(format_duration(-120), "0 seconds");
    assert_eq!(format_duration(-61), "-1 seconds");
}

#[test]
fn bad_timestamp_is_reported_before_unknown_zone() {
    let t = TimeInfo::new(i64::MAX, "Nowhere/Atlantis".to_string());
    match t.to_original_timezone_string() {
        Err(TimeError::InvalidTimeFormat(m)) => assert_eq!(m, "Invalid timestamp"),
        _ => panic!("expected an invalid timestamp"),
    }
    match t.to_local_string() {
        Err(TimeError::InvalidTimeFormat(m)) => assert_eq!(m, "Invalid timestamp"),
        _ => panic!("expected an invalid timestamp"),
    }
}
