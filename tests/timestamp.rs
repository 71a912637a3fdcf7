use timeline_index::timestamp::{LocalMapping, TimeError, Timestamp};

#[test]
fn utc_seconds_become_milliseconds() {
    let t = Timestamp::from_local(1700000000, "UTC").unwrap();
    assert_eq!(t.timestamp_millis(), 1700000000000);
}

#[test]
fn zone_offset_is_applied() {
    // 2023-01-15 12:00 local in Berlin (UTC+1) is 11:00 UTC.
    let t = Timestamp::from_local(1673784000, "Europe/Berlin").unwrap();
    assert_eq!(t.timestamp_millis(), 1673780400000);
}

#[test]
fn spring_forward_gap_is_invalid_instant() {
    // 2023-03-26 02:30 does not exist in Berlin.
    let r = Timestamp::from_local(1679797800, "Europe/Berlin");
    assert_eq!(r, Err(TimeError::InvalidInstant));
}

#[test]
fn fall_back_overlap_takes_earlier_offset_every_time() {
    // 2023-10-29 02:30 happens twice in Berlin: 00:30 UTC (CEST) and 01:30 UTC (CET).
    let a = Timestamp::from_local(1698546600, "Europe/Berlin").unwrap();
    let b = Timestamp::from_local(1698546600, "Europe/Berlin").unwrap();
    assert_eq!(a.timestamp_millis(), 1698539400000);
    assert_eq!(a, b);
}

#[test]
fn unknown_zone_is_reported() {
    let r = Timestamp::from_local(1700000000, "Nowhere/Atlantis");
    assert_eq!(r, Err(TimeError::UnknownZone));
}

#[test]
fn out_of_range_seconds_are_reported() {
    let r = Timestamp::from_local(i64::MAX, "UTC");
    assert_eq!(r, Err(TimeError::OutOfRange));
}

#[test]
fn mapping_decisions() {
    assert_eq!(Timestamp::from_mapping(LocalMapping::Gap), Err(TimeError::InvalidInstant));
    assert_eq!(Timestamp::from_mapping(LocalMapping::UnknownZone), Err(TimeError::UnknownZone));
    assert_eq!(Timestamp::from_mapping(LocalMapping::OutOfRange), Err(TimeError::OutOfRange));
    assert_eq!(Timestamp::from_mapping(LocalMapping::Single(5)), Ok(Timestamp::from_millis(5)));
    assert_eq!(
        Timestamp::from_mapping(LocalMapping::Ambiguous(7, 3607)),
        Ok(Timestamp::from_millis(7))
    );
}
