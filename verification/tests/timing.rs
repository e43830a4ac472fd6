use ubx2rinex::time::{Duration, Epoch, TimeScale};

#[test]
fn gregorian_round_trip() {
    let e = Epoch::from_gregorian(2020, 2, 29, 12, 34, 56, 789, TimeScale::Utc);
    let c = e.to_gregorian();
    assert_eq!(c.year, 2020);
    assert_eq!(c.month, 2);
    assert_eq!(c.day, 29);
    assert_eq!(c.day_of_year, 60);
    assert_eq!(c.hour, 12);
    assert_eq!(c.minute, 34);
    assert_eq!(c.second, 56);
    assert_eq!(c.nanos, 789);
}

#[test]
fn day_of_year_edges() {
    let first = Epoch::from_gregorian(2020, 1, 1, 0, 0, 0, 0, TimeScale::Utc);
    assert_eq!(first.to_gregorian().day_of_year, 1);
    let last_leap = Epoch::from_gregorian(2020, 12, 31, 23, 59, 59, 0, TimeScale::Utc);
    assert_eq!(last_leap.to_gregorian().day_of_year, 366);
    let last_plain = Epoch::from_gregorian(2100, 12, 31, 0, 0, 0, 0, TimeScale::Utc);
    // 2100 is not a leap year
    assert_eq!(last_plain.to_gregorian().day_of_year, 365);
}

#[test]
fn gregorian_matches_reference_implementation() {
    // the elapsed-nanosecond count agrees with hifitime's for the same
    // universal-time date
    let ours = Epoch::from_gregorian(2023, 7, 15, 6, 30, 0, 0, TimeScale::Utc);
    let theirs = hifitime::Epoch::from_gregorian_utc(2023, 7, 15, 6, 30, 0, 0);
    let nanos = theirs
        .to_duration_in_time_scale(hifitime::TimeScale::UTC)
        .total_nanoseconds();
    assert_eq!(ours.nanos as i128, nanos);
}

#[test]
fn week_round_trip() {
    let e = Epoch::from_time_of_week(2086, 345_600_000_000_123, TimeScale::Gpst);
    let (week, tow) = e.to_time_of_week();
    assert_eq!(week, 2086);
    assert_eq!(tow, 345_600_000_000_123);
}

#[test]
fn timescale_conversion_matches_reference_implementation() {
    // the conversion relies on hifitime's leap-second tables: converting a
    // GPS-time instant to universal time must match it, and is not the
    // identity
    let e = Epoch::from_time_of_week(2086, 345_600_000_000_000, TimeScale::Gpst);
    let utc = e.to_time_scale(TimeScale::Utc);
    let theirs = hifitime::Epoch::from_time_of_week(2086, 345_600_000_000_000, hifitime::TimeScale::GPST)
        .to_duration_in_time_scale(hifitime::TimeScale::UTC)
        .total_nanoseconds();
    assert_eq!(utc.nanos as i128, theirs);
    assert_ne!(utc.nanos, e.nanos);
}

#[test]
fn same_scale_conversion_is_identity() {
    let e = Epoch::from_time_of_week(2086, 1_000_000_007, TimeScale::Gpst);
    assert_eq!(e.to_time_scale(TimeScale::Gpst), e);
}

#[test]
fn gps_display_convention_matches_reference_implementation() {
    // hifitime displays a GPS-time instant with the whole-second offset of
    // its reference epoch; the calendar here reproduces that
    let e = Epoch { nanos: 0, scale: TimeScale::Gpst };
    let c = e.to_gregorian();
    let (y, m, d, hh, mm, ss, nn) = hifitime::Epoch::from_duration(
        hifitime::Duration::from_total_nanoseconds(0),
        hifitime::TimeScale::GPST,
    )
    .to_gregorian(hifitime::TimeScale::GPST);
    assert_eq!(
        (c.year as i32, c.month, c.day, c.hour, c.minute, c.second, c.nanos),
        (y, m, d, hh, mm, ss, nn)
    );
}

#[test]
fn durations() {
    assert_eq!(Duration::from_seconds(30).nanos, 30_000_000_000);
    assert_eq!(Duration::from_days(1).nanos, 86_400_000_000_000);
    assert_eq!(Duration::zero().nanos, 0);
}
