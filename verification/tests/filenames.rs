use ubx2rinex::settings::{HealthMask, Settings};
use ubx2rinex::time::{Duration, Epoch, TimeScale};

fn base_settings(short: bool) -> Settings {
    Settings {
        major: 3,
        agency: None,
        operator: None,
        gzip: false,
        crinex: false,
        prefix: None,
        timescale: TimeScale::Gpst,
        short_filename: short,
        name: String::from("UBX"),
        country: String::from("FRA"),
        period: Duration::from_days(1),
        observables: Vec::new(),
        header_comment: None,
        nav_period: Duration::from_seconds(7200),
        health_mask: HealthMask::Any,
    }
}

fn t0() -> Epoch {
    // 2020-01-01T00:00:00 UTC
    Epoch::from_gregorian(2020, 1, 1, 0, 0, 0, 0, TimeScale::Utc)
}

#[test]
fn test_v2_filename() {
    let mut settings = base_settings(true);

    assert_eq!(settings.filename(false, t0()), "UBX001.20O");

    settings.crinex = true;
    assert_eq!(settings.filename(false, t0()), "UBX001.20D");

    settings.gzip = true;
    assert_eq!(settings.filename(false, t0()), "UBX001.20D.gz");
}

#[test]
fn test_v3_filename() {
    let mut settings = base_settings(false);

    assert_eq!(settings.filename(false, t0()), "UBXFRA_R_20200010000_01D_30S_MO.rnx");

    settings.crinex = true;
    assert_eq!(settings.filename(false, t0()), "UBXFRA_R_20200010000_01D_30S_MO.crx");

    settings.gzip = true;
    assert_eq!(settings.filename(false, t0()), "UBXFRA_R_20200010000_01D_30S_MO.crx.gz");
}

#[test]
fn nav_filenames() {
    let mut settings = base_settings(true);
    assert_eq!(settings.filename(true, t0()), "UBX001.20N");
    settings.gzip = true;
    assert_eq!(settings.filename(true, t0()), "UBX001.20N.gz");

    let long = base_settings(false);
    assert_eq!(long.filename(true, t0()), "UBXFRA_R_20200010000_01D_30S_MN.rnx");
}

#[test]
fn filename_is_idempotent() {
    let settings = base_settings(false);
    let first = settings.filename(false, t0());
    let second = settings.filename(false, t0());
    assert_eq!(first, second);
}

#[test]
fn filename_prefix_and_gpst_epoch() {
    let mut settings = base_settings(true);
    settings.prefix = Some(String::from("out"));
    // the same instant handed in GPS time must give the same name
    let t_gpst = t0().to_time_scale(TimeScale::Gpst);
    assert_eq!(settings.filename(false, t_gpst), "out/UBX001.20O");
}

#[test]
fn period_tags() {
    let mut settings = base_settings(false);
    settings.period = Duration::from_seconds(3600);
    assert_eq!(settings.filename(false, t0()), "UBXFRA_R_20200010000_01H_30S_MO.rnx");
    settings.period = Duration::from_seconds(900);
    assert_eq!(settings.filename(false, t0()), "UBXFRA_R_20200010000_15M_30S_MO.rnx");
    settings.period = Duration::from_seconds(60);
    assert_eq!(settings.filename(false, t0()), "UBXFRA_R_20200010000_00U_30S_MO.rnx");
    settings.period = Duration::from_days(366);
    assert_eq!(settings.filename(false, t0()), "UBXFRA_R_20200010000_O1Y_30S_MO.rnx");
}

#[test]
fn short_year_before_2000() {
    // day 32 of 1999, uncompressed observation
    let t = Epoch::from_gregorian(1999, 2, 1, 0, 0, 0, 0, TimeScale::Utc);
    let settings = base_settings(true);
    assert_eq!(settings.filename(false, t), "UBX032.-1O");
}
