use ubx2rinex::ephemeris::EphemerisRecord;
use ubx2rinex::messages::Rawxm;
use ubx2rinex::navigation::Collecter as NavCollecter;
use ubx2rinex::observation::Collecter as ObsCollecter;
use ubx2rinex::settings::{HealthMask, Settings};
use ubx2rinex::signal::{Constellation, Sv};
use ubx2rinex::time::{Duration, Epoch, TimeScale};
use ubx2rinex::ubx::UbloxSettings;

fn settings() -> Settings {
    Settings {
        major: 3,
        gzip: false,
        crinex: false,
        name: String::from("UBX"),
        country: String::from("FRA"),
        period: Duration::from_days(1),
        short_filename: true,
        prefix: None,
        agency: Some(String::from("agency")),
        operator: Some(String::from("operator")),
        header_comment: Some(String::from("a comment")),
        timescale: TimeScale::Gpst,
        observables: vec![(Constellation::GPS, vec![String::from("C1C")])],
        nav_period: Duration::from_seconds(7200),
        health_mask: HealthMask::Any,
    }
}

fn ublox() -> UbloxSettings {
    UbloxSettings {
        l1: true,
        l2: false,
        l5: false,
        sampling_period: Duration::from_seconds(1),
        rawxm: true,
        ephemeris: true,
        timescale: TimeScale::Gpst,
        constellations: vec![Constellation::GPS],
        rx_clock: false,
        solutions_ratio: 1,
        sn: None,
        firmware: None,
        model: Some(String::from("M8T")),
        antenna: None,
    }
}

fn gpst(seconds: u64) -> Epoch {
    Epoch { nanos: seconds * 1_000_000_000, scale: TimeScale::Gpst }
}

fn rawxm(seconds: u64, prn: u8) -> Rawxm {
    Rawxm {
        epoch: gpst(seconds),
        sv: Sv::new(Constellation::GPS, prn),
        freq_id: 0,
        pr_bits: (21_000_000.5f64).to_bits(),
        cp_bits: (110_000_000.25f64).to_bits(),
        dop_bits: (1500.0f64).to_bits(),
        cno: 45,
    }
}

fn record() -> EphemerisRecord {
    EphemerisRecord {
        clock_bias_bits: 0,
        clock_drift_bits: 0,
        clock_drift_rate_bits: 0,
        tgd_bits: 0,
        iodc: 0x17,
        toe: 590400,
        m0_bits: 0,
        dn_bits: 0,
        cuc_bits: 0,
        cus_bits: 0,
        crs_bits: 0,
        e_bits: 0,
        sqrt_a_bits: 0,
        cic_bits: 0,
        cis_bits: 0,
        crc_bits: 0,
        i0_bits: 0,
        iode: 0x17,
        idot_bits: 0,
        omega0_bits: 0,
        omega_bits: 0,
        omega_dot_bits: 0,
    }
}

#[test]
fn header_exactly_once_before_data() {
    let mut c = ObsCollecter::new(settings(), ublox());
    let first = c.on_measurement(rawxm(10, 1));
    let header = first.header.expect("first measurement plans the header");
    assert_eq!(header.path, "UBX006.-20O");
    assert_eq!(header.major, 3);
    assert_eq!(header.constellation, Constellation::GPS);
    assert!(header.crinex_major.is_none());
    assert_eq!(header.comments, vec![String::from("a comment")]);
    assert_eq!(header.observer.as_deref(), Some("operator"));
    assert_eq!(header.agency.as_deref(), Some("agency"));
    assert_eq!(header.receiver_model.as_deref(), Some("M8T"));
    assert!(first.flush.is_none());

    let second = c.on_measurement(rawxm(10, 2));
    assert!(second.header.is_none());
    assert!(second.flush.is_none());
}

#[test]
fn flush_before_accept() {
    let mut c = ObsCollecter::new(settings(), ublox());
    assert!(c.on_measurement(rawxm(10, 1)).flush.is_none());
    assert!(c.on_measurement(rawxm(10, 2)).flush.is_none());

    let third = c.on_measurement(rawxm(11, 1));
    let batch = third.flush.expect("a later epoch flushes the buffer");
    assert_eq!(batch.epoch, gpst(10));
    // two buffered measurements, three signals each
    assert_eq!(batch.signals.len(), 6);
    assert_eq!(batch.signals[0].observable, "C1C");
    assert_eq!(batch.signals[1].observable, "L1C");
    assert_eq!(batch.signals[2].observable, "D1C");
    // the code observable carries the pseudorange and the phase observable
    // the carrier phase
    assert_eq!(f64::from_bits(batch.signals[0].value_bits), 21_000_000.5);
    assert_eq!(f64::from_bits(batch.signals[1].value_bits), 110_000_000.25);

    // a stale measurement is dropped, not mixed into the new epoch
    let stale = c.on_measurement(rawxm(9, 3));
    assert!(stale.flush.is_none());
    let done = c.on_shutdown().expect("pending epoch flushed on shutdown");
    assert_eq!(done.epoch, gpst(11));
    assert_eq!(done.signals.len(), 3);
}

#[test]
fn clock_state_joins_the_epoch_flush() {
    let mut c = ObsCollecter::new(settings(), ublox());
    c.on_measurement(rawxm(10, 1));
    c.on_clock((2.5e-4f64).to_bits());
    let out = c.on_measurement(rawxm(12, 1));
    let batch = out.flush.unwrap();
    assert_eq!(batch.clock_bits, Some((2.5e-4f64).to_bits()));
    // the clock state was cleared with the flush
    let end = c.on_shutdown().unwrap();
    assert_eq!(end.clock_bits, None);
}

#[test]
fn legacy_observable_codes() {
    let mut two = settings();
    two.major = 2;
    let mut c = ObsCollecter::new(two, ublox());
    c.on_measurement(rawxm(10, 1));
    let batch = c.on_shutdown().unwrap();
    assert_eq!(batch.signals[0].observable, "C1");
    assert_eq!(batch.signals[1].observable, "L1");
    assert_eq!(batch.signals[2].observable, "D1");
}

#[test]
fn shutdown_with_empty_buffer_flushes_nothing() {
    let mut c = ObsCollecter::new(settings(), ublox());
    assert!(c.on_shutdown().is_none());
}

#[test]
fn navigation_republish_gate() {
    // a navigation period of 2 hours gates republication per satellite
    let mut c = NavCollecter::new(settings(), ublox());
    let sv = Sv::new(Constellation::GPS, 7);

    let first = c.on_ephemeris(gpst(0), sv, record());
    assert!(first.header.is_some());
    assert!(first.publish.is_some(), "first ephemeris of a satellite is published");
    c.on_published(sv, gpst(0));

    let half_hour = c.on_ephemeris(gpst(30 * 60), sv, record());
    assert!(half_hour.header.is_none(), "the header is planned only once");
    assert!(half_hour.publish.is_none(), "within the period nothing is republished");

    let past_period = c.on_ephemeris(gpst(2 * 3600 + 60), sv, record());
    assert!(past_period.publish.is_some(), "past the period the satellite is republished");
    c.on_published(sv, gpst(2 * 3600 + 60));

    // an independent satellite is not gated by the first one
    let other = c.on_ephemeris(gpst(30 * 60), Sv::new(Constellation::GPS, 9), record());
    assert!(other.publish.is_some());
}

#[test]
fn failed_publication_leaves_the_gate_open() {
    // a formatting or write failure is recoverable: the publication is not
    // reported back, so the satellite is retried on its next ephemeris
    let mut c = NavCollecter::new(settings(), ublox());
    let sv = Sv::new(Constellation::GPS, 7);

    let first = c.on_ephemeris(gpst(0), sv, record());
    assert!(first.publish.is_some());
    // the write failed: no on_published call

    let retry = c.on_ephemeris(gpst(30 * 60), sv, record());
    assert!(retry.publish.is_some(), "an unpublished satellite is retried");
    c.on_published(sv, gpst(30 * 60));

    let gated = c.on_ephemeris(gpst(60 * 60), sv, record());
    assert!(gated.publish.is_none(), "once reported, the period gates again");
}

#[test]
fn navigation_epoch_lines() {
    let sv = Sv::new(Constellation::GPS, 7);
    // revision 3: satellite code and four-digit year
    let mut c = NavCollecter::new(settings(), ublox());
    let out = c.on_ephemeris(gpst(0), sv, record());
    assert_eq!(out.publish.unwrap().epoch_line, "G07 1980 01 06 00 00 00");

    // revision 4 prefixes the message-type line
    let mut four = settings();
    four.major = 4;
    let mut c = NavCollecter::new(four, ublox());
    let out = c.on_ephemeris(gpst(0), sv, record());
    assert_eq!(out.publish.unwrap().epoch_line, "> EPH G07 LNAV\nG07 1980 01 06 00 00 00");

    // legacy revision, single constellation: bare satellite number and
    // two-digit year
    let mut two = settings();
    two.major = 2;
    let mut c = NavCollecter::new(two, ublox());
    let out = c.on_ephemeris(gpst(0), sv, record());
    assert_eq!(out.publish.unwrap().epoch_line, "07 -20 01 06 00 00  0.0");
}

#[test]
fn navigation_header_fields() {
    let mut mixed = ublox();
    mixed.constellations = vec![Constellation::GPS, Constellation::Galileo];
    let mut c = NavCollecter::new(settings(), mixed);
    let out = c.on_ephemeris(gpst(0), Sv::new(Constellation::GPS, 1), record());
    let header = out.header.unwrap();
    assert_eq!(header.constellation, Constellation::Mixed);
    assert_eq!(header.path, "UBX006.-20N");
    assert_eq!(header.comments, vec![String::from("a comment")]);
}
