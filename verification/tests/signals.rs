use ubx2rinex::observables::build_observables;
use ubx2rinex::runtime::{RawxMeas, Runtime};
use ubx2rinex::signal::{
    from_constellation, to_constellation, Constellation, SignalCarrier, Sv,
};
use ubx2rinex::time::{Duration, Epoch, TimeScale};
use ubx2rinex::ubx::UbloxSettings;

#[test]
fn constellation_identifiers() {
    assert_eq!(to_constellation(0), Some(Constellation::GPS));
    assert_eq!(to_constellation(1), Some(Constellation::SBAS));
    assert_eq!(to_constellation(2), Some(Constellation::Galileo));
    assert_eq!(to_constellation(3), Some(Constellation::BeiDou));
    assert_eq!(to_constellation(4), None);
    assert_eq!(to_constellation(5), Some(Constellation::QZSS));
    assert_eq!(to_constellation(6), Some(Constellation::Glonass));
    assert_eq!(to_constellation(7), Some(Constellation::IRNSS));
    assert_eq!(to_constellation(8), None);

    assert_eq!(from_constellation(&Constellation::GPS), 0);
    assert_eq!(from_constellation(&Constellation::QZSS), 5);
    assert_eq!(from_constellation(&Constellation::Mixed), 0);
}

#[test]
fn carrier_lookup() {
    assert_eq!(SignalCarrier::from_ubx(0, 3), SignalCarrier::GPS_L2_CL);
    assert_eq!(SignalCarrier::from_ubx(2, 5), SignalCarrier::GAL_E5B_I);
    assert_eq!(SignalCarrier::from_ubx(6, 2), SignalCarrier::GLO_L2_OF);
    // unknown pairs fall back to the primary civil carrier
    assert_eq!(SignalCarrier::from_ubx(0, 0), SignalCarrier::GPS_L1_CA);
    assert_eq!(SignalCarrier::from_ubx(9, 9), SignalCarrier::GPS_L1_CA);
}

#[test]
fn observable_codes() {
    let c = SignalCarrier::GAL_E5B_Q;
    assert_eq!(c.to_pseudo_range_observable(true), "C7");
    assert_eq!(c.to_pseudo_range_observable(false), "C7Q");
    assert_eq!(c.to_phase_range_observable(true), "L7");
    assert_eq!(c.to_phase_range_observable(false), "L7Q");
    assert_eq!(c.to_doppler_observable(true), "D7");
    assert_eq!(c.to_doppler_observable(false), "D7Q");
    assert_eq!(c.to_ssi_observable(false), "S7Q");
    assert_eq!(c.to_ssi_observable(true), "S7");

    let g = SignalCarrier::GPS_L1_CA;
    assert_eq!(g.to_pseudo_range_observable(false), "C1C");
    assert_eq!(g.to_phase_range_observable(false), "L1C");
    assert_eq!(g.to_doppler_observable(false), "D1C");
    assert_eq!(g.to_ssi_observable(false), "S1C");
    assert_eq!(g.to_pseudo_range_observable(true), "C1");
    assert_eq!(g.to_phase_range_observable(true), "L1");
    assert_eq!(g.to_ssi_observable(true), "S1");
}

#[test]
fn satellite_codes() {
    assert_eq!(Sv::new(Constellation::GPS, 7).code(), "G07");
    assert_eq!(Sv::new(Constellation::Glonass, 24).code(), "R24");
    assert_eq!(Sv::new(Constellation::QZSS, 1).code(), "J01");
}

fn ublox(constellations: Vec<Constellation>) -> UbloxSettings {
    UbloxSettings {
        l1: true,
        l2: false,
        l5: false,
        sampling_period: Duration::from_seconds(1),
        rawxm: true,
        ephemeris: true,
        timescale: TimeScale::Gpst,
        constellations,
        rx_clock: false,
        solutions_ratio: 1,
        sn: None,
        firmware: None,
        model: None,
        antenna: None,
    }
}

fn meas(gnss_id: u8, sv_id: u8) -> RawxMeas {
    RawxMeas {
        pr_bits: (20_000_000.0f64).to_bits(),
        cp_bits: (105_000_000.0f64).to_bits(),
        dop_bits: (-1234.5f64).to_bits(),
        gnss_id,
        sv_id,
        freq_id: 0,
        cno: 40,
    }
}

#[test]
fn extraction_filters_and_normalizes() {
    let mut rt = Runtime::new();
    let ubx = ublox(vec![Constellation::GPS, Constellation::SBAS]);
    let entries = vec![
        meas(0, 12),   // GPS, selected
        meas(2, 5),    // Galileo, not selected: dropped
        meas(4, 1),    // unrecognized identifier: dropped
        meas(1, 123),  // SBAS, number shifted back by the broadcast offset
    ];
    let out = rt.handle_rawx(2086, 345_600_000_000_000, &entries, &ubx);
    assert_eq!(out.len(), 2);
    assert_eq!(out[0].sv, Sv::new(Constellation::GPS, 12));
    assert_eq!(out[1].sv, Sv::new(Constellation::SBAS, 23));
    assert_eq!(f64::from_bits(out[0].pr_bits), 20_000_000.0);

    // the measurement instants are in the configured scale, and the runtime
    // latched the epoch
    assert_eq!(out[0].epoch.scale, TimeScale::Gpst);
    assert_eq!(out[0].epoch.nanos, 2086 * 604_800_000_000_000 + 345_600_000_000_000);
    assert_eq!(rt.epoch(), out[0].epoch);
}

#[test]
fn extraction_in_utc_output_scale() {
    let mut rt = Runtime::new();
    let mut ubx = ublox(vec![Constellation::GPS]);
    ubx.timescale = TimeScale::Utc;
    let out = rt.handle_rawx(2086, 0, &vec![meas(0, 1)], &ubx);
    let expected = hifitime::Epoch::from_time_of_week(2086, 0, hifitime::TimeScale::GPST)
        .to_duration_in_time_scale(hifitime::TimeScale::UTC)
        .total_nanoseconds();
    assert_eq!(out[0].epoch.scale, TimeScale::Utc);
    assert_eq!(out[0].epoch.nanos as i128, expected);
}

#[test]
fn week_accessors() {
    let mut rt = Runtime::new();
    let ubx = ublox(vec![Constellation::GPS]);
    rt.handle_rawx(2086, 1_000_000_000, &Vec::new(), &ubx);
    assert_eq!(rt.gpst_week(), 2086);
    assert_eq!(rt.current_week(TimeScale::Gpst), 2086);
    assert_eq!(rt.current_epoch(TimeScale::Gpst).nanos, 2086 * 604_800_000_000_000 + 1_000_000_000);
    assert_eq!(rt.utc_time().scale, TimeScale::Utc);
}

#[test]
fn fresh_runtime_reports_the_reference_instant() {
    let rt = Runtime::new();
    let e = rt.epoch();
    assert_eq!(e.nanos, 0);
    assert_eq!(e.scale, TimeScale::Utc);
}

#[test]
fn signal_plan_follows_the_selection() {
    let ubx = ublox(vec![Constellation::QZSS, Constellation::BeiDou]);
    let plan = ubx.signal_plan();
    assert!(plan.gps, "the GPS group also serves QZSS");
    assert!(plan.qzss);
    assert!(plan.beidou);
    assert!(!plan.galileo);
    assert!(!plan.glonass);

    let none = ublox(vec![Constellation::Galileo]);
    let plan = none.signal_plan();
    assert!(!plan.gps);
    assert!(plan.galileo);
}

#[test]
fn measure_rate_truncates_to_the_field() {
    let mut ubx = ublox(vec![Constellation::GPS]);
    ubx.sampling_period = Duration::from_seconds(1);
    assert_eq!(ubx.measure_rate_ms(), 1000);
    ubx.sampling_period = Duration { nanos: 50_000_000 };
    assert_eq!(ubx.measure_rate_ms(), 50);
}

#[test]
fn active_observable_set_is_built_once() {
    // first band only, all measurement kinds
    let set = build_observables(
        &vec![Constellation::GPS, Constellation::Galileo],
        true,
        false,
        false,
        false,
        false,
        false,
        false,
    );
    assert_eq!(set.len(), 2);
    assert_eq!(set[0].0, Constellation::GPS);
    assert_eq!(set[0].1, vec!["L1C", "C1C", "D1C"]);
    assert_eq!(set[1].0, Constellation::Galileo);
    assert_eq!(set[1].1, vec!["L1C", "L1B", "C1C", "C1B", "D1C", "D1B"]);

    // the phase filter drops the phase codes centrally
    let set = build_observables(
        &vec![Constellation::GPS],
        true,
        false,
        false,
        false,
        true,
        false,
        false,
    );
    assert_eq!(set[0].1, vec!["C1C", "D1C"]);

    // a selected constellation without carriers on the tracked bands
    // contributes no entry
    let set = build_observables(
        &vec![Constellation::IRNSS],
        true,
        true,
        false,
        false,
        false,
        false,
        false,
    );
    assert!(set.is_empty());

    // the legacy grammar uses the two-character codes
    let set = build_observables(
        &vec![Constellation::GPS],
        true,
        false,
        true,
        true,
        false,
        false,
        false,
    );
    assert_eq!(set[0].1, vec!["L1", "C1", "D1", "L5", "L5", "C5", "C5", "D5", "D5"]);
}
