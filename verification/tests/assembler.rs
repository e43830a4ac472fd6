use ubx2rinex::ephemeris::{
    GpsQzssFrame, GpsQzssFrame1, GpsQzssFrame2, GpsQzssFrame3, GpsQzssHow, GpsQzssSubframe,
    PendingGpsQzssFrame, SfrbxInterpreted,
};
use ubx2rinex::messages::{mon_ver_messages, Message};
use ubx2rinex::runtime::Runtime;
use ubx2rinex::signal::{Constellation, Sv};
use ubx2rinex::time::TimeScale;

fn frame1(iodc: u16) -> GpsQzssFrame1 {
    GpsQzssFrame1 {
        week: 2086,
        ca_or_p_l2: 0,
        ura: 0,
        health: 0,
        iodc,
        toc: 590400,
        tgd_bits: (1.2e-8f64).to_bits(),
        af2_bits: 0,
        af1_bits: (2.0e-12f64).to_bits(),
        af0_bits: (4.5e-4f64).to_bits(),
    }
}

fn frame2(iode: u8) -> GpsQzssFrame2 {
    GpsQzssFrame2 {
        toe: 590400,
        iode,
        m0_bits: (0.5f64).to_bits(),
        dn_bits: (4.0e-9f64).to_bits(),
        cuc_bits: 0,
        cus_bits: 0,
        crs_bits: 0,
        e_bits: (0.01f64).to_bits(),
        sqrt_a_bits: (5153.6f64).to_bits(),
        fit_int_flag: false,
        aodo: 0,
    }
}

fn frame3(iode: u8) -> GpsQzssFrame3 {
    GpsQzssFrame3 {
        cic_bits: 0,
        cis_bits: 0,
        crc_bits: 0,
        i0_bits: (0.3f64).to_bits(),
        iode,
        idot_bits: 0,
        omega0_bits: (1.0f64).to_bits(),
        omega_bits: (2.0f64).to_bits(),
        omega_dot_bits: 0,
    }
}

fn wrap(subframe: GpsQzssSubframe) -> GpsQzssFrame {
    GpsQzssFrame { how: GpsQzssHow { tow: 123456 }, subframe }
}

#[test]
fn incomplete_set_never_validates() {
    // frame1 + frame2 alone never produce a validated ephemeris
    let mut pending = PendingGpsQzssFrame::new(wrap(GpsQzssSubframe::Ephemeris1(frame1(0x17))));
    pending.update(wrap(GpsQzssSubframe::Ephemeris2(frame2(0x17))));
    assert!(pending.validate().is_none());
}

#[test]
fn matching_third_frame_completes_the_set() {
    // iodc low byte 0x17 matches both issue-of-data values
    let mut pending = PendingGpsQzssFrame::new(wrap(GpsQzssSubframe::Ephemeris1(frame1(0x17))));
    pending.update(wrap(GpsQzssSubframe::Ephemeris2(frame2(0x17))));
    pending.update(wrap(GpsQzssSubframe::Ephemeris3(frame3(0x17))));
    let eph = pending.validate().expect("complete, consistent set");
    assert_eq!(eph.frame1.iodc, 0x17);
    assert_eq!(eph.frame2.iode, 0x17);
    assert_eq!(eph.frame3.iode, 0x17);

    // the slots are kept: validation is repeatable
    assert!(pending.validate().is_some());
}

#[test]
fn mismatched_issue_of_data_does_not_validate() {
    let mut pending = PendingGpsQzssFrame::new(wrap(GpsQzssSubframe::Ephemeris1(frame1(0x17))));
    pending.update(wrap(GpsQzssSubframe::Ephemeris2(frame2(0x17))));
    pending.update(wrap(GpsQzssSubframe::Ephemeris3(frame3(0x18))));
    assert!(pending.validate().is_none());
}

#[test]
fn clock_iodc_low_byte_must_match() {
    // frame2 and frame3 agree with each other but not with frame1's low byte
    let mut pending = PendingGpsQzssFrame::new(wrap(GpsQzssSubframe::Ephemeris1(frame1(0x20))));
    pending.update(wrap(GpsQzssSubframe::Ephemeris2(frame2(0x21))));
    pending.update(wrap(GpsQzssSubframe::Ephemeris3(frame3(0x21))));
    assert!(pending.validate().is_none());

    // the iodc cross-check uses only the low byte
    let mut pending = PendingGpsQzssFrame::new(
        wrap(GpsQzssSubframe::Ephemeris1(frame1(0x117))),
    );
    pending.update(wrap(GpsQzssSubframe::Ephemeris2(frame2(0x17))));
    pending.update(wrap(GpsQzssSubframe::Ephemeris3(frame3(0x17))));
    assert!(pending.validate().is_some());
}

#[test]
fn last_writer_wins_per_slot() {
    let mut pending = PendingGpsQzssFrame::new(wrap(GpsQzssSubframe::Ephemeris1(frame1(0x17))));
    pending.update(wrap(GpsQzssSubframe::Ephemeris2(frame2(0x30))));
    pending.update(wrap(GpsQzssSubframe::Ephemeris3(frame3(0x17))));
    assert!(pending.validate().is_none());
    // a rolling update replaces the stale second sub-frame
    pending.update(wrap(GpsQzssSubframe::Ephemeris2(frame2(0x17))));
    assert!(pending.validate().is_some());
}

#[test]
fn record_carries_the_orbital_terms() {
    let mut pending = PendingGpsQzssFrame::new(wrap(GpsQzssSubframe::Ephemeris1(frame1(0x17))));
    pending.update(wrap(GpsQzssSubframe::Ephemeris2(frame2(0x17))));
    pending.update(wrap(GpsQzssSubframe::Ephemeris3(frame3(0x17))));
    let eph = pending.validate().unwrap();
    let (toc, record) = eph.to_rinex();
    assert_eq!(toc.scale, TimeScale::Gpst);
    // the time-of-clock field is paired with the week counter exactly as
    // the receiver broadcast them
    assert_eq!(toc.nanos, 2086u64 * 604_800_000_000_000 + 590_400);
    assert_eq!(f64::from_bits(record.clock_bias_bits), 4.5e-4);
    assert_eq!(f64::from_bits(record.sqrt_a_bits), 5153.6);
    assert_eq!(record.iodc, 0x17);
    assert_eq!(record.iode, 0x17);
    assert_eq!(record.toe, 590400);
}

#[test]
fn runtime_latches_and_sweeps() {
    let mut rt = Runtime::new();
    let sv = Sv::new(Constellation::GPS, 3);
    rt.latch_sfrbx(sv, SfrbxInterpreted::GpsQzss(wrap(GpsQzssSubframe::Ephemeris1(frame1(0x17)))));
    rt.latch_sfrbx(sv, SfrbxInterpreted::GpsQzss(wrap(GpsQzssSubframe::Ephemeris2(frame2(0x17)))));
    assert_eq!(rt.ready_ephemerides().len(), 0);
    rt.latch_sfrbx(sv, SfrbxInterpreted::GpsQzss(wrap(GpsQzssSubframe::Ephemeris3(frame3(0x17)))));
    let ready = rt.ready_ephemerides();
    assert_eq!(ready.len(), 1);
    assert_eq!(ready[0].0, sv);

    // a constellation without sub-frame support is not tracked
    let glo = Sv::new(Constellation::Glonass, 1);
    rt.latch_sfrbx(glo, SfrbxInterpreted::GpsQzss(wrap(GpsQzssSubframe::Ephemeris1(frame1(0)))));
    assert_eq!(rt.ready_ephemerides().len(), 1);
}

#[test]
fn firmware_report_messages() {
    let msgs = mon_ver_messages(String::from("EXT CORE 3.01"), "00080000", "PROTVER=18");
    assert_eq!(msgs.len(), 3);
    assert!(matches!(&msgs[0], Message::FirmwareVersion(v) if v == "EXT CORE 3.01"));
    assert!(matches!(&msgs[1], Message::HeaderComment(c) if c == "UBlox hardware version: 00080000"));
    assert!(matches!(&msgs[2], Message::HeaderComment(c) if c == "UBlox protocol: PROTVER=18"));
}
