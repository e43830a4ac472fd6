//! Assembly of broadcast ephemeris sub-frames into complete records.
//!
//! A satellite broadcasts its ephemeris in three sub-frames.  Each is stored
//! as it arrives, the newest value winning its slot; a record is complete
//! only when all three slots are filled and their issue-of-data identifiers
//! agree, which guards against mixing sub-frames of two successive parameter
//! sets.  Real-valued orbital terms pass through this assembly untouched and
//! are carried as their 64-bit encodings.

use vstd::prelude::*;

use crate::time::{Epoch, TimeScale, NANOS_PER_WEEK};

verus! {

/// Clock, health and issue-of-data terms of the first sub-frame.
#[derive(Debug, Clone, Copy, PartialEq, Eq, Structural)]
pub struct GpsQzssFrame1 {
    /// 10-bit week counter, without rollover compensation.
    pub week: u16,
    pub ca_or_p_l2: u8,
    pub ura: u8,
    /// 6-bit satellite health; zero means healthy.
    pub health: u8,
    /// 10-bit issue of data, clock.
    pub iodc: u16,
    /// Time of clock, in seconds of week.
    pub toc: u32,
    /// Group delay, as encoded 64-bit real.
    pub tgd_bits: u64,
    /// Clock drift rate, as encoded 64-bit real.
    pub af2_bits: u64,
    /// Clock drift, as encoded 64-bit real.
    pub af1_bits: u64,
    /// Clock bias, as encoded 64-bit real.
    pub af0_bits: u64,
}

/// First set of orbital terms, in the second sub-frame.
#[derive(Debug, Clone, Copy, PartialEq, Eq, Structural)]
pub struct GpsQzssFrame2 {
    /// Time of issue of ephemeris, in seconds of week.
    pub toe: u32,
    /// Issue of data, ephemeris.
    pub iode: u8,
    /// Mean anomaly at reference time, as encoded 64-bit real.
    pub m0_bits: u64,
    /// Mean motion difference, as encoded 64-bit real.
    pub dn_bits: u64,
    /// Latitude cosine harmonic correction, as encoded 64-bit real.
    pub cuc_bits: u64,
    /// Latitude sine harmonic correction, as encoded 64-bit real.
    pub cus_bits: u64,
    /// Radius sine harmonic correction, as encoded 64-bit real.
    pub crs_bits: u64,
    /// Eccentricity, as encoded 64-bit real.
    pub e_bits: u64,
    /// Square root of the semi-major axis, as encoded 64-bit real.
    pub sqrt_a_bits: u64,
    pub fit_int_flag: bool,
    pub aodo: u8,
}

/// Second set of orbital terms, in the third sub-frame.
#[derive(Debug, Clone, Copy, PartialEq, Eq, Structural)]
pub struct GpsQzssFrame3 {
    /// Inclination cosine harmonic correction, as encoded 64-bit real.
    pub cic_bits: u64,
    /// Inclination sine harmonic correction, as encoded 64-bit real.
    pub cis_bits: u64,
    /// Radius cosine harmonic correction, as encoded 64-bit real.
    pub crc_bits: u64,
    /// Inclination at reference time, as encoded 64-bit real.
    pub i0_bits: u64,
    /// Issue of data, ephemeris.
    pub iode: u8,
    /// Inclination rate, as encoded 64-bit real.
    pub idot_bits: u64,
    /// Longitude of ascending node, as encoded 64-bit real.
    pub omega0_bits: u64,
    /// Argument of perigee, as encoded 64-bit real.
    pub omega_bits: u64,
    /// Rate of the ascending node's longitude, as encoded 64-bit real.
    pub omega_dot_bits: u64,
}

/// The handover word shared by the sub-frames of one transmission.
#[derive(Debug, Clone, Copy, PartialEq, Eq, Structural)]
pub struct GpsQzssHow {
    /// Time of week, in seconds.
    pub tow: u32,
}

/// One received sub-frame.
#[derive(Debug, Clone, Copy, PartialEq, Eq, Structural)]
pub enum GpsQzssSubframe {
    Ephemeris1(GpsQzssFrame1),
    Ephemeris2(GpsQzssFrame2),
    Ephemeris3(GpsQzssFrame3),
}

/// A decoded navigation frame: handover word plus one sub-frame.
#[derive(Debug, Clone, Copy, PartialEq, Eq, Structural)]
pub struct GpsQzssFrame {
    pub how: GpsQzssHow,
    pub subframe: GpsQzssSubframe,
}

/// An interpreted navigation sub-frame message, by constellation family.
#[derive(Debug, Clone, Copy, PartialEq, Eq, Structural)]
pub enum SfrbxInterpreted {
    GpsQzss(GpsQzssFrame),
}

/// A complete, cross-checked set of the three sub-frames.
#[derive(Debug, Clone, Copy, PartialEq, Eq, Structural)]
pub struct GpsQzssEphemeris {
    pub how: GpsQzssHow,
    pub frame1: GpsQzssFrame1,
    pub frame2: GpsQzssFrame2,
    pub frame3: GpsQzssFrame3,
}

/// Per-satellite accumulator of the three sub-frame slots.
#[derive(Debug, Clone, Copy, PartialEq, Eq, Structural)]
pub struct PendingGpsQzssFrame {
    pub how: GpsQzssHow,
    pub frame1: Option<GpsQzssFrame1>,
    pub frame2: Option<GpsQzssFrame2>,
    pub frame3: Option<GpsQzssFrame3>,
}

/// All three slots are filled and their issue-of-data identifiers agree:
/// both ephemeris sub-frames carry the same issue of data, and it equals the
/// low byte of the clock sub-frame's issue of data, clock.
pub open spec fn spec_pending_complete(p: PendingGpsQzssFrame) -> bool {
    &&& p.frame1 is Some
    &&& p.frame2 is Some
    &&& p.frame3 is Some
    &&& p.frame2->0.iode == p.frame3->0.iode
    &&& p.frame1->0.iodc % 256 == p.frame2->0.iode
}


/// The accumulator that a first received frame starts: its sub-frame fills
/// the matching slot, the other two stay empty.
pub open spec fn spec_frame_new(frame: GpsQzssFrame) -> PendingGpsQzssFrame {
    match frame.subframe {
        GpsQzssSubframe::Ephemeris1(f) => PendingGpsQzssFrame {
            how: frame.how,
            frame1: Some(f),
            frame2: None,
            frame3: None,
        },
        GpsQzssSubframe::Ephemeris2(f) => PendingGpsQzssFrame {
            how: frame.how,
            frame1: None,
            frame2: Some(f),
            frame3: None,
        },
        GpsQzssSubframe::Ephemeris3(f) => PendingGpsQzssFrame {
            how: frame.how,
            frame1: None,
            frame2: None,
            frame3: Some(f),
        },
    }
}

/// The accumulator after storing a frame: the newest value wins its slot,
/// the other slots are kept, the handover word is refreshed.
pub open spec fn spec_frame_update(p: PendingGpsQzssFrame, frame: GpsQzssFrame) -> PendingGpsQzssFrame {
    match frame.subframe {
        GpsQzssSubframe::Ephemeris1(f) => PendingGpsQzssFrame { how: frame.how, frame1: Some(f), ..p },
        GpsQzssSubframe::Ephemeris2(f) => PendingGpsQzssFrame { how: frame.how, frame2: Some(f), ..p },
        GpsQzssSubframe::Ephemeris3(f) => PendingGpsQzssFrame { how: frame.how, frame3: Some(f), ..p },
    }
}

/// The per-family accumulator after storing an interpreted message.
pub open spec fn spec_pending_update(p: PendingFrame, interpretation: SfrbxInterpreted) -> PendingFrame {
    match (p, interpretation) {
        (PendingFrame::GpsQzss(q), SfrbxInterpreted::GpsQzss(f)) => PendingFrame::GpsQzss(
            spec_frame_update(q, f),
        ),
    }
}

/// The ephemeris a per-family accumulator validates to, when complete.
pub open spec fn spec_validated(p: PendingFrame) -> Option<Ephemeris> {
    match p {
        PendingFrame::GpsQzss(q) => if spec_pending_complete(q) {
            Some(
                Ephemeris::GpsQzss(
                    GpsQzssEphemeris {
                        how: q.how,
                        frame1: q.frame1->0,
                        frame2: q.frame2->0,
                        frame3: q.frame3->0,
                    },
                ),
            )
        } else {
            None
        },
    }
}

impl PendingGpsQzssFrame {
    /// Starts an accumulator from the first received frame: its sub-frame
    /// fills the matching slot, the other two stay empty.
    pub fn new(frame: GpsQzssFrame) -> (r: PendingGpsQzssFrame)
        ensures
            r == spec_frame_new(frame),
    {
        match frame.subframe {
            GpsQzssSubframe::Ephemeris1(eph1) => PendingGpsQzssFrame {
                how: frame.how,
                frame2: None,
                frame3: None,
                frame1: Some(eph1),
            },
            GpsQzssSubframe::Ephemeris2(eph2) => PendingGpsQzssFrame {
                how: frame.how,
                frame3: None,
                frame1: None,
                frame2: Some(eph2),
            },
            GpsQzssSubframe::Ephemeris3(eph3) => PendingGpsQzssFrame {
                how: frame.how,
                frame2: None,
                frame1: None,
                frame3: Some(eph3),
            },
        }
    }

    /// Stores a received sub-frame: the newest value always wins its slot,
    /// the other slots are kept, and the handover word is refreshed.
    pub fn update(&mut self, frame: GpsQzssFrame)
        ensures
            *final(self) == spec_frame_update(*old(self), frame),
    {
        self.how = frame.how;
        match frame.subframe {
            GpsQzssSubframe::Ephemeris1(subframe) => {
                self.frame1 = Some(subframe);
            },
            GpsQzssSubframe::Ephemeris2(subframe) => {
                self.frame2 = Some(subframe);
            },
            GpsQzssSubframe::Ephemeris3(subframe) => {
                self.frame3 = Some(subframe);
            },
        }
    }

    /// Yields the completed ephemeris exactly when all three slots are
    /// filled and the issue-of-data cross-check passes; the slots are kept
    /// as they are.  An incomplete set is the normal state, not an error.
    pub fn validate(&self) -> (r: Option<GpsQzssEphemeris>)
        ensures
            r is Some <==> spec_pending_complete(*self),
            r is Some ==> r->0 == (GpsQzssEphemeris {
                how: self.how,
                frame1: self.frame1->0,
                frame2: self.frame2->0,
                frame3: self.frame3->0,
            }),
    {
        let frame1 = match self.frame1 {
            Some(f) => f,
            None => { return None },
        };
        let frame2 = match self.frame2 {
            Some(f) => f,
            None => { return None },
        };
        let frame3 = match self.frame3 {
            Some(f) => f,
            None => { return None },
        };
        if frame2.iode == frame3.iode {
            if (frame1.iodc % 256) as u8 == frame2.iode {
                return Some(GpsQzssEphemeris { how: self.how, frame1, frame2, frame3 });
            }
        }
        None
    }
}

/// An ephemeris record laid out as the exchange format names its
/// clock and orbital parameters.
#[derive(Debug, Clone, Copy, PartialEq, Eq, Structural)]
pub struct EphemerisRecord {
    pub clock_bias_bits: u64,
    pub clock_drift_bits: u64,
    pub clock_drift_rate_bits: u64,
    pub tgd_bits: u64,
    pub iodc: u16,
    pub toe: u32,
    pub m0_bits: u64,
    pub dn_bits: u64,
    pub cuc_bits: u64,
    pub cus_bits: u64,
    pub crs_bits: u64,
    pub e_bits: u64,
    pub sqrt_a_bits: u64,
    pub cic_bits: u64,
    pub cis_bits: u64,
    pub crc_bits: u64,
    pub i0_bits: u64,
    pub iode: u8,
    pub idot_bits: u64,
    pub omega0_bits: u64,
    pub omega_bits: u64,
    pub omega_dot_bits: u64,
}

/// The record that a completed sub-frame set maps to.
pub open spec fn spec_record_of(e: GpsQzssEphemeris) -> EphemerisRecord {
    EphemerisRecord {
        clock_bias_bits: e.frame1.af0_bits,
        clock_drift_bits: e.frame1.af1_bits,
        clock_drift_rate_bits: e.frame1.af2_bits,
        tgd_bits: e.frame1.tgd_bits,
        iodc: e.frame1.iodc,
        toe: e.frame2.toe,
        m0_bits: e.frame2.m0_bits,
        dn_bits: e.frame2.dn_bits,
        cuc_bits: e.frame2.cuc_bits,
        cus_bits: e.frame2.cus_bits,
        crs_bits: e.frame2.crs_bits,
        e_bits: e.frame2.e_bits,
        sqrt_a_bits: e.frame2.sqrt_a_bits,
        cic_bits: e.frame3.cic_bits,
        cis_bits: e.frame3.cis_bits,
        crc_bits: e.frame3.crc_bits,
        i0_bits: e.frame3.i0_bits,
        iode: e.frame3.iode,
        idot_bits: e.frame3.idot_bits,
        omega0_bits: e.frame3.omega0_bits,
        omega_bits: e.frame3.omega_bits,
        omega_dot_bits: e.frame3.omega_dot_bits,
    }
}

/// Time of clock of a completed set: the broadcast week number paired with
/// the clock sub-frame's time-of-clock field, in the broadcast time scale,
/// saturating at the largest representable instant.
pub open spec fn spec_toc_nanos(e: GpsQzssEphemeris) -> int {
    let exact = e.frame1.week * NANOS_PER_WEEK + e.frame1.toc;
    if exact <= u64::MAX {
        exact
    } else {
        u64::MAX as int
    }
}

impl GpsQzssEphemeris {
    /// Converts this completed set to its time of clock and its record in
    /// the exchange format's parameter layout.
    pub fn to_rinex(&self) -> (r: (Epoch, EphemerisRecord))
        ensures
            r.0.scale == TimeScale::Gpst,
            r.0.nanos == spec_toc_nanos(*self),
            r.1 == spec_record_of(*self),
    {
        proof {
            assert(self.frame1.week * NANOS_PER_WEEK <= 65535 * 604_800_000_000_000);
        }
        let total: u128 = (self.frame1.week as u128) * (NANOS_PER_WEEK as u128)
            + self.frame1.toc as u128;
        let nanos: u64 = if total <= u64::MAX as u128 {
            total as u64
        } else {
            u64::MAX
        };
        let toc = Epoch { nanos, scale: TimeScale::Gpst };
        (
            toc,
            EphemerisRecord {
                clock_bias_bits: self.frame1.af0_bits,
                clock_drift_bits: self.frame1.af1_bits,
                clock_drift_rate_bits: self.frame1.af2_bits,
                tgd_bits: self.frame1.tgd_bits,
                iodc: self.frame1.iodc,
                toe: self.frame2.toe,
                m0_bits: self.frame2.m0_bits,
                dn_bits: self.frame2.dn_bits,
                cuc_bits: self.frame2.cuc_bits,
                cus_bits: self.frame2.cus_bits,
                crs_bits: self.frame2.crs_bits,
                e_bits: self.frame2.e_bits,
                sqrt_a_bits: self.frame2.sqrt_a_bits,
                cic_bits: self.frame3.cic_bits,
                cis_bits: self.frame3.cis_bits,
                crc_bits: self.frame3.crc_bits,
                i0_bits: self.frame3.i0_bits,
                iode: self.frame3.iode,
                idot_bits: self.frame3.idot_bits,
                omega0_bits: self.frame3.omega0_bits,
                omega_bits: self.frame3.omega_bits,
                omega_dot_bits: self.frame3.omega_dot_bits,
            },
        )
    }
}

/// A completed ephemeris, by constellation family.
#[derive(Debug, Clone, Copy, PartialEq, Eq, Structural)]
pub enum Ephemeris {
    GpsQzss(GpsQzssEphemeris),
}

impl Ephemeris {
    /// Converts this completed ephemeris to its time of clock and record.
    pub fn to_rinex(&self) -> (r: (Epoch, EphemerisRecord))
        ensures
            (*self) matches Ephemeris::GpsQzss(e) ==> r.0.scale == TimeScale::Gpst && r.0.nanos
                == spec_toc_nanos(e) && r.1 == spec_record_of(e),
    {
        match self {
            Ephemeris::GpsQzss(ephemeris) => ephemeris.to_rinex(),
        }
    }
}

/// A per-satellite accumulator, by constellation family.
#[derive(Debug, Clone, Copy, PartialEq, Eq, Structural)]
pub enum PendingFrame {
    GpsQzss(PendingGpsQzssFrame),
}

impl PendingFrame {
    /// Yields the completed ephemeris exactly when the accumulator's
    /// cross-check passes.
    pub fn validate(&self) -> (r: Option<Ephemeris>)
        ensures
            r == spec_validated(*self),
    {
        match self {
            PendingFrame::GpsQzss(pending) => {
                match pending.validate() {
                    Some(validated) => Some(Ephemeris::GpsQzss(validated)),
                    None => None,
                }
            },
        }
    }

    /// Stores an interpreted sub-frame of the matching family.
    pub fn update(&mut self, interpretation: SfrbxInterpreted)
        ensures
            *final(self) == spec_pending_update(*old(self), interpretation),
    {
        match (self, interpretation) {
            (PendingFrame::GpsQzss(pending), SfrbxInterpreted::GpsQzss(frame)) => pending.update(
                frame,
            ),
        }
    }
}

} // verus!
