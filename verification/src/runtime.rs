//! Run-time state of the decode loop: the current epoch and the pending
//! ephemeris accumulators, one per satellite, plus the extraction of
//! normalized measurements from a raw-measurement packet.

use vstd::prelude::*;

use crate::ephemeris::{
    spec_frame_new, spec_pending_update, spec_validated, Ephemeris, PendingFrame,
    PendingGpsQzssFrame, SfrbxInterpreted,
};
use crate::messages::Rawxm;
use crate::signal::{spec_constellation_of, to_constellation, Constellation, Sv};
use crate::table::{
    find_key, lemma_lookup_none, lemma_lookup_push, lemma_lookup_update, spec_lookup,
    spec_unique_keys,
};
use crate::time::{scale_id, to_scale_of, Duration, Epoch, TimeScale, NANOS_PER_WEEK};
use crate::ubx::UbloxSettings;

verus! {

/// Satellite numbers of the augmentation service are broadcast with this
/// offset on their assigned range.
pub const SBAS_PRN_OFFSET: u8 = 100;

/// One raw entry of a measurement packet, as plain values; real values are
/// carried as their 64-bit encodings.
#[derive(Debug, Clone, Copy, PartialEq, Eq, Structural)]
pub struct RawxMeas {
    /// Pseudorange, as encoded 64-bit real.
    pub pr_bits: u64,
    /// Carrier phase, as encoded 64-bit real.
    pub cp_bits: u64,
    /// Doppler, as encoded 64-bit real.
    pub dop_bits: u64,
    /// Receiver constellation identifier.
    pub gnss_id: u8,
    /// Satellite number as broadcast.
    pub sv_id: u8,
    /// Receiver channel.
    pub freq_id: u8,
    /// Carrier-to-noise ratio.
    pub cno: u8,
}

/// The satellite identity of a raw entry: the broadcast number, shifted
/// back to its assigned range for the augmentation service.
pub open spec fn spec_sv_of(c: Constellation, sv_id: u8) -> Sv {
    Sv {
        constellation: c,
        prn: if c == Constellation::SBAS && sv_id >= SBAS_PRN_OFFSET {
            (sv_id - SBAS_PRN_OFFSET) as u8
        } else {
            sv_id
        },
    }
}

/// The normalized measurement of one raw entry at instant `t`.
pub open spec fn spec_rawxm_of(t: Epoch, c: Constellation, m: RawxMeas) -> Rawxm {
    Rawxm {
        epoch: t,
        sv: spec_sv_of(c, m.sv_id),
        freq_id: m.freq_id,
        pr_bits: m.pr_bits,
        cp_bits: m.cp_bits,
        dop_bits: m.dop_bits,
        cno: m.cno,
    }
}

/// The measurements extracted from the raw entries at instant `t`: one per
/// entry whose constellation is recognized and selected; the others are
/// dropped, which is not an error.
pub open spec fn spec_extracted(
    t: Epoch,
    meas: Seq<RawxMeas>,
    constellations: Seq<Constellation>,
) -> Seq<Rawxm>
    decreases meas.len(),
{
    if meas.len() == 0 {
        Seq::empty()
    } else {
        let rest = spec_extracted(t, meas.drop_last(), constellations);
        match spec_constellation_of(meas.last().gnss_id) {
            Some(c) => if constellations.contains(c) {
                rest.push(spec_rawxm_of(t, c, meas.last()))
            } else {
                rest
            },
            None => rest,
        }
    }
}

/// The ephemerides, one per satellite, whose accumulator is currently
/// complete and cross-checked.
pub open spec fn spec_ready(m: Seq<(Sv, PendingFrame)>) -> Seq<(Sv, Ephemeris)>
    decreases m.len(),
{
    if m.len() == 0 {
        Seq::empty()
    } else {
        let rest = spec_ready(m.drop_last());
        match spec_validated(m.last().1) {
            Some(e) => rest.push((m.last().0, e)),
            None => rest,
        }
    }
}

/// Run-time state of the decode loop.
#[derive(Debug)]
pub struct Runtime {
    /// Current epoch, as last reported by the receiver.
    pub epoch: Option<Epoch>,
    /// First epoch after deployment.
    pub first_epoch: Option<Epoch>,
    /// Uptime reported by the receiver.
    pub uptime: Duration,
    /// Pending ephemeris accumulator, per satellite.
    pub pending_frames: Vec<(Sv, PendingFrame)>,
}

/// The instant a fresh runtime reports before any epoch arrived.
pub open spec fn spec_default_epoch() -> Epoch {
    Epoch { nanos: 0, scale: TimeScale::Utc }
}

/// The epoch a runtime currently reports.
pub open spec fn spec_runtime_epoch(rt: Runtime) -> Epoch {
    match rt.epoch {
        Some(e) => e,
        None => spec_default_epoch(),
    }
}

impl Runtime {
    /// One pending accumulator per satellite.
    pub open spec fn wf(self) -> bool {
        spec_unique_keys(self.pending_frames@)
    }

    /// Builds an empty runtime.
    pub fn new() -> (r: Runtime)
        ensures
            r.wf(),
            r.epoch is None,
            r.first_epoch is None,
            r.uptime.nanos == 0,
            r.pending_frames@.len() == 0,
    {
        Runtime { epoch: None, first_epoch: None, uptime: Duration { nanos: 0 }, pending_frames: Vec::new() }
    }

    /// The current epoch, or the reference instant before any arrived.
    pub fn epoch(&self) -> (r: Epoch)
        ensures
            r == spec_runtime_epoch(*self),
    {
        match self.epoch {
            Some(e) => e,
            None => Epoch { nanos: 0, scale: TimeScale::Utc },
        }
    }

    /// Latches the latest epoch, re-expressed in the configured output time
    /// scale.  The uptime keeps counting from the first epoch, when one was
    /// recorded.
    pub fn new_epoch(&mut self, epoch: Epoch, cfg_timescale: TimeScale)
        requires
            old(self).wf(),
        ensures
            final(self).wf(),
            final(self).epoch == Some(
                Epoch {
                    nanos: to_scale_of(epoch.nanos, scale_id(epoch.scale), scale_id(cfg_timescale)),
                    scale: cfg_timescale,
                },
            ),
            final(self).first_epoch == old(self).first_epoch,
            final(self).pending_frames == old(self).pending_frames,
            old(self).first_epoch matches Some(first) ==> final(self).uptime.nanos == (
            if epoch.nanos >= first.nanos {
                epoch.nanos - first.nanos
            } else {
                0
            }),
            old(self).first_epoch is None ==> final(self).uptime == old(self).uptime,
    {
        self.epoch = Some(epoch.to_time_scale(cfg_timescale));
        match self.first_epoch {
            Some(first) => {
                self.uptime = Duration {
                    nanos: if epoch.nanos >= first.nanos {
                        epoch.nanos - first.nanos
                    } else {
                        0
                    },
                };
            },
            None => {},
        }
    }

    /// Latches a new interpreted navigation message: an already-tracked
    /// satellite's accumulator is updated in place; an untracked satellite
    /// of the GPS family starts a fresh accumulator; anything else is left
    /// for later support.
    pub fn latch_sfrbx(&mut self, sv: Sv, interpretation: SfrbxInterpreted)
        requires
            old(self).wf(),
        ensures
            final(self).wf(),
            forall|s: Sv|
                #[trigger] spec_lookup(final(self).pending_frames@, s) == (if s == sv {
                    match spec_lookup(old(self).pending_frames@, sv) {
                        Some(p) => Some(spec_pending_update(p, interpretation)),
                        None => {
                            if sv.constellation == Constellation::GPS || sv.constellation
                                == Constellation::QZSS {
                                Some(PendingFrame::GpsQzss(spec_frame_new(interpretation->0)))
                            } else {
                                None
                            }
                        },
                    }
                } else {
                    spec_lookup(old(self).pending_frames@, s)
                }),
            final(self).epoch == old(self).epoch,
            final(self).first_epoch == old(self).first_epoch,
            final(self).uptime == old(self).uptime,
    {
        let found = find_key(&self.pending_frames, sv);
        match found {
            Some(i) => {
                let mut pending: PendingFrame = self.pending_frames[i].1;
                pending.update(interpretation);
                proof {
                    lemma_lookup_update(self.pending_frames@, i as int, pending, sv);
                    assert forall|s: Sv| s != sv implies #[trigger] spec_lookup(
                        self.pending_frames@.update(i as int, (sv, pending)),
                        s,
                    ) == spec_lookup(self.pending_frames@, s) by {
                        lemma_lookup_update(self.pending_frames@, i as int, pending, s);
                    }
                }
                self.pending_frames.set(i, (sv, pending));
            },
            None => {
                match (sv.constellation, interpretation) {
                    (Constellation::GPS, SfrbxInterpreted::GpsQzss(frame))
                    | (Constellation::QZSS, SfrbxInterpreted::GpsQzss(frame)) => {
                        let fresh = PendingFrame::GpsQzss(PendingGpsQzssFrame::new(frame));
                        proof {
                            lemma_lookup_none(self.pending_frames@, sv);
                            assert forall|s: Sv| true implies #[trigger] spec_lookup(
                                self.pending_frames@.push((sv, fresh)),
                                s,
                            ) == (if s == sv {
                                Some(fresh)
                            } else {
                                spec_lookup(self.pending_frames@, s)
                            }) by {
                                lemma_lookup_push(self.pending_frames@, (sv, fresh), s);
                            }
                        }
                        self.pending_frames.push((sv, fresh));
                    },
                    _ => {
                        // constellation not supported yet: dropped
                    },
                }
            },
        }
    }

    /// Extracts the normalized measurements of one raw-measurement packet:
    /// the receiver time of week becomes an absolute instant, the current
    /// epoch is latched in the configured scale, and one measurement is
    /// produced per entry whose constellation is recognized and selected.
    pub fn handle_rawx(&mut self, week: u32, tow_nanos: u64, meas: &Vec<RawxMeas>, ubx:
        &UbloxSettings) -> (r: Vec<Rawxm>)
        requires
            old(self).wf(),
            week * NANOS_PER_WEEK + tow_nanos <= u64::MAX,
        ensures
            final(self).wf(),
            ({
                let t_gpst = Epoch {
                    nanos: (week * NANOS_PER_WEEK + tow_nanos) as u64,
                    scale: TimeScale::Gpst,
                };
                let t_meas = Epoch {
                    nanos: to_scale_of(t_gpst.nanos, scale_id(TimeScale::Gpst), scale_id(ubx.timescale)),
                    scale: ubx.timescale,
                };
                &&& final(self).epoch == Some(t_meas)
                &&& r@ == spec_extracted(t_meas, meas@, ubx.constellations@)
            }),
            final(self).first_epoch == old(self).first_epoch,
            final(self).pending_frames == old(self).pending_frames,
    {
        let t_gpst = Epoch::from_time_of_week(week, tow_nanos, TimeScale::Gpst);
        self.new_epoch(t_gpst, ubx.timescale);
        let t_meas = t_gpst.to_time_scale(ubx.timescale);
        let mut r: Vec<Rawxm> = Vec::new();
        let mut i: usize = 0;
        while i < meas.len()
            invariant
                i <= meas@.len(),
                r@ == spec_extracted(t_meas, meas@.subrange(0, i as int), ubx.constellations@),
            decreases meas@.len() - i,
        {
            let m = meas[i];
            match to_constellation(m.gnss_id) {
                Some(constell) => {
                    if crate::ubx::contains_constellation(&ubx.constellations, constell) {
                        let mut prn = m.sv_id;
                        if constell.is_sbas() && prn >= SBAS_PRN_OFFSET {
                            prn = prn - SBAS_PRN_OFFSET;
                        }
                        let sv = Sv::new(constell, prn);
                        r.push(
                            Rawxm {
                                epoch: t_meas,
                                sv,
                                freq_id: m.freq_id,
                                pr_bits: m.pr_bits,
                                cp_bits: m.cp_bits,
                                dop_bits: m.dop_bits,
                                cno: m.cno,
                            },
                        );
                    }
                },
                None => {
                    // unrecognized constellation: this entry is dropped
                },
            }
            proof {
                assert(meas@.subrange(0, i + 1).drop_last() =~= meas@.subrange(0, i as int));
                assert(meas@.subrange(0, i + 1).last() == meas@[i as int]);
            }
            i = i + 1;
        }
        proof {
            assert(meas@.subrange(0, meas@.len() as int) =~= meas@);
        }
        r
    }

    /// Collects, per tracked satellite, the ephemerides whose accumulator is
    /// complete and cross-checked; the accumulators are left as they are.
    pub fn ready_ephemerides(&self) -> (r: Vec<(Sv, Ephemeris)>)
        ensures
            r@ == spec_ready(self.pending_frames@),
    {
        let mut r: Vec<(Sv, Ephemeris)> = Vec::new();
        let mut i: usize = 0;
        while i < self.pending_frames.len()
            invariant
                i <= self.pending_frames@.len(),
                r@ == spec_ready(self.pending_frames@.subrange(0, i as int)),
            decreases self.pending_frames@.len() - i,
        {
            let (sv, pending) = self.pending_frames[i];
            match pending.validate() {
                Some(validated) => {
                    r.push((sv, validated));
                },
                None => {},
            }
            proof {
                assert(self.pending_frames@.subrange(0, i + 1).drop_last()
                    =~= self.pending_frames@.subrange(0, i as int));
                assert(self.pending_frames@.subrange(0, i + 1).last() == self.pending_frames@[
                    i as int
                ]);
            }
            i = i + 1;
        }
        proof {
            assert(self.pending_frames@.subrange(0, self.pending_frames@.len() as int)
                =~= self.pending_frames@);
        }
        r
    }

    /// The current epoch, re-expressed in the requested time scale.
    pub fn current_epoch(&self, timescale: TimeScale) -> (r: Epoch)
        ensures
            r.scale == timescale,
            r.nanos == to_scale_of(
                spec_runtime_epoch(*self).nanos,
                scale_id(spec_runtime_epoch(*self).scale),
                scale_id(timescale),
            ),
    {
        self.epoch().to_time_scale(timescale)
    }

    /// The current week number in the requested time scale.
    pub fn current_week(&self, timescale: TimeScale) -> (r: u32)
        ensures
            r == to_scale_of(
                spec_runtime_epoch(*self).nanos,
                scale_id(spec_runtime_epoch(*self).scale),
                scale_id(timescale),
            ) / NANOS_PER_WEEK,
    {
        let e = self.current_epoch(timescale);
        proof {
            assert(e.nanos / NANOS_PER_WEEK <= u64::MAX / NANOS_PER_WEEK) by {
                vstd::arithmetic::div_mod::lemma_div_is_ordered(
                    e.nanos as int,
                    u64::MAX as int,
                    NANOS_PER_WEEK as int,
                );
            }
        }
        e.to_time_of_week().0
    }

    /// The current epoch in universal time.
    pub fn utc_time(&self) -> (r: Epoch)
        ensures
            r.scale == TimeScale::Utc,
            r.nanos == to_scale_of(
                spec_runtime_epoch(*self).nanos,
                scale_id(spec_runtime_epoch(*self).scale),
                scale_id(TimeScale::Utc),
            ),
    {
        self.current_epoch(TimeScale::Utc)
    }

    /// The current GPS week.
    pub fn gpst_week(&self) -> (r: u32)
        ensures
            r == to_scale_of(
                spec_runtime_epoch(*self).nanos,
                scale_id(spec_runtime_epoch(*self).scale),
                scale_id(TimeScale::Gpst),
            ) / NANOS_PER_WEEK,
    {
        self.current_week(TimeScale::Gpst)
    }
}

} // verus!
