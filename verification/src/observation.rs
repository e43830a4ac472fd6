//! The observation collector: an epoch-boundary state machine.
//!
//! Measurements accumulate in a buffer scoped to the current epoch.  A
//! measurement with a later timestamp first flushes the buffered epoch, so a
//! flushed batch only ever holds measurements of its declared epoch; a
//! measurement older than the buffered epoch is dropped.  The file header is
//! planned exactly once, on the first measurement, before any batch.  The
//! caller performs the writes that an outcome asks for, in its field order:
//! header first, then the batch.

use vstd::prelude::*;

use crate::messages::Rawxm;
use crate::settings::{spec_filename, spec_utc_nanos, Settings};
use crate::signal::{Constellation, Sv};
use crate::time::{civil_of, CivilDate, Epoch};
use crate::ubx::UbloxSettings;

verus! {

/// One buffered signal value, tagged with its observable code.
#[derive(Debug, Clone)]
pub struct SignalObservation {
    pub sv: Sv,
    /// Observable code, such as a pseudorange or phase code.
    pub observable: String,
    /// Observed value, as encoded 64-bit real.
    pub value_bits: u64,
}

/// Mathematical image of a buffered signal.
pub struct SignalModel {
    pub sv: Sv,
    pub observable: Seq<char>,
    pub value_bits: u64,
}

impl View for SignalObservation {
    type V = SignalModel;

    open spec fn view(&self) -> SignalModel {
        SignalModel { sv: self.sv, observable: self.observable@, value_bits: self.value_bits }
    }
}

/// The models of a sequence of buffered signals.
pub open spec fn signal_models(s: Seq<SignalObservation>) -> Seq<SignalModel> {
    Seq::new(s.len(), |i: int| s[i]@)
}

/// The current epoch's buffer: signals and the optional clock state.
#[derive(Debug)]
pub struct Observations {
    pub signals: Vec<SignalObservation>,
    /// Receiver clock bias attached to the epoch, as encoded 64-bit real.
    pub clock_bits: Option<u64>,
}

/// The three signals one raw measurement contributes: its pseudorange under
/// the code observable, its carrier phase under the phase observable and its
/// Doppler under the Doppler observable, in the configured grammar revision.
pub open spec fn spec_measurement_signals(r: Rawxm, major: u8) -> Seq<SignalModel> {
    let v3 = major == 3;
    seq![
        SignalModel {
            sv: r.sv,
            observable: if v3 {
                "C1C"@
            } else {
                "C1"@
            },
            value_bits: r.pr_bits,
        },
        SignalModel {
            sv: r.sv,
            observable: if v3 {
                "L1C"@
            } else {
                "L1"@
            },
            value_bits: r.cp_bits,
        },
        SignalModel {
            sv: r.sv,
            observable: if v3 {
                "D1C"@
            } else {
                "D1"@
            },
            value_bits: r.dop_bits,
        },
    ]
}

/// A flushed epoch: its declared instant and exactly the signals and clock
/// state that were buffered for it.
#[derive(Debug)]
pub struct EpochBatch {
    pub epoch: Epoch,
    pub signals: Vec<SignalObservation>,
    pub clock_bits: Option<u64>,
}

/// View of an optional text.
pub open spec fn opt_str_view(o: Option<String>) -> Option<Seq<char>> {
    match o {
        Some(s) => Some(s@),
        None => None,
    }
}

/// Views of a list of texts.
pub open spec fn str_views(v: Seq<String>) -> Seq<Seq<char>> {
    Seq::new(v.len(), |i: int| v[i]@)
}

/// Views of the observable codes per constellation.
pub open spec fn codes_view(v: Seq<(Constellation, Vec<String>)>) -> Seq<
    (Constellation, Seq<Seq<char>>),
> {
    Seq::new(v.len(), |i: int| (v[i].0, str_views(v[i].1@)))
}

/// Everything the header of a new observation file is built from.
#[derive(Debug)]
pub struct ObsHeaderPlan {
    /// Path of the file to create.
    pub path: String,
    /// Compress the created file.
    pub gzip: bool,
    /// Revision of the output grammar.
    pub major: u8,
    /// The single selected constellation, or the mixed marker.
    pub constellation: Constellation,
    /// Compact-representation version, when enabled.
    pub crinex_major: Option<u8>,
    /// Comments to carry into the header.
    pub comments: Vec<String>,
    /// Program operator.
    pub observer: Option<String>,
    /// Publishing agency.
    pub agency: Option<String>,
    pub receiver_model: Option<String>,
    pub receiver_firmware: Option<String>,
    pub antenna_model: Option<String>,
    /// Observable codes per constellation.
    pub codes: Vec<(Constellation, Vec<String>)>,
}

/// The constellation a header declares: the selection itself when a single
/// constellation is selected, the mixed marker otherwise.
pub open spec fn spec_header_constellation(constellations: Seq<Constellation>) -> Constellation {
    if constellations.len() == 1 {
        constellations[0]
    } else {
        Constellation::Mixed
    }
}

/// The header plan a collector in the given configuration builds when it
/// deploys at `deploy`.
pub open spec fn spec_obs_header_plan(
    plan: ObsHeaderPlan,
    settings: Settings,
    ubx: UbloxSettings,
    comments: Seq<String>,
    deploy: Epoch,
) -> bool {
    &&& forall|c: CivilDate|
        #[trigger] civil_of(spec_utc_nanos(deploy) as int, c) ==> plan.path@ == spec_filename(
            settings,
            false,
            c,
        )
    &&& plan.gzip == settings.gzip
    &&& plan.major == settings.major
    &&& plan.constellation == spec_header_constellation(ubx.constellations@)
    &&& plan.crinex_major == (if settings.crinex {
        Some(
            if settings.major == 2 {
                2u8
            } else {
                3u8
            },
        )
    } else {
        None::<u8>
    })
    &&& str_views(plan.comments@) == str_views(comments) + (match settings.header_comment {
        Some(c) => seq![c@],
        None => Seq::empty(),
    })
    &&& opt_str_view(plan.observer) == opt_str_view(settings.operator)
    &&& opt_str_view(plan.agency) == opt_str_view(settings.agency)
    &&& opt_str_view(plan.receiver_model) == opt_str_view(ubx.model)
    &&& opt_str_view(plan.receiver_firmware) == opt_str_view(ubx.firmware)
    &&& opt_str_view(plan.antenna_model) == opt_str_view(ubx.antenna)
    &&& codes_view(plan.codes@) == codes_view(settings.observables@)
}

/// What one step of the collector asks the caller to do, in order: open the
/// file and write its header, then format and append the flushed batch.
pub struct ObsOutcome {
    pub header: Option<ObsHeaderPlan>,
    pub flush: Option<EpochBatch>,
}

/// How one measurement takes the collector from `pre` to `post` with
/// outcome `r`: the header is planned exactly on deployment and never
/// together with a batch; a strictly later measurement flushes the buffered
/// epoch, whose batch holds exactly the buffered signals, all timestamped at
/// its declared epoch; the measurement joins the buffer unless it is older
/// than the buffered epoch; and the current epoch never moves backwards.
pub open spec fn spec_measurement_step(
    pre: Collecter,
    rawxm: Rawxm,
    post: Collecter,
    r: ObsOutcome,
) -> bool {
    let cur_nanos = if pre.epoch is Some {
        pre.epoch->0.nanos
    } else {
        rawxm.epoch.nanos
    };
    let restarted = pre.epoch is Some && rawxm.epoch.nanos > pre.epoch->0.nanos;
    let kept = if restarted {
        Seq::<SignalObservation>::empty()
    } else {
        pre.buf.signals@
    };
    let kept_clock = if restarted {
        None::<u64>
    } else {
        pre.buf.clock_bits
    };
    &&& (r.header is Some) == (pre.deploy_epoch is None)
    &&& (r.header matches Some(h) ==> spec_obs_header_plan(
        h,
        pre.settings,
        pre.ubx_settings,
        pre.header_comments@,
        rawxm.epoch,
    ))
    &&& post.deploy_epoch == (if pre.deploy_epoch is None {
        Some(rawxm.epoch)
    } else {
        pre.deploy_epoch
    })
    &&& post.header_released
    &&& (r.header is Some ==> r.flush is None)
    &&& (r.flush is Some) == (pre.epoch is Some && rawxm.epoch.nanos > pre.epoch->0.nanos && (
    pre.buf.signals@.len() > 0 || pre.buf.clock_bits is Some))
    &&& (r.flush matches Some(b) ==> b.epoch == pre.epoch->0 && b.signals@ == pre.buf.signals@
        && b.clock_bits == pre.buf.clock_bits && rawxm.epoch.nanos > b.epoch.nanos && (forall|
        i: int,
    |
        0 <= i < pre.times@.len() ==> pre.times@[i] == b.epoch.nanos))
    &&& (rawxm.epoch.nanos >= cur_nanos ==> post.epoch == Some(rawxm.epoch) && signal_models(
        post.buf.signals@,
    ) == signal_models(kept) + spec_measurement_signals(rawxm, pre.settings.major)
        && post.buf.clock_bits == kept_clock)
    &&& (rawxm.epoch.nanos < cur_nanos ==> post.epoch == pre.epoch && post.buf.signals@
        == pre.buf.signals@ && post.buf.clock_bits == pre.buf.clock_bits)
    &&& (pre.epoch is Some ==> post.epoch is Some && post.epoch->0.nanos >= pre.epoch->0.nanos)
    &&& post.epoch is Some
    &&& post.settings == pre.settings
    &&& post.ubx_settings == pre.ubx_settings
    &&& post.header_comments == pre.header_comments
    &&& post.done == pre.done
}

/// A run of the collector over a sequence of measurements: `states` holds
/// the collector's state before and after each event, every state is
/// well-formed, and each event steps as [`spec_measurement_step`] says.
pub open spec fn spec_obs_run(
    events: Seq<Rawxm>,
    states: Seq<Collecter>,
    outs: Seq<ObsOutcome>,
) -> bool {
    &&& states.len() == events.len() + 1
    &&& outs.len() == events.len()
    &&& (forall|i: int| 0 <= i < states.len() ==> (#[trigger] states[i]).wf())
    &&& (forall|i: int|
        0 <= i < events.len() ==> #[trigger] spec_measurement_step(
            states[i],
            events[i],
            states[i + 1],
            outs[i],
        ))
}

/// After a flushing step, every later state's epoch stays strictly above the
/// flushed batch's declared epoch.
proof fn lemma_epoch_lower_bound(
    events: Seq<Rawxm>,
    states: Seq<Collecter>,
    outs: Seq<ObsOutcome>,
    i: int,
    k: int,
)
    requires
        spec_obs_run(events, states, outs),
        0 <= i < events.len(),
        outs[i].flush is Some,
        i < k <= events.len(),
    ensures
        states[k].epoch is Some,
        states[k].epoch->0.nanos > outs[i].flush->0.epoch.nanos,
    decreases k,
{
    let s = k - 1;
    assert(spec_measurement_step(states[s], events[s], states[s + 1], outs[s]));
    assert(states[s + 1] == states[k]);
    if k > i + 1 {
        lemma_epoch_lower_bound(events, states, outs, i, k - 1);
    }
}

/// Epoch monotonicity: over any run of measurement events, batches are
/// flushed in strictly increasing epoch order, so no epoch's batch is ever
/// flushed twice.  That a flushed batch holds exactly the buffered signals,
/// all timestamped at its declared epoch, is part of every single step
/// ([`spec_measurement_step`]).
pub proof fn lemma_epoch_monotonicity(
    events: Seq<Rawxm>,
    states: Seq<Collecter>,
    outs: Seq<ObsOutcome>,
    i: int,
    j: int,
)
    requires
        spec_obs_run(events, states, outs),
        0 <= i < j < events.len(),
        outs[i].flush is Some,
        outs[j].flush is Some,
    ensures
        outs[i].flush->0.epoch.nanos < outs[j].flush->0.epoch.nanos,
{
    lemma_epoch_lower_bound(events, states, outs, i, j);
    assert(spec_measurement_step(states[j], events[j], states[j + 1], outs[j]));
}

/// Once deployed, a collector stays deployed.
proof fn lemma_deployed_stays(
    events: Seq<Rawxm>,
    states: Seq<Collecter>,
    outs: Seq<ObsOutcome>,
    i: int,
    k: int,
)
    requires
        spec_obs_run(events, states, outs),
        0 <= i < events.len(),
        i < k <= events.len(),
    ensures
        states[k].deploy_epoch is Some,
    decreases k,
{
    let s = k - 1;
    assert(spec_measurement_step(states[s], events[s], states[s + 1], outs[s]));
    assert(states[s + 1] == states[k]);
    if k > i + 1 {
        lemma_deployed_stays(events, states, outs, i, k - 1);
    }
}

/// Header-once: over any run, the header is planned by at most one step.
pub proof fn lemma_header_once(
    events: Seq<Rawxm>,
    states: Seq<Collecter>,
    outs: Seq<ObsOutcome>,
    i: int,
    j: int,
)
    requires
        spec_obs_run(events, states, outs),
        0 <= i < j < events.len(),
        outs[i].header is Some,
    ensures
        outs[j].header is None,
{
    lemma_deployed_stays(events, states, outs, i, j);
    assert(spec_measurement_step(states[j], events[j], states[j + 1], outs[j]));
}

/// Header-before-data: a step that flushes a batch starts from a state whose
/// header was already planned, and plans no new header itself.
pub proof fn lemma_header_before_data(
    events: Seq<Rawxm>,
    states: Seq<Collecter>,
    outs: Seq<ObsOutcome>,
    j: int,
)
    requires
        spec_obs_run(events, states, outs),
        0 <= j < events.len(),
        outs[j].flush is Some,
    ensures
        states[j].header_released,
        outs[j].header is None,
{
    assert(spec_measurement_step(states[j], events[j], states[j + 1], outs[j]));
    assert(states[j].wf());
}

/// Clones an optional text.
pub fn clone_opt_string(o: &Option<String>) -> (r: Option<String>)
    ensures
        opt_str_view(r) == opt_str_view(*o),
{
    match o {
        Some(s) => Some(s.clone()),
        None => None,
    }
}

/// Clones a list of texts.
pub fn clone_strings(v: &Vec<String>) -> (r: Vec<String>)
    ensures
        str_views(r@) == str_views(v@),
{
    let mut r: Vec<String> = Vec::new();
    let mut i: usize = 0;
    while i < v.len()
        invariant
            i <= v@.len(),
            r@.len() == i,
            forall|j: int| 0 <= j < i ==> r@[j]@ == v@[j]@,
        decreases v@.len() - i,
    {
        r.push(v[i].clone());
        i = i + 1;
    }
    proof {
        assert(str_views(r@) =~~= str_views(v@));
    }
    r
}

/// Clones the observable codes per constellation.
fn clone_codes(v: &Vec<(Constellation, Vec<String>)>) -> (r: Vec<(Constellation, Vec<String>)>)
    ensures
        codes_view(r@) == codes_view(v@),
{
    let mut r: Vec<(Constellation, Vec<String>)> = Vec::new();
    let mut i: usize = 0;
    while i < v.len()
        invariant
            i <= v@.len(),
            r@.len() == i,
            forall|j: int|
                0 <= j < i ==> #[trigger] r@[j].0 == v@[j].0 && str_views(r@[j].1@) == str_views(
                    v@[j].1@,
                ),
        decreases v@.len() - i,
    {
        let strings = clone_strings(&v[i].1);
        r.push((v[i].0, strings));
        i = i + 1;
    }
    proof {
        assert(codes_view(r@) =~~= codes_view(v@));
    }
    r
}

/// The observation collector.
pub struct Collecter {
    /// Epoch of the current buffer, once a measurement has arrived.
    pub epoch: Option<Epoch>,
    /// Epoch of deployment: the first measurement's instant.
    pub deploy_epoch: Option<Epoch>,
    /// The current epoch's buffer.
    pub buf: Observations,
    /// Collection settings.
    pub settings: Settings,
    /// Receiver settings.
    pub ubx_settings: UbloxSettings,
    /// The header has been planned for this run.
    pub header_released: bool,
    /// Comments gathered for the header.
    pub header_comments: Vec<String>,
    /// The collector has shut down.
    pub done: bool,
    /// Event instant, in nanoseconds of the scale, of each buffered signal.
    pub times: Ghost<Seq<u64>>,
}

impl Collecter {
    /// The collector's invariant: every buffered signal belongs to the
    /// current epoch, and a buffer only exists once the collector deployed
    /// and its header was planned.
    pub open spec fn wf(self) -> bool {
        &&& self.times@.len() == self.buf.signals@.len()
        &&& (forall|i: int| 0 <= i < self.times@.len() ==> self.times@[i] == self.epoch->0.nanos)
        &&& (self.buf.signals@.len() > 0 ==> self.epoch is Some)
        &&& (self.epoch is Some <==> self.deploy_epoch is Some)
        &&& (self.epoch is Some <==> self.header_released)
    }

    /// Builds a collector awaiting its first measurement.
    pub fn new(settings: Settings, ublox: UbloxSettings) -> (r: Collecter)
        ensures
            r.wf(),
            r.epoch is None,
            r.deploy_epoch is None,
            r.buf.signals@.len() == 0,
            r.buf.clock_bits is None,
            r.settings == settings,
            r.ubx_settings == ublox,
            !r.header_released,
            r.header_comments@.len() == 0,
            !r.done,
    {
        Collecter {
            epoch: None,
            deploy_epoch: None,
            buf: Observations { signals: Vec::new(), clock_bits: None },
            settings,
            ubx_settings: ublox,
            header_released: false,
            header_comments: Vec::new(),
            done: false,
            times: Ghost(Seq::empty()),
        }
    }

    /// Records the firmware version the receiver reported.
    pub fn on_firmware_version(&mut self, version: String)
        requires
            old(self).wf(),
        ensures
            final(self).wf(),
            opt_str_view(final(self).ubx_settings.firmware) == Some(version@),
            final(self).epoch == old(self).epoch,
            final(self).deploy_epoch == old(self).deploy_epoch,
            final(self).buf == old(self).buf,
            final(self).settings == old(self).settings,
            final(self).header_released == old(self).header_released,
            final(self).header_comments == old(self).header_comments,
            final(self).done == old(self).done,
            final(self).times == old(self).times,
    {
        self.ubx_settings.firmware = Some(version);
    }

    /// Keeps a comment for the header, up to the fixed limit.
    pub fn on_header_comment(&mut self, comment: String)
        requires
            old(self).wf(),
        ensures
            final(self).wf(),
            old(self).header_comments@.len() < 16 ==> final(self).header_comments@ == old(
                self,
            ).header_comments@.push(comment),
            old(self).header_comments@.len() >= 16 ==> final(self).header_comments == old(
                self,
            ).header_comments,
            final(self).epoch == old(self).epoch,
            final(self).deploy_epoch == old(self).deploy_epoch,
            final(self).buf == old(self).buf,
            final(self).settings == old(self).settings,
            final(self).ubx_settings == old(self).ubx_settings,
            final(self).header_released == old(self).header_released,
            final(self).done == old(self).done,
            final(self).times == old(self).times,
    {
        if self.header_comments.len() < 16 {
            self.header_comments.push(comment);
        }
    }

    /// Attaches a new receiver clock state to the current epoch's buffer.
    pub fn on_clock(&mut self, clock_bits: u64)
        requires
            old(self).wf(),
        ensures
            final(self).wf(),
            final(self).buf.clock_bits == Some(clock_bits),
            final(self).buf.signals@ == old(self).buf.signals@,
            final(self).epoch == old(self).epoch,
            final(self).deploy_epoch == old(self).deploy_epoch,
            final(self).settings == old(self).settings,
            final(self).ubx_settings == old(self).ubx_settings,
            final(self).header_released == old(self).header_released,
            final(self).header_comments == old(self).header_comments,
            final(self).done == old(self).done,
            final(self).times == old(self).times,
    {
        self.buf.clock_bits = Some(clock_bits);
    }

    /// Builds the header plan for a run deploying at `deploy`.
    fn build_header(&self, deploy: Epoch) -> (plan: ObsHeaderPlan)
        ensures
            spec_obs_header_plan(
                plan,
                self.settings,
                self.ubx_settings,
                self.header_comments@,
                deploy,
            ),
    {
        let path = self.settings.filename(false, deploy);
        let constellation = if self.ubx_settings.constellations.len() == 1 {
            self.ubx_settings.constellations[0]
        } else {
            Constellation::Mixed
        };
        let crinex_major = if self.settings.crinex {
            if self.settings.major == 2 {
                Some(2)
            } else {
                Some(3)
            }
        } else {
            None
        };
        let mut comments = clone_strings(&self.header_comments);
        match &self.settings.header_comment {
            Some(c) => {
                comments.push(c.clone());
                proof {
                    assert(str_views(comments@) =~= str_views(self.header_comments@) + seq![c@]);
                }
            },
            None => {
                proof {
                    assert(str_views(comments@) =~= str_views(self.header_comments@)
                        + Seq::<Seq<char>>::empty());
                }
            },
        }
        ObsHeaderPlan {
            path,
            gzip: self.settings.gzip,
            major: self.settings.major,
            constellation,
            crinex_major,
            comments,
            observer: clone_opt_string(&self.settings.operator),
            agency: clone_opt_string(&self.settings.agency),
            receiver_model: clone_opt_string(&self.ubx_settings.model),
            receiver_firmware: clone_opt_string(&self.ubx_settings.firmware),
            antenna_model: clone_opt_string(&self.ubx_settings.antenna),
            codes: clone_codes(&self.settings.observables),
        }
    }

    /// Pushes the three signals of one measurement into the buffer.
    fn push_signals(&mut self, rawxm: Rawxm)
        requires
            old(self).epoch == Some(rawxm.epoch),
            old(self).wf(),
        ensures
            final(self).wf(),
            signal_models(final(self).buf.signals@) == signal_models(old(self).buf.signals@)
                + spec_measurement_signals(rawxm, old(self).settings.major),
            final(self).buf.clock_bits == old(self).buf.clock_bits,
            final(self).epoch == old(self).epoch,
            final(self).deploy_epoch == old(self).deploy_epoch,
            final(self).settings == old(self).settings,
            final(self).ubx_settings == old(self).ubx_settings,
            final(self).header_released == old(self).header_released,
            final(self).header_comments == old(self).header_comments,
            final(self).done == old(self).done,
    {
        let v3 = self.settings.major == 3;
        let c1c = if v3 {
            String::from_str("C1C")
        } else {
            String::from_str("C1")
        };
        let l1c = if v3 {
            String::from_str("L1C")
        } else {
            String::from_str("L1")
        };
        let d1c = if v3 {
            String::from_str("D1C")
        } else {
            String::from_str("D1")
        };
        self.buf.signals.push(
            SignalObservation { sv: rawxm.sv, observable: c1c, value_bits: rawxm.pr_bits },
        );
        self.buf.signals.push(
            SignalObservation { sv: rawxm.sv, observable: l1c, value_bits: rawxm.cp_bits },
        );
        self.buf.signals.push(
            SignalObservation { sv: rawxm.sv, observable: d1c, value_bits: rawxm.dop_bits },
        );
        proof {
            self.times@ = self.times@ + seq![rawxm.epoch.nanos, rawxm.epoch.nanos, rawxm.epoch.nanos];
            assert(signal_models(self.buf.signals@) =~= signal_models(old(self).buf.signals@)
                + spec_measurement_signals(rawxm, old(self).settings.major));
        }
    }

    /// Takes the buffered epoch out as a batch, leaving an empty buffer.
    fn take_batch(&mut self, epoch: Epoch) -> (b: EpochBatch)
        requires
            old(self).wf(),
        ensures
            final(self).wf(),
            b.epoch == epoch,
            b.signals@ == old(self).buf.signals@,
            b.clock_bits == old(self).buf.clock_bits,
            final(self).buf.signals@.len() == 0,
            final(self).buf.clock_bits is None,
            final(self).epoch == old(self).epoch,
            final(self).deploy_epoch == old(self).deploy_epoch,
            final(self).settings == old(self).settings,
            final(self).ubx_settings == old(self).ubx_settings,
            final(self).header_released == old(self).header_released,
            final(self).header_comments == old(self).header_comments,
            final(self).done == old(self).done,
    {
        let mut signals: Vec<SignalObservation> = Vec::new();
        core::mem::swap(&mut signals, &mut self.buf.signals);
        let clock_bits = self.buf.clock_bits;
        self.buf.clock_bits = None;
        proof {
            self.times@ = Seq::empty();
        }
        EpochBatch { epoch, signals, clock_bits }
    }

    /// Handles one raw measurement; the full step relation is
    /// [`spec_measurement_step`].  On the first measurement the header is
    /// planned, exactly once per run.  A measurement later than the buffered
    /// epoch first flushes that epoch: the flushed batch holds exactly the
    /// buffered signals, all of its declared epoch, and the buffer restarts
    /// at the new epoch.  A measurement older than the buffered epoch is
    /// dropped.
    pub fn on_measurement(&mut self, rawxm: Rawxm) -> (r: ObsOutcome)
        requires
            old(self).wf(),
            !old(self).done,
        ensures
            final(self).wf(),
            !final(self).done,
            spec_measurement_step(*old(self), rawxm, *final(self), r),
    {
        let mut header: Option<ObsHeaderPlan> = None;
        if self.deploy_epoch.is_none() {
            header = Some(self.build_header(rawxm.epoch));
            self.deploy_epoch = Some(rawxm.epoch);
        }
        let mut flush: Option<EpochBatch> = None;
        match self.epoch {
            None => {
                self.epoch = Some(rawxm.epoch);
                self.header_released = true;
                self.push_signals(rawxm);
            },
            Some(cur) => {
                if rawxm.epoch.nanos > cur.nanos {
                    if self.buf.signals.len() > 0 || self.buf.clock_bits.is_some() {
                        flush = Some(self.take_batch(cur));
                    }
                    self.epoch = Some(rawxm.epoch);
                    proof {
                        self.times@ = Seq::empty();
                    }
                    if flush.is_none() {
                        // an empty buffer restarts at the new epoch
                        self.buf.clock_bits = None;
                    }
                    self.push_signals(rawxm);
                } else if rawxm.epoch.nanos == cur.nanos {
                    self.epoch = Some(rawxm.epoch);
                    self.push_signals(rawxm);
                }  // else: older than the buffered epoch, dropped

            },
        }
        ObsOutcome { header, flush }
    }

    /// Handles the shutdown notice: a pending non-empty buffer is flushed
    /// exactly once before the collector stops.
    pub fn on_shutdown(&mut self) -> (r: Option<EpochBatch>)
        requires
            old(self).wf(),
            !old(self).done,
        ensures
            final(self).wf(),
            final(self).done,
            (r is Some) == (old(self).epoch is Some && (old(self).buf.signals@.len() > 0 || old(
                self,
            ).buf.clock_bits is Some)),
            r matches Some(b) ==> b.epoch == old(self).epoch->0 && b.signals@ == old(
                self,
            ).buf.signals@ && b.clock_bits == old(self).buf.clock_bits && (forall|i: int|
                0 <= i < old(self).times@.len() ==> old(self).times@[i] == b.epoch.nanos),
            final(self).buf.signals@.len() == 0,
            final(self).buf.clock_bits is None,
    {
        let mut r: Option<EpochBatch> = None;
        match self.epoch {
            Some(cur) => {
                if self.buf.signals.len() > 0 || self.buf.clock_bits.is_some() {
                    r = Some(self.take_batch(cur));
                }
            },
            None => {},
        }
        self.buf.clock_bits = None;
        proof {
            self.times@ = Seq::empty();
        }
        let mut signals: Vec<SignalObservation> = Vec::new();
        core::mem::swap(&mut signals, &mut self.buf.signals);
        self.done = true;
        r
    }
}

} // verus!
