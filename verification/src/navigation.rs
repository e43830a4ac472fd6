//! The navigation collector: header-once and a per-satellite republish gate.
//!
//! The first ephemeris of a run plans the file header; afterwards a
//! satellite's ephemeris is published only when it has none published yet,
//! or when the new epoch is at least the configured navigation period past
//! its last published epoch.  The record's leading epoch line follows the
//! configured grammar revision exactly.

use vstd::prelude::*;

use crate::ephemeris::EphemerisRecord;
use crate::table::{
    find_key, lemma_lookup_none, lemma_lookup_push, lemma_lookup_update, spec_lookup,
    spec_unique_keys,
};
use crate::observation::{opt_str_view, spec_header_constellation, str_views};
use crate::settings::{spec_filename, spec_short_year, spec_utc_nanos, Settings};
use crate::signal::{spec_sv_code, Constellation, Sv};
use crate::text::{dec_string, pad2_space_string, pad2_string, spec_dec, spec_pad2, spec_pad2_space};
use crate::time::{civil_of, spec_calendar_offset, CivilDate, Epoch};
use crate::ubx::UbloxSettings;

verus! {

/// Everything the header of a new navigation file is built from.
#[derive(Debug)]
pub struct NavHeaderPlan {
    /// Path of the file to create.
    pub path: String,
    /// Compress the created file.
    pub gzip: bool,
    /// Revision of the output grammar.
    pub major: u8,
    /// The single selected constellation, or the mixed marker.
    pub constellation: Constellation,
    /// Comments to carry into the header.
    pub comments: Vec<String>,
    /// Program operator.
    pub observer: Option<String>,
    /// Publishing agency.
    pub agency: Option<String>,
}

/// The header plan a navigation collector in the given configuration builds.
pub open spec fn spec_nav_header_plan(
    plan: NavHeaderPlan,
    settings: Settings,
    ubx: UbloxSettings,
    comments: Seq<String>,
    at: Epoch,
) -> bool {
    &&& forall|c: CivilDate|
        #[trigger] civil_of(spec_utc_nanos(at) as int, c) ==> plan.path@ == spec_filename(
            settings,
            true,
            c,
        )
    &&& plan.gzip == settings.gzip
    &&& plan.major == settings.major
    &&& plan.constellation == spec_header_constellation(ubx.constellations@)
    &&& str_views(plan.comments@) == str_views(comments) + (match settings.header_comment {
        Some(c) => seq![c@],
        None => Seq::empty(),
    })
    &&& opt_str_view(plan.observer) == opt_str_view(settings.operator)
    &&& opt_str_view(plan.agency) == opt_str_view(settings.agency)
}

/// The date-and-time fields shared by every revision's epoch line.
pub open spec fn spec_epoch_fields(c: CivilDate) -> Seq<char> {
    " "@ + spec_dec(c.year as int) + " "@ + spec_pad2(c.month as int) + " "@ + spec_pad2(
        c.day as int,
    ) + " "@ + spec_pad2(c.hour as int) + " "@ + spec_pad2(c.minute as int) + " "@ + spec_pad2(
        c.second as int,
    )
}

/// The leading epoch line of one navigation record, by grammar revision:
/// revision 4 prefixes a message-type line; revision 3, and mixed files of
/// the legacy revision, use the satellite code with a four-digit year; a
/// single-constellation legacy file uses the bare two-digit satellite
/// number, a two-digit year, and tenth-of-second seconds.
pub open spec fn spec_epoch_line(
    major: u8,
    single_constellation: bool,
    sv: Sv,
    c: CivilDate,
) -> Seq<char> {
    if major == 4 {
        "> EPH "@ + spec_sv_code(sv) + " LNAV\n"@ + spec_sv_code(sv) + spec_epoch_fields(c)
    } else if major == 3 || !single_constellation {
        spec_sv_code(sv) + spec_epoch_fields(c)
    } else {
        spec_pad2(sv.prn as int) + " "@ + spec_short_year(c.year as int) + " "@ + spec_pad2(
            c.month as int,
        ) + " "@ + spec_pad2(c.day as int) + " "@ + spec_pad2(c.hour as int) + " "@ + spec_pad2(
            c.minute as int,
        ) + " "@ + spec_pad2_space(c.second as int) + "."@ + spec_dec(c.nanos as int / 100_000)
    }
}

/// One navigation record to publish: the satellite, its epoch, the leading
/// epoch line, and the parameter record the exchange formatter appends.
#[derive(Debug)]
pub struct NavRecordPlan {
    pub sv: Sv,
    pub epoch: Epoch,
    pub epoch_line: String,
    pub record: EphemerisRecord,
}

/// What one step of the navigation collector asks the caller to do, in
/// order: open the file and write its header, then write the record.
pub struct NavOutcome {
    pub header: Option<NavHeaderPlan>,
    pub publish: Option<NavRecordPlan>,
}

/// The republish gate: a satellite's ephemeris goes out when none was
/// published for it yet, or when the new epoch is at least the navigation
/// period past the last published epoch.
pub open spec fn spec_nav_gate(
    latest: Seq<(Sv, Epoch)>,
    sv: Sv,
    epoch: Epoch,
    period_nanos: u64,
) -> bool {
    match spec_lookup(latest, sv) {
        None => true,
        Some(last) => epoch.nanos >= last.nanos && epoch.nanos - last.nanos >= period_nanos,
    }
}

/// The navigation collector.
pub struct Collecter {
    /// First ephemeris epoch of the run.
    pub first_epoch: Option<Epoch>,
    /// Latest ephemeris epoch.
    pub epoch: Option<Epoch>,
    /// The header has been planned for this run.
    pub header_released: bool,
    /// Collection settings.
    pub settings: Settings,
    /// Receiver settings.
    pub ubx_settings: UbloxSettings,
    /// Comments gathered for the header.
    pub header_comments: Vec<String>,
    /// Last published epoch, per satellite.
    pub latest_release: Vec<(Sv, Epoch)>,
    /// The collector has shut down.
    pub done: bool,
}

impl Collecter {
    /// The collector's invariant: one gate entry per satellite.
    pub open spec fn wf(self) -> bool {
        spec_unique_keys(self.latest_release@)
    }

    /// Builds a collector awaiting its first ephemeris.
    pub fn new(settings: Settings, ublox: UbloxSettings) -> (r: Collecter)
        ensures
            r.wf(),
            r.first_epoch is None,
            r.epoch is None,
            !r.header_released,
            r.settings == settings,
            r.ubx_settings == ublox,
            r.header_comments@.len() == 0,
            r.latest_release@.len() == 0,
            !r.done,
    {
        Collecter {
            first_epoch: None,
            epoch: None,
            header_released: false,
            settings,
            ubx_settings: ublox,
            header_comments: Vec::new(),
            latest_release: Vec::new(),
            done: false,
        }
    }

    /// Records the firmware version the receiver reported.
    pub fn on_firmware_version(&mut self, version: String)
        requires
            old(self).wf(),
        ensures
            final(self).wf(),
            opt_str_view(final(self).ubx_settings.firmware) == Some(version@),
            final(self).first_epoch == old(self).first_epoch,
            final(self).epoch == old(self).epoch,
            final(self).header_released == old(self).header_released,
            final(self).settings == old(self).settings,
            final(self).header_comments == old(self).header_comments,
            final(self).latest_release == old(self).latest_release,
            final(self).done == old(self).done,
    {
        self.ubx_settings.firmware = Some(version);
    }

    /// Keeps a comment for the header, up to the fixed limit.
    pub fn on_header_comment(&mut self, comment: String)
        requires
            old(self).wf(),
        ensures
            final(self).wf(),
            old(self).header_comments@.len() < 16 ==> final(self).header_comments@ == old(
                self,
            ).header_comments@.push(comment),
            old(self).header_comments@.len() >= 16 ==> final(self).header_comments == old(
                self,
            ).header_comments,
            final(self).first_epoch == old(self).first_epoch,
            final(self).epoch == old(self).epoch,
            final(self).header_released == old(self).header_released,
            final(self).settings == old(self).settings,
            final(self).ubx_settings == old(self).ubx_settings,
            final(self).latest_release == old(self).latest_release,
            final(self).done == old(self).done,
    {
        if self.header_comments.len() < 16 {
            self.header_comments.push(comment);
        }
    }

    /// Handles the shutdown notice: nothing is pending here, the collector
    /// just stops.
    pub fn on_shutdown(&mut self)
        requires
            old(self).wf(),
        ensures
            final(self).wf(),
            final(self).done,
            final(self).latest_release == old(self).latest_release,
            final(self).header_released == old(self).header_released,
    {
        self.done = true;
    }

    /// Renders the revision-dependent epoch line for one record.
    fn epoch_line(&self, sv: Sv, c: CivilDate) -> (r: String)
        requires
            1900 <= c.year,
        ensures
            r@ == spec_epoch_line(
                self.settings.major,
                self.ubx_settings.constellations@.len() == 1,
                sv,
                c,
            ),
    {
        proof {
            reveal_strlit("> EPH ");
            reveal_strlit(" LNAV\n");
            reveal_strlit(" ");
            reveal_strlit(".");
        }
        if self.settings.major == 4 {
            let mut s = String::from_str("> EPH ");
            let code = sv.code();
            s.append(code.as_str());
            s.append(" LNAV\n");
            s.append(code.as_str());
            let fields = Self::epoch_fields(c);
            s.append(fields.as_str());
            proof {
                assert(s@ =~= spec_epoch_line(
                    self.settings.major,
                    self.ubx_settings.constellations@.len() == 1,
                    sv,
                    c,
                ));
            }
            s
        } else if self.settings.major == 3 || self.ubx_settings.constellations.len() != 1 {
            let mut s = sv.code();
            let fields = Self::epoch_fields(c);
            s.append(fields.as_str());
            proof {
                assert(s@ =~= spec_epoch_line(
                    self.settings.major,
                    self.ubx_settings.constellations@.len() == 1,
                    sv,
                    c,
                ));
            }
            s
        } else {
            let mut s = pad2_string(sv.prn as u64);
            s.append(" ");
            let yy = Settings::short_year_string(c.year);
            s.append(yy.as_str());
            s.append(" ");
            let mo = pad2_string(c.month as u64);
            s.append(mo.as_str());
            s.append(" ");
            let dd = pad2_string(c.day as u64);
            s.append(dd.as_str());
            s.append(" ");
            let hh = pad2_string(c.hour as u64);
            s.append(hh.as_str());
            s.append(" ");
            let mm = pad2_string(c.minute as u64);
            s.append(mm.as_str());
            s.append(" ");
            let ss = pad2_space_string(c.second as u64);
            s.append(ss.as_str());
            s.append(".");
            let decis = dec_string((c.nanos / 100_000) as u64);
            s.append(decis.as_str());
            proof {
                assert(s@ =~= spec_epoch_line(
                    self.settings.major,
                    self.ubx_settings.constellations@.len() == 1,
                    sv,
                    c,
                ));
            }
            s
        }
    }

    /// Renders the shared date-and-time fields of an epoch line.
    fn epoch_fields(c: CivilDate) -> (r: String)
        requires
            1900 <= c.year,
        ensures
            r@ == spec_epoch_fields(c),
    {
        proof {
            reveal_strlit(" ");
        }
        let mut s = String::from_str(" ");
        let y = dec_string(c.year as u64);
        s.append(y.as_str());
        s.append(" ");
        let mo = pad2_string(c.month as u64);
        s.append(mo.as_str());
        s.append(" ");
        let dd = pad2_string(c.day as u64);
        s.append(dd.as_str());
        s.append(" ");
        let hh = pad2_string(c.hour as u64);
        s.append(hh.as_str());
        s.append(" ");
        let mm = pad2_string(c.minute as u64);
        s.append(mm.as_str());
        s.append(" ");
        let ss = pad2_string(c.second as u64);
        s.append(ss.as_str());
        proof {
            assert(s@ =~= spec_epoch_fields(c));
        }
        s
    }

    /// Builds the header plan for a run starting at `at`.
    fn build_header(&self, at: Epoch) -> (plan: NavHeaderPlan)
        ensures
            spec_nav_header_plan(
                plan,
                self.settings,
                self.ubx_settings,
                self.header_comments@,
                at,
            ),
    {
        let path = self.settings.filename(true, at);
        let constellation = if self.ubx_settings.constellations.len() == 1 {
            self.ubx_settings.constellations[0]
        } else {
            Constellation::Mixed
        };
        let mut comments = crate::observation::clone_strings(&self.header_comments);
        match &self.settings.header_comment {
            Some(c) => {
                comments.push(c.clone());
                proof {
                    assert(str_views(comments@) =~~= str_views(self.header_comments@) + seq![c@]);
                }
            },
            None => {
                proof {
                    assert(str_views(comments@) =~~= str_views(self.header_comments@)
                        + Seq::<Seq<char>>::empty());
                }
            },
        }
        NavHeaderPlan {
            path,
            gzip: self.settings.gzip,
            major: self.settings.major,
            constellation,
            comments,
            observer: crate::observation::clone_opt_string(&self.settings.operator),
            agency: crate::observation::clone_opt_string(&self.settings.agency),
        }
    }

    /// Looks up a satellite's last published epoch.
    fn find_latest(&self, sv: Sv) -> (r: Option<usize>)
        ensures
            r matches Some(i) ==> i < self.latest_release@.len() && self.latest_release@[
                i as int
            ].0 == sv && spec_lookup(self.latest_release@, sv) == Some(
                self.latest_release@[i as int].1,
            ) && (forall|t: int| 0 <= t < i ==> (#[trigger] self.latest_release@[t]).0 != sv),
            r is None ==> spec_lookup(self.latest_release@, sv) is None,
    {
        find_key(&self.latest_release, sv)
    }

    /// Handles one validated ephemeris; the full step relation is
    /// [`spec_ephemeris_step`].  The first ephemeris of the run plans the
    /// header, exactly once.  The record is planned for publication exactly
    /// when the republish gate passes; the satellite's map entry moves only
    /// when the caller reports the write back through
    /// [`Collecter::on_published`], so a failed write leaves the satellite
    /// to be retried next cycle.
    pub fn on_ephemeris(&mut self, epoch: Epoch, sv: Sv, record: EphemerisRecord) -> (r:
        NavOutcome)
        requires
            old(self).wf(),
            !old(self).done,
            epoch.nanos + spec_calendar_offset(epoch.scale) <= u64::MAX,
        ensures
            final(self).wf(),
            spec_ephemeris_step(*old(self), epoch, sv, record, *final(self), r),
    {
        if self.first_epoch.is_none() {
            self.first_epoch = Some(epoch);
        }
        let mut header: Option<NavHeaderPlan> = None;
        if !self.header_released {
            header = Some(self.build_header(epoch));
            self.header_released = true;
        }
        let found = self.find_latest(sv);
        let do_release: bool = match found {
            Some(i) => {
                let last = self.latest_release[i].1;
                epoch.nanos >= last.nanos && epoch.nanos - last.nanos
                    >= self.settings.nav_period.nanos
            },
            None => true,
        };
        let mut publish: Option<NavRecordPlan> = None;
        if do_release {
            let civil = epoch.to_gregorian();
            let line = self.epoch_line(sv, civil);
            proof {
                assert forall|c: CivilDate| #[trigger]
                    civil_of(epoch.nanos + spec_calendar_offset(epoch.scale), c)
                        implies line@ == spec_epoch_line(
                    self.settings.major,
                    self.ubx_settings.constellations@.len() == 1,
                    sv,
                    c,
                ) by {
                    crate::time::lemma_civil_unique(
                        epoch.nanos + spec_calendar_offset(epoch.scale),
                        c,
                        civil,
                    );
                }
            }
            publish = Some(NavRecordPlan { sv, epoch, epoch_line: line, record });
        }
        self.epoch = Some(epoch);
        NavOutcome { header, publish }
    }

    /// Records one successful publication: the satellite's gate entry
    /// advances to the published epoch, every other satellite's entry is
    /// untouched.  A formatting or write failure is recoverable: the caller
    /// simply does not report it, the map entry stays as it was, and the
    /// satellite is retried on its next ephemeris.
    pub fn on_published(&mut self, sv: Sv, epoch: Epoch)
        requires
            old(self).wf(),
        ensures
            final(self).wf(),
            forall|s: Sv|
                #[trigger] spec_lookup(final(self).latest_release@, s) == (if s == sv {
                    Some(epoch)
                } else {
                    spec_lookup(old(self).latest_release@, s)
                }),
            final(self).first_epoch == old(self).first_epoch,
            final(self).epoch == old(self).epoch,
            final(self).header_released == old(self).header_released,
            final(self).settings == old(self).settings,
            final(self).ubx_settings == old(self).ubx_settings,
            final(self).header_comments == old(self).header_comments,
            final(self).done == old(self).done,
    {
        match self.find_latest(sv) {
            Some(i) => {
                proof {
                    lemma_lookup_update(self.latest_release@, i as int, epoch, sv);
                    assert forall|s: Sv| s != sv implies #[trigger] spec_lookup(
                        self.latest_release@.update(i as int, (sv, epoch)),
                        s,
                    ) == spec_lookup(self.latest_release@, s) by {
                        lemma_lookup_update(self.latest_release@, i as int, epoch, s);
                    }
                }
                self.latest_release.set(i, (sv, epoch));
            },
            None => {
                proof {
                    assert forall|s: Sv| true implies #[trigger] spec_lookup(
                        self.latest_release@.push((sv, epoch)),
                        s,
                    ) == (if s == sv {
                        Some(epoch)
                    } else {
                        spec_lookup(self.latest_release@, s)
                    }) by {
                        lemma_lookup_push(self.latest_release@, (sv, epoch), s);
                    }
                    lemma_lookup_none(self.latest_release@, sv);
                }
                self.latest_release.push((sv, epoch));
            },
        }
    }
}

/// How one ephemeris takes the collector from `pre` to `post` with outcome
/// `r`: the header is planned exactly when none was planned yet; the
/// republish gate alone decides whether a record is planned; the map of
/// published epochs does not move here (only a reported publication moves
/// it); and the epochs are latched.
pub open spec fn spec_ephemeris_step(
    pre: Collecter,
    epoch: Epoch,
    sv: Sv,
    record: EphemerisRecord,
    post: Collecter,
    r: NavOutcome,
) -> bool {
    &&& (r.header is Some) == !pre.header_released
    &&& (r.header matches Some(h) ==> spec_nav_header_plan(
        h,
        pre.settings,
        pre.ubx_settings,
        pre.header_comments@,
        epoch,
    ))
    &&& post.header_released
    &&& (r.publish is Some) == spec_nav_gate(
        pre.latest_release@,
        sv,
        epoch,
        pre.settings.nav_period.nanos,
    )
    &&& (r.publish matches Some(p) ==> p.sv == sv && p.epoch == epoch && p.record == record && (
    forall|c: CivilDate|
        #[trigger] civil_of(epoch.nanos + spec_calendar_offset(epoch.scale), c) ==> p.epoch_line@
            == spec_epoch_line(
            pre.settings.major,
            pre.ubx_settings.constellations@.len() == 1,
            sv,
            c,
        )))
    &&& post.latest_release == pre.latest_release
    &&& post.epoch == Some(epoch)
    &&& post.first_epoch == (if pre.first_epoch is None {
        Some(epoch)
    } else {
        pre.first_epoch
    })
    &&& post.settings == pre.settings
    &&& post.ubx_settings == pre.ubx_settings
    &&& post.header_comments == pre.header_comments
    &&& post.done == pre.done
}

/// A run of the navigation collector over a sequence of ephemeris events:
/// `states` holds the collector's state before and after each event, every
/// state is well-formed, and each event steps as [`spec_ephemeris_step`]
/// says.
pub open spec fn spec_nav_run(
    events: Seq<(Epoch, Sv, EphemerisRecord)>,
    states: Seq<Collecter>,
    outs: Seq<NavOutcome>,
) -> bool {
    &&& states.len() == events.len() + 1
    &&& outs.len() == events.len()
    &&& (forall|i: int| 0 <= i < states.len() ==> (#[trigger] states[i]).wf())
    &&& (forall|i: int|
        0 <= i < events.len() ==> #[trigger] spec_ephemeris_step(
            states[i],
            events[i].0,
            events[i].1,
            events[i].2,
            states[i + 1],
            outs[i],
        ))
}

/// Header-once: over any run, only the very first ephemeris can plan the
/// header; every later step starts from a state whose header was already
/// planned, and plans none.
pub proof fn lemma_nav_header_once(
    events: Seq<(Epoch, Sv, EphemerisRecord)>,
    states: Seq<Collecter>,
    outs: Seq<NavOutcome>,
    j: int,
)
    requires
        spec_nav_run(events, states, outs),
        1 <= j < events.len(),
    ensures
        outs[j].header is None,
        states[j].header_released,
{
    let s = j - 1;
    assert(spec_ephemeris_step(
        states[s],
        events[s].0,
        events[s].1,
        events[s].2,
        states[s + 1],
        outs[s],
    ));
    assert(states[s + 1] == states[j]);
    assert(spec_ephemeris_step(
        states[j],
        events[j].0,
        events[j].1,
        events[j].2,
        states[j + 1],
        outs[j],
    ));
}

} // verus!
