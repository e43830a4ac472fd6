//! Collection settings and output file naming.
//!
//! A file name is a pure function of the settings and of the epoch's
//! calendar date in universal time, so recomputing it within a collection
//! period always yields the same name.

use vstd::prelude::*;

use crate::signal::Constellation;
use crate::text::{dec_string, pad2_string, pad3_string, spec_dec, spec_pad2, spec_pad3};
use crate::time::{
    civil_of, lemma_civil_unique, scale_id, to_scale_of, CivilDate, Duration, Epoch, TimeScale,
};

verus! {

/// Which satellites take part in collection, by health word.
#[derive(Debug, Clone, Copy, PartialEq, Eq, Structural)]
pub enum HealthMask {
    /// No filtering.
    Any,
    /// Collection limited to healthy satellites only.
    HealthyOnly,
    /// Collection limited to un-healthy satellites only.
    UnhealthyOnly,
}

/// Collection settings: output revision, naming strings, periods, selected
/// observables and filters.  Immutable for a run.
#[derive(Debug, Clone)]
pub struct Settings {
    /// Release major version of the output grammar.
    pub major: u8,
    /// GZIP compression of the output files.
    pub gzip: bool,
    /// Compact observation representation.
    pub crinex: bool,
    /// Site name used in file names.
    pub name: String,
    /// Country code used in long file names.
    pub country: String,
    /// Snapshot period.
    pub period: Duration,
    /// Prefers the legacy short file name.
    pub short_filename: bool,
    /// Directory prefix for output files.
    pub prefix: Option<String>,
    /// Publishing agency named in the header.
    pub agency: Option<String>,
    /// Program operator named in the header.
    pub operator: Option<String>,
    /// Custom header comment.
    pub header_comment: Option<String>,
    /// Time scale of the output observations.
    pub timescale: TimeScale,
    /// Observable codes per constellation.
    pub observables: Vec<(Constellation, Vec<String>)>,
    /// Minimum period between two navigation messages of one satellite.
    pub nav_period: Duration,
    /// Satellite health filter.
    pub health_mask: HealthMask,
}

/// The file-period tag of the long name: the snapshot period classed into
/// the fixed grammar tags.
pub open spec fn spec_period_tag(period_nanos: int) -> Seq<char> {
    if period_nanos >= 31_557_600_000_000_000 {
        "O1Y"@
    } else if period_nanos > 3_600_000_000_000 && period_nanos <= 86_400_000_000_000 {
        "01D"@
    } else if period_nanos > 900_000_000_000 && period_nanos <= 3_600_000_000_000 {
        "01H"@
    } else if period_nanos > 300_000_000_000 && period_nanos <= 900_000_000_000 {
        "15M"@
    } else {
        "00U"@
    }
}

/// Two-digit year of the legacy short name: the year 2000 offset, signed
/// when the year precedes 2000.
pub open spec fn spec_short_year(year: int) -> Seq<char> {
    if year >= 2000 {
        spec_pad2(year - 2000)
    } else {
        seq!['-'] + spec_dec(2000 - year)
    }
}

/// Legacy short observation name: site, day of year, two-digit year, and a
/// type letter.
pub open spec fn spec_obs_v2_filename(
    name: Seq<char>,
    crinex: bool,
    gzip: bool,
    c: CivilDate,
) -> Seq<char> {
    name + spec_pad3(c.day_of_year as int) + seq!['.'] + spec_short_year(c.year as int) + (if crinex {
        seq!['D']
    } else {
        seq!['O']
    }) + (if gzip {
        ".gz"@
    } else {
        Seq::empty()
    })
}

/// Legacy short navigation name.
pub open spec fn spec_nav_v2_filename(name: Seq<char>, gzip: bool, c: CivilDate) -> Seq<char> {
    name + spec_pad3(c.day_of_year as int) + seq!['.'] + spec_short_year(c.year as int)
        + seq!['N'] + (if gzip {
        ".gz"@
    } else {
        Seq::empty()
    })
}

/// Stem of the long name: site, country, source tag, epoch stamp, period
/// and sampling-rate tags.
pub open spec fn spec_v3_stem(
    name: Seq<char>,
    country: Seq<char>,
    period_nanos: int,
    c: CivilDate,
) -> Seq<char> {
    name + country + "_R_"@ + spec_dec(c.year as int) + spec_pad3(c.day_of_year as int) + "0000_"@
        + spec_period_tag(period_nanos) + "_"@ + "30S"@
}

/// Long observation name: stem, observation tag and revision extension.
pub open spec fn spec_obs_v3_filename(
    name: Seq<char>,
    country: Seq<char>,
    period_nanos: int,
    crinex: bool,
    gzip: bool,
    c: CivilDate,
) -> Seq<char> {
    spec_v3_stem(name, country, period_nanos, c) + "_MO"@ + (if crinex {
        ".crx"@
    } else {
        ".rnx"@
    }) + (if gzip {
        ".gz"@
    } else {
        Seq::empty()
    })
}

/// Long navigation name: stem, navigation tag and extension.
pub open spec fn spec_nav_v3_filename(
    name: Seq<char>,
    country: Seq<char>,
    period_nanos: int,
    gzip: bool,
    c: CivilDate,
) -> Seq<char> {
    spec_v3_stem(name, country, period_nanos, c) + "_MN.rnx"@ + (if gzip {
        ".gz"@
    } else {
        Seq::empty()
    })
}

/// The file name the settings select for the given calendar date: short or
/// long, navigation or observation.
pub open spec fn spec_base_filename(s: Settings, is_nav: bool, c: CivilDate) -> Seq<char> {
    if s.short_filename {
        if is_nav {
            spec_nav_v2_filename(s.name@, s.gzip, c)
        } else {
            spec_obs_v2_filename(s.name@, s.crinex, s.gzip, c)
        }
    } else {
        if is_nav {
            spec_nav_v3_filename(s.name@, s.country@, s.period.nanos as int, s.gzip, c)
        } else {
            spec_obs_v3_filename(
                s.name@,
                s.country@,
                s.period.nanos as int,
                s.crinex,
                s.gzip,
                c,
            )
        }
    }
}

/// The full path: the base name under the directory prefix, when one is set.
pub open spec fn spec_filename(s: Settings, is_nav: bool, c: CivilDate) -> Seq<char> {
    match s.prefix {
        Some(p) => p@ + "/"@ + spec_base_filename(s, is_nav, c),
        None => spec_base_filename(s, is_nav, c),
    }
}

/// The instant `t` re-expressed in universal time.
pub open spec fn spec_utc_nanos(t: Epoch) -> u64 {
    to_scale_of(t.nanos, scale_id(t.scale), scale_id(TimeScale::Utc))
}

impl Settings {
    /// Renders the two-digit year field of the short name.
    pub fn short_year_string(year: u32) -> (r: String)
        requires
            1900 <= year,
        ensures
            r@ == spec_short_year(year as int),
    {
        if year >= 2000 {
            pad2_string((year - 2000) as u64)
        } else {
            let mut s = String::from_str("-");
            let d = dec_string((2000 - year) as u64);
            s.append(d.as_str());
            proof {
                reveal_strlit("-");
                assert(s@ =~= seq!['-'] + spec_dec(2000 - year));
            }
            s
        }
    }

    /// Renders the file-period tag of the long name.
    fn period_tag_string(&self) -> (r: String)
        ensures
            r@ == spec_period_tag(self.period.nanos as int),
    {
        let p = self.period.nanos;
        if p >= 31_557_600_000_000_000 {
            String::from_str("O1Y")
        } else if p > 3_600_000_000_000 && p <= 86_400_000_000_000 {
            String::from_str("01D")
        } else if p > 900_000_000_000 && p <= 3_600_000_000_000 {
            String::from_str("01H")
        } else if p > 300_000_000_000 && p <= 900_000_000_000 {
            String::from_str("15M")
        } else {
            String::from_str("00U")
        }
    }

    /// Derives the output file name for the given collection epoch: the
    /// name is determined by the settings and the epoch's calendar date in
    /// universal time alone, so it is the same every time it is recomputed.
    pub fn filename(&self, is_nav: bool, t: Epoch) -> (r: String)
        ensures
            forall|c: CivilDate|
                #[trigger] civil_of(spec_utc_nanos(t) as int, c) ==> r@ == spec_filename(
                    *self,
                    is_nav,
                    c,
                ),
    {
        let utc = t.to_time_scale(TimeScale::Utc);
        let c0 = utc.to_gregorian();
        let base = if self.short_filename {
            if is_nav {
                self.nav_v2_filename_at(c0)
            } else {
                self.obs_v2_filename_at(c0)
            }
        } else {
            if is_nav {
                self.nav_v3_filename_at(c0)
            } else {
                self.obs_v3_filename_at(c0)
            }
        };
        let r = match &self.prefix {
            Some(p) => {
                let mut s = p.clone();
                s.append("/");
                s.append(base.as_str());
                s
            },
            None => base,
        };
        proof {
            assert(r@ =~= spec_filename(*self, is_nav, c0));
            assert forall|c: CivilDate| #[trigger]
                civil_of(spec_utc_nanos(t) as int, c) implies r@ == spec_filename(
                *self,
                is_nav,
                c,
            ) by {
                lemma_civil_unique(spec_utc_nanos(t) as int, c, c0);
            }
        }
        r
    }

    /// Renders the legacy short observation name for a calendar date.
    fn obs_v2_filename_at(&self, c: CivilDate) -> (r: String)
        requires
            1900 <= c.year,
        ensures
            r@ == spec_obs_v2_filename(self.name@, self.crinex, self.gzip, c),
    {
        let mut s = self.name.clone();
        let doy = pad3_string(c.day_of_year as u64);
        s.append(doy.as_str());
        s.append(".");
        let yy = Self::short_year_string(c.year);
        s.append(yy.as_str());
        if self.crinex {
            s.append("D");
        } else {
            s.append("O");
        }
        if self.gzip {
            s.append(".gz");
        }
        proof {
            reveal_strlit(".");
            reveal_strlit("D");
            reveal_strlit("O");
            assert(s@ =~= spec_obs_v2_filename(self.name@, self.crinex, self.gzip, c));
        }
        s
    }

    /// Renders the legacy short navigation name for a calendar date.
    fn nav_v2_filename_at(&self, c: CivilDate) -> (r: String)
        requires
            1900 <= c.year,
        ensures
            r@ == spec_nav_v2_filename(self.name@, self.gzip, c),
    {
        let mut s = self.name.clone();
        let doy = pad3_string(c.day_of_year as u64);
        s.append(doy.as_str());
        s.append(".");
        let yy = Self::short_year_string(c.year);
        s.append(yy.as_str());
        s.append("N");
        if self.gzip {
            s.append(".gz");
        }
        proof {
            reveal_strlit(".");
            reveal_strlit("N");
            assert(s@ =~= spec_nav_v2_filename(self.name@, self.gzip, c));
        }
        s
    }

    /// Renders the stem of the long name for a calendar date.
    fn v3_stem_at(&self, c: CivilDate) -> (r: String)
        ensures
            r@ == spec_v3_stem(self.name@, self.country@, self.period.nanos as int, c),
    {
        let mut s = self.name.clone();
        s.append(self.country.as_str());
        s.append("_R_");
        let y = dec_string(c.year as u64);
        s.append(y.as_str());
        let doy = pad3_string(c.day_of_year as u64);
        s.append(doy.as_str());
        s.append("0000_");
        let tag = self.period_tag_string();
        s.append(tag.as_str());
        s.append("_");
        s.append("30S");
        proof {
            assert(s@ =~= spec_v3_stem(self.name@, self.country@, self.period.nanos as int, c));
        }
        s
    }

    /// Renders the long observation name for a calendar date.
    fn obs_v3_filename_at(&self, c: CivilDate) -> (r: String)
        ensures
            r@ == spec_obs_v3_filename(
                self.name@,
                self.country@,
                self.period.nanos as int,
                self.crinex,
                self.gzip,
                c,
            ),
    {
        let mut s = self.v3_stem_at(c);
        s.append("_MO");
        if self.crinex {
            s.append(".crx");
        } else {
            s.append(".rnx");
        }
        if self.gzip {
            s.append(".gz");
        }
        proof {
            assert(s@ =~= spec_obs_v3_filename(
                self.name@,
                self.country@,
                self.period.nanos as int,
                self.crinex,
                self.gzip,
                c,
            ));
        }
        s
    }

    /// Renders the long navigation name for a calendar date.
    fn nav_v3_filename_at(&self, c: CivilDate) -> (r: String)
        ensures
            r@ == spec_nav_v3_filename(
                self.name@,
                self.country@,
                self.period.nanos as int,
                self.gzip,
                c,
            ),
    {
        let mut s = self.v3_stem_at(c);
        s.append("_MN.rnx");
        if self.gzip {
            s.append(".gz");
        }
        proof {
            assert(s@ =~= spec_nav_v3_filename(
                self.name@,
                self.country@,
                self.period.nanos as int,
                self.gzip,
                c,
            ));
        }
        s
    }
}

} // verus!
