//! Building the active observable set.
//!
//! The selection of observables is derived once, centrally, from the chosen
//! constellations, the tracked frequency bands, and the measurement-kind
//! filters; the collectors then work against this fixed set rather than
//! filtering per measurement.

use vstd::prelude::*;

use crate::observation::{codes_view, str_views};
use crate::signal::{
    spec_doppler_observable, spec_phase_range_observable, spec_pseudo_range_observable,
    Constellation, SignalCarrier,
};

verus! {

/// The carriers of a constellation on the first frequency band.
pub open spec fn spec_l1_carriers(c: Constellation) -> Seq<SignalCarrier> {
    match c {
        Constellation::GPS => seq![SignalCarrier::GPS_L1_CA],
        Constellation::Galileo => seq![SignalCarrier::GAL_E1_C, SignalCarrier::GAL_E1_B],
        Constellation::BeiDou => seq![SignalCarrier::BDS_B1I_D1, SignalCarrier::BDS_B1I_D2],
        Constellation::SBAS => seq![SignalCarrier::SBAS_L1_CA],
        Constellation::QZSS => seq![SignalCarrier::QZSS_L1_CA, SignalCarrier::QZSS_L1_S],
        Constellation::Glonass => seq![SignalCarrier::GLO_L1_OF],
        _ => Seq::empty(),
    }
}

/// The carriers of a constellation on the second frequency band.
pub open spec fn spec_l2_carriers(c: Constellation) -> Seq<SignalCarrier> {
    match c {
        Constellation::GPS => seq![SignalCarrier::GPS_L2_CL, SignalCarrier::GPS_L2_CM],
        Constellation::BeiDou => seq![SignalCarrier::BDS_B2I_D1, SignalCarrier::BDS_B2I_D2],
        Constellation::QZSS => seq![SignalCarrier::QZSS_L2_CL, SignalCarrier::QZSS_L2_CM],
        Constellation::Glonass => seq![SignalCarrier::GLO_L2_OF],
        _ => Seq::empty(),
    }
}

/// The carriers of a constellation on the fifth frequency band.
pub open spec fn spec_l5_carriers(c: Constellation) -> Seq<SignalCarrier> {
    match c {
        Constellation::GPS => seq![SignalCarrier::GPS_L5_I, SignalCarrier::GPS_L5_Q],
        Constellation::QZSS => seq![SignalCarrier::QZSS_L5_I, SignalCarrier::QZSS_L5_Q],
        Constellation::IRNSS => seq![SignalCarrier::NAVIC_L5_A],
        _ => Seq::empty(),
    }
}

/// The observable codes one band contributes for a carrier list: the phase
/// codes of every carrier, then the pseudorange codes, then the Doppler
/// codes, each kind only when it is not filtered out.
pub open spec fn spec_block_observables(
    carriers: Seq<SignalCarrier>,
    v2: bool,
    no_phase: bool,
    no_pr: bool,
    no_dop: bool,
) -> Seq<Seq<char>> {
    (if no_phase {
        Seq::empty()
    } else {
        Seq::new(carriers.len(), |i: int| spec_phase_range_observable(carriers[i], v2))
    }) + (if no_pr {
        Seq::empty()
    } else {
        Seq::new(carriers.len(), |i: int| spec_pseudo_range_observable(carriers[i], v2))
    }) + (if no_dop {
        Seq::empty()
    } else {
        Seq::new(carriers.len(), |i: int| spec_doppler_observable(carriers[i], v2))
    })
}

/// The observable codes of one constellation: its carriers on each tracked
/// band, in band order.
pub open spec fn spec_constellation_observables(
    c: Constellation,
    l1: bool,
    l2: bool,
    l5: bool,
    v2: bool,
    no_phase: bool,
    no_pr: bool,
    no_dop: bool,
) -> Seq<Seq<char>> {
    (if l1 {
        spec_block_observables(spec_l1_carriers(c), v2, no_phase, no_pr, no_dop)
    } else {
        Seq::empty()
    }) + (if l2 {
        spec_block_observables(spec_l2_carriers(c), v2, no_phase, no_pr, no_dop)
    } else {
        Seq::empty()
    }) + (if l5 {
        spec_block_observables(spec_l5_carriers(c), v2, no_phase, no_pr, no_dop)
    } else {
        Seq::empty()
    })
}

/// The entry a constellation contributes to the active set: present exactly
/// when the constellation is selected and has any observables left.
pub open spec fn spec_observable_entry(
    selected: Seq<Constellation>,
    c: Constellation,
    l1: bool,
    l2: bool,
    l5: bool,
    v2: bool,
    no_phase: bool,
    no_pr: bool,
    no_dop: bool,
) -> Seq<(Constellation, Seq<Seq<char>>)> {
    let obs = spec_constellation_observables(c, l1, l2, l5, v2, no_phase, no_pr, no_dop);
    if selected.contains(c) && obs.len() > 0 {
        seq![(c, obs)]
    } else {
        Seq::empty()
    }
}

/// The active observable set: the selected constellations' codes, in the
/// fixed constellation order of the output grammar.
pub open spec fn spec_observables(
    selected: Seq<Constellation>,
    l1: bool,
    l2: bool,
    l5: bool,
    v2: bool,
    no_phase: bool,
    no_pr: bool,
    no_dop: bool,
) -> Seq<(Constellation, Seq<Seq<char>>)> {
    spec_observable_entry(selected, Constellation::GPS, l1, l2, l5, v2, no_phase, no_pr, no_dop)
        + spec_observable_entry(
        selected,
        Constellation::Galileo,
        l1,
        l2,
        l5,
        v2,
        no_phase,
        no_pr,
        no_dop,
    ) + spec_observable_entry(
        selected,
        Constellation::SBAS,
        l1,
        l2,
        l5,
        v2,
        no_phase,
        no_pr,
        no_dop,
    ) + spec_observable_entry(
        selected,
        Constellation::BeiDou,
        l1,
        l2,
        l5,
        v2,
        no_phase,
        no_pr,
        no_dop,
    ) + spec_observable_entry(
        selected,
        Constellation::QZSS,
        l1,
        l2,
        l5,
        v2,
        no_phase,
        no_pr,
        no_dop,
    ) + spec_observable_entry(
        selected,
        Constellation::Glonass,
        l1,
        l2,
        l5,
        v2,
        no_phase,
        no_pr,
        no_dop,
    ) + spec_observable_entry(
        selected,
        Constellation::IRNSS,
        l1,
        l2,
        l5,
        v2,
        no_phase,
        no_pr,
        no_dop,
    )
}

/// Appends one measurement kind's codes for every carrier.
fn push_kind(
    out: &mut Vec<String>,
    carriers: &Vec<SignalCarrier>,
    v2: bool,
    kind: u8,
)
    requires
        kind < 3,
    ensures
        str_views(final(out)@) == str_views(old(out)@) + Seq::new(
            carriers@.len(),
            |i: int|
                if kind == 0 {
                    spec_phase_range_observable(carriers@[i], v2)
                } else if kind == 1 {
                    spec_pseudo_range_observable(carriers@[i], v2)
                } else {
                    spec_doppler_observable(carriers@[i], v2)
                },
        ),
{
    let mut i: usize = 0;
    while i < carriers.len()
        invariant
            i <= carriers@.len(),
            kind < 3,
            out@.len() == old(out)@.len() + i,
            forall|j: int| 0 <= j < old(out)@.len() ==> out@[j]@ == old(out)@[j]@,
            forall|j: int|
                0 <= j < i ==> out@[old(out)@.len() + j]@ == (if kind == 0 {
                    spec_phase_range_observable(carriers@[j], v2)
                } else if kind == 1 {
                    spec_pseudo_range_observable(carriers@[j], v2)
                } else {
                    spec_doppler_observable(carriers@[j], v2)
                }),
        decreases carriers@.len() - i,
    {
        let code = if kind == 0 {
            carriers[i].to_phase_range_observable(v2)
        } else if kind == 1 {
            carriers[i].to_pseudo_range_observable(v2)
        } else {
            carriers[i].to_doppler_observable(v2)
        };
        out.push(code);
        i = i + 1;
    }
    proof {
        assert(str_views(out@) =~~= str_views(old(out)@) + Seq::new(
            carriers@.len(),
            |i: int|
                if kind == 0 {
                    spec_phase_range_observable(carriers@[i], v2)
                } else if kind == 1 {
                    spec_pseudo_range_observable(carriers@[i], v2)
                } else {
                    spec_doppler_observable(carriers@[i], v2)
                },
        ));
    }
}

/// Appends one band's codes: phase, pseudorange, then Doppler for every
/// carrier, each kind only when not filtered out.
fn push_block(
    out: &mut Vec<String>,
    carriers: &Vec<SignalCarrier>,
    v2: bool,
    no_phase: bool,
    no_pr: bool,
    no_dop: bool,
)
    ensures
        str_views(final(out)@) == str_views(old(out)@) + spec_block_observables(
            carriers@,
            v2,
            no_phase,
            no_pr,
            no_dop,
        ),
{
    if !no_phase {
        push_kind(out, carriers, v2, 0);
    }
    if !no_pr {
        push_kind(out, carriers, v2, 1);
    }
    if !no_dop {
        push_kind(out, carriers, v2, 2);
    }
    proof {
        assert(str_views(out@) =~~= str_views(old(out)@) + spec_block_observables(
            carriers@,
            v2,
            no_phase,
            no_pr,
            no_dop,
        ));
    }
}

/// The carriers of a constellation on the first band.
fn l1_carriers(c: Constellation) -> (r: Vec<SignalCarrier>)
    ensures
        r@ == spec_l1_carriers(c),
{
    let mut r: Vec<SignalCarrier> = Vec::new();
    match c {
        Constellation::GPS => {
            r.push(SignalCarrier::GPS_L1_CA);
        },
        Constellation::Galileo => {
            r.push(SignalCarrier::GAL_E1_C);
            r.push(SignalCarrier::GAL_E1_B);
        },
        Constellation::BeiDou => {
            r.push(SignalCarrier::BDS_B1I_D1);
            r.push(SignalCarrier::BDS_B1I_D2);
        },
        Constellation::SBAS => {
            r.push(SignalCarrier::SBAS_L1_CA);
        },
        Constellation::QZSS => {
            r.push(SignalCarrier::QZSS_L1_CA);
            r.push(SignalCarrier::QZSS_L1_S);
        },
        Constellation::Glonass => {
            r.push(SignalCarrier::GLO_L1_OF);
        },
        _ => {},
    }
    proof {
        assert(r@ =~= spec_l1_carriers(c));
    }
    r
}

/// The carriers of a constellation on the second band.
fn l2_carriers(c: Constellation) -> (r: Vec<SignalCarrier>)
    ensures
        r@ == spec_l2_carriers(c),
{
    let mut r: Vec<SignalCarrier> = Vec::new();
    match c {
        Constellation::GPS => {
            r.push(SignalCarrier::GPS_L2_CL);
            r.push(SignalCarrier::GPS_L2_CM);
        },
        Constellation::BeiDou => {
            r.push(SignalCarrier::BDS_B2I_D1);
            r.push(SignalCarrier::BDS_B2I_D2);
        },
        Constellation::QZSS => {
            r.push(SignalCarrier::QZSS_L2_CL);
            r.push(SignalCarrier::QZSS_L2_CM);
        },
        Constellation::Glonass => {
            r.push(SignalCarrier::GLO_L2_OF);
        },
        _ => {},
    }
    proof {
        assert(r@ =~= spec_l2_carriers(c));
    }
    r
}

/// The carriers of a constellation on the fifth band.
fn l5_carriers(c: Constellation) -> (r: Vec<SignalCarrier>)
    ensures
        r@ == spec_l5_carriers(c),
{
    let mut r: Vec<SignalCarrier> = Vec::new();
    match c {
        Constellation::GPS => {
            r.push(SignalCarrier::GPS_L5_I);
            r.push(SignalCarrier::GPS_L5_Q);
        },
        Constellation::QZSS => {
            r.push(SignalCarrier::QZSS_L5_I);
            r.push(SignalCarrier::QZSS_L5_Q);
        },
        Constellation::IRNSS => {
            r.push(SignalCarrier::NAVIC_L5_A);
        },
        _ => {},
    }
    proof {
        assert(r@ =~= spec_l5_carriers(c));
    }
    r
}

/// The observable codes of one constellation, over its tracked bands.
fn constellation_observables(
    c: Constellation,
    l1: bool,
    l2: bool,
    l5: bool,
    v2: bool,
    no_phase: bool,
    no_pr: bool,
    no_dop: bool,
) -> (r: Vec<String>)
    ensures
        str_views(r@) == spec_constellation_observables(c, l1, l2, l5, v2, no_phase, no_pr, no_dop),
{
    let mut r: Vec<String> = Vec::new();
    if l1 {
        let carriers = l1_carriers(c);
        push_block(&mut r, &carriers, v2, no_phase, no_pr, no_dop);
    }
    if l2 {
        let carriers = l2_carriers(c);
        push_block(&mut r, &carriers, v2, no_phase, no_pr, no_dop);
    }
    if l5 {
        let carriers = l5_carriers(c);
        push_block(&mut r, &carriers, v2, no_phase, no_pr, no_dop);
    }
    proof {
        assert(str_views(r@) =~~= spec_constellation_observables(
            c,
            l1,
            l2,
            l5,
            v2,
            no_phase,
            no_pr,
            no_dop,
        ));
    }
    r
}

/// Builds the active observable set for the selected constellations: each
/// selected constellation's codes over the tracked bands and the
/// measurement-kind filters, derived once for the whole run.
#[verifier::rlimit(100)]
pub fn build_observables(
    selected: &Vec<Constellation>,
    l1: bool,
    l2: bool,
    l5: bool,
    v2: bool,
    no_phase: bool,
    no_pr: bool,
    no_dop: bool,
) -> (r: Vec<(Constellation, Vec<String>)>)
    ensures
        codes_view(r@) == spec_observables(selected@, l1, l2, l5, v2, no_phase, no_pr, no_dop),
{
    let order: [Constellation; 7] = [
        Constellation::GPS,
        Constellation::Galileo,
        Constellation::SBAS,
        Constellation::BeiDou,
        Constellation::QZSS,
        Constellation::Glonass,
        Constellation::IRNSS,
    ];
    let mut r: Vec<(Constellation, Vec<String>)> = Vec::new();
    let mut k: usize = 0;
    while k < 7
        invariant
            k <= 7,
            order@ =~= seq![
                Constellation::GPS,
                Constellation::Galileo,
                Constellation::SBAS,
                Constellation::BeiDou,
                Constellation::QZSS,
                Constellation::Glonass,
                Constellation::IRNSS,
            ],
            codes_view(r@) =~= spec_observables_upto(
                selected@,
                order@,
                k as int,
                l1,
                l2,
                l5,
                v2,
                no_phase,
                no_pr,
                no_dop,
            ),
        decreases 7 - k,
    {
        let c = order[k];
        if crate::ubx::contains_constellation(selected, c) {
            let obs = constellation_observables(c, l1, l2, l5, v2, no_phase, no_pr, no_dop);
            if obs.len() > 0 {
                r.push((c, obs));
            }
        }
        proof {
            assert(codes_view(r@) =~= spec_observables_upto(
                selected@,
                order@,
                k + 1,
                l1,
                l2,
                l5,
                v2,
                no_phase,
                no_pr,
                no_dop,
            ));
        }
        k = k + 1;
    }
    proof {
        reveal_with_fuel(spec_observables_upto, 8);
        assert(spec_observables_upto(
            selected@,
            order@,
            7,
            l1,
            l2,
            l5,
            v2,
            no_phase,
            no_pr,
            no_dop,
        ) =~= spec_observables(selected@, l1, l2, l5, v2, no_phase, no_pr, no_dop));
    }
    r
}

/// The entries of the first `k` constellations of the fixed order.
pub open spec fn spec_observables_upto(
    selected: Seq<Constellation>,
    order: Seq<Constellation>,
    k: int,
    l1: bool,
    l2: bool,
    l5: bool,
    v2: bool,
    no_phase: bool,
    no_pr: bool,
    no_dop: bool,
) -> Seq<(Constellation, Seq<Seq<char>>)>
    decreases k,
{
    if k <= 0 {
        Seq::empty()
    } else {
        spec_observables_upto(selected, order, k - 1, l1, l2, l5, v2, no_phase, no_pr, no_dop)
            + spec_observable_entry(selected, order[k - 1], l1, l2, l5, v2, no_phase, no_pr, no_dop)
    }
}

} // verus!
