//! Receiver-side settings and the signal-enabling plan derived from them.

use vstd::prelude::*;

use crate::signal::Constellation;
use crate::time::{Duration, TimeScale};

verus! {

/// Receiver settings: which message classes and constellations to enable,
/// the sampling rate, and hardware naming carried into headers.
#[derive(Debug, Clone)]
pub struct UbloxSettings {
    /// Track the first frequency band.
    pub l1: bool,
    /// Track the second frequency band.
    pub l2: bool,
    /// Track the fifth frequency band.
    pub l5: bool,
    /// Measurement sampling period.
    pub sampling_period: Duration,
    /// Collect raw measurements.
    pub rawxm: bool,
    /// Collect broadcast ephemerides.
    pub ephemeris: bool,
    /// Time scale the receiver aligns to.
    pub timescale: TimeScale,
    /// Constellations the user selected.
    pub constellations: Vec<Constellation>,
    /// Collect the receiver clock state.
    pub rx_clock: bool,
    /// Navigation solutions per measurement.
    pub solutions_ratio: u16,
    /// Serial number, when known.
    pub sn: Option<String>,
    /// Firmware version, once reported.
    pub firmware: Option<String>,
    /// Receiver model, when named.
    pub model: Option<String>,
    /// Antenna model, when named.
    pub antenna: Option<String>,
}

/// Which constellation signal groups the receiver is asked to enable; each
/// tag drives the matching group of configuration values.
#[derive(Debug, Clone, Copy, PartialEq, Eq, Structural)]
pub struct SignalPlan {
    /// GPS signals, with the QZSS service that shares them.
    pub gps: bool,
    /// Galileo signals.
    pub galileo: bool,
    /// QZSS's own signals.
    pub qzss: bool,
    /// Glonass signals.
    pub glonass: bool,
    /// BeiDou signals.
    pub beidou: bool,
}

/// Whether a selection names a constellation.
pub fn contains_constellation(v: &Vec<Constellation>, c: Constellation) -> (r: bool)
    ensures
        r == v@.contains(c),
{
    let mut i: usize = 0;
    while i < v.len()
        invariant
            i <= v@.len(),
            forall|k: int| 0 <= k < i ==> v@[k] != c,
        decreases v@.len() - i,
    {
        if v[i] == c {
            return true;
        }
        i = i + 1;
    }
    false
}

impl UbloxSettings {
    /// Derives which signal groups to enable from the selected
    /// constellations: the GPS group also serves QZSS, every other group
    /// follows its own constellation.
    pub fn signal_plan(&self) -> (r: SignalPlan)
        ensures
            r.gps == (self.constellations@.contains(Constellation::GPS)
                || self.constellations@.contains(Constellation::QZSS)),
            r.galileo == self.constellations@.contains(Constellation::Galileo),
            r.qzss == self.constellations@.contains(Constellation::QZSS),
            r.glonass == self.constellations@.contains(Constellation::Glonass),
            r.beidou == self.constellations@.contains(Constellation::BeiDou),
    {
        let gps = contains_constellation(&self.constellations, Constellation::GPS);
        let qzss = contains_constellation(&self.constellations, Constellation::QZSS);
        SignalPlan {
            gps: gps || qzss,
            galileo: contains_constellation(&self.constellations, Constellation::Galileo),
            qzss,
            glonass: contains_constellation(&self.constellations, Constellation::Glonass),
            beidou: contains_constellation(&self.constellations, Constellation::BeiDou),
        }
    }

    /// Measurement rate in milliseconds, as the receiver's configuration
    /// message carries it (truncated to its 16-bit field).
    pub fn measure_rate_ms(&self) -> (r: u16)
        ensures
            r == (self.sampling_period.nanos / 1_000_000) as u16,
    {
        #[verifier::truncate]
        let r: u16 = (self.sampling_period.nanos / 1_000_000) as u16;
        r
    }
}

} // verus!
