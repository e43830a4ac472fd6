//! Messages handed from the decode loop to the collectors.

use vstd::prelude::*;

use crate::ephemeris::EphemerisRecord;
use crate::signal::Sv;
use crate::time::Epoch;

verus! {

/// One normalized raw measurement: a satellite's pseudorange, carrier phase
/// and Doppler at one instant, with real values carried as their 64-bit
/// encodings.
#[derive(Debug, Clone, Copy, PartialEq, Eq, Structural)]
pub struct Rawxm {
    /// Instant of the observation, in the configured output time scale.
    pub epoch: Epoch,
    pub sv: Sv,
    /// Receiver channel the signal was tracked on.
    pub freq_id: u8,
    /// Pseudorange, as encoded 64-bit real.
    pub pr_bits: u64,
    /// Carrier phase, as encoded 64-bit real.
    pub cp_bits: u64,
    /// Doppler, as encoded 64-bit real.
    pub dop_bits: u64,
    /// Carrier-to-noise ratio.
    pub cno: u8,
}

/// What the decode loop sends to a collector.
#[derive(Debug, Clone)]
pub enum Message {
    /// Graceful end of the run: flush what is pending, then stop.
    Shutdown,
    /// The receiver announced the end of a navigation epoch.
    EndOfEpoch(Epoch),
    /// New receiver clock bias, in seconds, as encoded 64-bit real.
    Clock(u64),
    /// New raw measurement.
    Measurement(Rawxm),
    /// Firmware version reported by the receiver.
    FirmwareVersion(String),
    /// A comment to carry into the file header.
    HeaderComment(String),
    /// A completed, validated ephemeris for one satellite.
    Ephemeris(Epoch, Sv, EphemerisRecord),
}

/// The messages one firmware-version report fans out to the observation
/// collector: the software version itself, then header comments naming the
/// hardware version and the protocol extensions.
pub fn mon_ver_messages(software: String, hardware: &str, extensions: &str) -> (r: Vec<Message>)
    ensures
        r@.len() == 3,
        r@[0] matches Message::FirmwareVersion(s) && s@ == software@,
        r@[1] matches Message::HeaderComment(c) && c@ == "UBlox hardware version: "@ + hardware@,
        r@[2] matches Message::HeaderComment(c) && c@ == "UBlox protocol: "@ + extensions@,
{
    let mut hw = String::from_str("UBlox hardware version: ");
    hw.append(hardware);
    let mut proto = String::from_str("UBlox protocol: ");
    proto.append(extensions);
    let mut r: Vec<Message> = Vec::new();
    r.push(Message::FirmwareVersion(software));
    r.push(Message::HeaderComment(hw));
    r.push(Message::HeaderComment(proto));
    r
}

} // verus!
