//! Constellations, satellite identities and signal carriers, with the
//! observable codes each carrier maps to in both generations of the output
//! grammar.

use vstd::prelude::*;

verus! {

/// A satellite constellation, or the mixed marker used in file headers.
#[derive(Debug, Clone, Copy, PartialEq, Eq, Structural)]
pub enum Constellation {
    GPS,
    SBAS,
    Galileo,
    BeiDou,
    QZSS,
    Glonass,
    IRNSS,
    Mixed,
}

/// Constellation designated by a receiver constellation identifier, if any.
pub open spec fn spec_constellation_of(id: u8) -> Option<Constellation> {
    if id == 0 {
        Some(Constellation::GPS)
    } else if id == 1 {
        Some(Constellation::SBAS)
    } else if id == 2 {
        Some(Constellation::Galileo)
    } else if id == 3 {
        Some(Constellation::BeiDou)
    } else if id == 5 {
        Some(Constellation::QZSS)
    } else if id == 6 {
        Some(Constellation::Glonass)
    } else if id == 7 {
        Some(Constellation::IRNSS)
    } else {
        None
    }
}

/// Receiver identifier of a constellation.
pub open spec fn spec_constellation_id(c: Constellation) -> u8 {
    match c {
        Constellation::SBAS => 1,
        Constellation::Galileo => 2,
        Constellation::BeiDou => 3,
        Constellation::QZSS => 5,
        Constellation::Glonass => 6,
        Constellation::IRNSS => 7,
        _ => 0,
    }
}

/// Single-letter constellation code of the output grammar.
pub open spec fn spec_constellation_letter(c: Constellation) -> char {
    match c {
        Constellation::GPS => 'G',
        Constellation::SBAS => 'S',
        Constellation::Galileo => 'E',
        Constellation::BeiDou => 'C',
        Constellation::QZSS => 'J',
        Constellation::Glonass => 'R',
        Constellation::IRNSS => 'I',
        Constellation::Mixed => 'M',
    }
}

/// Maps a receiver constellation identifier to a constellation; identifiers
/// outside the fixed table are unrecognized.
pub fn to_constellation(id: u8) -> (r: Option<Constellation>)
    ensures
        r == spec_constellation_of(id),
{
    match id {
        0 => Some(Constellation::GPS),
        1 => Some(Constellation::SBAS),
        2 => Some(Constellation::Galileo),
        3 => Some(Constellation::BeiDou),
        5 => Some(Constellation::QZSS),
        6 => Some(Constellation::Glonass),
        7 => Some(Constellation::IRNSS),
        _ => None,
    }
}

/// Maps a constellation back to its receiver identifier.
pub fn from_constellation(constellation: &Constellation) -> (r: u8)
    ensures
        r == spec_constellation_id(*constellation),
{
    match constellation {
        Constellation::SBAS => 1,
        Constellation::Galileo => 2,
        Constellation::BeiDou => 3,
        Constellation::QZSS => 5,
        Constellation::Glonass => 6,
        Constellation::IRNSS => 7,
        _ => 0,
    }
}

impl Constellation {
    /// Whether this is the geostationary augmentation service.
    pub fn is_sbas(&self) -> (r: bool)
        ensures
            r == (*self == Constellation::SBAS),
    {
        matches!(self, Constellation::SBAS)
    }
}

/// A satellite: its constellation and its number within it.
#[derive(Debug, Clone, Copy, PartialEq, Eq, Structural)]
pub struct Sv {
    pub constellation: Constellation,
    pub prn: u8,
}

impl Sv {
    /// Builds a satellite identity.
    pub fn new(constellation: Constellation, prn: u8) -> (r: Sv)
        ensures
            r.constellation == constellation,
            r.prn == prn,
    {
        Sv { constellation, prn }
    }
}

/// The satellite code of the output grammar: the constellation letter
/// followed by the two-digit satellite number.
pub open spec fn spec_sv_code(sv: Sv) -> Seq<char> {
    seq![spec_constellation_letter(sv.constellation)] + crate::text::spec_pad2(sv.prn as int)
}

impl Sv {
    /// Renders this satellite's code: constellation letter, then the
    /// two-digit satellite number.
    pub fn code(&self) -> (r: String)
        ensures
            r@ == spec_sv_code(*self),
    {
        proof {
            reveal_strlit("G");
            reveal_strlit("S");
            reveal_strlit("E");
            reveal_strlit("C");
            reveal_strlit("J");
            reveal_strlit("R");
            reveal_strlit("I");
            reveal_strlit("M");
        }
        let mut s = match self.constellation {
            Constellation::GPS => String::from_str("G"),
            Constellation::SBAS => String::from_str("S"),
            Constellation::Galileo => String::from_str("E"),
            Constellation::BeiDou => String::from_str("C"),
            Constellation::QZSS => String::from_str("J"),
            Constellation::Glonass => String::from_str("R"),
            Constellation::IRNSS => String::from_str("I"),
            Constellation::Mixed => String::from_str("M"),
        };
        let prn = crate::text::pad2_string(self.prn as u64);
        s.append(prn.as_str());
        proof {
            assert(s@ =~= spec_sv_code(*self));
        }
        s
    }
}

/// A signal carrier tracked by the receiver, as (constellation, channel).
#[allow(non_camel_case_types)]
#[derive(Debug, Clone, Copy, PartialEq, Eq, Structural)]
pub enum SignalCarrier {
    GPS_L1_CA,
    GPS_L2_CL,
    GPS_L2_CM,
    GPS_L5_I,
    GPS_L5_Q,
    SBAS_L1_CA,
    GAL_E1_C,
    GAL_E1_B,
    GAL_E5A_I,
    GAL_E5A_Q,
    GAL_E5B_I,
    GAL_E5B_Q,
    BDS_B1I_D1,
    BDS_B1I_D2,
    BDS_B2I_D1,
    BDS_B2I_D2,
    BDS_B1C,
    BDS_B2A,
    QZSS_L1_CA,
    QZSS_L1_S,
    QZSS_L2_CM,
    QZSS_L2_CL,
    QZSS_L5_I,
    QZSS_L5_Q,
    GLO_L1_OF,
    GLO_L2_OF,
    NAVIC_L5_A,
}

/// Carrier designated by a receiver (constellation, channel) pair;
/// unknown pairs fall back to the primary civil carrier.
pub open spec fn spec_carrier_of(constell_id: u8, freq_id: u8) -> SignalCarrier {
    if constell_id == 0 && freq_id == 3 {
        SignalCarrier::GPS_L2_CL
    } else if constell_id == 0 && freq_id == 4 {
        SignalCarrier::GPS_L2_CM
    } else if constell_id == 0 && freq_id == 6 {
        SignalCarrier::GPS_L5_I
    } else if constell_id == 0 && freq_id == 7 {
        SignalCarrier::GPS_L5_Q
    } else if constell_id == 1 && freq_id == 0 {
        SignalCarrier::SBAS_L1_CA
    } else if constell_id == 2 && freq_id == 0 {
        SignalCarrier::GAL_E1_C
    } else if constell_id == 2 && freq_id == 1 {
        SignalCarrier::GAL_E1_B
    } else if constell_id == 2 && freq_id == 3 {
        SignalCarrier::GAL_E5A_I
    } else if constell_id == 2 && freq_id == 4 {
        SignalCarrier::GAL_E5A_Q
    } else if constell_id == 2 && freq_id == 5 {
        SignalCarrier::GAL_E5B_I
    } else if constell_id == 2 && freq_id == 6 {
        SignalCarrier::GAL_E5B_Q
    } else if constell_id == 3 && freq_id == 0 {
        SignalCarrier::BDS_B1I_D1
    } else if constell_id == 3 && freq_id == 1 {
        SignalCarrier::BDS_B1I_D2
    } else if constell_id == 3 && freq_id == 2 {
        SignalCarrier::BDS_B2I_D1
    } else if constell_id == 3 && freq_id == 3 {
        SignalCarrier::BDS_B2I_D2
    } else if constell_id == 3 && freq_id == 5 {
        SignalCarrier::BDS_B1C
    } else if constell_id == 3 && freq_id == 7 {
        SignalCarrier::BDS_B2A
    } else if constell_id == 5 && freq_id == 0 {
        SignalCarrier::QZSS_L1_CA
    } else if constell_id == 5 && freq_id == 1 {
        SignalCarrier::QZSS_L1_S
    } else if constell_id == 5 && freq_id == 4 {
        SignalCarrier::QZSS_L2_CM
    } else if constell_id == 5 && freq_id == 5 {
        SignalCarrier::QZSS_L2_CL
    } else if constell_id == 5 && freq_id == 8 {
        SignalCarrier::QZSS_L5_I
    } else if constell_id == 5 && freq_id == 9 {
        SignalCarrier::QZSS_L5_Q
    } else if constell_id == 6 && freq_id == 0 {
        SignalCarrier::GLO_L1_OF
    } else if constell_id == 6 && freq_id == 2 {
        SignalCarrier::GLO_L2_OF
    } else if constell_id == 7 && freq_id == 0 {
        SignalCarrier::NAVIC_L5_A
    } else {
        SignalCarrier::GPS_L1_CA
    }
}

pub open spec fn spec_pseudo_range_observable(s: SignalCarrier, v2: bool) -> Seq<char> {
    if v2 {
        match s {
            SignalCarrier::GPS_L1_CA | SignalCarrier::SBAS_L1_CA | SignalCarrier::GAL_E1_C | SignalCarrier::GAL_E1_B | SignalCarrier::QZSS_L1_CA | SignalCarrier::GLO_L1_OF | SignalCarrier::BDS_B1I_D1 | SignalCarrier::BDS_B1I_D2 | SignalCarrier::BDS_B2I_D1 | SignalCarrier::BDS_B2I_D2 => "C1"@,
            SignalCarrier::GPS_L2_CL | SignalCarrier::GPS_L2_CM | SignalCarrier::QZSS_L2_CM | SignalCarrier::QZSS_L2_CL | SignalCarrier::GLO_L2_OF => "C2"@,
            SignalCarrier::GPS_L5_I | SignalCarrier::GPS_L5_Q | SignalCarrier::GAL_E5A_I | SignalCarrier::GAL_E5A_Q | SignalCarrier::QZSS_L5_I | SignalCarrier::QZSS_L5_Q | SignalCarrier::NAVIC_L5_A => "C5"@,
            SignalCarrier::GAL_E5B_I | SignalCarrier::GAL_E5B_Q => "C7"@,
            _ => "C1"@,
        }
    } else {
        match s {
            SignalCarrier::GPS_L1_CA => "C1C"@,
            SignalCarrier::GPS_L2_CL => "C2L"@,
            SignalCarrier::GPS_L2_CM => "C2S"@,
            SignalCarrier::GPS_L5_I => "C5I"@,
            SignalCarrier::GPS_L5_Q => "C5Q"@,
            SignalCarrier::SBAS_L1_CA => "C1C"@,
            SignalCarrier::GAL_E1_C => "C1C"@,
            SignalCarrier::GAL_E1_B => "C1B"@,
            SignalCarrier::GAL_E5A_I => "C5I"@,
            SignalCarrier::GAL_E5A_Q => "C5Q"@,
            SignalCarrier::GAL_E5B_I => "C7I"@,
            SignalCarrier::GAL_E5B_Q => "C7Q"@,
            SignalCarrier::BDS_B1I_D1 => "C2I"@,
            SignalCarrier::BDS_B1I_D2 => "C1D"@,
            SignalCarrier::BDS_B2I_D1 => "C5D"@,
            SignalCarrier::BDS_B2I_D2 => "C7I"@,
            SignalCarrier::BDS_B1C => "C5D"@,
            SignalCarrier::BDS_B2A => "C5D"@,
            SignalCarrier::QZSS_L1_CA => "C1C"@,
            SignalCarrier::QZSS_L1_S => "C1Z"@,
            SignalCarrier::QZSS_L2_CM => "C2S"@,
            SignalCarrier::QZSS_L2_CL => "C2L"@,
            SignalCarrier::QZSS_L5_I => "C5I"@,
            SignalCarrier::QZSS_L5_Q => "C5Q"@,
            SignalCarrier::GLO_L1_OF => "C1C"@,
            SignalCarrier::GLO_L2_OF => "C2C"@,
            SignalCarrier::NAVIC_L5_A => "C1C"@,
        }
    }
}

pub open spec fn spec_phase_range_observable(s: SignalCarrier, v2: bool) -> Seq<char> {
    if v2 {
        match s {
            SignalCarrier::GPS_L1_CA | SignalCarrier::SBAS_L1_CA | SignalCarrier::GAL_E1_C | SignalCarrier::GAL_E1_B | SignalCarrier::QZSS_L1_CA | SignalCarrier::GLO_L1_OF | SignalCarrier::BDS_B1I_D1 | SignalCarrier::BDS_B1I_D2 | SignalCarrier::BDS_B2I_D1 | SignalCarrier::BDS_B2I_D2 => "L1"@,
            SignalCarrier::GPS_L2_CL | SignalCarrier::GPS_L2_CM | SignalCarrier::QZSS_L2_CM | SignalCarrier::QZSS_L2_CL | SignalCarrier::GLO_L2_OF => "L2"@,
            SignalCarrier::GPS_L5_I | SignalCarrier::GPS_L5_Q | SignalCarrier::GAL_E5A_I | SignalCarrier::GAL_E5A_Q | SignalCarrier::QZSS_L5_I | SignalCarrier::QZSS_L5_Q | SignalCarrier::NAVIC_L5_A => "L5"@,
            SignalCarrier::GAL_E5B_I | SignalCarrier::GAL_E5B_Q => "L7"@,
            _ => "L1"@,
        }
    } else {
        match s {
            SignalCarrier::GPS_L1_CA => "L1C"@,
            SignalCarrier::GPS_L2_CL => "L2L"@,
            SignalCarrier::GPS_L2_CM => "L2S"@,
            SignalCarrier::GPS_L5_I => "L5I"@,
            SignalCarrier::GPS_L5_Q => "L5Q"@,
            SignalCarrier::SBAS_L1_CA => "L1C"@,
            SignalCarrier::GAL_E1_C => "L1C"@,
            SignalCarrier::GAL_E1_B => "L1B"@,
            SignalCarrier::GAL_E5A_I => "L5I"@,
            SignalCarrier::GAL_E5A_Q => "L5Q"@,
            SignalCarrier::GAL_E5B_I => "L7I"@,
            SignalCarrier::GAL_E5B_Q => "L7Q"@,
            SignalCarrier::BDS_B1I_D1 => "L1I"@,
            SignalCarrier::BDS_B1I_D2 => "L1D"@,
            SignalCarrier::BDS_B2I_D1 => "L1C"@,
            SignalCarrier::BDS_B2I_D2 => "L1C"@,
            SignalCarrier::BDS_B1C => "L1C"@,
            SignalCarrier::BDS_B2A => "L5D"@,
            SignalCarrier::QZSS_L1_CA => "L1C"@,
            SignalCarrier::QZSS_L1_S => "L1Z"@,
            SignalCarrier::QZSS_L2_CM => "L2S"@,
            SignalCarrier::QZSS_L2_CL => "L2L"@,
            SignalCarrier::QZSS_L5_I => "L5I"@,
            SignalCarrier::QZSS_L5_Q => "L5Q"@,
            SignalCarrier::GLO_L1_OF => "L1C"@,
            SignalCarrier::GLO_L2_OF => "L2C"@,
            SignalCarrier::NAVIC_L5_A => "L1C"@,
        }
    }
}

pub open spec fn spec_doppler_observable(s: SignalCarrier, v2: bool) -> Seq<char> {
    if v2 {
        match s {
            SignalCarrier::GPS_L1_CA | SignalCarrier::SBAS_L1_CA | SignalCarrier::GAL_E1_C | SignalCarrier::GAL_E1_B | SignalCarrier::QZSS_L1_CA | SignalCarrier::GLO_L1_OF | SignalCarrier::BDS_B1I_D1 | SignalCarrier::BDS_B1I_D2 | SignalCarrier::BDS_B2I_D1 | SignalCarrier::BDS_B2I_D2 => "D1"@,
            SignalCarrier::GPS_L2_CL | SignalCarrier::GPS_L2_CM | SignalCarrier::QZSS_L2_CM | SignalCarrier::QZSS_L2_CL | SignalCarrier::GLO_L2_OF => "D2"@,
            SignalCarrier::GPS_L5_I | SignalCarrier::GPS_L5_Q | SignalCarrier::GAL_E5A_I | SignalCarrier::GAL_E5A_Q | SignalCarrier::QZSS_L5_I | SignalCarrier::QZSS_L5_Q | SignalCarrier::NAVIC_L5_A => "D5"@,
            SignalCarrier::GAL_E5B_I | SignalCarrier::GAL_E5B_Q => "D7"@,
            _ => "D1"@,
        }
    } else {
        match s {
            SignalCarrier::GPS_L1_CA => "D1C"@,
            SignalCarrier::GPS_L2_CL => "D2L"@,
            SignalCarrier::GPS_L2_CM => "D2S"@,
            SignalCarrier::GPS_L5_I => "D5I"@,
            SignalCarrier::GPS_L5_Q => "D5Q"@,
            SignalCarrier::SBAS_L1_CA => "D1C"@,
            SignalCarrier::GAL_E1_C => "D1C"@,
            SignalCarrier::GAL_E1_B => "D1B"@,
            SignalCarrier::GAL_E5A_I => "D5I"@,
            SignalCarrier::GAL_E5A_Q => "D5Q"@,
            SignalCarrier::GAL_E5B_I => "D7I"@,
            SignalCarrier::GAL_E5B_Q => "D7Q"@,
            SignalCarrier::BDS_B1I_D1 => "D1I"@,
            SignalCarrier::BDS_B1I_D2 => "D1D"@,
            SignalCarrier::BDS_B2I_D1 => "D1C"@,
            SignalCarrier::BDS_B2I_D2 => "D1C"@,
            SignalCarrier::BDS_B1C => "D1C"@,
            SignalCarrier::BDS_B2A => "D5D"@,
            SignalCarrier::QZSS_L1_CA => "D1C"@,
            SignalCarrier::QZSS_L1_S => "D1Z"@,
            SignalCarrier::QZSS_L2_CM => "D2S"@,
            SignalCarrier::QZSS_L2_CL => "D2L"@,
            SignalCarrier::QZSS_L5_I => "D5I"@,
            SignalCarrier::QZSS_L5_Q => "D5Q"@,
            SignalCarrier::GLO_L1_OF => "D1C"@,
            SignalCarrier::GLO_L2_OF => "D2C"@,
            SignalCarrier::NAVIC_L5_A => "D1C"@,
        }
    }
}

pub open spec fn spec_ssi_observable(s: SignalCarrier, v2: bool) -> Seq<char> {
    if v2 {
        match s {
            SignalCarrier::GPS_L1_CA | SignalCarrier::SBAS_L1_CA | SignalCarrier::GAL_E1_C | SignalCarrier::GAL_E1_B | SignalCarrier::QZSS_L1_CA | SignalCarrier::GLO_L1_OF | SignalCarrier::BDS_B1I_D1 | SignalCarrier::BDS_B1I_D2 | SignalCarrier::BDS_B2I_D1 | SignalCarrier::BDS_B2I_D2 => "S1"@,
            SignalCarrier::GPS_L2_CL | SignalCarrier::GPS_L2_CM | SignalCarrier::QZSS_L2_CM | SignalCarrier::QZSS_L2_CL | SignalCarrier::GLO_L2_OF => "S2"@,
            SignalCarrier::GPS_L5_I | SignalCarrier::GPS_L5_Q | SignalCarrier::GAL_E5A_I | SignalCarrier::GAL_E5A_Q | SignalCarrier::QZSS_L5_I | SignalCarrier::QZSS_L5_Q | SignalCarrier::NAVIC_L5_A => "S5"@,
            SignalCarrier::GAL_E5B_I | SignalCarrier::GAL_E5B_Q => "S7"@,
            _ => "S1"@,
        }
    } else {
        match s {
            SignalCarrier::GPS_L1_CA => "S1C"@,
            SignalCarrier::GPS_L2_CL => "S2L"@,
            SignalCarrier::GPS_L2_CM => "S2S"@,
            SignalCarrier::GPS_L5_I => "S5I"@,
            SignalCarrier::GPS_L5_Q => "S5Q"@,
            SignalCarrier::SBAS_L1_CA => "S1C"@,
            SignalCarrier::GAL_E1_C => "S1C"@,
            SignalCarrier::GAL_E1_B => "S1B"@,
            SignalCarrier::GAL_E5A_I => "S5I"@,
            SignalCarrier::GAL_E5A_Q => "S5Q"@,
            SignalCarrier::GAL_E5B_I => "S7I"@,
            SignalCarrier::GAL_E5B_Q => "S7Q"@,
            SignalCarrier::BDS_B1I_D1 => "S1I"@,
            SignalCarrier::BDS_B1I_D2 => "S1D"@,
            SignalCarrier::BDS_B2I_D1 => "S5D"@,
            SignalCarrier::BDS_B2I_D2 => "S7I"@,
            SignalCarrier::BDS_B1C => "S1C"@,
            SignalCarrier::BDS_B2A => "S5D"@,
            SignalCarrier::QZSS_L1_CA => "S1C"@,
            SignalCarrier::QZSS_L1_S => "S1Z"@,
            SignalCarrier::QZSS_L2_CM => "S2S"@,
            SignalCarrier::QZSS_L2_CL => "S2L"@,
            SignalCarrier::QZSS_L5_I => "S5I"@,
            SignalCarrier::QZSS_L5_Q => "S5Q"@,
            SignalCarrier::GLO_L1_OF => "S1C"@,
            SignalCarrier::GLO_L2_OF => "S2C"@,
            SignalCarrier::NAVIC_L5_A => "S1C"@,
        }
    }
}

impl SignalCarrier {
    /// Maps a receiver (constellation, channel) pair to a carrier.
    pub fn from_ubx(constell_id: u8, freq_id: u8) -> (r: SignalCarrier)
        ensures
            r == spec_carrier_of(constell_id, freq_id),
    {
        match (constell_id, freq_id) {
            (0, 3) => SignalCarrier::GPS_L2_CL,
            (0, 4) => SignalCarrier::GPS_L2_CM,
            (0, 6) => SignalCarrier::GPS_L5_I,
            (0, 7) => SignalCarrier::GPS_L5_Q,
            (1, 0) => SignalCarrier::SBAS_L1_CA,
            (2, 0) => SignalCarrier::GAL_E1_C,
            (2, 1) => SignalCarrier::GAL_E1_B,
            (2, 3) => SignalCarrier::GAL_E5A_I,
            (2, 4) => SignalCarrier::GAL_E5A_Q,
            (2, 5) => SignalCarrier::GAL_E5B_I,
            (2, 6) => SignalCarrier::GAL_E5B_Q,
            (3, 0) => SignalCarrier::BDS_B1I_D1,
            (3, 1) => SignalCarrier::BDS_B1I_D2,
            (3, 2) => SignalCarrier::BDS_B2I_D1,
            (3, 3) => SignalCarrier::BDS_B2I_D2,
            (3, 5) => SignalCarrier::BDS_B1C,
            (3, 7) => SignalCarrier::BDS_B2A,
            (5, 0) => SignalCarrier::QZSS_L1_CA,
            (5, 1) => SignalCarrier::QZSS_L1_S,
            (5, 4) => SignalCarrier::QZSS_L2_CM,
            (5, 5) => SignalCarrier::QZSS_L2_CL,
            (5, 8) => SignalCarrier::QZSS_L5_I,
            (5, 9) => SignalCarrier::QZSS_L5_Q,
            (6, 0) => SignalCarrier::GLO_L1_OF,
            (6, 2) => SignalCarrier::GLO_L2_OF,
            (7, 0) => SignalCarrier::NAVIC_L5_A,
            _ => SignalCarrier::GPS_L1_CA,
        }
    }

    /// The pseudo range observable code of this carrier, in the legacy
    /// (`v2`) or modern observable grammar.
    pub fn to_pseudo_range_observable(&self, v2: bool) -> (r: String)
        ensures
            r@ == spec_pseudo_range_observable(*self, v2),
    {
        if v2 {
            match self {
                SignalCarrier::GPS_L1_CA | SignalCarrier::SBAS_L1_CA | SignalCarrier::GAL_E1_C | SignalCarrier::GAL_E1_B | SignalCarrier::QZSS_L1_CA | SignalCarrier::GLO_L1_OF | SignalCarrier::BDS_B1I_D1 | SignalCarrier::BDS_B1I_D2 | SignalCarrier::BDS_B2I_D1 | SignalCarrier::BDS_B2I_D2 => String::from_str("C1"),
                SignalCarrier::GPS_L2_CL | SignalCarrier::GPS_L2_CM | SignalCarrier::QZSS_L2_CM | SignalCarrier::QZSS_L2_CL | SignalCarrier::GLO_L2_OF => String::from_str("C2"),
                SignalCarrier::GPS_L5_I | SignalCarrier::GPS_L5_Q | SignalCarrier::GAL_E5A_I | SignalCarrier::GAL_E5A_Q | SignalCarrier::QZSS_L5_I | SignalCarrier::QZSS_L5_Q | SignalCarrier::NAVIC_L5_A => String::from_str("C5"),
                SignalCarrier::GAL_E5B_I | SignalCarrier::GAL_E5B_Q => String::from_str("C7"),
                _ => String::from_str("C1"),
            }
        } else {
            match self {
                SignalCarrier::GPS_L1_CA => String::from_str("C1C"),
                SignalCarrier::GPS_L2_CL => String::from_str("C2L"),
                SignalCarrier::GPS_L2_CM => String::from_str("C2S"),
                SignalCarrier::GPS_L5_I => String::from_str("C5I"),
                SignalCarrier::GPS_L5_Q => String::from_str("C5Q"),
                SignalCarrier::SBAS_L1_CA => String::from_str("C1C"),
                SignalCarrier::GAL_E1_C => String::from_str("C1C"),
                SignalCarrier::GAL_E1_B => String::from_str("C1B"),
                SignalCarrier::GAL_E5A_I => String::from_str("C5I"),
                SignalCarrier::GAL_E5A_Q => String::from_str("C5Q"),
                SignalCarrier::GAL_E5B_I => String::from_str("C7I"),
                SignalCarrier::GAL_E5B_Q => String::from_str("C7Q"),
                SignalCarrier::BDS_B1I_D1 => String::from_str("C2I"),
                SignalCarrier::BDS_B1I_D2 => String::from_str("C1D"),
                SignalCarrier::BDS_B2I_D1 => String::from_str("C5D"),
                SignalCarrier::BDS_B2I_D2 => String::from_str("C7I"),
                SignalCarrier::BDS_B1C => String::from_str("C5D"),
                SignalCarrier::BDS_B2A => String::from_str("C5D"),
                SignalCarrier::QZSS_L1_CA => String::from_str("C1C"),
                SignalCarrier::QZSS_L1_S => String::from_str("C1Z"),
                SignalCarrier::QZSS_L2_CM => String::from_str("C2S"),
                SignalCarrier::QZSS_L2_CL => String::from_str("C2L"),
                SignalCarrier::QZSS_L5_I => String::from_str("C5I"),
                SignalCarrier::QZSS_L5_Q => String::from_str("C5Q"),
                SignalCarrier::GLO_L1_OF => String::from_str("C1C"),
                SignalCarrier::GLO_L2_OF => String::from_str("C2C"),
                SignalCarrier::NAVIC_L5_A => String::from_str("C1C"),
            }
        }
    }

    /// The phase range observable code of this carrier, in the legacy
    /// (`v2`) or modern observable grammar.
    pub fn to_phase_range_observable(&self, v2: bool) -> (r: String)
        ensures
            r@ == spec_phase_range_observable(*self, v2),
    {
        if v2 {
            match self {
                SignalCarrier::GPS_L1_CA | SignalCarrier::SBAS_L1_CA | SignalCarrier::GAL_E1_C | SignalCarrier::GAL_E1_B | SignalCarrier::QZSS_L1_CA | SignalCarrier::GLO_L1_OF | SignalCarrier::BDS_B1I_D1 | SignalCarrier::BDS_B1I_D2 | SignalCarrier::BDS_B2I_D1 | SignalCarrier::BDS_B2I_D2 => String::from_str("L1"),
                SignalCarrier::GPS_L2_CL | SignalCarrier::GPS_L2_CM | SignalCarrier::QZSS_L2_CM | SignalCarrier::QZSS_L2_CL | SignalCarrier::GLO_L2_OF => String::from_str("L2"),
                SignalCarrier::GPS_L5_I | SignalCarrier::GPS_L5_Q | SignalCarrier::GAL_E5A_I | SignalCarrier::GAL_E5A_Q | SignalCarrier::QZSS_L5_I | SignalCarrier::QZSS_L5_Q | SignalCarrier::NAVIC_L5_A => String::from_str("L5"),
                SignalCarrier::GAL_E5B_I | SignalCarrier::GAL_E5B_Q => String::from_str("L7"),
                _ => String::from_str("L1"),
            }
        } else {
            match self {
                SignalCarrier::GPS_L1_CA => String::from_str("L1C"),
                SignalCarrier::GPS_L2_CL => String::from_str("L2L"),
                SignalCarrier::GPS_L2_CM => String::from_str("L2S"),
                SignalCarrier::GPS_L5_I => String::from_str("L5I"),
                SignalCarrier::GPS_L5_Q => String::from_str("L5Q"),
                SignalCarrier::SBAS_L1_CA => String::from_str("L1C"),
                SignalCarrier::GAL_E1_C => String::from_str("L1C"),
                SignalCarrier::GAL_E1_B => String::from_str("L1B"),
                SignalCarrier::GAL_E5A_I => String::from_str("L5I"),
                SignalCarrier::GAL_E5A_Q => String::from_str("L5Q"),
                SignalCarrier::GAL_E5B_I => String::from_str("L7I"),
                SignalCarrier::GAL_E5B_Q => String::from_str("L7Q"),
                SignalCarrier::BDS_B1I_D1 => String::from_str("L1I"),
                SignalCarrier::BDS_B1I_D2 => String::from_str("L1D"),
                SignalCarrier::BDS_B2I_D1 => String::from_str("L1C"),
                SignalCarrier::BDS_B2I_D2 => String::from_str("L1C"),
                SignalCarrier::BDS_B1C => String::from_str("L1C"),
                SignalCarrier::BDS_B2A => String::from_str("L5D"),
                SignalCarrier::QZSS_L1_CA => String::from_str("L1C"),
                SignalCarrier::QZSS_L1_S => String::from_str("L1Z"),
                SignalCarrier::QZSS_L2_CM => String::from_str("L2S"),
                SignalCarrier::QZSS_L2_CL => String::from_str("L2L"),
                SignalCarrier::QZSS_L5_I => String::from_str("L5I"),
                SignalCarrier::QZSS_L5_Q => String::from_str("L5Q"),
                SignalCarrier::GLO_L1_OF => String::from_str("L1C"),
                SignalCarrier::GLO_L2_OF => String::from_str("L2C"),
                SignalCarrier::NAVIC_L5_A => String::from_str("L1C"),
            }
        }
    }

    /// The doppler observable code of this carrier, in the legacy
    /// (`v2`) or modern observable grammar.
    pub fn to_doppler_observable(&self, v2: bool) -> (r: String)
        ensures
            r@ == spec_doppler_observable(*self, v2),
    {
        if v2 {
            match self {
                SignalCarrier::GPS_L1_CA | SignalCarrier::SBAS_L1_CA | SignalCarrier::GAL_E1_C | SignalCarrier::GAL_E1_B | SignalCarrier::QZSS_L1_CA | SignalCarrier::GLO_L1_OF | SignalCarrier::BDS_B1I_D1 | SignalCarrier::BDS_B1I_D2 | SignalCarrier::BDS_B2I_D1 | SignalCarrier::BDS_B2I_D2 => String::from_str("D1"),
                SignalCarrier::GPS_L2_CL | SignalCarrier::GPS_L2_CM | SignalCarrier::QZSS_L2_CM | SignalCarrier::QZSS_L2_CL | SignalCarrier::GLO_L2_OF => String::from_str("D2"),
                SignalCarrier::GPS_L5_I | SignalCarrier::GPS_L5_Q | SignalCarrier::GAL_E5A_I | SignalCarrier::GAL_E5A_Q | SignalCarrier::QZSS_L5_I | SignalCarrier::QZSS_L5_Q | SignalCarrier::NAVIC_L5_A => String::from_str("D5"),
                SignalCarrier::GAL_E5B_I | SignalCarrier::GAL_E5B_Q => String::from_str("D7"),
                _ => String::from_str("D1"),
            }
        } else {
            match self {
                SignalCarrier::GPS_L1_CA => String::from_str("D1C"),
                SignalCarrier::GPS_L2_CL => String::from_str("D2L"),
                SignalCarrier::GPS_L2_CM => String::from_str("D2S"),
                SignalCarrier::GPS_L5_I => String::from_str("D5I"),
                SignalCarrier::GPS_L5_Q => String::from_str("D5Q"),
                SignalCarrier::SBAS_L1_CA => String::from_str("D1C"),
                SignalCarrier::GAL_E1_C => String::from_str("D1C"),
                SignalCarrier::GAL_E1_B => String::from_str("D1B"),
                SignalCarrier::GAL_E5A_I => String::from_str("D5I"),
                SignalCarrier::GAL_E5A_Q => String::from_str("D5Q"),
                SignalCarrier::GAL_E5B_I => String::from_str("D7I"),
                SignalCarrier::GAL_E5B_Q => String::from_str("D7Q"),
                SignalCarrier::BDS_B1I_D1 => String::from_str("D1I"),
                SignalCarrier::BDS_B1I_D2 => String::from_str("D1D"),
                SignalCarrier::BDS_B2I_D1 => String::from_str("D1C"),
                SignalCarrier::BDS_B2I_D2 => String::from_str("D1C"),
                SignalCarrier::BDS_B1C => String::from_str("D1C"),
                SignalCarrier::BDS_B2A => String::from_str("D5D"),
                SignalCarrier::QZSS_L1_CA => String::from_str("D1C"),
                SignalCarrier::QZSS_L1_S => String::from_str("D1Z"),
                SignalCarrier::QZSS_L2_CM => String::from_str("D2S"),
                SignalCarrier::QZSS_L2_CL => String::from_str("D2L"),
                SignalCarrier::QZSS_L5_I => String::from_str("D5I"),
                SignalCarrier::QZSS_L5_Q => String::from_str("D5Q"),
                SignalCarrier::GLO_L1_OF => String::from_str("D1C"),
                SignalCarrier::GLO_L2_OF => String::from_str("D2C"),
                SignalCarrier::NAVIC_L5_A => String::from_str("D1C"),
            }
        }
    }

    /// The ssi observable code of this carrier, in the legacy
    /// (`v2`) or modern observable grammar.
    pub fn to_ssi_observable(&self, v2: bool) -> (r: String)
        ensures
            r@ == spec_ssi_observable(*self, v2),
    {
        if v2 {
            match self {
                SignalCarrier::GPS_L1_CA | SignalCarrier::SBAS_L1_CA | SignalCarrier::GAL_E1_C | SignalCarrier::GAL_E1_B | SignalCarrier::QZSS_L1_CA | SignalCarrier::GLO_L1_OF | SignalCarrier::BDS_B1I_D1 | SignalCarrier::BDS_B1I_D2 | SignalCarrier::BDS_B2I_D1 | SignalCarrier::BDS_B2I_D2 => String::from_str("S1"),
                SignalCarrier::GPS_L2_CL | SignalCarrier::GPS_L2_CM | SignalCarrier::QZSS_L2_CM | SignalCarrier::QZSS_L2_CL | SignalCarrier::GLO_L2_OF => String::from_str("S2"),
                SignalCarrier::GPS_L5_I | SignalCarrier::GPS_L5_Q | SignalCarrier::GAL_E5A_I | SignalCarrier::GAL_E5A_Q | SignalCarrier::QZSS_L5_I | SignalCarrier::QZSS_L5_Q | SignalCarrier::NAVIC_L5_A => String::from_str("S5"),
                SignalCarrier::GAL_E5B_I | SignalCarrier::GAL_E5B_Q => String::from_str("S7"),
                _ => String::from_str("S1"),
            }
        } else {
            match self {
                SignalCarrier::GPS_L1_CA => String::from_str("S1C"),
                SignalCarrier::GPS_L2_CL => String::from_str("S2L"),
                SignalCarrier::GPS_L2_CM => String::from_str("S2S"),
                SignalCarrier::GPS_L5_I => String::from_str("S5I"),
                SignalCarrier::GPS_L5_Q => String::from_str("S5Q"),
                SignalCarrier::SBAS_L1_CA => String::from_str("S1C"),
                SignalCarrier::GAL_E1_C => String::from_str("S1C"),
                SignalCarrier::GAL_E1_B => String::from_str("S1B"),
                SignalCarrier::GAL_E5A_I => String::from_str("S5I"),
                SignalCarrier::GAL_E5A_Q => String::from_str("S5Q"),
                SignalCarrier::GAL_E5B_I => String::from_str("S7I"),
                SignalCarrier::GAL_E5B_Q => String::from_str("S7Q"),
                SignalCarrier::BDS_B1I_D1 => String::from_str("S1I"),
                SignalCarrier::BDS_B1I_D2 => String::from_str("S1D"),
                SignalCarrier::BDS_B2I_D1 => String::from_str("S5D"),
                SignalCarrier::BDS_B2I_D2 => String::from_str("S7I"),
                SignalCarrier::BDS_B1C => String::from_str("S1C"),
                SignalCarrier::BDS_B2A => String::from_str("S5D"),
                SignalCarrier::QZSS_L1_CA => String::from_str("S1C"),
                SignalCarrier::QZSS_L1_S => String::from_str("S1Z"),
                SignalCarrier::QZSS_L2_CM => String::from_str("S2S"),
                SignalCarrier::QZSS_L2_CL => String::from_str("S2L"),
                SignalCarrier::QZSS_L5_I => String::from_str("S5I"),
                SignalCarrier::QZSS_L5_Q => String::from_str("S5Q"),
                SignalCarrier::GLO_L1_OF => String::from_str("S1C"),
                SignalCarrier::GLO_L2_OF => String::from_str("S2C"),
                SignalCarrier::NAVIC_L5_A => String::from_str("S1C"),
            }
        }
    }

}

} // verus!
