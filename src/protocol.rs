//! Wire-level types: noise-control modes, charging states and battery readings.
use vstd::prelude::*;

verus! {

/// Charging state of one battery as the device reports it.
#[derive(Clone, Copy, Debug, PartialEq, Eq, Structural)]
pub enum ChargingState {
    Unknown,
    Charging,
    NotCharging,
    Disconnected,
}

impl Default for ChargingState {
    fn default() -> (r: ChargingState)
        ensures
            r == ChargingState::Unknown,
    {
        ChargingState::Unknown
    }
}

/// The charging state that a wire byte stands for; bytes outside 0..=3 are `Unknown`.
pub open spec fn charging_of_byte(b: u8) -> ChargingState {
    if b == 1 {
        ChargingState::Charging
    } else if b == 2 {
        ChargingState::NotCharging
    } else if b == 3 {
        ChargingState::Disconnected
    } else {
        ChargingState::Unknown
    }
}

impl ChargingState {
    /// Decodes a charging-state byte; an unrecognised byte gives `Unknown`.
    pub fn from_u8(b: u8) -> (r: ChargingState)
        ensures
            r == charging_of_byte(b),
    {
        match b {
            1 => ChargingState::Charging,
            2 => ChargingState::NotCharging,
            3 => ChargingState::Disconnected,
            _ => ChargingState::Unknown,
        }
    }
}

/// A percentage as reported by the device, limited to 100.
pub open spec fn clamp_percent(b: u8) -> u8 {
    if b > 100 {
        100
    } else {
        b
    }
}

/// Decodes a percentage byte, clamping out-of-range values to 100.
pub fn decode_percentage(b: u8) -> (r: u8)
    ensures
        r == clamp_percent(b),
        r <= 100,
{
    if b > 100 {
        100
    } else {
        b
    }
}

/// Level and charging state of one physical component.
pub type BatteryReading = (u8, ChargingState);

/// The last battery report: one optional reading per physical component.
#[derive(Clone, Copy, Debug, PartialEq, Eq)]
pub struct BatteryState {
    pub single: Option<BatteryReading>,
    pub left: Option<BatteryReading>,
    pub right: Option<BatteryReading>,
    pub case: Option<BatteryReading>,
}

impl BatteryState {
    /// The state before any component has been reported.
    pub open spec fn empty() -> BatteryState {
        BatteryState { single: None, left: None, right: None, case: None }
    }

    /// Every reported percentage is at most 100.
    pub open spec fn well_formed(self) -> bool {
        &&& (self.single matches Some(r) ==> r.0 <= 100)
        &&& (self.left matches Some(r) ==> r.0 <= 100)
        &&& (self.right matches Some(r) ==> r.0 <= 100)
        &&& (self.case matches Some(r) ==> r.0 <= 100)
    }
}

impl Default for BatteryState {
    fn default() -> (r: BatteryState)
        ensures
            r == BatteryState::empty(),
    {
        BatteryState { single: None, left: None, right: None, case: None }
    }
}

/// Active noise-control mode of the earbuds.
#[derive(Clone, Copy, Debug, PartialEq, Eq, Structural)]
pub enum ANC {
    Off,
    NoiseCanceling,
    Transparency,
    Adaptive,
}

impl ANC {
    /// The byte that stands for this mode on the wire.
    pub open spec fn wire(self) -> u8 {
        match self {
            ANC::Off => 1,
            ANC::NoiseCanceling => 2,
            ANC::Transparency => 3,
            ANC::Adaptive => 4,
        }
    }

    /// The mode that a wire byte stands for, if any.
    pub open spec fn of_wire(b: u8) -> Option<ANC> {
        if b == 1 {
            Some(ANC::Off)
        } else if b == 2 {
            Some(ANC::NoiseCanceling)
        } else if b == 3 {
            Some(ANC::Transparency)
        } else if b == 4 {
            Some(ANC::Adaptive)
        } else {
            None
        }
    }

    /// The mode that the decoder takes from a wire byte: unrecognised bytes give `Off`.
    pub open spec fn of_wire_or_off(b: u8) -> ANC {
        match ANC::of_wire(b) {
            Some(a) => a,
            None => ANC::Off,
        }
    }

    /// Encodes this mode as its wire byte.
    pub fn to_u8(&self) -> (r: u8)
        ensures
            r == self.wire(),
            1 <= r <= 4,
    {
        match self {
            ANC::Off => 0x01,
            ANC::NoiseCanceling => 0x02,
            ANC::Transparency => 0x03,
            ANC::Adaptive => 0x04,
        }
    }

    /// Decodes a wire byte; only 1, 2, 3 and 4 are modes.
    pub fn from_u8(b: u8) -> (r: Option<ANC>)
        ensures
            r == ANC::of_wire(b),
            r.is_some() <==> 1 <= b <= 4,
    {
        match b {
            1 => Some(ANC::Off),
            2 => Some(ANC::NoiseCanceling),
            3 => Some(ANC::Transparency),
            4 => Some(ANC::Adaptive),
            _ => None,
        }
    }
}

/// Decoding a mode's wire byte gives the mode back, and every valid byte is
/// the encoding of the mode it decodes to.
pub proof fn lemma_anc_wire_round_trip(a: ANC, b: u8)
    ensures
        ANC::of_wire(a.wire()) == Some(a),
        1 <= b <= 4 ==> (ANC::of_wire(b) matches Some(m) && m.wire() == b),
{
}

/// Each charging-state byte 0..=3 decodes to its own state; any other byte
/// decodes to `Unknown`.
pub proof fn lemma_charging_decoding(b: u8)
    ensures
        b == 0 ==> charging_of_byte(b) == ChargingState::Unknown,
        b == 1 ==> charging_of_byte(b) == ChargingState::Charging,
        b == 2 ==> charging_of_byte(b) == ChargingState::NotCharging,
        b == 3 ==> charging_of_byte(b) == ChargingState::Disconnected,
        b > 3 ==> charging_of_byte(b) == ChargingState::Unknown,
{
}

/// Clamping a percentage twice is the same as clamping it once, and the
/// result never exceeds 100.
pub proof fn lemma_clamp_idempotent(b: u8)
    ensures
        clamp_percent(clamp_percent(b)) == clamp_percent(b),
        clamp_percent(b) <= 100,
        b <= 100 ==> clamp_percent(b) == b,
{
}

} // verus!
