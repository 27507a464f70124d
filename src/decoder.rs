//! Classification and decoding of inbound status frames.
use vstd::prelude::*;
use crate::protocol::{
    ANC, BatteryReading, BatteryState, ChargingState, charging_of_byte, clamp_percent,
    decode_percentage,
};
use crate::session::{AAPEvent, AAPSocketInner};

verus! {

/// Category byte of a settings frame.
pub const CATEGORY_SETTINGS: u8 = 0x09;

/// Category byte of a battery frame.
pub const CATEGORY_BATTERY: u8 = 0x04;

/// Category byte of an ear-detection frame.
pub const CATEGORY_EARS: u8 = 0x06;

/// Settings sub-id of the noise-control setting.
pub const SETTING_NOISE_CONTROL: u8 = 0x0D;

/// Offset of the first battery entry in a battery frame.
pub const BATTERY_ENTRIES_START: usize = 7;

/// Length of one battery entry.
pub const BATTERY_ENTRY_LEN: usize = 5;

/// Offset of the `i`-th battery entry.
pub open spec fn entry_start(i: int) -> int {
    7 + i * 5
}

/// The battery state after the entry starting at `start` has been read into `s`.
/// Component ids: 1 single, 2 right, 3 left, 4 case; other ids leave `s` as it is.
pub open spec fn with_entry(s: BatteryState, f: Seq<u8>, start: int) -> BatteryState {
    let data = Some((clamp_percent(f[start + 2]), charging_of_byte(f[start + 3])));
    let id = f[start];
    if id == 1 {
        BatteryState { single: data, ..s }
    } else if id == 2 {
        BatteryState { right: data, ..s }
    } else if id == 3 {
        BatteryState { left: data, ..s }
    } else if id == 4 {
        BatteryState { case: data, ..s }
    } else {
        s
    }
}

/// The battery state built from scratch out of the first `n` entries of `f`.
pub open spec fn battery_entries(f: Seq<u8>, n: nat) -> BatteryState
    decreases n,
{
    if n == 0 {
        BatteryState::empty()
    } else {
        with_entry(battery_entries(f, (n - 1) as nat), f, entry_start(n - 1))
    }
}

/// A battery frame holds its count byte and every entry that the count announces.
pub open spec fn battery_frame_complete(f: Seq<u8>) -> bool {
    f.len() >= 7 && entry_start(f[6] as int) <= f.len()
}

/// The event that a frame reports, or `None` for a frame that is too short,
/// truncated or of an unknown kind.
pub open spec fn decode_spec(f: Seq<u8>) -> Option<AAPEvent> {
    if f.len() < 5 {
        None
    } else if f[4] == 0x09 {
        if f.len() >= 8 && f[6] == 0x0D {
            Some(AAPEvent::ANCChanged(ANC::of_wire_or_off(f[7])))
        } else {
            None
        }
    } else if f[4] == 0x04 {
        if battery_frame_complete(f) {
            Some(AAPEvent::BatteriesChanged(battery_entries(f, f[6] as nat)))
        } else {
            None
        }
    } else if f[4] == 0x06 {
        if f.len() >= 8 {
            Some(AAPEvent::EarsChanged((f[7] == 0, f[6] == 0)))
        } else {
            None
        }
    } else {
        None
    }
}

proof fn lemma_battery_entries_well_formed(f: Seq<u8>, n: nat)
    ensures
        battery_entries(f, n).well_formed(),
    decreases n,
{
    if n > 0 {
        lemma_battery_entries_well_formed(f, (n - 1) as nat);
    }
}

/// Every event that decoding yields keeps battery percentages at most 100.
pub proof fn lemma_decoded_well_formed(f: Seq<u8>)
    ensures
        decode_spec(f) matches Some(AAPEvent::BatteriesChanged(b)) ==> b.well_formed(),
{
    if f.len() >= 7 {
        lemma_battery_entries_well_formed(f, f[6] as nat);
    }
}

/// Reads the battery entries of a complete battery frame into a fresh state.
pub fn decode_batteries(frame: &[u8]) -> (r: BatteryState)
    requires
        battery_frame_complete(frame@),
    ensures
        r == battery_entries(frame@, frame@[6] as nat),
{
    let mut state = BatteryState::default();
    let count = frame[6];
    let mut i: u8 = 0;
    while i < count
        invariant
            i <= count,
            count == frame@[6],
            battery_frame_complete(frame@),
            state == battery_entries(frame@, i as nat),
        decreases count - i,
    {
        let start: usize = BATTERY_ENTRIES_START + (i as usize) * BATTERY_ENTRY_LEN;
        let charge = decode_percentage(frame[start + 2]);
        let charging = ChargingState::from_u8(frame[start + 3]);
        let data: Option<BatteryReading> = Some((charge, charging));
        let id = frame[start];
        if id == 0x01 {
            state.single = data;
        } else if id == 0x02 {
            state.right = data;
        } else if id == 0x03 {
            state.left = data;
        } else if id == 0x04 {
            state.case = data;
        }
        i = i + 1;
    }
    state
}

/// Classifies one inbound frame and decodes the event it reports.
/// Malformed and unrecognised frames give `None`. An unrecognised mode byte
/// in a noise-control frame decodes to `Off`.
pub fn decode_frame(frame: &[u8]) -> (r: Option<AAPEvent>)
    ensures
        r == decode_spec(frame@),
{
    if frame.len() < 5 {
        return None;
    }
    let category = frame[4];
    if category == CATEGORY_SETTINGS {
        if frame.len() >= 8 && frame[6] == SETTING_NOISE_CONTROL {
            let anc = match ANC::from_u8(frame[7]) {
                Some(a) => a,
                None => ANC::Off,
            };
            Some(AAPEvent::ANCChanged(anc))
        } else {
            None
        }
    } else if category == CATEGORY_BATTERY {
        if frame.len() >= 7 && BATTERY_ENTRIES_START + (frame[6] as usize) * BATTERY_ENTRY_LEN
            <= frame.len() {
            Some(AAPEvent::BatteriesChanged(decode_batteries(frame)))
        } else {
            None
        }
    } else if category == CATEGORY_EARS {
        if frame.len() >= 8 {
            Some(AAPEvent::EarsChanged((frame[7] == 0, frame[6] == 0)))
        } else {
            None
        }
    } else {
        None
    }
}

impl AAPSocketInner {
    /// Decodes one inbound frame, stores the change it reports, and returns
    /// the event to publish. A frame that decodes to nothing leaves the state
    /// unchanged. A noise-control report is stored as it comes, whatever the
    /// previous mode was, so that the stored mode always equals the last
    /// published one.
    pub fn apply_frame(&mut self, frame: &[u8]) -> (r: Option<AAPEvent>)
        requires
            old(self).well_formed(),
        ensures
            r == decode_spec(frame@),
            r matches Some(e) ==> *final(self) == old(self).after_event(e),
            r is None ==> *final(self) == *old(self),
            frame@.len() < 5 ==> r is None && *final(self) == *old(self),
            final(self).well_formed(),
    {
        proof {
            lemma_decoded_well_formed(frame@);
        }
        let r = decode_frame(frame);
        match &r {
            Some(e) => self.apply_event(e),
            None => {},
        }
        r
    }
}

} // verus!
