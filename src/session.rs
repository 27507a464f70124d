//! Session state and the semantic events that report its changes.
use vstd::prelude::*;
use crate::protocol::{ANC, BatteryState};

verus! {

/// A change that subscribers of a session are told about.
#[derive(Clone, Copy, Debug, PartialEq, Eq)]
pub enum AAPEvent {
    ANCChanged(ANC),
    /// In-ear status of the two earpieces.
    EarsChanged((bool, bool)),
    BatteriesChanged(BatteryState),
    Disconnected,
}

/// The decoded state of one device: noise-control mode, in-ear detection and
/// the latest battery report.
#[derive(Clone, Copy, Debug)]
pub struct AAPSocketInner {
    pub current_anc: ANC,
    pub ears_in: (bool, bool),
    pub batteries: BatteryState,
}

impl AAPSocketInner {
    /// The state of a session that has heard nothing yet.
    pub open spec fn initial() -> AAPSocketInner {
        AAPSocketInner {
            current_anc: ANC::Off,
            ears_in: (false, false),
            batteries: BatteryState::empty(),
        }
    }

    /// The state after the change that `e` reports; `Disconnected` changes nothing.
    pub open spec fn after_event(self, e: AAPEvent) -> AAPSocketInner {
        match e {
            AAPEvent::ANCChanged(a) => AAPSocketInner { current_anc: a, ..self },
            AAPEvent::EarsChanged(p) => AAPSocketInner { ears_in: p, ..self },
            AAPEvent::BatteriesChanged(b) => AAPSocketInner { batteries: b, ..self },
            AAPEvent::Disconnected => self,
        }
    }

    /// Every stored battery percentage is at most 100.
    pub open spec fn well_formed(self) -> bool {
        self.batteries.well_formed()
    }

    /// A fresh session state: mode `Off`, both earpieces out, no battery reported.
    pub fn new() -> (r: AAPSocketInner)
        ensures
            r == AAPSocketInner::initial(),
            r.well_formed(),
    {
        AAPSocketInner {
            current_anc: ANC::Off,
            ears_in: (false, false),
            batteries: BatteryState::default(),
        }
    }

    /// Applies the change reported by `e` to the stored state.
    pub fn apply_event(&mut self, e: &AAPEvent)
        ensures
            *final(self) == old(self).after_event(*e),
    {
        match e {
            AAPEvent::ANCChanged(a) => self.current_anc = *a,
            AAPEvent::EarsChanged(p) => self.ears_in = *p,
            AAPEvent::BatteriesChanged(b) => self.batteries = *b,
            AAPEvent::Disconnected => {},
        }
    }

    /// Records a mode that was just requested of the device, before the
    /// device confirms it.
    pub fn set_anc(&mut self, anc: ANC)
        ensures
            *final(self) == (AAPSocketInner { current_anc: anc, ..*old(self) }),
    {
        self.current_anc = anc;
    }

    /// The current noise-control mode.
    pub fn get_anc(&self) -> (r: ANC)
        ensures
            r == self.current_anc,
    {
        self.current_anc
    }

    /// The latest battery report.
    pub fn get_batteries(&self) -> (r: BatteryState)
        ensures
            r == self.batteries,
    {
        self.batteries
    }

    /// The current in-ear status of the two earpieces.
    pub fn get_ears(&self) -> (r: (bool, bool))
        ensures
            r == self.ears_in,
    {
        self.ears_in
    }
}

} // verus!
