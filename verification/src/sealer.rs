//! The public facade: four named fixture operations, each a stateless
//! mapping to an (actuation byte, duration) pair.
//!
//! The four byte codes are caller-supplied, device-specific wire values,
//! opaque to this library; nothing requires them to be distinct.

use vstd::prelude::*;

use crate::command::SealerCommand;
use crate::session::BusClaim;
use crate::session::Session;
use crate::session::SessionPhase;

verus! {

/// Maps the four named operations to their caller-configured actuation
/// bytes.
#[derive(Clone, Copy, Debug, PartialEq, Eq, Structural)]
pub struct Sealer {
    pub open_door_byte: u8,
    pub close_door_byte: u8,
    pub apply_heater_byte: u8,
    pub remove_heater_byte: u8,
}

impl Sealer {
    /// A facade over the four caller-supplied actuation byte codes.
    pub fn new(open_door_byte: u8, close_door_byte: u8, apply_heater_byte: u8, remove_heater_byte: u8) -> (s: Sealer)
        ensures
            s.open_door_byte == open_door_byte,
            s.close_door_byte == close_door_byte,
            s.apply_heater_byte == apply_heater_byte,
            s.remove_heater_byte == remove_heater_byte,
    {
        Sealer { open_door_byte, close_door_byte, apply_heater_byte, remove_heater_byte }
    }

    /// The actuation byte a command drives onto the fixture.
    pub open spec fn spec_byte_for(self, c: SealerCommand) -> u8 {
        match c {
            SealerCommand::OpenDoor(_) => self.open_door_byte,
            SealerCommand::CloseDoor(_) => self.close_door_byte,
            SealerCommand::ApplyHeater(_) => self.apply_heater_byte,
            SealerCommand::RemoveHeater(_) => self.remove_heater_byte,
        }
    }

    /// The actuation byte a command drives onto the fixture.
    pub fn byte_for(&self, c: &SealerCommand) -> (b: u8)
        ensures
            b == self.spec_byte_for(*c),
    {
        match c {
            SealerCommand::OpenDoor(_) => self.open_door_byte,
            SealerCommand::CloseDoor(_) => self.close_door_byte,
            SealerCommand::ApplyHeater(_) => self.apply_heater_byte,
            SealerCommand::RemoveHeater(_) => self.remove_heater_byte,
        }
    }

    /// Begin the session for one command: the session takes the master
    /// claim and starts bring-up.
    pub fn begin(&self, claim: BusClaim, c: &SealerCommand) -> (s: Session)
        requires
            c.valid(),
        ensures
            s.command_byte == self.spec_byte_for(*c),
            s.duration_ms == c.spec_duration_ms(),
            s.elapsed_ms == 0,
            s.phase == SessionPhase::Bootstrapping,
            s.bus == crate::bus::BusState::Init,
            s.outcome is None,
            s.wf(),
    {
        let byte: u8 = self.byte_for(c);
        let mut s = Session::new(claim, byte, c.duration_ms());
        s.start();
        s
    }

    /// Single-shot entry point: hold the open-door byte for the given
    /// duration.
    pub fn open_door(&self, claim: BusClaim, duration_ms: u64) -> (s: Session)
        requires
            duration_ms > 0,
        ensures
            s.command_byte == self.open_door_byte,
            s.duration_ms == duration_ms,
            s.elapsed_ms == 0,
            s.phase == SessionPhase::Bootstrapping,
            s.bus == crate::bus::BusState::Init,
            s.outcome is None,
            s.wf(),
    {
        self.begin(claim, &SealerCommand::OpenDoor(duration_ms))
    }

    /// Single-shot entry point: hold the close-door byte for the given
    /// duration.
    pub fn close_door(&self, claim: BusClaim, duration_ms: u64) -> (s: Session)
        requires
            duration_ms > 0,
        ensures
            s.command_byte == self.close_door_byte,
            s.duration_ms == duration_ms,
            s.elapsed_ms == 0,
            s.phase == SessionPhase::Bootstrapping,
            s.bus == crate::bus::BusState::Init,
            s.outcome is None,
            s.wf(),
    {
        self.begin(claim, &SealerCommand::CloseDoor(duration_ms))
    }

    /// Single-shot entry point: hold the apply-heater byte for the given
    /// duration.
    pub fn apply_heater(&self, claim: BusClaim, duration_ms: u64) -> (s: Session)
        requires
            duration_ms > 0,
        ensures
            s.command_byte == self.apply_heater_byte,
            s.duration_ms == duration_ms,
            s.elapsed_ms == 0,
            s.phase == SessionPhase::Bootstrapping,
            s.bus == crate::bus::BusState::Init,
            s.outcome is None,
            s.wf(),
    {
        self.begin(claim, &SealerCommand::ApplyHeater(duration_ms))
    }

    /// Single-shot entry point: hold the remove-heater byte for the given
    /// duration.
    pub fn remove_heater(&self, claim: BusClaim, duration_ms: u64) -> (s: Session)
        requires
            duration_ms > 0,
        ensures
            s.command_byte == self.remove_heater_byte,
            s.duration_ms == duration_ms,
            s.elapsed_ms == 0,
            s.phase == SessionPhase::Bootstrapping,
            s.bus == crate::bus::BusState::Init,
            s.outcome is None,
            s.wf(),
    {
        self.begin(claim, &SealerCommand::RemoveHeater(duration_ms))
    }
}

} // verus!
