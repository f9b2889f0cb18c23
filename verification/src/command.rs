//! The four named actuation commands.
//!
//! Each command carries the requested hold duration in milliseconds; a
//! command is immutable once constructed and is consumed by exactly one
//! session.

use vstd::prelude::*;

verus! {

/// One actuation request: which of the four fixture operations to perform,
/// and for how many milliseconds to hold it.
#[derive(Clone, Copy, Debug, PartialEq, Eq, Structural)]
pub enum SealerCommand {
    OpenDoor(u64),
    CloseDoor(u64),
    ApplyHeater(u64),
    RemoveHeater(u64),
}

impl SealerCommand {
    /// The requested hold duration, in milliseconds.
    pub open spec fn spec_duration_ms(self) -> u64 {
        match self {
            SealerCommand::OpenDoor(d) => d,
            SealerCommand::CloseDoor(d) => d,
            SealerCommand::ApplyHeater(d) => d,
            SealerCommand::RemoveHeater(d) => d,
        }
    }

    /// A command must ask for a positive hold duration.
    pub open spec fn valid(self) -> bool {
        self.spec_duration_ms() > 0
    }

    /// The requested hold duration, in milliseconds.
    pub fn duration_ms(&self) -> (d: u64)
        ensures
            d == self.spec_duration_ms(),
    {
        match self {
            SealerCommand::OpenDoor(d) => *d,
            SealerCommand::CloseDoor(d) => *d,
            SealerCommand::ApplyHeater(d) => *d,
            SealerCommand::RemoveHeater(d) => *d,
        }
    }
}

} // verus!
