//! Verified core of a fieldbus actuation driver.
//!
//! The library models the lifecycle of one actuation session — claiming the
//! bus master, bringing the bus up to `Operational`, holding a single
//! actuation byte on the fixture for a bounded duration, and tearing the bus
//! back down to `Init` — together with a bounded command queue that runs
//! sessions strictly one at a time. The surrounding process performs the real
//! network I/O and feeds the observed events back into these state machines.

pub mod bus;
pub mod command;
pub mod queue;
pub mod sealer;
pub mod sequencer;
pub mod session;

pub use bus::BusState;
pub use command::SealerCommand;
pub use queue::CommandQueue;
pub use queue::EnqueueError;
pub use sealer::Sealer;
pub use sequencer::Sequencer;
pub use session::BusClaim;
pub use session::Session;
pub use session::SessionAction;
pub use session::SessionEvent;
pub use session::SessionOutcome;
pub use session::SessionPhase;
pub use session::TICK_MS;
