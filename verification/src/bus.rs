//! The bus-level state ladder of the fieldbus master.
//!
//! The bus moves only along the ordered ladder
//! `Init <-> PreOperational <-> SafeOperational <-> Operational`:
//! bring-up climbs one rung at a time, bring-down descends one rung at a
//! time, and no other edge exists.

use vstd::prelude::*;

verus! {

/// Application-layer state of the fieldbus network, ordered from fully
/// released (`Init`) to cyclic data exchange (`Operational`).
#[derive(Clone, Copy, Debug, PartialEq, Eq, Structural)]
pub enum BusState {
    Init,
    PreOperational,
    SafeOperational,
    Operational,
}

impl BusState {
    /// Height of the state on the bring-up ladder: `Init` is 0,
    /// `Operational` is 3.
    pub open spec fn rank(self) -> int {
        match self {
            BusState::Init => 0,
            BusState::PreOperational => 1,
            BusState::SafeOperational => 2,
            BusState::Operational => 3,
        }
    }

    /// The state one rung up the ladder; `Operational` stays put.
    pub open spec fn spec_up(self) -> BusState {
        match self {
            BusState::Init => BusState::PreOperational,
            BusState::PreOperational => BusState::SafeOperational,
            BusState::SafeOperational => BusState::Operational,
            BusState::Operational => BusState::Operational,
        }
    }

    /// The state one rung down the ladder; `Init` stays put.
    pub open spec fn spec_down(self) -> BusState {
        match self {
            BusState::Init => BusState::Init,
            BusState::PreOperational => BusState::Init,
            BusState::SafeOperational => BusState::PreOperational,
            BusState::Operational => BusState::SafeOperational,
        }
    }

    /// One bring-up transition.
    pub fn bring_up_step(self) -> (next: BusState)
        ensures
            next == self.spec_up(),
    {
        match self {
            BusState::Init => BusState::PreOperational,
            BusState::PreOperational => BusState::SafeOperational,
            BusState::SafeOperational => BusState::Operational,
            BusState::Operational => BusState::Operational,
        }
    }

    /// One bring-down transition.
    pub fn bring_down_step(self) -> (next: BusState)
        ensures
            next == self.spec_down(),
    {
        match self {
            BusState::Init => BusState::Init,
            BusState::PreOperational => BusState::Init,
            BusState::SafeOperational => BusState::PreOperational,
            BusState::Operational => BusState::SafeOperational,
        }
    }
}

/// Stepping down strictly lowers the rank of any state above `Init`, and a
/// state at rank `r` reaches `Init` after at most `r` bring-down steps; this
/// is what makes teardown total.
pub proof fn lemma_down_lowers_rank(b: BusState)
    ensures
        b != BusState::Init ==> b.spec_down().rank() == b.rank() - 1,
        b == BusState::Init ==> b.spec_down() == BusState::Init,
{
}

} // verus!
