//! One actuation session: hold a single byte on the fixture for a bounded
//! duration, then tear the bus down again.
//!
//! A session is a state machine driven from outside. The surrounding process
//! owns the clock and the network: it performs the action the session asks
//! for (one bring-up transition, one cyclic exchange-and-write round, one
//! bring-down transition), observes what happened, and feeds that observation
//! back in as a [`SessionEvent`]. The machine decides everything else:
//! success is *only* the wall-clock duration elapsing while the loop is still
//! healthy; the loop ending for any other reason — the shutdown signal or an
//! I/O fault — is a premature exit and a failure, and every path, success or
//! failure, drains the bus back to `Init` before the session terminates.

use vstd::prelude::*;

use crate::bus::BusState;

verus! {

/// Fixed period of the cyclic write loop, in milliseconds. One `Tick` event
/// accounts for one such period.
pub const TICK_MS: u64 = 5;

/// Lifecycle phase of a session.
#[derive(Clone, Copy, Debug, PartialEq, Eq, Structural)]
pub enum SessionPhase {
    Idle,
    Bootstrapping,
    Running,
    Draining,
    Terminated,
}

/// Why a session left its `Running` (or `Bootstrapping`) phase.
#[derive(Clone, Copy, Debug, PartialEq, Eq, Structural)]
pub enum SessionOutcome {
    /// The requested hold duration elapsed in full: the sole success case.
    FullDuration,
    /// The loop exited early — shutdown signal or I/O fault — before the
    /// requested duration had elapsed.
    PrematureExit,
    /// The bus could not be brought up to `Operational`.
    BringUpFailed,
}

/// What the surrounding process observed while carrying out the session's
/// last requested action.
#[derive(Clone, Copy, Debug, PartialEq, Eq, Structural)]
pub enum SessionEvent {
    /// One bring-up transition finished (`ok`) or failed; the shutdown flag
    /// was polled alongside it.
    BringUpStep { ok: bool, shutdown: bool },
    /// One tick period passed: the shutdown flag was polled and, if it was
    /// clear, one exchange round was attempted (`io_ok`).
    Tick { shutdown: bool, io_ok: bool },
    /// One best-effort bring-down transition was attempted; `ok` records
    /// whether it succeeded, but failure is logged and never re-raised.
    DrainStep { ok: bool },
}

/// The next piece of outside work a session asks for.
#[derive(Clone, Copy, Debug, PartialEq, Eq, Structural)]
pub enum SessionAction {
    /// Perform one bus transition towards `Operational`.
    BringUpStep,
    /// Perform one cyclic exchange round and write this byte at offset 0 of
    /// the fixture's output image, then wait for the next tick boundary.
    ExchangeAndWrite(u8),
    /// Perform one best-effort bus transition towards `Init`.
    DrainStep,
    /// The session is terminated; release the master claim.
    Release,
}

/// Exclusive claim on the fieldbus master. The underlying hardware resource
/// can be claimed only once per process lifetime, so exactly one value of
/// this type must be minted, at process start, and threaded by move into one
/// session at a time. The type is deliberately neither `Clone` nor `Copy`.
#[derive(Debug)]
pub struct BusClaim {
    claimed: (),
}

impl BusClaim {
    /// Mint the process-wide master claim. Call once, at process start.
    pub fn new() -> BusClaim {
        BusClaim { claimed: () }
    }
}

/// One run of "hold byte `command_byte` on the fixture for `duration_ms`".
/// The session owns the master claim for its whole lifetime.
pub struct Session {
    pub claim: BusClaim,
    pub command_byte: u8,
    pub duration_ms: u64,
    /// Milliseconds of healthy `Running` time accounted so far.
    pub elapsed_ms: u64,
    pub phase: SessionPhase,
    pub bus: BusState,
    pub outcome: Option<SessionOutcome>,
}

/// `elapsed` advanced by one tick period, saturating at `u64::MAX`.
pub open spec fn spec_bump(elapsed: u64) -> u64 {
    if elapsed <= u64::MAX - TICK_MS {
        (elapsed + TICK_MS) as u64
    } else {
        u64::MAX
    }
}

/// The phase a session lands in once it is headed for teardown: already
/// `Terminated` if the bus is back in `Init`, otherwise `Draining`.
pub open spec fn spec_drained_phase(b: BusState) -> SessionPhase {
    if b == BusState::Init {
        SessionPhase::Terminated
    } else {
        SessionPhase::Draining
    }
}

impl Session {
    /// Internal consistency of a session.
    ///
    /// In particular: a `Running` session has the bus `Operational` and has
    /// not yet used up its duration; a `Terminated` session has the bus back
    /// in `Init`; and once an outcome is recorded, it is `FullDuration`
    /// exactly when the whole requested duration was accounted.
    pub open spec fn wf(self) -> bool {
        &&& self.duration_ms > 0
        &&& match self.phase {
            SessionPhase::Idle => {
                &&& self.bus == BusState::Init
                &&& self.elapsed_ms == 0
                &&& self.outcome is None
            },
            SessionPhase::Bootstrapping => {
                &&& self.bus != BusState::Operational
                &&& self.elapsed_ms == 0
                &&& self.outcome is None
            },
            SessionPhase::Running => {
                &&& self.bus == BusState::Operational
                &&& self.elapsed_ms < self.duration_ms
                &&& self.outcome is None
            },
            SessionPhase::Draining => {
                &&& self.bus != BusState::Init
                &&& self.outcome is Some
                &&& (self.outcome == Some(SessionOutcome::FullDuration) <==> self.elapsed_ms
                    >= self.duration_ms)
            },
            SessionPhase::Terminated => {
                &&& self.bus == BusState::Init
                &&& self.outcome is Some
                &&& (self.outcome == Some(SessionOutcome::FullDuration) <==> self.elapsed_ms
                    >= self.duration_ms)
            },
        }
    }

    /// Which events make sense in the current phase; the surrounding process
    /// only ever reports the observation belonging to the action it was
    /// asked to perform.
    pub open spec fn accepts(self, e: SessionEvent) -> bool {
        match e {
            SessionEvent::BringUpStep { .. } => self.phase == SessionPhase::Bootstrapping,
            SessionEvent::Tick { .. } => self.phase == SessionPhase::Running,
            SessionEvent::DrainStep { .. } => self.phase == SessionPhase::Draining,
        }
    }

    /// The transition relation of the session machine, as a total function:
    /// an event that does not belong to the current phase changes nothing.
    pub open spec fn spec_step(self, e: SessionEvent) -> Session {
        if self.phase == SessionPhase::Bootstrapping && (e matches SessionEvent::BringUpStep {
            ..
        }) {
            let (ok, shutdown) = (e->BringUpStep_ok, e->BringUpStep_shutdown);
            if shutdown {
                Session {
                    phase: spec_drained_phase(self.bus),
                    outcome: Some(SessionOutcome::PrematureExit),
                    ..self
                }
            } else if !ok {
                Session {
                    phase: spec_drained_phase(self.bus),
                    outcome: Some(SessionOutcome::BringUpFailed),
                    ..self
                }
            } else {
                Session {
                    phase: if self.bus.spec_up() == BusState::Operational {
                        SessionPhase::Running
                    } else {
                        SessionPhase::Bootstrapping
                    },
                    bus: self.bus.spec_up(),
                    ..self
                }
            }
        } else if self.phase == SessionPhase::Running && (e matches SessionEvent::Tick { .. }) {
            let (shutdown, io_ok) = (e->Tick_shutdown, e->Tick_io_ok);
            if shutdown || !io_ok {
                Session {
                    phase: SessionPhase::Draining,
                    outcome: Some(SessionOutcome::PrematureExit),
                    ..self
                }
            } else if spec_bump(self.elapsed_ms) >= self.duration_ms {
                Session {
                    phase: SessionPhase::Draining,
                    elapsed_ms: spec_bump(self.elapsed_ms),
                    outcome: Some(SessionOutcome::FullDuration),
                    ..self
                }
            } else {
                Session {
                    phase: SessionPhase::Running,
                    elapsed_ms: spec_bump(self.elapsed_ms),
                    ..self
                }
            }
        } else if self.phase == SessionPhase::Draining && (e matches SessionEvent::DrainStep {
            ..
        }) {
            Session {
                phase: spec_drained_phase(self.bus.spec_down()),
                bus: self.bus.spec_down(),
                ..self
            }
        } else {
            self
        }
    }

    /// The outside work the session asks for next, determined by its phase.
    pub open spec fn spec_next_action(self) -> SessionAction {
        match self.phase {
            SessionPhase::Idle => SessionAction::BringUpStep,
            SessionPhase::Bootstrapping => SessionAction::BringUpStep,
            SessionPhase::Running => SessionAction::ExchangeAndWrite(self.command_byte),
            SessionPhase::Draining => SessionAction::DrainStep,
            SessionPhase::Terminated => SessionAction::Release,
        }
    }

    /// A fresh, not yet started session holding the master claim.
    pub fn new(claim: BusClaim, command_byte: u8, duration_ms: u64) -> (s: Session)
        requires
            duration_ms > 0,
        ensures
            s.command_byte == command_byte,
            s.duration_ms == duration_ms,
            s.elapsed_ms == 0,
            s.phase == SessionPhase::Idle,
            s.bus == BusState::Init,
            s.outcome is None,
            s.wf(),
    {
        Session {
            claim,
            command_byte,
            duration_ms,
            elapsed_ms: 0,
            phase: SessionPhase::Idle,
            bus: BusState::Init,
            outcome: None,
        }
    }

    /// Begin bring-up. The returned action is the first piece of outside
    /// work to perform.
    pub fn start(&mut self) -> (a: SessionAction)
        requires
            old(self).wf(),
            old(self).phase == SessionPhase::Idle,
        ensures
            *final(self) == (Session { phase: SessionPhase::Bootstrapping, ..*old(self) }),
            final(self).wf(),
            a == final(self).spec_next_action(),
    {
        self.phase = SessionPhase::Bootstrapping;
        self.next_action()
    }

    /// Advance the machine by one observed event and say what to do next.
    pub fn step(&mut self, event: SessionEvent) -> (a: SessionAction)
        requires
            old(self).wf(),
            old(self).accepts(event),
        ensures
            *final(self) == old(self).spec_step(event),
            final(self).wf(),
            a == final(self).spec_next_action(),
    {
        match event {
            SessionEvent::BringUpStep { ok, shutdown } => {
                if shutdown {
                    self.outcome = Some(SessionOutcome::PrematureExit);
                    self.phase = if self.bus == BusState::Init {
                        SessionPhase::Terminated
                    } else {
                        SessionPhase::Draining
                    };
                } else if !ok {
                    self.outcome = Some(SessionOutcome::BringUpFailed);
                    self.phase = if self.bus == BusState::Init {
                        SessionPhase::Terminated
                    } else {
                        SessionPhase::Draining
                    };
                } else {
                    self.bus = self.bus.bring_up_step();
                    if self.bus == BusState::Operational {
                        self.phase = SessionPhase::Running;
                    }
                }
            },
            SessionEvent::Tick { shutdown, io_ok } => {
                if shutdown || !io_ok {
                    self.outcome = Some(SessionOutcome::PrematureExit);
                    self.phase = SessionPhase::Draining;
                } else {
                    let bumped: u64 = if self.elapsed_ms <= u64::MAX - TICK_MS {
                        self.elapsed_ms + TICK_MS
                    } else {
                        u64::MAX
                    };
                    self.elapsed_ms = bumped;
                    if bumped >= self.duration_ms {
                        self.outcome = Some(SessionOutcome::FullDuration);
                        self.phase = SessionPhase::Draining;
                    }
                }
            },
            SessionEvent::DrainStep { .. } => {
                self.bus = self.bus.bring_down_step();
                if self.bus == BusState::Init {
                    self.phase = SessionPhase::Terminated;
                }
            },
        }
        self.next_action()
    }

    /// The outside work the session asks for next.
    pub fn next_action(&self) -> (a: SessionAction)
        ensures
            a == self.spec_next_action(),
    {
        match self.phase {
            SessionPhase::Idle => SessionAction::BringUpStep,
            SessionPhase::Bootstrapping => SessionAction::BringUpStep,
            SessionPhase::Running => SessionAction::ExchangeAndWrite(self.command_byte),
            SessionPhase::Draining => SessionAction::DrainStep,
            SessionPhase::Terminated => SessionAction::Release,
        }
    }

    /// Retire a terminated session: hand the master claim back together with
    /// the session's outcome.
    pub fn finish(self) -> (r: (BusClaim, SessionOutcome))
        requires
            self.wf(),
            self.phase == SessionPhase::Terminated,
        ensures
            Some(r.1) == self.outcome,
    {
        let Session { claim, outcome, .. } = self;
        match outcome {
            Some(o) => (claim, o),
            None => (claim, SessionOutcome::PrematureExit),
        }
    }

    /// The per-command result the caller sees: `Ok` exactly when the full
    /// requested duration was honoured.
    pub fn result(&self) -> (r: Result<(), ()>)
        requires
            self.wf(),
            self.phase == SessionPhase::Terminated,
        ensures
            r is Ok <==> self.outcome == Some(SessionOutcome::FullDuration),
            r is Ok <==> self.elapsed_ms >= self.duration_ms,
    {
        match self.outcome {
            Some(SessionOutcome::FullDuration) => Ok(()),
            _ => Err(()),
        }
    }
}

/// A session run: fold a sequence of observed events over the machine.
pub open spec fn spec_run(s: Session, evs: Seq<SessionEvent>) -> Session
    decreases evs.len(),
{
    if evs.len() == 0 {
        s
    } else {
        spec_run(s.spec_step(evs[0]), evs.drop_first())
    }
}

/// A tick on which neither the shutdown signal nor an I/O fault was seen.
pub open spec fn healthy_tick(e: SessionEvent) -> bool {
    e matches SessionEvent::Tick { shutdown, io_ok } && !shutdown && io_ok
}

/// Every step preserves well-formedness.
pub proof fn lemma_step_preserves_wf(s: Session, e: SessionEvent)
    requires
        s.wf(),
    ensures
        s.spec_step(e).wf(),
{
}

/// An event that does not belong to the current phase changes nothing, so a
/// whole run of such events changes nothing.
pub proof fn lemma_run_stutter(s: Session, evs: Seq<SessionEvent>)
    requires
        forall|i: int| 0 <= i < evs.len() ==> !s.accepts(evs[i]),
    ensures
        spec_run(s, evs) == s,
    decreases evs.len(),
{
    if evs.len() > 0 {
        assert(s.spec_step(evs[0]) == s);
        lemma_run_stutter(s, evs.drop_first());
    }
}

/// A running session that is never interrupted and never sees an I/O fault
/// keeps running until the whole requested duration has been accounted, and
/// then — and only then — leaves the loop with the `FullDuration` success
/// outcome. Enough healthy ticks to cover the remaining duration guarantee
/// it.
pub proof fn lemma_uninterrupted_run_succeeds(s: Session, evs: Seq<SessionEvent>)
    requires
        s.wf(),
        s.phase == SessionPhase::Running,
        forall|i: int| 0 <= i < evs.len() ==> healthy_tick(evs[i]),
        s.elapsed_ms + TICK_MS * evs.len() >= s.duration_ms,
    ensures
        spec_run(s, evs).phase == SessionPhase::Draining,
        spec_run(s, evs).outcome == Some(SessionOutcome::FullDuration),
        spec_run(s, evs).elapsed_ms >= s.duration_ms,
        spec_run(s, evs).duration_ms == s.duration_ms,
        spec_run(s, evs).bus == s.bus,
        spec_run(s, evs).wf(),
    decreases evs.len(),
{
    if evs.len() == 0 {
        assert(false);
    } else {
        assert(healthy_tick(evs[0]));
        let s2 = s.spec_step(evs[0]);
        lemma_step_preserves_wf(s, evs[0]);
        if s2.phase == SessionPhase::Draining {
            assert(forall|i: int|
                0 <= i < evs.drop_first().len() ==> !s2.accepts(#[trigger] evs.drop_first()[i]));
            lemma_run_stutter(s2, evs.drop_first());
        } else {
            lemma_uninterrupted_run_succeeds(s2, evs.drop_first());
        }
    }
}

/// Running a concatenation of event sequences is running them in turn.
pub proof fn lemma_run_concat(s: Session, a: Seq<SessionEvent>, b: Seq<SessionEvent>)
    ensures
        spec_run(s, a + b) == spec_run(spec_run(s, a), b),
    decreases a.len(),
{
    if a.len() == 0 {
        assert(a + b =~= b);
    } else {
        assert((a + b)[0] == a[0]);
        assert((a + b).drop_first() =~= a.drop_first() + b);
        lemma_run_concat(s.spec_step(a[0]), a.drop_first(), b);
    }
}

/// A bring-up transition that succeeded with no shutdown signal pending.
pub open spec fn healthy_bring_up(e: SessionEvent) -> bool {
    e matches SessionEvent::BringUpStep { ok, shutdown } && ok && !shutdown
}

/// A session that left the loop before its full duration had elapsed never
/// carries the success outcome.
pub proof fn lemma_no_premature_success(s: Session)
    requires
        s.wf(),
        s.phase == SessionPhase::Draining || s.phase == SessionPhase::Terminated,
        s.elapsed_ms < s.duration_ms,
    ensures
        s.outcome != Some(SessionOutcome::FullDuration),
{
}

/// Teardown totality: from `Draining`, bring-down steps — successful or not —
/// terminate the session with the bus back in `Init`, in at most as many
/// steps as the bus has rungs to descend (never more than three), whatever
/// the outcome was.
pub proof fn lemma_teardown_totality(s: Session, evs: Seq<SessionEvent>)
    requires
        s.wf(),
        s.phase == SessionPhase::Draining,
        forall|i: int| 0 <= i < evs.len() ==> #[trigger] evs[i] matches SessionEvent::DrainStep { .. },
        evs.len() >= s.bus.rank(),
    ensures
        spec_run(s, evs).phase == SessionPhase::Terminated,
        spec_run(s, evs).bus == BusState::Init,
        spec_run(s, evs).outcome == s.outcome,
        spec_run(s, evs).elapsed_ms == s.elapsed_ms,
        spec_run(s, evs).duration_ms == s.duration_ms,
    decreases evs.len(),
{
    let s2 = s.spec_step(evs[0]);
    lemma_step_preserves_wf(s, evs[0]);
    crate::bus::lemma_down_lowers_rank(s.bus);
    if s2.phase == SessionPhase::Terminated {
        assert(forall|i: int|
            0 <= i < evs.drop_first().len() ==> !s2.accepts(#[trigger] evs.drop_first()[i]));
        lemma_run_stutter(s2, evs.drop_first());
    } else {
        lemma_teardown_totality(s2, evs.drop_first());
    }
}

/// A terminated session has left the bus in `Init`, whatever path led there.
pub proof fn lemma_terminated_bus_init(s: Session)
    requires
        s.wf(),
        s.phase == SessionPhase::Terminated,
    ensures
        s.bus == BusState::Init,
{
}

/// The whole happy path, end to end: a freshly started session whose
/// bring-up succeeds, whose loop is never interrupted and never faults, and
/// whose teardown is attempted the full three rungs, terminates with the bus
/// back in `Init`, reports success, and has held the actuator for at least
/// the whole requested duration.
pub proof fn lemma_full_session_succeeds(
    s: Session,
    ups: Seq<SessionEvent>,
    ticks: Seq<SessionEvent>,
    drains: Seq<SessionEvent>,
)
    requires
        s.wf(),
        s.phase == SessionPhase::Bootstrapping,
        s.bus == BusState::Init,
        ups.len() == 3,
        forall|i: int| 0 <= i < ups.len() ==> healthy_bring_up(#[trigger] ups[i]),
        forall|i: int| 0 <= i < ticks.len() ==> healthy_tick(#[trigger] ticks[i]),
        TICK_MS * ticks.len() >= s.duration_ms,
        forall|i: int| 0 <= i < drains.len() ==> #[trigger] drains[i] matches SessionEvent::DrainStep { .. },
        drains.len() >= 3,
    ensures
        spec_run(s, ups + ticks + drains).phase == SessionPhase::Terminated,
        spec_run(s, ups + ticks + drains).bus == BusState::Init,
        spec_run(s, ups + ticks + drains).outcome == Some(SessionOutcome::FullDuration),
        spec_run(s, ups + ticks + drains).elapsed_ms >= s.duration_ms,
{
    let s1 = s.spec_step(ups[0]);
    let s2 = s1.spec_step(ups[1]);
    let s3 = s2.spec_step(ups[2]);
    assert(healthy_bring_up(ups[0]) && healthy_bring_up(ups[1]) && healthy_bring_up(ups[2]));
    assert(s3.phase == SessionPhase::Running && s3.bus == BusState::Operational
        && s3.elapsed_ms == 0 && s3.duration_ms == s.duration_ms && s3.wf());
    assert(ups.drop_first()[0] == ups[1]);
    assert(ups.drop_first().drop_first()[0] == ups[2]);
    assert(ups.drop_first().drop_first().drop_first() =~= Seq::<SessionEvent>::empty());
    assert(spec_run(s, ups) == spec_run(s1, ups.drop_first()));
    assert(spec_run(s1, ups.drop_first()) == spec_run(s2, ups.drop_first().drop_first()));
    assert(spec_run(s2, ups.drop_first().drop_first()) == spec_run(
        s3,
        ups.drop_first().drop_first().drop_first(),
    ));
    assert(spec_run(s, ups) == s3);
    lemma_run_concat(s, ups, ticks + drains);
    assert(ups + (ticks + drains) =~= (ups + ticks) + drains);
    lemma_uninterrupted_run_succeeds(s3, ticks);
    let s4 = spec_run(s3, ticks);
    lemma_run_concat(s3, ticks, drains);
    lemma_teardown_totality(s4, drains);
}

/// Observing the shutdown signal mid-run drives the session all the way to
/// `Terminated` with the bus back in `Init` and a premature-exit outcome —
/// the loop exits on that very tick, and the drain steps do the rest.
pub proof fn lemma_shutdown_to_terminated(
    s: Session,
    e: SessionEvent,
    drains: Seq<SessionEvent>,
)
    requires
        s.wf(),
        s.phase == SessionPhase::Running,
        e matches SessionEvent::Tick { shutdown, .. } && shutdown,
        forall|i: int| 0 <= i < drains.len() ==> #[trigger] drains[i] matches SessionEvent::DrainStep { .. },
        drains.len() >= 3,
    ensures
        spec_run(s.spec_step(e), drains).phase == SessionPhase::Terminated,
        spec_run(s.spec_step(e), drains).bus == BusState::Init,
        spec_run(s.spec_step(e), drains).outcome == Some(SessionOutcome::PrematureExit),
{
    lemma_step_preserves_wf(s, e);
    lemma_teardown_totality(s.spec_step(e), drains);
}

/// Observing the shutdown signal — on a running tick or during bring-up —
/// moves the session out of its active phase within that one step, with the
/// premature-exit outcome, never with success.
pub proof fn lemma_shutdown_observed_exits(s: Session, e: SessionEvent)
    requires
        s.wf(),
        (s.phase == SessionPhase::Running && (e matches SessionEvent::Tick { shutdown, .. }
            && shutdown)) || (s.phase == SessionPhase::Bootstrapping && (
        e matches SessionEvent::BringUpStep { shutdown, .. } && shutdown)),
    ensures
        s.spec_step(e).phase == SessionPhase::Draining || s.spec_step(e).phase
            == SessionPhase::Terminated,
        s.spec_step(e).outcome == Some(SessionOutcome::PrematureExit),
{
}

} // verus!
