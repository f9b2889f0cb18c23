//! The command sequencer: runs exactly one session at a time, in strict
//! arrival order.
//!
//! The sequencer holds the process-wide master claim while no session is
//! live, and moves it into one session at a time; serial execution — never a
//! lock — is what enforces the hardware-exclusivity invariant. Every
//! accepted command is either already completed (with its outcome), the one
//! live session, or still pending, and those three groups concatenated are
//! exactly the submission order.

use vstd::prelude::*;

use crate::command::SealerCommand;
use crate::queue::CommandQueue;
use crate::queue::EnqueueError;
use crate::sealer::Sealer;
use crate::session::BusClaim;
use crate::session::Session;
use crate::session::SessionAction;
use crate::session::SessionEvent;
use crate::session::SessionOutcome;
use crate::session::SessionPhase;

verus! {

/// Accepts commands through a bounded queue and drives one session to full
/// termination before beginning the next.
pub struct Sequencer {
    pub sealer: Sealer,
    pub queue: CommandQueue,
    /// The one live session, paired with the command it serves.
    pub active: Option<(SealerCommand, Session)>,
    /// The master claim, held here exactly while no session is live.
    pub claim: Option<BusClaim>,
    /// Commands whose sessions have fully terminated, oldest first, each
    /// with its session's outcome.
    pub completed: Vec<(SealerCommand, SessionOutcome)>,
    /// Every command ever accepted, in submission order.
    pub accepted: Ghost<Seq<SealerCommand>>,
}

impl Sequencer {
    /// The command of the live session, as a sequence of length zero or one.
    pub open spec fn active_cmds(self) -> Seq<SealerCommand> {
        match self.active {
            Some((c, _)) => seq![c],
            None => Seq::empty(),
        }
    }

    /// Commands already fully processed, in order of completion.
    pub open spec fn completed_cmds(self) -> Seq<SealerCommand> {
        self.completed@.map_values(|p: (SealerCommand, SessionOutcome)| p.0)
    }

    /// How many accepted commands have started a session so far.
    pub open spec fn started_count(self) -> int {
        self.completed@.len() + self.active_cmds().len() as int
    }

    /// Sequencer consistency: the claim is here exactly while no session is
    /// live; a live session is past `Idle`, short of `Terminated`, and runs
    /// the byte and duration of its command; and completed, live and pending
    /// commands concatenate to the exact submission order.
    pub open spec fn wf(self) -> bool {
        &&& self.queue.wf()
        &&& (self.claim is Some <==> self.active is None)
        &&& (self.active matches Some((c, s)) ==> {
            &&& s.wf()
            &&& c.valid()
            &&& s.phase != SessionPhase::Idle
            &&& s.phase != SessionPhase::Terminated
            &&& s.command_byte == self.sealer.spec_byte_for(c)
            &&& s.duration_ms == c.spec_duration_ms()
        })
        &&& self.accepted@ == self.completed_cmds() + self.active_cmds() + self.queue.pending()
    }

    /// A fresh sequencer holding the master claim, with an empty queue of
    /// the given capacity.
    pub fn new(sealer: Sealer, claim: BusClaim, capacity: usize) -> (s: Sequencer)
        ensures
            s.wf(),
            s.sealer == sealer,
            s.accepted@ =~= Seq::<SealerCommand>::empty(),
            s.completed@ =~= Seq::<(SealerCommand, SessionOutcome)>::empty(),
            s.active is None,
            s.claim is Some,
            s.queue.pending() =~= Seq::<SealerCommand>::empty(),
            s.queue.spec_capacity() == capacity,
            !s.queue.spec_closed(),
    {
        let s = Sequencer {
            sealer,
            queue: CommandQueue::new(capacity),
            active: None,
            claim: Some(claim),
            completed: Vec::new(),
            accepted: Ghost(Seq::empty()),
        };
        proof {
            assert(s.accepted@ =~= s.completed_cmds() + s.active_cmds() + s.queue.pending());
        }
        s
    }

    /// Submit a command for later execution. Accepted commands join the
    /// submission order; a refused command leaves the sequencer unchanged.
    pub fn submit(&mut self, c: SealerCommand) -> (r: Result<(), EnqueueError>)
        requires
            old(self).wf(),
            c.valid(),
        ensures
            final(self).wf(),
            final(self).sealer == old(self).sealer,
            final(self).active == old(self).active,
            final(self).completed@ == old(self).completed@,
            old(self).queue.spec_closed() ==> {
                &&& r == Result::<(), EnqueueError>::Err(EnqueueError::QueueClosed)
                &&& final(self).accepted@ == old(self).accepted@
            },
            (!old(self).queue.spec_closed() && old(self).queue.pending().len() == old(
                self,
            ).queue.spec_capacity()) ==> {
                &&& r == Result::<(), EnqueueError>::Err(EnqueueError::QueueFull)
                &&& final(self).accepted@ == old(self).accepted@
            },
            (!old(self).queue.spec_closed() && old(self).queue.pending().len() < old(
                self,
            ).queue.spec_capacity()) ==> {
                &&& r == Result::<(), EnqueueError>::Ok(())
                &&& final(self).accepted@ == old(self).accepted@.push(c)
            },
    {
        let r = self.queue.enqueue(c);
        if r.is_ok() {
            proof {
                self.accepted@ = self.accepted@.push(c);
                assert(self.accepted@ =~= self.completed_cmds() + self.active_cmds()
                    + self.queue.pending());
            }
        }
        r
    }

    /// Close the producer side: later submissions are refused, what is
    /// pending is still drained.
    pub fn close(&mut self)
        requires
            old(self).wf(),
        ensures
            final(self).wf(),
            final(self).queue.spec_closed(),
            final(self).sealer == old(self).sealer,
            final(self).active == old(self).active,
            final(self).completed@ == old(self).completed@,
            final(self).accepted@ == old(self).accepted@,
            final(self).queue.pending() == old(self).queue.pending(),
    {
        self.queue.close();
    }

    /// With no session live, begin one for the oldest pending command.
    /// Returns the session's first action, or `None` when nothing is
    /// pending.
    pub fn begin_next(&mut self) -> (r: Option<SessionAction>)
        requires
            old(self).wf(),
            old(self).active is None,
        ensures
            final(self).wf(),
            final(self).sealer == old(self).sealer,
            final(self).completed@ == old(self).completed@,
            final(self).accepted@ == old(self).accepted@,
            old(self).queue.pending().len() == 0 ==> {
                &&& r is None
                &&& final(self).active is None
                &&& final(self).queue.pending() == old(self).queue.pending()
            },
            old(self).queue.pending().len() > 0 ==> {
                &&& r == Some(SessionAction::BringUpStep)
                &&& final(self).queue.pending() == old(self).queue.pending().drop_first()
                &&& (final(self).active matches Some((c, s)) && {
                    &&& c == old(self).queue.pending()[0]
                    &&& s.phase == SessionPhase::Bootstrapping
                    &&& s.bus == crate::bus::BusState::Init
                    &&& s.outcome is None
                    &&& s.command_byte == old(self).sealer.spec_byte_for(c)
                    &&& s.duration_ms == c.spec_duration_ms()
                    &&& s.elapsed_ms == 0
                })
            },
    {
        match self.queue.dequeue() {
            None => None,
            Some(c) => {
                let claim = self.claim.take().unwrap();
                let session = self.sealer.begin(claim, &c);
                let a = session.next_action();
                self.active = Some((c, session));
                proof {
                    assert(self.accepted@ =~= self.completed_cmds() + self.active_cmds()
                        + self.queue.pending());
                }
                Some(a)
            },
        }
    }

    /// Feed the live session one observed event. Returns the next action,
    /// or `None` once the session has terminated — in which case it has been
    /// retired into the completed log and the master claim is back with the
    /// sequencer, ready for `begin_next`.
    pub fn step_active(&mut self, event: SessionEvent) -> (r: Option<SessionAction>)
        requires
            old(self).wf(),
            old(self).active matches Some((_, s)) && s.accepts(event),
        ensures
            final(self).wf(),
            final(self).sealer == old(self).sealer,
            final(self).accepted@ == old(self).accepted@,
            final(self).queue == old(self).queue,
            ({
                let (c, s) = old(self).active.unwrap();
                let s2 = s.spec_step(event);
                if s2.phase == SessionPhase::Terminated {
                    &&& r is None
                    &&& final(self).active is None
                    &&& final(self).claim is Some
                    &&& final(self).completed@ == old(self).completed@.push((c, s2.outcome.unwrap()))
                } else {
                    &&& r == Some(s2.spec_next_action())
                    &&& (final(self).active matches Some((c2, s3)) && c2 == c && s3 == s2)
                    &&& final(self).claim is None
                    &&& final(self).completed@ == old(self).completed@
                }
            }),
    {
        let (c, mut session) = self.active.take().unwrap();
        let a = session.step(event);
        if matches!(a, SessionAction::Release) {
            let (claim, outcome) = session.finish();
            self.claim = Some(claim);
            self.completed.push((c, outcome));
            proof {
                assert(self.completed_cmds() =~= old(self).completed_cmds() + seq![c]);
                assert(self.accepted@ =~= self.completed_cmds() + self.active_cmds()
                    + self.queue.pending());
            }
            None
        } else {
            self.active = Some((c, session));
            proof {
                assert(self.accepted@ =~= self.completed_cmds() + self.active_cmds()
                    + self.queue.pending());
            }
            Some(a)
        }
    }

    /// Whether the consumer loop is finished: the producer side is closed,
    /// nothing is pending, and no session is live.
    pub fn is_done(&self) -> (b: bool)
        ensures
            b <==> (self.queue.spec_closed() && self.queue.pending().len() == 0
                && self.active is None),
    {
        self.queue.is_closed() && self.queue.is_empty() && self.active.is_none()
    }

    /// The completed log, for inspection: each fully processed command with
    /// its session's outcome, in completion order.
    pub fn completed_log(&self) -> (v: &Vec<(SealerCommand, SessionOutcome)>)
        ensures
            v@ == self.completed@,
    {
        &self.completed
    }
}

/// Strict FIFO processing: whenever a later-submitted command has already
/// started its session, every earlier-submitted command's session has
/// already fully terminated.
pub proof fn lemma_fifo_order(s: &Sequencer, i: int, j: int)
    requires
        s.wf(),
        0 <= i < j,
        j < s.started_count(),
    ensures
        i < s.completed@.len(),
        s.accepted@[i] == s.completed_cmds()[i],
{
}

/// Hardware mutual exclusion: the sequencer and a live session never both
/// hold the master claim, so — the claim being unique and never duplicated —
/// at most one session is in a phase other than `Idle`/`Terminated` at any
/// instant.
pub proof fn lemma_at_most_one_live_session(s: &Sequencer)
    requires
        s.wf(),
    ensures
        s.active is Some ==> s.claim is None,
        s.claim is Some ==> s.active is None,
        s.active matches Some((_, live)) ==> live.phase != SessionPhase::Idle && live.phase
            != SessionPhase::Terminated,
{
}

} // verus!
