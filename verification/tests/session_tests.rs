use sealer::BusClaim;
use sealer::SealerCommand;
use sealer::BusState;
use sealer::Sealer;
use sealer::Session;
use sealer::SessionAction;
use sealer::SessionEvent;
use sealer::SessionOutcome;
use sealer::SessionPhase;

/// Drive a bootstrapping session through a healthy bring-up; returns the
/// first Running action.
fn bring_up_healthy(s: &mut Session) -> SessionAction {
    let mut a = s.next_action();
    while a == SessionAction::BringUpStep {
        a = s.step(SessionEvent::BringUpStep {
            ok: true,
            shutdown: false,
        });
    }
    a
}

/// Drain a session to termination; returns the number of drain steps taken.
fn drain_to_end(s: &mut Session) -> u32 {
    let mut steps = 0u32;
    let mut a = s.next_action();
    while a == SessionAction::DrainStep {
        a = s.step(SessionEvent::DrainStep { ok: true });
        steps += 1;
    }
    assert_eq!(a, SessionAction::Release);
    steps
}

#[test]
fn open_door_full_duration_succeeds() {
    // Healthy bus, no interrupt: OpenDoor for 5.3 s holds byte 0x02 every
    // 5 ms tick and reports success with the bus back in Init.
    let sealer = Sealer::new(0x02, 0x01, 0x08, 0x04);
    let mut s = sealer.open_door(BusClaim::new(), 5300);
    let mut a = bring_up_healthy(&mut s);
    assert_eq!(s.phase, SessionPhase::Running);
    assert_eq!(s.bus, BusState::Operational);

    let mut writes = 0u64;
    while let SessionAction::ExchangeAndWrite(byte) = a {
        assert_eq!(byte, 0x02);
        writes += 1;
        a = s.step(SessionEvent::Tick {
            shutdown: false,
            io_ok: true,
        });
    }
    // 5300 ms at 5 ms per tick: exactly 1060 healthy rounds.
    assert_eq!(writes, 1060);
    assert_eq!(s.elapsed_ms, 5300);
    assert_eq!(s.outcome, Some(SessionOutcome::FullDuration));
    assert_eq!(s.phase, SessionPhase::Draining);

    drain_to_end(&mut s);
    assert_eq!(s.phase, SessionPhase::Terminated);
    assert_eq!(s.bus, BusState::Init);
    assert_eq!(s.result(), Ok(()));
}

#[test]
fn interrupt_mid_run_is_premature_exit() {
    // Shutdown signal delivered at t = 2 s during OpenDoor(5.3 s): the loop
    // exits within one tick, the outcome is failure, the bus ends in Init.
    let sealer = Sealer::new(0x02, 0x01, 0x08, 0x04);
    let mut s = sealer.open_door(BusClaim::new(), 5300);
    bring_up_healthy(&mut s);

    while s.elapsed_ms < 2000 {
        s.step(SessionEvent::Tick {
            shutdown: false,
            io_ok: true,
        });
    }
    assert_eq!(s.phase, SessionPhase::Running);
    s.step(SessionEvent::Tick {
        shutdown: true,
        io_ok: true,
    });
    assert_eq!(s.elapsed_ms, 2000);
    assert_eq!(s.phase, SessionPhase::Draining);
    assert_eq!(s.outcome, Some(SessionOutcome::PrematureExit));

    drain_to_end(&mut s);
    assert_eq!(s.phase, SessionPhase::Terminated);
    assert_eq!(s.bus, BusState::Init);
    assert_eq!(s.result(), Err(()));
}

#[test]
fn io_fault_mid_run_is_premature_exit() {
    let sealer = Sealer::new(0x02, 0x01, 0x08, 0x04);
    let mut s = sealer.apply_heater(BusClaim::new(), 50);
    bring_up_healthy(&mut s);
    s.step(SessionEvent::Tick {
        shutdown: false,
        io_ok: true,
    });
    s.step(SessionEvent::Tick {
        shutdown: false,
        io_ok: false,
    });
    assert_eq!(s.phase, SessionPhase::Draining);
    assert_eq!(s.outcome, Some(SessionOutcome::PrematureExit));
    drain_to_end(&mut s);
    assert_eq!(s.bus, BusState::Init);
    assert_eq!(s.result(), Err(()));
}

#[test]
fn bring_up_failure_aborts_and_still_ends_in_init() {
    let sealer = Sealer::new(0x02, 0x01, 0x08, 0x04);
    let mut s = sealer.close_door(BusClaim::new(), 100);
    // First transition succeeds (Init -> PreOperational), second fails.
    s.step(SessionEvent::BringUpStep {
        ok: true,
        shutdown: false,
    });
    let a = s.step(SessionEvent::BringUpStep {
        ok: false,
        shutdown: false,
    });
    assert_eq!(a, SessionAction::DrainStep);
    assert_eq!(s.outcome, Some(SessionOutcome::BringUpFailed));
    drain_to_end(&mut s);
    assert_eq!(s.phase, SessionPhase::Terminated);
    assert_eq!(s.bus, BusState::Init);
    assert_eq!(s.result(), Err(()));
}

#[test]
fn bring_up_failure_on_first_step_terminates_at_once() {
    // Discovery itself fails: the bus never left Init, so the session is
    // already terminated with no drain steps owed.
    let sealer = Sealer::new(0x02, 0x01, 0x08, 0x04);
    let mut s = sealer.remove_heater(BusClaim::new(), 100);
    let a = s.step(SessionEvent::BringUpStep {
        ok: false,
        shutdown: false,
    });
    assert_eq!(a, SessionAction::Release);
    assert_eq!(s.phase, SessionPhase::Terminated);
    assert_eq!(s.bus, BusState::Init);
    assert_eq!(s.outcome, Some(SessionOutcome::BringUpFailed));
}

#[test]
fn shutdown_during_bring_up_exits_early() {
    // A signal that was set before this session even started is observed on
    // the first bring-up poll and drives the session straight to teardown.
    let sealer = Sealer::new(0x02, 0x01, 0x08, 0x04);
    let mut s = sealer.open_door(BusClaim::new(), 100);
    s.step(SessionEvent::BringUpStep {
        ok: true,
        shutdown: false,
    });
    s.step(SessionEvent::BringUpStep {
        ok: true,
        shutdown: true,
    });
    assert_eq!(s.phase, SessionPhase::Draining);
    assert_eq!(s.outcome, Some(SessionOutcome::PrematureExit));
    drain_to_end(&mut s);
    assert_eq!(s.bus, BusState::Init);
    assert_eq!(s.result(), Err(()));
}

#[test]
fn duration_not_a_tick_multiple_rounds_up() {
    // 7 ms at a 5 ms tick: success on the second tick, 10 ms accounted.
    let sealer = Sealer::new(0x02, 0x01, 0x08, 0x04);
    let mut s = sealer.open_door(BusClaim::new(), 7);
    bring_up_healthy(&mut s);
    s.step(SessionEvent::Tick {
        shutdown: false,
        io_ok: true,
    });
    assert_eq!(s.phase, SessionPhase::Running);
    s.step(SessionEvent::Tick {
        shutdown: false,
        io_ok: true,
    });
    assert_eq!(s.phase, SessionPhase::Draining);
    assert_eq!(s.elapsed_ms, 10);
    assert_eq!(s.outcome, Some(SessionOutcome::FullDuration));
}

#[test]
fn drain_errors_are_swallowed() {
    // Best-effort teardown: failed bring-down steps still walk the ladder
    // to Init and do not change the recorded outcome.
    let sealer = Sealer::new(0x02, 0x01, 0x08, 0x04);
    let mut s = sealer.open_door(BusClaim::new(), 5);
    bring_up_healthy(&mut s);
    s.step(SessionEvent::Tick {
        shutdown: false,
        io_ok: true,
    });
    assert_eq!(s.outcome, Some(SessionOutcome::FullDuration));
    let mut a = s.next_action();
    let mut steps = 0u32;
    while a == SessionAction::DrainStep {
        a = s.step(SessionEvent::DrainStep { ok: false });
        steps += 1;
    }
    assert_eq!(steps, 3);
    assert_eq!(s.phase, SessionPhase::Terminated);
    assert_eq!(s.bus, BusState::Init);
    assert_eq!(s.outcome, Some(SessionOutcome::FullDuration));
    assert_eq!(s.result(), Ok(()));
}

#[test]
fn bus_ladder_steps_one_rung_at_a_time() {
    assert_eq!(BusState::Init.bring_up_step(), BusState::PreOperational);
    assert_eq!(
        BusState::PreOperational.bring_up_step(),
        BusState::SafeOperational
    );
    assert_eq!(
        BusState::SafeOperational.bring_up_step(),
        BusState::Operational
    );
    assert_eq!(BusState::Operational.bring_up_step(), BusState::Operational);
    assert_eq!(
        BusState::Operational.bring_down_step(),
        BusState::SafeOperational
    );
    assert_eq!(
        BusState::SafeOperational.bring_down_step(),
        BusState::PreOperational
    );
    assert_eq!(BusState::PreOperational.bring_down_step(), BusState::Init);
    assert_eq!(BusState::Init.bring_down_step(), BusState::Init);
}

#[test]
fn sealer_maps_each_command_to_its_byte() {
    let sealer = Sealer::new(0x02, 0x01, 0x08, 0x04);
    assert_eq!(sealer.byte_for(&SealerCommand::OpenDoor(10)), 0x02);
    assert_eq!(sealer.byte_for(&SealerCommand::CloseDoor(10)), 0x01);
    assert_eq!(sealer.byte_for(&SealerCommand::ApplyHeater(10)), 0x08);
    assert_eq!(sealer.byte_for(&SealerCommand::RemoveHeater(10)), 0x04);
    assert_eq!(SealerCommand::OpenDoor(10).duration_ms(), 10);
}
