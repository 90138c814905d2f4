use backend_supervisor::errors::LaunchError;
use backend_supervisor::ports::PortRange;
use backend_supervisor::supervisor::Event;
use backend_supervisor::supervisor::Liveness;
use backend_supervisor::supervisor::Phase;
use backend_supervisor::supervisor::Step;
use backend_supervisor::supervisor::Supervisor;

/// Drives one whole launch attempt the way the host application does:
/// performs no real operating-system work, but answers each phase from the
/// scripted outcomes.
fn drive_launch(
    sup: &mut Supervisor,
    liveness: Option<Liveness>,
    bindable: &[bool],
    log_ok: bool,
    entry_found: bool,
    spawn: Result<u32, String>,
) -> Step {
    let range = PortRange { start: 3001, end: 3001 + (bindable.len() as u16) - 1 };
    assert_eq!(sup.range, range);
    let mut step = sup.launch_step(Phase::CheckLiveness, Event::Liveness(liveness));
    loop {
        let phase = match step {
            Step::Next(p) => p,
            _ => return step,
        };
        let event = match phase {
            Phase::CheckLiveness => unreachable!(),
            Phase::ScanPorts { cursor } => {
                Event::PortProbe(bindable[(cursor - 3001) as usize])
            }
            Phase::SetupLog { .. } => Event::LogSetup(if log_ok {
                Ok(())
            } else {
                Err(backend_supervisor::errors::LogFailure {
                    stage: backend_supervisor::errors::LogStage::OpenLogFile,
                    detail: "permission denied".to_string(),
                })
            }),
            Phase::ResolveEntry { .. } => Event::EntryResolved(entry_found),
            Phase::DoSpawn { .. } => Event::Spawned(spawn.clone()),
        };
        step = sup.launch_step(phase, event);
    }
}

fn ten_port_supervisor() -> Supervisor {
    Supervisor::new(PortRange::default_range())
}

#[test]
fn successful_launch_returns_port_and_tracks_child() {
    let mut sup = ten_port_supervisor();
    let step = drive_launch(&mut sup, None, &[true; 10], true, true, Ok(4242));
    assert_eq!(step, Step::Done(3001));
    assert_eq!(sup.tracked_child(), Some(4242));
}

#[test]
fn launch_while_running_returns_already_running() {
    let mut sup = ten_port_supervisor();
    drive_launch(&mut sup, None, &[true; 10], true, true, Ok(4242));
    // The child is alive: the next attempt is rejected and the tracked
    // child is untouched — no second child is spawned.
    let step = drive_launch(
        &mut sup,
        Some(Liveness::Running),
        &[true; 10],
        true,
        true,
        Ok(9999),
    );
    assert_eq!(step, Step::Fail(LaunchError::AlreadyRunning));
    assert_eq!(sup.tracked_child(), Some(4242));
}

#[test]
fn relaunch_after_exit_succeeds_with_new_port() {
    let mut sup = ten_port_supervisor();
    drive_launch(&mut sup, None, &[true; 10], true, true, Ok(4242));
    // The child exited on its own; the next attempt detects that, clears
    // the slot, and launches afresh — here with port 3001 now occupied.
    let mut bindable = [true; 10];
    bindable[0] = false;
    let step = drive_launch(
        &mut sup,
        Some(Liveness::Exited),
        &bindable,
        true,
        true,
        Ok(4343),
    );
    assert_eq!(step, Step::Done(3002));
    assert_eq!(sup.tracked_child(), Some(4343));
}

#[test]
fn probe_failure_clears_and_relaunches() {
    let mut sup = ten_port_supervisor();
    drive_launch(&mut sup, None, &[true; 10], true, true, Ok(4242));
    let step = drive_launch(
        &mut sup,
        Some(Liveness::ProbeFailed),
        &[true; 10],
        true,
        true,
        Ok(4343),
    );
    assert_eq!(step, Step::Done(3001));
    assert_eq!(sup.tracked_child(), Some(4343));
}

#[test]
fn at_most_one_child_across_interleaved_launches() {
    let mut sup = ten_port_supervisor();
    let mut pid: u32 = 100;
    for _round in 0..5 {
        let step = drive_launch(&mut sup, None, &[true; 10], true, true, Ok(pid));
        assert_eq!(step, Step::Done(3001));
        // Exactly one child is tracked after a successful launch ...
        assert_eq!(sup.tracked_child(), Some(pid));
        // ... a second attempt while it lives adds none ...
        let rejected = drive_launch(
            &mut sup,
            Some(Liveness::Running),
            &[true; 10],
            true,
            true,
            Ok(pid + 1),
        );
        assert_eq!(rejected, Step::Fail(LaunchError::AlreadyRunning));
        assert_eq!(sup.tracked_child(), Some(pid));
        // ... and after the simulated exit, none is tracked until the
        // next launch installs exactly one.
        let cleared = sup.launch_step(
            Phase::CheckLiveness,
            Event::Liveness(Some(Liveness::Exited)),
        );
        assert_eq!(cleared, Step::Next(Phase::ScanPorts { cursor: 3001 }));
        assert_eq!(sup.tracked_child(), None);
        pid += 2;
    }
}

#[test]
fn all_ports_occupied_fails_and_spawns_nothing() {
    let mut sup = ten_port_supervisor();
    let step = drive_launch(&mut sup, None, &[false; 10], true, true, Ok(4242));
    assert_eq!(step, Step::Fail(LaunchError::NoPortAvailable));
    assert_eq!(sup.tracked_child(), None);
}

#[test]
fn two_port_range_both_occupied() {
    // Range {3001, 3002}, both pre-occupied by other listeners.
    let mut sup = Supervisor::new(PortRange { start: 3001, end: 3002 });
    let step = drive_launch(&mut sup, None, &[false, false], true, true, Ok(4242));
    assert_eq!(step, Step::Fail(LaunchError::NoPortAvailable));
    assert_eq!(sup.tracked_child(), None);
}

#[test]
fn entry_point_missing_fails_with_slot_absent() {
    let mut sup = ten_port_supervisor();
    let step = drive_launch(&mut sup, None, &[true; 10], true, false, Ok(4242));
    assert_eq!(step, Step::Fail(LaunchError::EntryPointNotFound));
    assert_eq!(sup.tracked_child(), None);
}

#[test]
fn log_setup_failure_fails_with_slot_absent() {
    let mut sup = ten_port_supervisor();
    let step = drive_launch(&mut sup, None, &[true; 10], false, true, Ok(4242));
    match step {
        Step::Fail(LaunchError::LogSetupFailed(f)) => {
            assert_eq!(f.message(), "Failed to open backend.log: permission denied");
        }
        other => panic!("expected a log-setup failure, got {:?}", other),
    }
    assert_eq!(sup.tracked_child(), None);
}

#[test]
fn spawn_failure_fails_with_slot_absent() {
    let mut sup = ten_port_supervisor();
    let step = drive_launch(
        &mut sup,
        None,
        &[true; 10],
        true,
        true,
        Err("No such file or directory".to_string()),
    );
    assert_eq!(
        step,
        Step::Fail(LaunchError::SpawnFailed("No such file or directory".to_string()))
    );
    assert_eq!(sup.tracked_child(), None);
}

#[test]
fn lifecycle_guard_drains_tracked_child() {
    let mut sup = ten_port_supervisor();
    drive_launch(&mut sup, None, &[true; 10], true, true, Ok(4242));
    // Host shutdown: the guard hands back the child to kill and reap, and
    // the slot ends Absent.
    let to_kill = sup.drain();
    assert_eq!(to_kill, Some(4242));
    assert_eq!(sup.tracked_child(), None);
}

#[test]
fn lifecycle_guard_twice_is_noop() {
    let mut sup = ten_port_supervisor();
    drive_launch(&mut sup, None, &[true; 10], true, true, Ok(4242));
    assert_eq!(sup.drain(), Some(4242));
    // The second invocation finds the slot already Absent and is a no-op.
    assert_eq!(sup.drain(), None);
    assert_eq!(sup.tracked_child(), None);
}

#[test]
fn guard_on_fresh_supervisor_is_noop() {
    let mut sup = ten_port_supervisor();
    assert_eq!(sup.drain(), None);
    assert_eq!(sup.tracked_child(), None);
}
