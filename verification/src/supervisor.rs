//! The supervisor proper: the single child-process slot, the launch
//! sequence as a state machine, and the lifecycle guard.
//!
//! The supervisor tracks at most one live child by its process id. A
//! launch is a sequence of steps; each step names the operating-system
//! work the host application must perform (probe the tracked child, bind a
//! port, set up the log sink, resolve the entry point, spawn), and the
//! host reports the outcome back as an event. `launch_step` consumes one
//! event and decides the next phase, the final port, or the failure — so
//! every decision of the launch sequence is made, and verified, here,
//! while all side effects stay with the host.
//!
//! The host is expected to serialize launch requests (it drives launches
//! from a single user action) and to hold the supervisor behind its own
//! lock; this module is a plain sequential object.

use vstd::pervasive::arbitrary;
use vstd::pervasive::unreached;
use vstd::prelude::*;

use crate::errors::LaunchError;
use crate::errors::LogFailure;
use crate::ports::PortRange;

verus! {

/// What the non-blocking liveness probe of the tracked child reported:
/// the child has exited (and was reaped), it is still running, or the
/// probe itself failed. A failed probe is treated as "gone" — an
/// error-tolerant reset that never leaves a stale handle blocking future
/// launches.
#[derive(Debug, Clone, Copy, PartialEq, Eq)]
pub enum Liveness {
    Exited,
    Running,
    ProbeFailed,
}

/// A phase of the launch sequence. Each phase names the operating-system
/// work the host application performs next; the data the work needs
/// beyond these fields (candidate paths, log handles, the command line)
/// is built by the library's other functions and carried by the host.
#[derive(Debug, Clone, Copy, PartialEq, Eq)]
pub enum Phase {
    /// Probe the tracked child, if any, with a non-blocking wait.
    CheckLiveness,
    /// Bind-probe `cursor` on the loopback interface.
    ScanPorts { cursor: u16 },
    /// Resolve the application data directory, create it, and open the
    /// log file twice (create-or-append) so stdout and stderr interleave.
    SetupLog { port: u16 },
    /// Check the entry-point candidates and the working-directory
    /// fallback on disk.
    ResolveEntry { port: u16 },
    /// Spawn the child command, output redirected to the log handles.
    DoSpawn { port: u16 },
}

/// The outcome of one phase's work, reported by the host application.
#[derive(Debug, PartialEq, Eq)]
pub enum Event {
    /// The liveness probe's report, or `None` when no child is tracked.
    Liveness(Option<Liveness>),
    /// Whether the bind probe for the current cursor port succeeded.
    PortProbe(bool),
    /// Whether the log sink was set up, with the failing stage otherwise.
    LogSetup(Result<(), LogFailure>),
    /// Whether any entry-point candidate (or the fallback) resolved.
    EntryResolved(bool),
    /// The spawned child's process id, or the operating-system error.
    Spawned(Result<u32, String>),
}

/// What `launch_step` decided: the next phase, a completed launch with
/// its port, or a failed launch.
#[derive(Debug, Clone, PartialEq, Eq)]
pub enum Step {
    Next(Phase),
    Done(u16),
    Fail(LaunchError),
}

/// The supervisor: the process slot (at most one tracked child, by
/// process id) and the configured port range. Constructed empty at host
/// startup; nothing persists across restarts.
#[derive(Debug, Clone, Copy, PartialEq, Eq)]
pub struct Supervisor {
    pub slot: Option<u32>,
    pub range: PortRange,
}

impl Supervisor {
    /// A supervisor is well formed when its port range is non-empty.
    pub open spec fn wf(self) -> bool {
        self.range.wf()
    }
}

/// How many children the supervisor tracks: zero or one.
pub open spec fn tracked_count(s: Supervisor) -> nat {
    if s.slot is Some {
        1nat
    } else {
        0nat
    }
}

/// When a phase is valid for a supervisor state: every phase past the
/// liveness check runs with the slot empty (the check cleared it or found
/// it empty), and every carried port lies in the range.
pub open spec fn phase_wf(s: Supervisor, phase: Phase) -> bool {
    match phase {
        Phase::CheckLiveness => true,
        Phase::ScanPorts { cursor } => s.slot is None && s.range.contains(cursor),
        Phase::SetupLog { port } => s.slot is None && s.range.contains(port),
        Phase::ResolveEntry { port } => s.slot is None && s.range.contains(port),
        Phase::DoSpawn { port } => s.slot is None && s.range.contains(port),
    }
}

/// When an event answers a phase: each phase expects the outcome of its
/// own work, and a tracked child must have been probed.
pub open spec fn event_fits(s: Supervisor, phase: Phase, event: Event) -> bool {
    match phase {
        Phase::CheckLiveness => event matches Event::Liveness(l) && (s.slot is Some ==> l is Some),
        Phase::ScanPorts { .. } => event is PortProbe,
        Phase::SetupLog { .. } => event is LogSetup,
        Phase::ResolveEntry { .. } => event is EntryResolved,
        Phase::DoSpawn { .. } => event is Spawned,
    }
}

/// The transition relation of the launch sequence: from a supervisor
/// state, a phase, and the phase's outcome to the new state and the next
/// step. This is the specification `launch_step` is proved against, and
/// the laws below are stated over it.
pub open spec fn step_spec(s: Supervisor, phase: Phase, event: Event) -> (Supervisor, Step) {
    match phase {
        Phase::CheckLiveness => match event {
            Event::Liveness(l) => {
                if s.slot is None {
                    (s, Step::Next(Phase::ScanPorts { cursor: s.range.start }))
                } else if l == Some(Liveness::Running) {
                    (s, Step::Fail(LaunchError::AlreadyRunning))
                } else {
                    (
                        Supervisor { slot: None, ..s },
                        Step::Next(Phase::ScanPorts { cursor: s.range.start }),
                    )
                }
            },
            _ => (s, arbitrary()),
        },
        Phase::ScanPorts { cursor } => match event {
            Event::PortProbe(bindable) => {
                if bindable {
                    (s, Step::Next(Phase::SetupLog { port: cursor }))
                } else if cursor < s.range.end {
                    (s, Step::Next(Phase::ScanPorts { cursor: (cursor + 1) as u16 }))
                } else {
                    (s, Step::Fail(LaunchError::NoPortAvailable))
                }
            },
            _ => (s, arbitrary()),
        },
        Phase::SetupLog { port } => match event {
            Event::LogSetup(outcome) => match outcome {
                Ok(u) => (s, Step::Next(Phase::ResolveEntry { port })),
                Err(f) => (s, Step::Fail(LaunchError::LogSetupFailed(f))),
            },
            _ => (s, arbitrary()),
        },
        Phase::ResolveEntry { port } => match event {
            Event::EntryResolved(found) => {
                if found {
                    (s, Step::Next(Phase::DoSpawn { port }))
                } else {
                    (s, Step::Fail(LaunchError::EntryPointNotFound))
                }
            },
            _ => (s, arbitrary()),
        },
        Phase::DoSpawn { port } => match event {
            Event::Spawned(outcome) => match outcome {
                Ok(pid) => (Supervisor { slot: Some(pid), ..s }, Step::Done(port)),
                Err(m) => (s, Step::Fail(LaunchError::SpawnFailed(m))),
            },
            _ => (s, arbitrary()),
        },
    }
}

/// What the lifecycle guard does to the supervisor: it empties the slot
/// and hands back whatever was tracked.
pub open spec fn drain_spec(s: Supervisor) -> (Supervisor, Option<u32>) {
    (Supervisor { slot: None, ..s }, s.slot)
}

impl Supervisor {
    /// A fresh supervisor with an empty slot: the state every host
    /// restart begins in.
    pub fn new(range: PortRange) -> (r: Supervisor)
        requires
            range.wf(),
        ensures
            r.slot is None,
            r.range == range,
            r.wf(),
    {
        Supervisor { slot: None, range }
    }

    /// The tracked child's process id, if any. The host uses it to run
    /// the liveness probe and the kill; only this module decides what
    /// either outcome means.
    pub fn tracked_child(&self) -> (r: Option<u32>)
        ensures
            r == self.slot,
    {
        self.slot
    }

    /// One step of the launch sequence: consume the outcome of the
    /// current phase's work and decide what happens next, exactly as
    /// `step_spec` says. A launch starts in `Phase::CheckLiveness`; the
    /// host performs the work each returned phase names and reports back
    /// until the step is `Done` or `Fail`.
    ///
    /// Every failure other than `AlreadyRunning` leaves the slot empty,
    /// so the very next call is a valid fresh attempt; `AlreadyRunning`
    /// leaves the live child exactly as it was.
    pub fn launch_step(&mut self, phase: Phase, event: Event) -> (r: Step)
        requires
            old(self).wf(),
            phase_wf(*old(self), phase),
            event_fits(*old(self), phase, event),
        ensures
            (*final(self), r) == step_spec(*old(self), phase, event),
            final(self).wf(),
            final(self).range == old(self).range,
            r matches Step::Next(p2) ==> phase_wf(*final(self), p2) && final(self).slot is None,
            r matches Step::Done(port) ==> final(self).slot is Some && old(self).range.contains(
                port,
            ),
            r matches Step::Fail(e) ==> if e == LaunchError::AlreadyRunning {
                *final(self) == *old(self) && final(self).slot is Some
            } else {
                final(self).slot is None
            },
    {
        match phase {
            Phase::CheckLiveness => match event {
                Event::Liveness(l) => {
                    if self.slot.is_none() {
                        Step::Next(Phase::ScanPorts { cursor: self.range.start })
                    } else {
                        match l {
                            Some(Liveness::Running) => Step::Fail(LaunchError::AlreadyRunning),
                            _ => {
                                self.slot = None;
                                Step::Next(Phase::ScanPorts { cursor: self.range.start })
                            },
                        }
                    }
                },
                _ => unreached(),
            },
            Phase::ScanPorts { cursor } => match event {
                Event::PortProbe(bindable) => {
                    if bindable {
                        Step::Next(Phase::SetupLog { port: cursor })
                    } else if cursor < self.range.end {
                        Step::Next(Phase::ScanPorts { cursor: cursor + 1 })
                    } else {
                        Step::Fail(LaunchError::NoPortAvailable)
                    }
                },
                _ => unreached(),
            },
            Phase::SetupLog { port } => match event {
                Event::LogSetup(outcome) => match outcome {
                    Ok(u) => Step::Next(Phase::ResolveEntry { port }),
                    Err(f) => Step::Fail(LaunchError::LogSetupFailed(f)),
                },
                _ => unreached(),
            },
            Phase::ResolveEntry { port } => match event {
                Event::EntryResolved(found) => {
                    if found {
                        Step::Next(Phase::DoSpawn { port })
                    } else {
                        Step::Fail(LaunchError::EntryPointNotFound)
                    }
                },
                _ => unreached(),
            },
            Phase::DoSpawn { port } => match event {
                Event::Spawned(outcome) => match outcome {
                    Ok(pid) => {
                        self.slot = Some(pid);
                        Step::Done(port)
                    },
                    Err(m) => Step::Fail(LaunchError::SpawnFailed(m)),
                },
                _ => unreached(),
            },
        }
    }

    /// The lifecycle guard's decision, invoked when the host application
    /// begins its exit sequence: empty the slot and hand back the tracked
    /// child, if any, for the host to kill and reap. Safe to invoke
    /// again: with the slot already empty it returns nothing and changes
    /// nothing.
    pub fn drain(&mut self) -> (r: Option<u32>)
        ensures
            (*final(self), r) == drain_spec(*old(self)),
            final(self).slot is None,
            final(self).range == old(self).range,
            r == old(self).slot,
    {
        let r = self.slot;
        self.slot = None;
        r
    }
}

} // verus!
