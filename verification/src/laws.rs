//! The supervisor's laws: what holds of every launch sequence and of the
//! lifecycle guard, proved over the transition relation `step_spec`.

use vstd::pervasive::arbitrary;
use vstd::prelude::*;

use crate::errors::LaunchError;
use crate::supervisor::drain_spec;
use crate::supervisor::event_fits;
use crate::supervisor::phase_wf;
use crate::supervisor::step_spec;
use crate::supervisor::tracked_count;
use crate::supervisor::Event;
use crate::supervisor::Liveness;
use crate::supervisor::Phase;
use crate::supervisor::Step;
use crate::supervisor::Supervisor;

verus! {

/// Law: no step of a launch sequence ever tracks more than one child, so
/// however many launches and exits interleave, at most one live child
/// exists at any instant.
pub proof fn lemma_at_most_one_child(s: Supervisor, phase: Phase, event: Event)
    requires
        s.wf(),
        phase_wf(s, phase),
        event_fits(s, phase, event),
    ensures
        tracked_count(s) <= 1,
        tracked_count(step_spec(s, phase, event).0) <= 1,
{
}

/// Law: phase validity is preserved by every step, so the spawn phase —
/// the only step that installs a child — is only ever reached with the
/// slot empty: no launch sequence spawns a second child beside a live
/// one.
pub proof fn lemma_spawn_only_when_absent(s: Supervisor, phase: Phase, event: Event)
    requires
        s.wf(),
        phase_wf(s, phase),
        event_fits(s, phase, event),
        step_spec(s, phase, event).1 matches Step::Next(p2) && p2 is DoSpawn,
    ensures
        step_spec(s, phase, event).0.slot is None,
{
}

/// Law: a launch attempted while the tracked child is alive fails with
/// `AlreadyRunning` and changes nothing — in particular it issues no
/// further phase, so nothing is spawned.
pub proof fn lemma_already_running_rejects(s: Supervisor, l: Option<Liveness>)
    requires
        s.wf(),
        s.slot is Some,
        l == Some(Liveness::Running),
    ensures
        step_spec(s, Phase::CheckLiveness, Event::Liveness(l)) == (
            s,
            Step::Fail(LaunchError::AlreadyRunning),
        ),
{
}

/// Law: a launch attempted after the tracked child was found exited (or
/// after the liveness probe itself failed) clears the slot and proceeds
/// to the port scan: the supervisor never stays blocked on a dead child.
pub proof fn lemma_relaunch_after_exit(s: Supervisor, l: Option<Liveness>)
    requires
        s.wf(),
        s.slot is Some,
        l == Some(Liveness::Exited) || l == Some(Liveness::ProbeFailed),
    ensures
        step_spec(s, Phase::CheckLiveness, Event::Liveness(l)) == (
            Supervisor { slot: None, ..s },
            Step::Next(Phase::ScanPorts { cursor: s.range.start }),
        ),
{
}

/// The result of feeding the scanning phase one bind-probe outcome per
/// remaining port, starting at `cursor`: `probes[i]` is the outcome for
/// port `cursor + i`.
pub open spec fn run_scan(s: Supervisor, cursor: u16, probes: Seq<bool>) -> (Supervisor, Step)
    decreases probes.len(),
{
    if probes.len() == 0 {
        (s, arbitrary())
    } else {
        let next = step_spec(s, Phase::ScanPorts { cursor }, Event::PortProbe(probes[0]));
        match next.1 {
            Step::Next(p2) => match p2 {
                Phase::ScanPorts { cursor: c2 } => run_scan(next.0, c2, probes.drop_first()),
                _ => next,
            },
            _ => next,
        }
    }
}

/// Law: the port scan selects exactly the first port whose bind probe
/// succeeded — that port is in the configured range by construction of
/// the phases — and, when every port of the range is occupied, the scan
/// fails with `NoPortAvailable` and leaves the supervisor untouched, so
/// nothing is spawned.
pub proof fn lemma_scan_finds_first_available(s: Supervisor, cursor: u16, probes: Seq<bool>)
    requires
        s.wf(),
        s.slot is None,
        s.range.contains(cursor),
        probes.len() == s.range.end - cursor + 1,
    ensures
        forall|i: int|
            (0 <= i < probes.len() && #[trigger] probes[i] && (forall|j: int|
                0 <= j < i ==> !probes[j])) ==> run_scan(s, cursor, probes) == (
                s,
                Step::Next(Phase::SetupLog { port: (cursor + i) as u16 }),
            ),
        (forall|i: int| 0 <= i < probes.len() ==> !probes[i]) ==> run_scan(s, cursor, probes) == (
            s,
            Step::Fail(LaunchError::NoPortAvailable),
        ),
    decreases probes.len(),
{
    if probes[0] {
        assert(run_scan(s, cursor, probes) == (
            s,
            Step::Next(Phase::SetupLog { port: cursor }),
        ));
    } else if cursor < s.range.end {
        let rest = probes.drop_first();
        lemma_scan_finds_first_available(s, (cursor + 1) as u16, rest);
        assert(run_scan(s, cursor, probes) == run_scan(s, (cursor + 1) as u16, rest));
        assert forall|i: int|
            (0 <= i < probes.len() && #[trigger] probes[i] && (forall|j: int|
                0 <= j < i ==> !probes[j])) implies run_scan(s, cursor, probes) == (
            s,
            Step::Next(Phase::SetupLog { port: (cursor + i) as u16 }),
        ) by {
            assert(i >= 1);
            assert(rest[i - 1] == probes[i]);
            assert(forall|j: int| 0 <= j < i - 1 ==> rest[j] == probes[j + 1]);
            assert(forall|j: int| 0 <= j < i - 1 ==> !rest[j]);
        }
        if forall|i: int| 0 <= i < probes.len() ==> !probes[i] {
            assert(forall|j: int| 0 <= j < rest.len() ==> rest[j] == probes[j + 1]);
            assert(forall|j: int| 0 <= j < rest.len() ==> !rest[j]);
        }
    } else {
        assert(probes.len() == 1);
        assert(run_scan(s, cursor, probes) == (s, Step::Fail(LaunchError::NoPortAvailable)));
    }
}

/// Law: a full successful launch run — a liveness check that admits the
/// launch, a scan whose first bindable port is `range.start + i`, a log
/// sink that opens, an entry point that resolves, and a spawn that
/// returns `pid` — ends with exactly `pid` tracked and that port, which
/// lies in the configured range, returned to the caller.
pub proof fn lemma_successful_launch(
    s: Supervisor,
    l: Option<Liveness>,
    probes: Seq<bool>,
    i: int,
    pid: u32,
)
    requires
        s.wf(),
        s.slot is Some ==> l is Some && l != Some(Liveness::Running),
        probes.len() == s.range.len(),
        0 <= i < probes.len(),
        probes[i],
        forall|j: int| 0 <= j < i ==> !probes[j],
    ensures
        ({
            let p = (s.range.start + i) as u16;
            let r1 = step_spec(s, Phase::CheckLiveness, Event::Liveness(l));
            let r2 = run_scan(r1.0, s.range.start, probes);
            let r3 = step_spec(r2.0, Phase::SetupLog { port: p }, Event::LogSetup(Ok(())));
            let r4 = step_spec(r3.0, Phase::ResolveEntry { port: p }, Event::EntryResolved(true));
            let r5 = step_spec(r4.0, Phase::DoSpawn { port: p }, Event::Spawned(Ok(pid)));
            &&& r1.1 == Step::Next(Phase::ScanPorts { cursor: s.range.start })
            &&& r1.0.slot is None
            &&& r2.1 == Step::Next(Phase::SetupLog { port: p })
            &&& r3.1 == Step::Next(Phase::ResolveEntry { port: p })
            &&& r4.1 == Step::Next(Phase::DoSpawn { port: p })
            &&& r5.1 == Step::Done(p)
            &&& r5.0.slot == Some(pid)
            &&& s.range.contains(p)
        }),
{
    let r1 = step_spec(s, Phase::CheckLiveness, Event::Liveness(l));
    lemma_scan_finds_first_available(r1.0, s.range.start, probes);
}

/// Law: the lifecycle guard is idempotent — a drain leaves the slot
/// empty, and a second drain returns no child and changes nothing.
pub proof fn lemma_drain_idempotent(s: Supervisor)
    ensures
        drain_spec(s).0.slot is None,
        drain_spec(drain_spec(s).0).1 is None,
        drain_spec(drain_spec(s).0).0 == drain_spec(s).0,
{
}

} // verus!

