//! The isolated child's bootstrap sequence, as a state machine.
//!
//! The child runs a strict ordered sequence: ensure the provisioning tool,
//! provision the substitute root if it is missing, set the hostname, switch
//! the filesystem root, mount the process-information filesystem, configure
//! the resource limiter, run the target command, and unmount. Each step is a
//! syscall or a subprocess performed outside this library; what is verified
//! here is the sequencing, the per-step failure policy (which failures abort
//! and which are best-effort), and how the command's exit code becomes the
//! child's own.
//!
//! The unverified shell drives the machine: it asks [`child_action`] what to
//! do, performs it, and feeds the outcome back through [`child_step`].

use vstd::prelude::*;

verus! {

/// The setup step whose failure aborted the bootstrap. Every one of these is
/// fatal: the launch is refused rather than continued half-isolated, and no
/// rollback is attempted.
#[derive(Clone, Copy, Debug, PartialEq, Eq)]
pub enum SetupFailure {
    /// The provisioning tool was absent and could not be installed.
    ToolInstall,
    /// The provisioning tool ran and failed to populate the root tree.
    Provision,
    /// The root switch (chroot plus the change of working directory) failed.
    RootSwitch,
    /// Mounting the process-information filesystem failed.
    MountProc,
    /// Creating the cgroup directory or writing one of its files failed.
    Limiter,
    /// The target command could not be located or started.
    Exec,
    /// Unmounting the process-information filesystem failed.
    UnmountProc,
}

/// Where the bootstrap stands. Non-terminal phases name the step about to be
/// performed; `Exited` and `Failed` are terminal.
#[derive(Clone, Copy, Debug, PartialEq, Eq)]
pub enum ChildPhase {
    /// Probe whether the provisioning tool is on the command search path.
    CheckTool,
    /// The tool is absent: install it through the package manager.
    InstallTool,
    /// Probe whether the substitute root tree already exists.
    CheckRoot,
    /// The root tree is missing: run the provisioning tool to populate it.
    ProvisionRoot,
    /// Assign the isolated hostname (best-effort).
    AssignHostname,
    /// Rebind the root directory to the substitute tree and chdir to `/`.
    SwitchRoot,
    /// Mount the process-information filesystem at `/proc` of the new root.
    MountProc,
    /// Create the pid cgroup, write its ceiling, and join it.
    ApplyLimiter,
    /// Run the target command and collect its exit status.
    RunCommand,
    /// The command finished with exit code `code`: unmount `/proc`.
    UnmountProc { code: i32 },
    /// Terminal: the bootstrap ends and `code` is the child's exit code.
    Exited { code: i32 },
    /// Terminal: a mandatory step failed and the bootstrap was aborted.
    Failed { failure: SetupFailure },
}

/// The outcome the shell reports after performing a phase's step.
#[derive(Clone, Copy, Debug, PartialEq, Eq)]
pub enum ChildEvent {
    /// Outcome of `CheckTool`: the tool is (not) on the search path.
    ToolPresent(bool),
    /// Outcome of `CheckRoot`: the root tree does (not) already exist.
    RootExists(bool),
    /// Outcome of a step that either succeeds or fails.
    Completed(bool),
    /// Outcome of `RunCommand`: the command ran and exited; `Some(code)` is
    /// its exit code, `None` means it reported none (it was killed).
    CommandExited(Option<i32>),
    /// Outcome of `RunCommand`: the command never started.
    CommandFailed,
}

/// Whether the bootstrap is over.
pub open spec fn is_terminal(p: ChildPhase) -> bool {
    p is Exited || p is Failed
}

/// The events that a phase's step can report.
pub open spec fn event_fits(p: ChildPhase, ev: ChildEvent) -> bool {
    match p {
        ChildPhase::CheckTool => ev is ToolPresent,
        ChildPhase::CheckRoot => ev is RootExists,
        ChildPhase::RunCommand => ev is CommandExited || ev is CommandFailed,
        ChildPhase::Exited { .. } => false,
        ChildPhase::Failed { .. } => false,
        _ => ev is Completed,
    }
}

/// The successor of phase `p` on event `ev`: the bootstrap order, the
/// per-step failure policy, and the exit-code bookkeeping, in one place.
pub open spec fn spec_child_step(p: ChildPhase, ev: ChildEvent) -> ChildPhase {
    match (p, ev) {
        (ChildPhase::CheckTool, ChildEvent::ToolPresent(present)) => if present {
            ChildPhase::CheckRoot
        } else {
            ChildPhase::InstallTool
        },
        (ChildPhase::InstallTool, ChildEvent::Completed(ok)) => if ok {
            ChildPhase::CheckRoot
        } else {
            ChildPhase::Failed { failure: SetupFailure::ToolInstall }
        },
        (ChildPhase::CheckRoot, ChildEvent::RootExists(exists)) => if exists {
            ChildPhase::AssignHostname
        } else {
            ChildPhase::ProvisionRoot
        },
        (ChildPhase::ProvisionRoot, ChildEvent::Completed(ok)) => if ok {
            ChildPhase::AssignHostname
        } else {
            ChildPhase::Failed { failure: SetupFailure::Provision }
        },
        // Hostname assignment is best-effort: either outcome proceeds.
        (ChildPhase::AssignHostname, ChildEvent::Completed(_)) => ChildPhase::SwitchRoot,
        (ChildPhase::SwitchRoot, ChildEvent::Completed(ok)) => if ok {
            ChildPhase::MountProc
        } else {
            ChildPhase::Failed { failure: SetupFailure::RootSwitch }
        },
        (ChildPhase::MountProc, ChildEvent::Completed(ok)) => if ok {
            ChildPhase::ApplyLimiter
        } else {
            ChildPhase::Failed { failure: SetupFailure::MountProc }
        },
        (ChildPhase::ApplyLimiter, ChildEvent::Completed(ok)) => if ok {
            ChildPhase::RunCommand
        } else {
            ChildPhase::Failed { failure: SetupFailure::Limiter }
        },
        (ChildPhase::RunCommand, ChildEvent::CommandExited(status)) => match status {
            // A command that reports no exit code counts as exit code 1.
            Some(code) => ChildPhase::UnmountProc { code },
            None => ChildPhase::UnmountProc { code: 1 },
        },
        (ChildPhase::RunCommand, ChildEvent::CommandFailed) => ChildPhase::Failed {
            failure: SetupFailure::Exec,
        },
        (ChildPhase::UnmountProc { code }, ChildEvent::Completed(ok)) => if ok {
            ChildPhase::Exited { code }
        } else {
            ChildPhase::Failed { failure: SetupFailure::UnmountProc }
        },
        // Terminal phases, and events that the phase's step cannot report,
        // change nothing.
        _ => p,
    }
}

/// Advance the bootstrap by one observed outcome.
pub fn child_step(p: ChildPhase, ev: ChildEvent) -> (r: ChildPhase)
    requires
        !is_terminal(p),
        event_fits(p, ev),
    ensures
        r == spec_child_step(p, ev),
{
    match (p, ev) {
        (ChildPhase::CheckTool, ChildEvent::ToolPresent(present)) => if present {
            ChildPhase::CheckRoot
        } else {
            ChildPhase::InstallTool
        },
        (ChildPhase::InstallTool, ChildEvent::Completed(ok)) => if ok {
            ChildPhase::CheckRoot
        } else {
            ChildPhase::Failed { failure: SetupFailure::ToolInstall }
        },
        (ChildPhase::CheckRoot, ChildEvent::RootExists(exists)) => if exists {
            ChildPhase::AssignHostname
        } else {
            ChildPhase::ProvisionRoot
        },
        (ChildPhase::ProvisionRoot, ChildEvent::Completed(ok)) => if ok {
            ChildPhase::AssignHostname
        } else {
            ChildPhase::Failed { failure: SetupFailure::Provision }
        },
        (ChildPhase::AssignHostname, ChildEvent::Completed(_)) => ChildPhase::SwitchRoot,
        (ChildPhase::SwitchRoot, ChildEvent::Completed(ok)) => if ok {
            ChildPhase::MountProc
        } else {
            ChildPhase::Failed { failure: SetupFailure::RootSwitch }
        },
        (ChildPhase::MountProc, ChildEvent::Completed(ok)) => if ok {
            ChildPhase::ApplyLimiter
        } else {
            ChildPhase::Failed { failure: SetupFailure::MountProc }
        },
        (ChildPhase::ApplyLimiter, ChildEvent::Completed(ok)) => if ok {
            ChildPhase::RunCommand
        } else {
            ChildPhase::Failed { failure: SetupFailure::Limiter }
        },
        (ChildPhase::RunCommand, ChildEvent::CommandExited(status)) => match status {
            Some(code) => ChildPhase::UnmountProc { code },
            None => ChildPhase::UnmountProc { code: 1 },
        },
        (ChildPhase::RunCommand, ChildEvent::CommandFailed) => ChildPhase::Failed {
            failure: SetupFailure::Exec,
        },
        (ChildPhase::UnmountProc { code }, ChildEvent::Completed(ok)) => if ok {
            ChildPhase::Exited { code }
        } else {
            ChildPhase::Failed { failure: SetupFailure::UnmountProc }
        },
        (other, _) => other,
    }
}

/// The step the shell must perform for a non-terminal phase. Unlike the
/// phases, actions carry no bookkeeping: they name the outside work alone.
#[derive(Clone, Copy, Debug, PartialEq, Eq)]
pub enum ChildAction {
    /// Probe the command search path for the provisioning tool.
    ProbeTool,
    /// Install the provisioning tool through the package manager.
    InstallTool,
    /// Probe whether the substitute root tree exists.
    ProbeRoot,
    /// Run the provisioning tool against the substitute root path.
    Provision,
    /// Assign the isolated hostname.
    AssignHostname,
    /// Chroot to the substitute root and chdir to `/`.
    SwitchRoot,
    /// Mount the process-information filesystem at `/proc`.
    MountProc,
    /// Create the pid cgroup, write its files, and join it.
    ApplyLimiter,
    /// Run the target command and collect its exit status.
    RunCommand,
    /// Unmount the process-information filesystem.
    UnmountProc,
}

/// What the shell must do in phase `p`.
pub fn child_action(p: &ChildPhase) -> (r: ChildAction)
    requires
        !is_terminal(*p),
    ensures
        r is ProbeTool <==> *p is CheckTool,
        r is InstallTool <==> *p is InstallTool,
        r is ProbeRoot <==> *p is CheckRoot,
        r is Provision <==> *p is ProvisionRoot,
        r is AssignHostname <==> *p is AssignHostname,
        r is SwitchRoot <==> *p is SwitchRoot,
        r is MountProc <==> *p is MountProc,
        r is ApplyLimiter <==> *p is ApplyLimiter,
        r is RunCommand <==> *p is RunCommand,
        r is UnmountProc <==> *p is UnmountProc,
{
    match p {
        ChildPhase::CheckTool => ChildAction::ProbeTool,
        ChildPhase::InstallTool => ChildAction::InstallTool,
        ChildPhase::CheckRoot => ChildAction::ProbeRoot,
        ChildPhase::ProvisionRoot => ChildAction::Provision,
        ChildPhase::AssignHostname => ChildAction::AssignHostname,
        ChildPhase::SwitchRoot => ChildAction::SwitchRoot,
        ChildPhase::MountProc => ChildAction::MountProc,
        ChildPhase::ApplyLimiter => ChildAction::ApplyLimiter,
        ChildPhase::RunCommand => ChildAction::RunCommand,
        ChildPhase::UnmountProc { .. } => ChildAction::UnmountProc,
        ChildPhase::Exited { .. } => unreached(),
        ChildPhase::Failed { .. } => unreached(),
    }
}

/// The phase the bootstrap starts in.
pub fn child_start() -> (r: ChildPhase)
    ensures
        r == ChildPhase::CheckTool,
{
    ChildPhase::CheckTool
}

/// The position of a phase in the bootstrap order. Terminal phases come
/// last.
pub open spec fn phase_rank(p: ChildPhase) -> nat {
    match p {
        ChildPhase::CheckTool => 0,
        ChildPhase::InstallTool => 1,
        ChildPhase::CheckRoot => 2,
        ChildPhase::ProvisionRoot => 3,
        ChildPhase::AssignHostname => 4,
        ChildPhase::SwitchRoot => 5,
        ChildPhase::MountProc => 6,
        ChildPhase::ApplyLimiter => 7,
        ChildPhase::RunCommand => 8,
        ChildPhase::UnmountProc { .. } => 9,
        ChildPhase::Exited { .. } => 10,
        ChildPhase::Failed { .. } => 11,
    }
}

/// The phases that every bootstrap that reaches its command passes through;
/// `InstallTool` and `ProvisionRoot` may be skipped, terminal phases end it.
pub open spec fn is_mandatory(p: ChildPhase) -> bool {
    match p {
        ChildPhase::CheckRoot => true,
        ChildPhase::AssignHostname => true,
        ChildPhase::SwitchRoot => true,
        ChildPhase::MountProc => true,
        ChildPhase::ApplyLimiter => true,
        ChildPhase::RunCommand => true,
        _ => false,
    }
}

/// The bootstrap only moves forward: a step never returns to an earlier
/// phase, and every step performed (a fitting event in a non-terminal phase)
/// strictly advances it.
pub proof fn lemma_step_monotone(p: ChildPhase, ev: ChildEvent)
    ensures
        phase_rank(spec_child_step(p, ev)) >= phase_rank(p),
        !is_terminal(p) && event_fits(p, ev) ==> phase_rank(spec_child_step(p, ev))
            > phase_rank(p),
{
}

/// What one step can do to the phase order: a failure is the only way to
/// leave the order, a step never advances it by more than the two optional
/// skips, and a step out of a non-failed phase cannot have started failed.
pub proof fn lemma_step_shape(p: ChildPhase, ev: ChildEvent)
    ensures
        !(spec_child_step(p, ev) is Failed) ==> !(p is Failed),
        !(spec_child_step(p, ev) is Failed) ==> phase_rank(spec_child_step(p, ev)) <= phase_rank(
            p,
        ) + 2,
        !(spec_child_step(p, ev) is Failed) && phase_rank(spec_child_step(p, ev)) == phase_rank(p)
            + 2 ==> (p is CheckTool || p is CheckRoot),
{
}

/// Each phase of the isolation sequence is entered from exactly one
/// predecessor, on exactly one outcome. In particular: the root tree is
/// provisioned only when the probe found it missing; the root switch comes
/// only after the (best-effort) hostname step; `/proc` is mounted only after
/// the root switch succeeded; the resource limiter is configured only after
/// the mount succeeded; and the target command runs only after the limiter
/// was configured.
pub proof fn lemma_phase_entry(p: ChildPhase, ev: ChildEvent)
    requires
        event_fits(p, ev),
    ensures
        spec_child_step(p, ev) is ProvisionRoot <==> (p is CheckRoot && ev == ChildEvent::RootExists(
            false,
        )),
        spec_child_step(p, ev) is AssignHostname <==> (p is CheckRoot && ev
            == ChildEvent::RootExists(true)) || (p is ProvisionRoot && ev
            == ChildEvent::Completed(true)),
        spec_child_step(p, ev) is SwitchRoot <==> (p is AssignHostname && ev is Completed),
        spec_child_step(p, ev) is MountProc <==> (p is SwitchRoot && ev == ChildEvent::Completed(
            true,
        )),
        spec_child_step(p, ev) is ApplyLimiter <==> (p is MountProc && ev == ChildEvent::Completed(
            true,
        )),
        spec_child_step(p, ev) is RunCommand <==> (p is ApplyLimiter && ev
            == ChildEvent::Completed(true)),
        spec_child_step(p, ev) is UnmountProc <==> (p is RunCommand && ev is CommandExited),
        spec_child_step(p, ev) is Exited <==> (p is UnmountProc && ev == ChildEvent::Completed(
            true,
        )),
{
}

/// The command's exit code becomes the child's own, unchanged, and a command
/// that reported no code counts as exit code 1.
pub proof fn lemma_exit_code_propagates(code: i32, ev: ChildEvent)
    ensures
        spec_child_step(ChildPhase::RunCommand, ChildEvent::CommandExited(Some(code)))
            == (ChildPhase::UnmountProc { code }),
        spec_child_step(ChildPhase::RunCommand, ChildEvent::CommandExited(None::<i32>))
            == (ChildPhase::UnmountProc { code: 1 }),
        spec_child_step(ChildPhase::UnmountProc { code }, ChildEvent::Completed(true))
            == (ChildPhase::Exited { code }),
{
}

/// The phase a bootstrap is in after the given sequence of outcomes,
/// starting from `CheckTool`.
pub open spec fn run_trace(events: Seq<ChildEvent>) -> ChildPhase
    decreases events.len(),
{
    if events.len() == 0 {
        ChildPhase::CheckTool
    } else {
        spec_child_step(run_trace(events.drop_last()), events.last())
    }
}

/// A sequence of outcomes in which every event is one that the phase it
/// answers could report.
pub open spec fn valid_trace(events: Seq<ChildEvent>) -> bool {
    forall|i: int|
        0 <= i < events.len() ==> event_fits(run_trace(#[trigger] events.take(i)), events[i])
}

/// Along any trace, the phase order never moves backwards.
pub proof fn lemma_trace_monotone(events: Seq<ChildEvent>, i: int, j: int)
    requires
        0 <= i <= j <= events.len(),
    ensures
        phase_rank(run_trace(events.take(i))) <= phase_rank(run_trace(events.take(j))),
    decreases j - i,
{
    if i < j {
        lemma_trace_monotone(events, i, j - 1);
        let shorter = events.take(j - 1);
        let longer = events.take(j);
        assert(longer.drop_last() =~= shorter);
        lemma_step_monotone(run_trace(shorter), longer.last());
    }
}

/// A bootstrap that has not failed and has moved past a mandatory phase was
/// in that phase at some earlier point: no mandatory step of the isolation
/// sequence is ever skipped.
pub proof fn lemma_mandatory_phase_visited(events: Seq<ChildEvent>, q: ChildPhase)
    requires
        is_mandatory(q),
        !(run_trace(events) is Failed),
        phase_rank(run_trace(events)) > phase_rank(q),
    ensures
        exists|i: int| 0 <= i <= events.len() && run_trace(#[trigger] events.take(i)) == q,
    decreases events.len(),
{
    if events.len() == 0 {
        assert(false);
    } else {
        let prefix = events.drop_last();
        let before = run_trace(prefix);
        let after = run_trace(events);
        lemma_step_shape(before, events.last());
        assert(prefix =~= events.take(events.len() - 1));
        if before == q {
            assert(run_trace(events.take(events.len() - 1)) == q);
        } else {
            assert(phase_rank(before) > phase_rank(q));
            lemma_mandatory_phase_visited(prefix, q);
            let i = choose|i: int|
                0 <= i <= prefix.len() && run_trace(#[trigger] prefix.take(i)) == q;
            assert(prefix.take(i) =~= events.take(i));
            assert(run_trace(events.take(i)) == q);
        }
    }
}

/// Before the target command runs, the whole isolation sequence has run, in
/// order: the root switch, the mount of the process-information filesystem,
/// and the resource limiter each have their own earlier moment in the trace,
/// root switch first, then the mount, then the limiter, and the limiter
/// before the command phase itself.
pub proof fn lemma_command_runs_fully_isolated(events: Seq<ChildEvent>)
    requires
        !(run_trace(events) is Failed),
        phase_rank(run_trace(events)) > phase_rank(ChildPhase::RunCommand),
    ensures
        exists|i1: int, i2: int, i3: int, i4: int|
            {
                &&& 0 <= i1 < i2 < i3 < i4 <= events.len()
                &&& run_trace(events.take(i1)) == ChildPhase::SwitchRoot
                &&& run_trace(events.take(i2)) == ChildPhase::MountProc
                &&& run_trace(events.take(i3)) == ChildPhase::ApplyLimiter
                &&& run_trace(events.take(i4)) == ChildPhase::RunCommand
            },
{
    lemma_mandatory_phase_visited(events, ChildPhase::SwitchRoot);
    lemma_mandatory_phase_visited(events, ChildPhase::MountProc);
    lemma_mandatory_phase_visited(events, ChildPhase::ApplyLimiter);
    lemma_mandatory_phase_visited(events, ChildPhase::RunCommand);
    let i1 = choose|i: int|
        0 <= i <= events.len() && run_trace(#[trigger] events.take(i)) == ChildPhase::SwitchRoot;
    let i2 = choose|i: int|
        0 <= i <= events.len() && run_trace(#[trigger] events.take(i)) == ChildPhase::MountProc;
    let i3 = choose|i: int|
        0 <= i <= events.len() && run_trace(#[trigger] events.take(i)) == ChildPhase::ApplyLimiter;
    let i4 = choose|i: int|
        0 <= i <= events.len() && run_trace(#[trigger] events.take(i)) == ChildPhase::RunCommand;
    if i2 <= i1 {
        lemma_trace_monotone(events, i2, i1);
    }
    if i3 <= i2 {
        lemma_trace_monotone(events, i3, i2);
    }
    if i4 <= i3 {
        lemma_trace_monotone(events, i4, i3);
    }
    assert(i1 < i2 < i3 < i4 <= events.len());
}

/// Along a valid trace, a step performed in a non-terminal phase is never
/// performed again: in particular, a launch provisions the root tree at most
/// once.
pub proof fn lemma_no_phase_repeats(events: Seq<ChildEvent>, i: int, j: int)
    requires
        valid_trace(events),
        0 <= i < j <= events.len(),
        !is_terminal(run_trace(events.take(i))),
    ensures
        run_trace(events.take(j)) != run_trace(events.take(i)),
{
    let p = run_trace(events.take(i));
    assert(event_fits(p, events[i]));
    lemma_step_monotone(p, events[i]);
    assert(events.take(i + 1).drop_last() =~= events.take(i));
    assert(run_trace(events.take(i + 1)) == spec_child_step(p, events[i]));
    lemma_trace_monotone(events, i + 1, j);
}

/// Bootstrapping is idempotent in the root tree: once the probe has found
/// the substitute root tree present, no later point of that launch is in the
/// provisioning phase — the existing tree is reused, never provisioned
/// again.
pub proof fn lemma_existing_root_never_provisioned(events: Seq<ChildEvent>, i: int, j: int)
    requires
        valid_trace(events),
        0 <= i < events.len(),
        run_trace(events.take(i)) == ChildPhase::CheckRoot,
        events[i] == ChildEvent::RootExists(true),
        0 <= j <= events.len(),
    ensures
        run_trace(events.take(j)) != ChildPhase::ProvisionRoot,
{
    if run_trace(events.take(j)) == ChildPhase::ProvisionRoot {
        assert(j >= 1);
        let before = run_trace(events.take(j - 1));
        assert(events.take(j).drop_last() =~= events.take(j - 1));
        assert(spec_child_step(before, events[j - 1]) == ChildPhase::ProvisionRoot);
        assert(event_fits(before, events[j - 1]));
        lemma_phase_entry(before, events[j - 1]);
        assert(before == ChildPhase::CheckRoot);
        assert(events[j - 1] == ChildEvent::RootExists(false));
        if i < j - 1 {
            lemma_no_phase_repeats(events, i, j - 1);
        } else if j - 1 < i {
            lemma_no_phase_repeats(events, j - 1, i);
        }
        assert(i == j - 1);
        assert(false);
    }
}

} // verus!
