//! The parent side of a launch: spawning the isolated child, detaching the
//! parent's own mount namespace, waiting for the child, and turning what the
//! wait reported into the program's exit code.

use vstd::prelude::*;

verus! {

/// The namespaces a launch creates for the child, plus the signal
/// convention. Immutable, constructed once per launch.
#[derive(Clone, Copy, Debug, PartialEq, Eq)]
pub struct IsolationSpec {
    /// A fresh hostname/domain namespace.
    pub new_uts: bool,
    /// A fresh process-id namespace.
    pub new_pid: bool,
    /// A fresh mount-table namespace.
    pub new_mounts: bool,
    /// The child raises the conventional child-termination signal on exit.
    pub signal_child_term: bool,
}

/// The fixed isolation policy of a launch: hostname, process-id and
/// mount-table isolation, with the conventional termination signal.
pub fn launch_isolation() -> (r: IsolationSpec)
    ensures
        r.new_uts,
        r.new_pid,
        r.new_mounts,
        r.signal_child_term,
{
    IsolationSpec { new_uts: true, new_pid: true, new_mounts: true, signal_child_term: true }
}

/// How a reaped child terminated, read out of the raw wait status word.
#[derive(Clone, Copy, Debug, PartialEq, Eq)]
pub enum WaitOutcome {
    /// The child exited normally with the given exit code.
    Exited { code: u8 },
    /// The child was terminated by the given signal.
    Signaled { signal: u8 },
    /// Anything else the status word can encode (stopped or continued).
    Other,
}

/// The low seven bits of a wait status word select how the child ended:
/// zero means a normal exit, `0x7f` a stop or continue report, anything
/// else is the terminating signal.
pub open spec fn spec_decode_wait_status(status: i32) -> WaitOutcome {
    let low = status & 0x7f;
    if low == 0 {
        WaitOutcome::Exited { code: ((status >> 8) & 0xff) as u8 }
    } else if low == 0x7f {
        WaitOutcome::Other
    } else {
        WaitOutcome::Signaled { signal: low as u8 }
    }
}

/// Decode a raw wait status word: the exit code sits in bits 8 to 15 when
/// the low seven bits are zero; a terminating signal sits in the low seven
/// bits otherwise; all seven low bits set reports a stop or continue.
pub fn decode_wait_status(status: i32) -> (r: WaitOutcome)
    ensures
        r == spec_decode_wait_status(status),
{
    let low: i32 = status & 0x7f;
    if low == 0 {
        let code: i32 = (status >> 8) & 0xff;
        assert(0 <= ((status >> 8) & 0xff) < 256) by (bit_vector);
        WaitOutcome::Exited { code: code as u8 }
    } else if low == 0x7f {
        WaitOutcome::Other
    } else {
        assert(0 <= status & 0x7f < 128) by (bit_vector);
        WaitOutcome::Signaled { signal: low as u8 }
    }
}

/// The program's exit code for a reaped child: a normal exit propagates the
/// child's own code; a child that reported no code counts as 1.
pub fn program_exit_code(w: &WaitOutcome) -> (r: i32)
    ensures
        w matches WaitOutcome::Exited { code } ==> r == code as i32,
        !(w is Exited) ==> r == 1,
{
    match w {
        WaitOutcome::Exited { code } => *code as i32,
        WaitOutcome::Signaled { .. } => 1,
        WaitOutcome::Other => 1,
    }
}

/// Where the parent stands during a launch.
#[derive(Clone, Copy, Debug, PartialEq, Eq)]
pub enum ParentPhase {
    /// Allocate the child's stack and create the isolated child.
    Spawn,
    /// Detach the parent's own mount namespace from the ambient one, so
    /// mount work done for this launch does not leak to the host.
    DetachMounts,
    /// Block until the child terminates; the stack allocated for it must
    /// stay untouched until this completes.
    Await,
    /// Terminal: the launch finished and `code` is the program's exit code.
    Finished { code: i32 },
    /// Terminal: a launch step failed; the program exits with code 1.
    Aborted { failure: LaunchFailure },
}

/// The launch step that failed. Every one of these is fatal to the launch.
#[derive(Clone, Copy, Debug, PartialEq, Eq)]
pub enum LaunchFailure {
    /// The child-creation primitive reported an error: the launch is
    /// aborted without waiting, there is no child to wait for.
    Spawn,
    /// Detaching the mount namespace failed.
    Detach,
    /// The blocking wait failed: the child's state is unknown, which is
    /// unrecoverable.
    Await,
}

/// The outcome the shell reports after performing a parent phase's step.
#[derive(Clone, Copy, Debug, PartialEq, Eq)]
pub enum ParentEvent {
    /// Outcome of `Spawn`: whether the creation primitive returned a valid
    /// child process identifier.
    Spawned(bool),
    /// Outcome of `DetachMounts`.
    Detached(bool),
    /// Outcome of `Await`: the decoded wait status, or `None` when the wait
    /// itself failed.
    Reaped(Option<WaitOutcome>),
}

/// Whether the launch is over.
pub open spec fn parent_terminal(p: ParentPhase) -> bool {
    p is Finished || p is Aborted
}

/// The events that a parent phase's step can report.
pub open spec fn parent_event_fits(p: ParentPhase, ev: ParentEvent) -> bool {
    match p {
        ParentPhase::Spawn => ev is Spawned,
        ParentPhase::DetachMounts => ev is Detached,
        ParentPhase::Await => ev is Reaped,
        ParentPhase::Finished { .. } => false,
        ParentPhase::Aborted { .. } => false,
    }
}

/// The successor of parent phase `p` on event `ev`: spawn, then detach,
/// then the blocking wait, whose decoded status yields the exit code.
pub open spec fn spec_parent_step(p: ParentPhase, ev: ParentEvent) -> ParentPhase {
    match (p, ev) {
        (ParentPhase::Spawn, ParentEvent::Spawned(ok)) => if ok {
            ParentPhase::DetachMounts
        } else {
            ParentPhase::Aborted { failure: LaunchFailure::Spawn }
        },
        (ParentPhase::DetachMounts, ParentEvent::Detached(ok)) => if ok {
            ParentPhase::Await
        } else {
            ParentPhase::Aborted { failure: LaunchFailure::Detach }
        },
        (ParentPhase::Await, ParentEvent::Reaped(status)) => match status {
            Some(w) => ParentPhase::Finished {
                code: match w {
                    WaitOutcome::Exited { code } => code as i32,
                    _ => 1,
                },
            },
            None => ParentPhase::Aborted { failure: LaunchFailure::Await },
        },
        _ => p,
    }
}

/// Advance the launch by one observed outcome.
pub fn parent_step(p: ParentPhase, ev: ParentEvent) -> (r: ParentPhase)
    requires
        !parent_terminal(p),
        parent_event_fits(p, ev),
    ensures
        r == spec_parent_step(p, ev),
{
    match (p, ev) {
        (ParentPhase::Spawn, ParentEvent::Spawned(ok)) => if ok {
            ParentPhase::DetachMounts
        } else {
            ParentPhase::Aborted { failure: LaunchFailure::Spawn }
        },
        (ParentPhase::DetachMounts, ParentEvent::Detached(ok)) => if ok {
            ParentPhase::Await
        } else {
            ParentPhase::Aborted { failure: LaunchFailure::Detach }
        },
        (ParentPhase::Await, ParentEvent::Reaped(status)) => match status {
            Some(w) => ParentPhase::Finished { code: program_exit_code(&w) },
            None => ParentPhase::Aborted { failure: LaunchFailure::Await },
        },
        (other, _) => other,
    }
}

/// The phase a launch starts in.
pub fn parent_start() -> (r: ParentPhase)
    ensures
        r == ParentPhase::Spawn,
{
    ParentPhase::Spawn
}

/// The wait is reached only after both the spawn and the mount detach
/// succeeded, and a launch finishes (rather than aborts) only through a
/// completed wait: the child is reaped before the launch — and with it the
/// lifetime of the stack lent to the child — ends.
pub proof fn lemma_parent_order(p: ParentPhase, ev: ParentEvent)
    requires
        parent_event_fits(p, ev),
    ensures
        spec_parent_step(p, ev) is Await <==> (p is DetachMounts && ev == ParentEvent::Detached(
            true,
        )),
        spec_parent_step(p, ev) is DetachMounts <==> (p is Spawn && ev == ParentEvent::Spawned(
            true,
        )),
        spec_parent_step(p, ev) is Finished ==> (p is Await && ev matches ParentEvent::Reaped(
            Some(_),
        )),
{
}

/// A failed spawn aborts the launch at once: the parent never proceeds to
/// detach or wait when there is no child.
pub proof fn lemma_spawn_failure_aborts()
    ensures
        spec_parent_step(ParentPhase::Spawn, ParentEvent::Spawned(false)) == (ParentPhase::Aborted {
            failure: LaunchFailure::Spawn,
        }),
{
}

} // verus!
