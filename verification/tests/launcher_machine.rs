use container_launcher::launcher::{
    decode_wait_status, launch_isolation, parent_start, parent_step, program_exit_code,
    LaunchFailure, ParentEvent, ParentPhase, WaitOutcome,
};
use container_launcher::STACK_SIZE;

#[test]
fn isolation_covers_all_three_namespaces() {
    let spec = launch_isolation();
    assert!(spec.new_uts);
    assert!(spec.new_pid);
    assert!(spec.new_mounts);
    assert!(spec.signal_child_term);
}

#[test]
fn stack_is_one_mebibyte() {
    assert_eq!(STACK_SIZE, 1024 * 1024);
}

#[test]
fn wait_status_zero_is_exit_zero() {
    assert_eq!(decode_wait_status(0), WaitOutcome::Exited { code: 0 });
}

#[test]
fn wait_status_carries_exit_code_in_high_byte() {
    assert_eq!(decode_wait_status(5 << 8), WaitOutcome::Exited { code: 5 });
    assert_eq!(decode_wait_status(255 << 8), WaitOutcome::Exited { code: 255 });
}

#[test]
fn wait_status_low_bits_are_the_signal() {
    assert_eq!(decode_wait_status(9), WaitOutcome::Signaled { signal: 9 });
    assert_eq!(decode_wait_status(15), WaitOutcome::Signaled { signal: 15 });
}

#[test]
fn wait_status_all_low_bits_set_is_other() {
    assert_eq!(decode_wait_status(0x7f), WaitOutcome::Other);
    assert_eq!(decode_wait_status(0x137f), WaitOutcome::Other);
}

#[test]
fn exit_code_propagates_from_normal_exit() {
    assert_eq!(program_exit_code(&WaitOutcome::Exited { code: 7 }), 7);
    assert_eq!(program_exit_code(&WaitOutcome::Exited { code: 0 }), 0);
}

#[test]
fn exit_code_is_one_without_a_reported_code() {
    assert_eq!(program_exit_code(&WaitOutcome::Signaled { signal: 9 }), 1);
    assert_eq!(program_exit_code(&WaitOutcome::Other), 1);
}

#[test]
fn launch_happy_path_finishes_with_child_code() {
    let mut p = parent_start();
    assert_eq!(p, ParentPhase::Spawn);
    p = parent_step(p, ParentEvent::Spawned(true));
    assert_eq!(p, ParentPhase::DetachMounts);
    p = parent_step(p, ParentEvent::Detached(true));
    assert_eq!(p, ParentPhase::Await);
    p = parent_step(p, ParentEvent::Reaped(Some(WaitOutcome::Exited { code: 0 })));
    assert_eq!(p, ParentPhase::Finished { code: 0 });
}

#[test]
fn spawn_failure_aborts_without_waiting() {
    let p = parent_step(ParentPhase::Spawn, ParentEvent::Spawned(false));
    assert_eq!(p, ParentPhase::Aborted { failure: LaunchFailure::Spawn });
}

#[test]
fn detach_failure_aborts() {
    let p = parent_step(ParentPhase::DetachMounts, ParentEvent::Detached(false));
    assert_eq!(p, ParentPhase::Aborted { failure: LaunchFailure::Detach });
}

#[test]
fn wait_failure_aborts() {
    let p = parent_step(ParentPhase::Await, ParentEvent::Reaped(None));
    assert_eq!(p, ParentPhase::Aborted { failure: LaunchFailure::Await });
}

#[test]
fn signaled_child_finishes_with_code_one() {
    let p = parent_step(
        ParentPhase::Await,
        ParentEvent::Reaped(Some(WaitOutcome::Signaled { signal: 9 })),
    );
    assert_eq!(p, ParentPhase::Finished { code: 1 });
}
