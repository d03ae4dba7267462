use container_launcher::bootstrap::{
    child_action, child_start, child_step, ChildAction, ChildEvent, ChildPhase, SetupFailure,
};

#[test]
fn happy_path_with_existing_root_exits_zero() {
    let mut p = child_start();
    assert_eq!(p, ChildPhase::CheckTool);
    p = child_step(p, ChildEvent::ToolPresent(true));
    assert_eq!(p, ChildPhase::CheckRoot);
    p = child_step(p, ChildEvent::RootExists(true));
    assert_eq!(p, ChildPhase::AssignHostname);
    p = child_step(p, ChildEvent::Completed(true));
    assert_eq!(p, ChildPhase::SwitchRoot);
    p = child_step(p, ChildEvent::Completed(true));
    assert_eq!(p, ChildPhase::MountProc);
    p = child_step(p, ChildEvent::Completed(true));
    assert_eq!(p, ChildPhase::ApplyLimiter);
    p = child_step(p, ChildEvent::Completed(true));
    assert_eq!(p, ChildPhase::RunCommand);
    p = child_step(p, ChildEvent::CommandExited(Some(0)));
    assert_eq!(p, ChildPhase::UnmountProc { code: 0 });
    p = child_step(p, ChildEvent::Completed(true));
    assert_eq!(p, ChildPhase::Exited { code: 0 });
}

#[test]
fn full_path_with_install_and_provision() {
    let mut p = child_start();
    p = child_step(p, ChildEvent::ToolPresent(false));
    assert_eq!(p, ChildPhase::InstallTool);
    p = child_step(p, ChildEvent::Completed(true));
    assert_eq!(p, ChildPhase::CheckRoot);
    p = child_step(p, ChildEvent::RootExists(false));
    assert_eq!(p, ChildPhase::ProvisionRoot);
    p = child_step(p, ChildEvent::Completed(true));
    assert_eq!(p, ChildPhase::AssignHostname);
    p = child_step(p, ChildEvent::Completed(true));
    p = child_step(p, ChildEvent::Completed(true));
    p = child_step(p, ChildEvent::Completed(true));
    p = child_step(p, ChildEvent::Completed(true));
    assert_eq!(p, ChildPhase::RunCommand);
    p = child_step(p, ChildEvent::CommandExited(Some(7)));
    p = child_step(p, ChildEvent::Completed(true));
    assert_eq!(p, ChildPhase::Exited { code: 7 });
}

#[test]
fn existing_root_is_never_reprovisioned() {
    let p = child_step(ChildPhase::CheckRoot, ChildEvent::RootExists(true));
    assert_eq!(p, ChildPhase::AssignHostname);
}

#[test]
fn missing_root_is_provisioned_once() {
    let p = child_step(ChildPhase::CheckRoot, ChildEvent::RootExists(false));
    assert_eq!(p, ChildPhase::ProvisionRoot);
    let p = child_step(p, ChildEvent::Completed(true));
    assert_eq!(p, ChildPhase::AssignHostname);
}

#[test]
fn absent_tool_is_installed_first() {
    let p = child_step(ChildPhase::CheckTool, ChildEvent::ToolPresent(false));
    assert_eq!(p, ChildPhase::InstallTool);
    let p = child_step(p, ChildEvent::Completed(true));
    assert_eq!(p, ChildPhase::CheckRoot);
}

#[test]
fn tool_install_failure_is_fatal() {
    let p = child_step(ChildPhase::InstallTool, ChildEvent::Completed(false));
    assert_eq!(p, ChildPhase::Failed { failure: SetupFailure::ToolInstall });
}

#[test]
fn provision_failure_is_fatal() {
    let p = child_step(ChildPhase::ProvisionRoot, ChildEvent::Completed(false));
    assert_eq!(p, ChildPhase::Failed { failure: SetupFailure::Provision });
}

#[test]
fn hostname_failure_is_best_effort() {
    let p = child_step(ChildPhase::AssignHostname, ChildEvent::Completed(false));
    assert_eq!(p, ChildPhase::SwitchRoot);
}

#[test]
fn root_switch_failure_is_fatal() {
    let p = child_step(ChildPhase::SwitchRoot, ChildEvent::Completed(false));
    assert_eq!(p, ChildPhase::Failed { failure: SetupFailure::RootSwitch });
}

#[test]
fn mount_failure_is_fatal() {
    let p = child_step(ChildPhase::MountProc, ChildEvent::Completed(false));
    assert_eq!(p, ChildPhase::Failed { failure: SetupFailure::MountProc });
}

#[test]
fn limiter_failure_is_fatal() {
    let p = child_step(ChildPhase::ApplyLimiter, ChildEvent::Completed(false));
    assert_eq!(p, ChildPhase::Failed { failure: SetupFailure::Limiter });
}

#[test]
fn command_start_failure_is_fatal() {
    let p = child_step(ChildPhase::RunCommand, ChildEvent::CommandFailed);
    assert_eq!(p, ChildPhase::Failed { failure: SetupFailure::Exec });
}

#[test]
fn command_exit_code_propagates() {
    let p = child_step(ChildPhase::RunCommand, ChildEvent::CommandExited(Some(42)));
    assert_eq!(p, ChildPhase::UnmountProc { code: 42 });
    let p = child_step(p, ChildEvent::Completed(true));
    assert_eq!(p, ChildPhase::Exited { code: 42 });
}

#[test]
fn codeless_command_counts_as_one() {
    let p = child_step(ChildPhase::RunCommand, ChildEvent::CommandExited(None));
    assert_eq!(p, ChildPhase::UnmountProc { code: 1 });
}

#[test]
fn unmount_failure_is_fatal() {
    let p = child_step(ChildPhase::UnmountProc { code: 0 }, ChildEvent::Completed(false));
    assert_eq!(p, ChildPhase::Failed { failure: SetupFailure::UnmountProc });
}

#[test]
fn each_phase_names_its_action() {
    assert_eq!(child_action(&ChildPhase::CheckTool), ChildAction::ProbeTool);
    assert_eq!(child_action(&ChildPhase::InstallTool), ChildAction::InstallTool);
    assert_eq!(child_action(&ChildPhase::CheckRoot), ChildAction::ProbeRoot);
    assert_eq!(child_action(&ChildPhase::ProvisionRoot), ChildAction::Provision);
    assert_eq!(child_action(&ChildPhase::AssignHostname), ChildAction::AssignHostname);
    assert_eq!(child_action(&ChildPhase::SwitchRoot), ChildAction::SwitchRoot);
    assert_eq!(child_action(&ChildPhase::MountProc), ChildAction::MountProc);
    assert_eq!(child_action(&ChildPhase::ApplyLimiter), ChildAction::ApplyLimiter);
    assert_eq!(child_action(&ChildPhase::RunCommand), ChildAction::RunCommand);
    assert_eq!(child_action(&ChildPhase::UnmountProc { code: 3 }), ChildAction::UnmountProc);
}
