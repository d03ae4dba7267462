use container_launcher::cli::{early_exit_code, parse_cli, CliAction};

fn args(v: &[&str]) -> Vec<String> {
    v.iter().map(|s| s.to_string()).collect()
}

#[test]
fn usage_when_no_subcommand() {
    let a = parse_cli(&args(&["launcher"]));
    assert_eq!(a, CliAction::Usage);
    assert_eq!(early_exit_code(&a), 0);
}

#[test]
fn missing_command_exits_one() {
    let a = parse_cli(&args(&["launcher", "run"]));
    assert_eq!(a, CliAction::MissingCommand);
    assert_eq!(early_exit_code(&a), 1);
}

#[test]
fn unknown_subcommand_keeps_exit_zero() {
    let a = parse_cli(&args(&["launcher", "frobnicate"]));
    assert_eq!(a, CliAction::Unknown);
    assert_eq!(early_exit_code(&a), 0);
}

#[test]
fn unknown_subcommand_even_with_arguments() {
    let a = parse_cli(&args(&["launcher", "walk", "/bin/echo", "hi"]));
    assert_eq!(a, CliAction::Unknown);
}

#[test]
fn run_extracts_command_vector() {
    let a = parse_cli(&args(&["launcher", "run", "/bin/echo", "hi"]));
    match a {
        CliAction::Launch(cmd) => {
            assert_eq!(cmd, vec!["/bin/echo".to_string(), "hi".to_string()]);
        }
        other => panic!("expected a launch, got {:?}", other),
    }
}

#[test]
fn run_with_single_command() {
    let a = parse_cli(&args(&["launcher", "run", "/bin/bash"]));
    match a {
        CliAction::Launch(cmd) => assert_eq!(cmd, vec!["/bin/bash".to_string()]),
        other => panic!("expected a launch, got {:?}", other),
    }
}
