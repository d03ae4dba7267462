//! Command-line dispatch: which action an argument vector selects.

use vstd::prelude::*;

verus! {

/// What the program does for a given argument vector, decided before any
/// isolation primitive is touched.
#[derive(Clone, Debug, PartialEq, Eq)]
pub enum CliAction {
    /// No subcommand was given: print the usage text and exit 0.
    Usage,
    /// `run` was given without a command to run: print an error and exit 1.
    MissingCommand,
    /// `run <command> [args...]`: launch the command vector.
    Launch(Vec<String>),
    /// An unrecognized subcommand: print an error. The exit status stays 0,
    /// a deliberately lenient choice kept from the launcher's behaviour.
    Unknown,
}

/// Decide what to do for the given argument vector (`args[0]` being the
/// program name). For `run <command> [args...]` the returned command vector
/// is exactly the arguments after `run`, in order.
pub fn parse_cli(args: &Vec<String>) -> (r: CliAction)
    ensures
        (args@.len() < 2) == (r is Usage),
        (args@.len() >= 2 && args@[1]@ == "run"@ && args@.len() == 2) == (r is MissingCommand),
        (args@.len() >= 3 && args@[1]@ == "run"@) == (r is Launch),
        (args@.len() >= 2 && args@[1]@ != "run"@) == (r is Unknown),
        r matches CliAction::Launch(cmd) ==> {
            &&& cmd@.len() == args@.len() - 2
            &&& forall|i: int| 0 <= i < cmd@.len() ==> cmd@[i]@ == args@[i + 2]@
        },
{
    if args.len() < 2 {
        return CliAction::Usage;
    }
    let run_word: String = "run".to_owned();
    if !args[1].eq(&run_word) {
        return CliAction::Unknown;
    }
    if args.len() < 3 {
        return CliAction::MissingCommand;
    }
    let mut cmd: Vec<String> = Vec::new();
    let mut i: usize = 2;
    while i < args.len()
        invariant
            2 <= i <= args@.len(),
            3 <= args@.len(),
            cmd@.len() == i - 2,
            forall|j: int| 0 <= j < cmd@.len() ==> cmd@[j]@ == args@[j + 2]@,
        decreases args@.len() - i,
    {
        cmd.push(args[i].clone());
        i = i + 1;
    }
    CliAction::Launch(cmd)
}

/// The process exit status that a non-launch action ends with: usage errors
/// exit 1 when a command was owed after `run`; the bare usage text and an
/// unrecognized subcommand exit 0.
pub fn early_exit_code(action: &CliAction) -> (r: i32)
    requires
        !(action is Launch),
    ensures
        r == 1 <==> action is MissingCommand,
        r == 0 <==> !(action is MissingCommand),
{
    match action {
        CliAction::MissingCommand => 1,
        _ => 0,
    }
}

} // verus!
