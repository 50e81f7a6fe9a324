use vstd::prelude::*;
use vstd::string::StringExecFns;

verus! {

/// What a command line asks the program to do.
#[derive(Clone, Debug, PartialEq, Eq)]
pub enum CommandAction {
    /// `--version` or `-v`.
    PrintVersion,
    /// `--help` or `-h`.
    PrintHelp,
    /// Any other single argument: the path of a chain configuration to evaluate.
    Calculate { config_path: String },
}

/// Why a command line was rejected.
#[derive(Clone, Copy, Debug, PartialEq, Eq)]
pub enum ArgumentError {
    /// No argument after the program name.
    NotEnoughArguments,
    /// More than one argument after the program name.
    TooManyArguments,
}

impl ArgumentError {
    /// The message shown for this error.
    pub fn message(&self) -> (r: String)
        ensures
            *self == ArgumentError::NotEnoughArguments ==> r@ == "not enough arguments"@,
            *self == ArgumentError::TooManyArguments ==> r@
                == "too many arguments, expecting only 2, such as `gainlineup filepath`"@,
    {
        match self {
            ArgumentError::NotEnoughArguments => String::from_str("not enough arguments"),
            ArgumentError::TooManyArguments => String::from_str(
                "too many arguments, expecting only 2, such as `gainlineup filepath`",
            ),
        }
    }
}

/// A command line, read.
#[derive(Clone, Debug, PartialEq, Eq)]
pub struct Command {
    /// What it asks for.
    pub action: CommandAction,
}

impl Command {
    /// Reads `args`, whose first element is the program name: exactly one more
    /// argument is expected; `--version`/`-v` and `--help`/`-h` are flags and
    /// anything else names a configuration file.
    pub fn from_args(args: &Vec<String>) -> (r: Result<Command, ArgumentError>)
        ensures
            args@.len() < 2 <==> r == Err::<Command, ArgumentError>(ArgumentError::NotEnoughArguments),
            args@.len() > 2 <==> r == Err::<Command, ArgumentError>(ArgumentError::TooManyArguments),
            args@.len() == 2 ==> r.is_ok(),
            args@.len() == 2 && (args@[1]@ == "--version"@ || args@[1]@ == "-v"@) ==> r
                == Ok::<Command, ArgumentError>(Command { action: CommandAction::PrintVersion }),
            args@.len() == 2 && (args@[1]@ == "--help"@ || args@[1]@ == "-h"@) ==> r
                == Ok::<Command, ArgumentError>(Command { action: CommandAction::PrintHelp }),
            args@.len() == 2 && args@[1]@ != "--version"@ && args@[1]@ != "-v"@ && args@[1]@
                != "--help"@ && args@[1]@ != "-h"@ ==> r.is_ok() && (match r.unwrap().action {
                CommandAction::Calculate { config_path } => config_path@ == args@[1]@,
                _ => false,
            }),
    {
        if args.len() < 2 {
            return Err(ArgumentError::NotEnoughArguments);
        }
        if args.len() > 2 {
            return Err(ArgumentError::TooManyArguments);
        }
        let arg = &args[1];
        proof {
            reveal_strlit("--version");
            reveal_strlit("-v");
            reveal_strlit("--help");
            reveal_strlit("-h");
            assert("--help"@.len() != "--version"@.len());
            assert("--help"@.len() != "-v"@.len());
            assert("-h"@.len() != "--version"@.len());
            assert("-h"@[1] != "-v"@[1]);
        }
        if *arg == String::from_str("--version") || *arg == String::from_str("-v") {
            Ok(Command { action: CommandAction::PrintVersion })
        } else if *arg == String::from_str("--help") || *arg == String::from_str("-h") {
            Ok(Command { action: CommandAction::PrintHelp })
        } else {
            Ok(Command { action: CommandAction::Calculate { config_path: arg.clone() } })
        }
    }
}

} // verus!
