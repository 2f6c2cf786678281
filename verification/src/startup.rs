//! How the program begins: its arguments, and the reasons not to start.

use crate::text;
use vstd::prelude::*;
use vstd::string::*;

verus! {

/// What the program is asked to be.
#[derive(Debug, PartialEq, Eq)]
pub enum Mode {
    /// The process list.
    List,
    /// The wrapper around one process: `wrap <status_file> <shell_cmd>`.
    Wrap { status_file: String, shell_cmd: String },
}

/// What a `Mode` holds.
#[verifier::ext_equal]
pub enum ModeView {
    List,
    Wrap { status_file: Seq<char>, shell_cmd: Seq<char> },
}

impl View for Mode {
    type V = ModeView;

    open spec fn view(&self) -> ModeView {
        match self {
            Mode::List => ModeView::List,
            Mode::Wrap { status_file, shell_cmd } => ModeView::Wrap {
                status_file: status_file@,
                shell_cmd: shell_cmd@,
            },
        }
    }
}

/// Why the program does not start.
#[derive(Clone, Copy, Debug, PartialEq, Eq, Structural)]
pub enum StartError {
    MissingStatusFile,
    MissingCommand,
    OutsideTmux,
    NoConfig,
    NoProcs,
}

/// The reason in words.
pub open spec fn start_message(error: StartError) -> Seq<char> {
    match error {
        StartError::MissingStatusFile => "wrap: missing status file"@,
        StartError::MissingCommand => "wrap: missing command"@,
        StartError::OutsideTmux => "tmprocs must be run inside a tmux session"@,
        StartError::NoConfig => "no mprocs.yml / tmprocs.yml found in current directory"@,
        StartError::NoProcs => "no procs defined in config"@,
    }
}

impl StartError {
    /// The reason in words.
    pub fn message(&self) -> (text: &'static str)
        ensures
            text@ == start_message(*self),
    {
        match self {
            StartError::MissingStatusFile => "wrap: missing status file",
            StartError::MissingCommand => "wrap: missing command",
            StartError::OutsideTmux => "tmprocs must be run inside a tmux session",
            StartError::NoConfig => "no mprocs.yml / tmprocs.yml found in current directory",
            StartError::NoProcs => "no procs defined in config",
        }
    }
}

/// What the arguments, the program's name first, ask for.
pub open spec fn asked_mode(args: Seq<Seq<char>>) -> Result<ModeView, StartError> {
    if args.len() < 2 || args[1] != "wrap"@ {
        Ok(ModeView::List)
    } else if args.len() < 3 {
        Err(StartError::MissingStatusFile)
    } else if args.len() < 4 {
        Err(StartError::MissingCommand)
    } else {
        Ok(ModeView::Wrap { status_file: args[2], shell_cmd: args[3] })
    }
}

/// What the arguments, the program's name first, ask for.
pub fn parse_args(args: &Vec<String>) -> (mode: Result<Mode, StartError>)
    ensures
        match mode {
            Ok(m) => asked_mode(text::texts(args@)) == Ok::<ModeView, StartError>(m@),
            Err(e) => asked_mode(text::texts(args@)) == Err::<ModeView, StartError>(e),
        },
{
    if args.len() < 2 || !text::same(args[1].as_str(), "wrap") {
        return Ok(Mode::List);
    }
    if args.len() < 3 {
        return Err(StartError::MissingStatusFile);
    }
    if args.len() < 4 {
        return Err(StartError::MissingCommand);
    }
    Ok(Mode::Wrap { status_file: args[2].clone(), shell_cmd: args[3].clone() })
}

} // verus!
