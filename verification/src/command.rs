//! External commands as plain values: a command line to run, what a
//! command left behind, and how its standard output is read.

use crate::text::decode;
use crate::text::decoded;
use crate::text::trim;
use crate::text::trimmed;
use crate::text::views;
use vstd::prelude::*;

verus! {

/// The result of a command that ran to its end.
#[derive(Debug, Clone, PartialEq, Eq)]
pub struct CommandOutput {
    /// Whether the command reported success.
    pub success: bool,
    /// Its exit code, if it exited by itself.
    pub code: Option<i32>,
    /// What it wrote to standard output.
    pub stdout: Vec<u8>,
    /// What it wrote to standard error.
    pub stderr: Vec<u8>,
}

/// What a command says on standard output: its output as text without
/// surrounding whitespace, provided that it ran, succeeded and wrote valid
/// UTF-8. `None` for `output` stands for a command that could not be run.
pub open spec fn command_text(output: Option<CommandOutput>) -> Option<Seq<char>> {
    match output {
        Some(o) => if o.success {
            match decoded(o.stdout@) {
                Some(text) => Some(trimmed(text)),
                None => None,
            }
        } else {
            None
        },
        None => None,
    }
}

/// Reads what a command said on standard output.
pub fn run_command_output(output: Option<CommandOutput>) -> (r: Option<String>)
    ensures
        r is Some <==> command_text(output) is Some,
        r matches Some(s) ==> command_text(output) == Some(s@),
{
    match output {
        Some(o) => {
            if o.success {
                match decode(o.stdout) {
                    Some(text) => Some(trim(text.as_str())),
                    None => None,
                }
            } else {
                None
            }
        },
        None => None,
    }
}

/// A command and its arguments.
#[derive(Debug, Clone, PartialEq, Eq)]
pub struct CommandLine {
    pub program: String,
    pub args: Vec<String>,
}

/// `CommandLine` as mathematical values.
pub struct CommandLineView {
    pub program: Seq<char>,
    pub args: Seq<Seq<char>>,
}

impl View for CommandLine {
    type V = CommandLineView;

    open spec fn view(&self) -> CommandLineView {
        CommandLineView { program: self.program@, args: views(self.args@) }
    }
}

/// The command lines that a vector holds.
pub open spec fn commands_view(v: Seq<CommandLine>) -> Seq<CommandLineView> {
    v.map_values(|c: CommandLine| c@)
}

} // verus!
