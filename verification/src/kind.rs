//! The categories of failure.

use vstd::prelude::*;
use vstd::string::StringExecFns;

verus! {

/// The step at which running a cargo subcommand failed.
#[derive(Debug, Clone, Copy, PartialEq, Eq, Structural)]
pub enum ErrorKind {
    /// The subprocess could not be spawned.
    InvalidCommand,
    /// The subprocess ran and exited with a failure status.
    CommandFailed,
    /// The output of the subprocess could not be parsed.
    InvalidOutput,
}

impl ErrorKind {
    /// The sentence that describes this kind of failure. Each sentence names
    /// the step that its kind stands for.
    pub open spec fn label_text(self) -> Seq<char> {
        match self {
            ErrorKind::InvalidCommand => "Spawning the cargo subommand failed."@,
            ErrorKind::CommandFailed => "The cargo subcommand returned an error."@,
            ErrorKind::InvalidOutput => "Parsing the cargo subcommand's output failed."@,
        }
    }

    /// Returns the sentence that describes this kind of failure.
    pub fn label(&self) -> (text: &'static str)
        ensures
            text@ == self.label_text(),
    {
        match self {
            ErrorKind::InvalidCommand => "Spawning the cargo subommand failed.",
            ErrorKind::CommandFailed => "The cargo subcommand returned an error.",
            ErrorKind::InvalidOutput => "Parsing the cargo subcommand's output failed.",
        }
    }

    /// Renders this kind as its label, in an owned string.
    pub fn to_string(&self) -> (text: String)
        ensures
            text@ == self.label_text(),
    {
        String::from_str(self.label())
    }
}

} // verus!
