//! Where the command line writes to.

use vstd::prelude::*;
use vstd::string::*;

verus! {

/// A sink for the messages of the command line.
pub trait Console {
    /// Takes a message of the normal course of things.
    fn log(&self, message: &str);

    /// Takes a message about a failure.
    fn error(&self, message: &str);
}

/// The console of the process: it decides what reaches the standard output
/// and the standard error. Writing the lines out is left to the caller.
#[derive(Debug, Clone, Copy, PartialEq, Eq, Structural)]
pub struct EnvConsole {
    pub verbose: bool,
}

/// The line that reports a failure.
pub open spec fn error_text(message: Seq<char>) -> Seq<char> {
    "Error: "@ + message
}

impl EnvConsole {
    /// A console that prints what is logged only where it is verbose.
    pub fn new(verbose: bool) -> (c: Self)
        ensures
            c.verbose == verbose,
    {
        EnvConsole { verbose }
    }

    /// The line to print for a logged message: the message where the
    /// console is verbose, and nothing where it is not.
    pub fn log_line(&self, message: &str) -> (line: Option<String>)
        ensures
            self.verbose ==> line is Some && line->0@ == message@,
            !self.verbose ==> line is None,
    {
        if self.verbose {
            Some(String::from_str(message))
        } else {
            None
        }
    }

    /// The line to print for a failure, whether the console is verbose or
    /// not.
    pub fn error_line(&self, message: &str) -> (line: String)
        ensures
            line@ == error_text(message@),
    {
        String::from_str("Error: ").concat(message)
    }
}

} // verus!
