//! What the command line reports when something goes wrong.

use vstd::prelude::*;
use vstd::string::*;

verus! {

/// A message for the user of the command line.
#[derive(Debug)]
pub struct CliDiagnostic {
    pub message: String,
}

impl CliDiagnostic {
    /// A diagnostic with the given message.
    pub fn new(message: &str) -> (d: Self)
        ensures
            d.message@ == message@,
    {
        CliDiagnostic { message: String::from_str(message) }
    }

    /// A diagnostic that reports an error.
    pub fn error(message: &str) -> (d: Self)
        ensures
            d.message@ == message@,
    {
        CliDiagnostic::new(message)
    }

    /// The message, as it is shown.
    pub fn to_string(&self) -> (s: String)
        ensures
            s@ == self.message@,
    {
        self.message.clone()
    }
}

} // verus!
