//! The `lint` command: its settings.

use vstd::prelude::*;

verus! {

/// The settings of the `lint` command.
#[derive(Debug, Clone)]
pub struct LintCommand {
    pub paths: Vec<String>,
    pub write: bool,
    pub fix: bool,
    pub stdin_file_path: Option<String>,
}

impl Default for LintCommand {
    fn default() -> (c: Self)
        ensures
            c.paths@.len() == 0,
            !c.write,
            !c.fix,
            c.stdin_file_path is None,
    {
        LintCommand { paths: Vec::new(), write: false, fix: false, stdin_file_path: None }
    }
}

impl LintCommand {
    /// A command with the given switches and paths.
    pub fn new(write: bool, fix: bool, paths: Vec<String>, stdin_file_path: Option<String>) -> (c:
        Self)
        ensures
            c.write == write,
            c.fix == fix,
            c.paths == paths,
            c.stdin_file_path == stdin_file_path,
    {
        LintCommand { write, fix, paths, stdin_file_path }
    }
}

} // verus!
