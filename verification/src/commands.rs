//! The commands of the tool, as far as they compute: what the arguments ask
//! for, which paths a command works on, and what it makes of a text. Reading
//! and writing files is left to the caller.

use vstd::prelude::*;
use vstd::string::*;
use crate::commands::format::FormatCommand;
use crate::commands::lint::LintCommand;
use crate::diagnostics::CliDiagnostic;
use crate::text::same_str;

pub mod format;
pub mod lint;

verus! {

/// A command of the tool.
#[derive(Debug)]
pub enum SimoraCommand {
    Format(FormatCommand),
    Lint(LintCommand),
}

/// What the arguments of a command ask for.
pub struct Request {
    pub write: bool,
    pub fix: bool,
    pub verbose: bool,
    pub paths: Seq<String>,
    pub stdin_file_path: Option<String>,
    /// Whether the help was asked for. Nothing behind that argument counts.
    pub help: bool,
}

/// The request before any argument is read.
pub open spec fn no_request() -> Request {
    Request {
        write: false,
        fix: false,
        verbose: false,
        paths: Seq::empty(),
        stdin_file_path: None,
        help: false,
    }
}

/// Whether an argument is a flag: it begins with `--`.
pub open spec fn is_flag(arg: Seq<char>) -> bool {
    arg.len() >= 2 && arg[0] == '-' && arg[1] == '-'
}

/// The request that the arguments from `i` on make of `so_far`. The flags
/// `--write`, `--fix` and `--verbose` set their switch; `--stdin-file-path`
/// takes the argument behind it, where there is one; `--help` stops the
/// reading, and so does `-h` where the command knows it; any other flag is
/// passed over; everything else is a path.
pub open spec fn request_from(args: Seq<String>, i: int, so_far: Request, short_help: bool)
    -> Request
    decreases args.len() - i,
{
    if i < 0 || i >= args.len() {
        so_far
    } else if args[i]@ == "--write"@ {
        request_from(args, i + 1, Request { write: true, ..so_far }, short_help)
    } else if args[i]@ == "--fix"@ {
        request_from(args, i + 1, Request { fix: true, ..so_far }, short_help)
    } else if args[i]@ == "--verbose"@ {
        request_from(args, i + 1, Request { verbose: true, ..so_far }, short_help)
    } else if args[i]@ == "--stdin-file-path"@ {
        if i + 1 < args.len() {
            request_from(
                args,
                i + 2,
                Request { stdin_file_path: Some(args[i + 1]), ..so_far },
                short_help,
            )
        } else {
            so_far
        }
    } else if args[i]@ == "--help"@ || (short_help && args[i]@ == "-h"@) {
        Request { help: true, ..so_far }
    } else if is_flag(args[i]@) {
        request_from(args, i + 1, so_far, short_help)
    } else {
        request_from(args, i + 1, Request { paths: so_far.paths.push(args[i]), ..so_far }, short_help)
    }
}

/// What a command line asks for.
pub enum Asked {
    /// The help of the `format` command: no command was named, or one that
    /// the tool does not know, or the help itself.
    Help,
    /// The `format` command.
    Format(Request),
    /// The `lint` command.
    Lint(Request),
    /// The `lint` command, with its help asked for: a command that holds
    /// nothing.
    EmptyLint,
}

/// What the command line `args` asks for. The first argument is the name of
/// the program, the second the name of the command.
pub open spec fn asked(args: Seq<String>) -> Asked {
    if args.len() < 2 {
        Asked::Help
    } else if args[1]@ == "format"@ {
        let request = request_from(args, 2, no_request(), true);
        if request.help {
            Asked::Help
        } else {
            Asked::Format(request)
        }
    } else if args[1]@ == "lint"@ {
        let request = request_from(args, 2, no_request(), false);
        if request.help {
            Asked::EmptyLint
        } else {
            Asked::Lint(request)
        }
    } else {
        Asked::Help
    }
}

/// Whether a command is what was asked for.
pub open spec fn answers(command: SimoraCommand, asked: Asked) -> bool {
    match asked {
        Asked::Help => command is Format && command->Format_0.show_help
            && command->Format_0.paths@.len() == 0,
        Asked::Format(request) => {
            &&& command is Format
            &&& !command->Format_0.show_help
            &&& command->Format_0.write == request.write
            &&& command->Format_0.fix == request.fix
            &&& command->Format_0.verbose == request.verbose
            &&& command->Format_0.paths@ == request.paths
            &&& command->Format_0.stdin_file_path == request.stdin_file_path
        },
        Asked::Lint(request) => {
            &&& command is Lint
            &&& command->Lint_0.write == request.write
            &&& command->Lint_0.fix == request.fix
            &&& command->Lint_0.paths@ == request.paths
            &&& command->Lint_0.stdin_file_path == request.stdin_file_path
        },
        Asked::EmptyLint => {
            &&& command is Lint
            &&& !command->Lint_0.write
            &&& !command->Lint_0.fix
            &&& command->Lint_0.paths@.len() == 0
            &&& command->Lint_0.stdin_file_path is None
        },
    }
}

/// The switches and paths that were read so far.
struct Reading {
    write: bool,
    fix: bool,
    verbose: bool,
    paths: Vec<String>,
    stdin_file_path: Option<String>,
    help: bool,
}

impl Reading {
    spec fn request(self) -> Request {
        Request {
            write: self.write,
            fix: self.fix,
            verbose: self.verbose,
            paths: self.paths@,
            stdin_file_path: self.stdin_file_path,
            help: self.help,
        }
    }
}

fn begins_with_dashes(arg: &str) -> (b: bool)
    ensures
        b == is_flag(arg@),
{
    let chars = crate::text::collect_chars(arg);
    chars.len() >= 2 && chars[0] == '-' && chars[1] == '-'
}

fn read_arguments(args: &[String], short_help: bool) -> (reading: Reading)
    ensures
        reading.request() == request_from(args@, 2, no_request(), short_help),
{
    let mut reading = Reading {
        write: false,
        fix: false,
        verbose: false,
        paths: Vec::new(),
        stdin_file_path: None,
        help: false,
    };
    assert(reading.request() == no_request());
    let mut i: usize = 2;
    while i < args.len()
        invariant
            2 <= i,
            request_from(args@, i as int, reading.request(), short_help) == request_from(
                args@,
                2,
                no_request(),
                short_help,
            ),
        decreases args@.len() - i,
    {
        let arg = args[i].as_str();
        if same_str(arg, "--write") {
            reading.write = true;
        } else if same_str(arg, "--fix") {
            reading.fix = true;
        } else if same_str(arg, "--verbose") {
            reading.verbose = true;
        } else if same_str(arg, "--stdin-file-path") {
            if i + 1 < args.len() {
                reading.stdin_file_path = Some(args[i + 1].clone());
                i = i + 1;
            } else {
                return reading;
            }
        } else if same_str(arg, "--help") || (short_help && same_str(arg, "-h")) {
            reading.help = true;
            return reading;
        } else if begins_with_dashes(arg) {
        } else {
            let ghost before = reading.paths@;
            reading.paths.push(args[i].clone());
            assert(reading.paths@ == before.push(args@[i as int]));
        }
        i = i + 1;
    }
    reading
}

impl SimoraCommand {
    /// Reads a command line: the name of the program, the name of the
    /// command, and the arguments of the command.
    pub fn from_args(args: &[String]) -> (r: Result<SimoraCommand, CliDiagnostic>)
        ensures
            r is Ok,
            answers(r->Ok_0, asked(args@)),
    {
        if args.len() < 2 {
            return Ok(SimoraCommand::Format(FormatCommand::with_help()));
        }
        let name = args[1].as_str();
        if same_str(name, "format") {
            let reading = read_arguments(args, true);
            if reading.help {
                Ok(SimoraCommand::Format(FormatCommand::with_help()))
            } else {
                Ok(
                    SimoraCommand::Format(
                        FormatCommand::new(
                            reading.write,
                            reading.fix,
                            reading.paths,
                            reading.stdin_file_path,
                            reading.verbose,
                        ),
                    ),
                )
            }
        } else if same_str(name, "lint") {
            let reading = read_arguments(args, false);
            if reading.help {
                Ok(SimoraCommand::Lint(LintCommand::new(false, false, Vec::new(), None)))
            } else {
                Ok(
                    SimoraCommand::Lint(
                        LintCommand::new(
                            reading.write,
                            reading.fix,
                            reading.paths,
                            reading.stdin_file_path,
                        ),
                    ),
                )
            }
        } else {
            Ok(SimoraCommand::Format(FormatCommand::with_help()))
        }
    }
}

} // verus!
