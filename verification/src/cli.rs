//! Classifying the command line.
//!
//! The argument list (program name first) calls for exactly one of four
//! things: the help text, the version line, the one-line usage hint on a
//! wrong argument count, or a search run with a pattern and a target path.
//! [`decide`] is the mathematical statement of that choice.

use vstd::prelude::*;

verus! {

/// What one invocation's argument list calls for.
pub enum Invocation {
    /// Print the usage text and exit successfully.
    Help,
    /// Print the program name and version and exit successfully.
    Version,
    /// Wrong argument count: print the one-line usage hint and fail.
    Usage,
    /// Search `path` (a file, a directory, or `-` for standard input) for
    /// lines matching `pattern`.
    Run { pattern: String, path: String },
}

/// The ghost image of an [`Invocation`].
pub enum Action {
    Help,
    Version,
    Usage,
    Run(Seq<char>, Seq<char>),
}

impl View for Invocation {
    type V = Action;

    open spec fn view(&self) -> Action {
        match self {
            Invocation::Help => Action::Help,
            Invocation::Version => Action::Version,
            Invocation::Usage => Action::Usage,
            Invocation::Run { pattern, path } => Action::Run(pattern@, path@),
        }
    }
}

/// The decision the command line calls for: `-h`/`--help` or `-v`/`--version`
/// as the only argument print help or version; fewer than two positional
/// arguments are a usage error; otherwise the first is the pattern and the
/// second the target path.
pub open spec fn decide(args: Seq<Seq<char>>) -> Action {
    if args.len() == 2 && (args[1] == "-h"@ || args[1] == "--help"@) {
        Action::Help
    } else if args.len() == 2 && (args[1] == "-v"@ || args[1] == "--version"@) {
        Action::Version
    } else if args.len() < 3 {
        Action::Usage
    } else {
        Action::Run(args[1], args[2])
    }
}

fn str_eq(a: &String, b: &str) -> (r: bool)
    ensures
        r == (a@ == b@),
{
    let bs = b.to_owned();
    *a == bs
}

/// Classify the argument list, program name first.
pub fn parse_args(args: &Vec<String>) -> (r: Invocation)
    ensures
        r@ == decide(args@.map_values(|s: String| s@)),
{
    if args.len() == 2 && (str_eq(&args[1], "-h") || str_eq(&args[1], "--help")) {
        Invocation::Help
    } else if args.len() == 2 && (str_eq(&args[1], "-v") || str_eq(&args[1], "--version")) {
        Invocation::Version
    } else if args.len() < 3 {
        Invocation::Usage
    } else {
        Invocation::Run { pattern: args[1].clone(), path: args[2].clone() }
    }
}

/// The one-line usage hint, printed to the error stream on a wrong argument
/// count.
pub open spec fn usage_hint_spec() -> Seq<char> {
    "Usage: mini-grep <pattern> <file|dir|- (stdin)>"@
}

/// The one-line usage hint.
pub fn usage_hint() -> (r: String)
    ensures
        r@ == usage_hint_spec(),
{
    "Usage: mini-grep <pattern> <file|dir|- (stdin)>".to_owned()
}

/// The multi-line help text, printed to the error stream for `-h`/`--help`.
pub open spec fn usage_text_spec() -> Seq<char> {
    "Usage: mini-grep <pattern> <file|dir|- (stdin)>\n\nOptions:\n  -h, --help       Print this help message\n  -V, --version    Print version information\n\nExamples:\n  mini-grep \"apple\" sample.txt\n  mini-grep \"foo.*bar\" ./logs\n  type sample.txt | mini-grep \"apple\" -\n"@
}

/// The multi-line help text.
pub fn usage_text() -> (r: String)
    ensures
        r@ == usage_text_spec(),
{
    "Usage: mini-grep <pattern> <file|dir|- (stdin)>\n\nOptions:\n  -h, --help       Print this help message\n  -V, --version    Print version information\n\nExamples:\n  mini-grep \"apple\" sample.txt\n  mini-grep \"foo.*bar\" ./logs\n  type sample.txt | mini-grep \"apple\" -\n".to_owned()
}

} // verus!
