//! Command-line parsing: `pkg <install|uninstall> <package1> [<package2> ...]`.
//!
//! The first argument is the program name. Fewer than three arguments is a
//! usage error; an unrecognised subcommand is its own error; otherwise every
//! remaining argument is a package name, to be processed independently and in
//! order.

use vstd::prelude::*;
use crate::plan::Operation;

verus! {

/// What an argument list asks the tool to do.
#[derive(Debug, Clone, PartialEq, Eq)]
pub enum CliRequest {
    /// Too few arguments: print the usage line and exit with status 1.
    Usage,
    /// An unrecognised subcommand: print the error and exit with status 1.
    Unknown,
    /// Process each named package with this operation, in order.
    Packages { op: Operation, names: Vec<String> },
}

/// The mathematical model of a parsed request.
pub enum CliModel {
    Usage,
    Unknown,
    Packages { op: Operation, names: Seq<Seq<char>> },
}

impl CliRequest {
    /// The request as its model.
    pub open spec fn model(&self) -> CliModel {
        match self {
            CliRequest::Usage => CliModel::Usage,
            CliRequest::Unknown => CliModel::Unknown,
            CliRequest::Packages { op, names } => CliModel::Packages {
                op: *op,
                names: names.deep_view(),
            },
        }
    }
}

/// What parsing an argument list yields: a usage error under three
/// arguments, else the subcommand applied to the remaining arguments as
/// package names.
pub open spec fn spec_parse_args(args: Seq<Seq<char>>) -> CliModel {
    if args.len() < 3 {
        CliModel::Usage
    } else if args[1] == "install"@ {
        CliModel::Packages { op: Operation::Install, names: args.subrange(2, args.len() as int) }
    } else if args[1] == "uninstall"@ {
        CliModel::Packages { op: Operation::Uninstall, names: args.subrange(2, args.len() as int) }
    } else {
        CliModel::Unknown
    }
}

/// Copies the package-name arguments out of the argument list.
#[verifier::loop_isolation(false)]
fn package_names(args: &Vec<String>) -> (names: Vec<String>)
    requires
        args@.len() >= 2,
    ensures
        names.deep_view() == args.deep_view().subrange(2, args@.len() as int),
{
    let mut names: Vec<String> = Vec::new();
    let mut i: usize = 2;
    while i < args.len()
        invariant
            2 <= i <= args@.len(),
            names@.len() == i - 2,
            forall|k: int| 0 <= k < names@.len() ==> (#[trigger] names@[k])@ == args@[k + 2]@,
        decreases args@.len() - i,
    {
        names.push(args[i].clone());
        i += 1;
    }
    proof {
        assert(names.deep_view() =~= args.deep_view().subrange(2, args@.len() as int));
    }
    names
}

/// Parses the argument list, program name first, into the request it makes.
pub fn parse_args(args: &Vec<String>) -> (r: CliRequest)
    ensures
        r.model() == spec_parse_args(args.deep_view()),
{
    if args.len() < 3 {
        return CliRequest::Usage;
    }
    let install_word = String::from_str("install");
    let uninstall_word = String::from_str("uninstall");
    if args[1].eq(&install_word) {
        CliRequest::Packages { op: Operation::Install, names: package_names(args) }
    } else if args[1].eq(&uninstall_word) {
        CliRequest::Packages { op: Operation::Uninstall, names: package_names(args) }
    } else {
        CliRequest::Unknown
    }
}

/// The usage line printed when too few arguments are given.
pub open spec fn usage_text() -> Seq<char> {
    "Usage: pkg <install|uninstall> <package1> [<package2> ...]"@
}

/// Builds the usage line.
pub fn usage_line() -> (out: String)
    ensures
        out@ == usage_text(),
{
    String::from_str("Usage: pkg <install|uninstall> <package1> [<package2> ...]")
}

/// The error line printed for an unrecognised subcommand.
pub open spec fn unknown_command_text() -> Seq<char> {
    "Error: Invalid command"@
}

/// Builds the unrecognised-subcommand error line.
pub fn unknown_command_line() -> (out: String)
    ensures
        out@ == unknown_command_text(),
{
    String::from_str("Error: Invalid command")
}

} // verus!
