//! Command-line dispatch: decides, from the arguments alone, which of the
//! tool's actions an invocation asks for — before any device is touched.

use vstd::prelude::*;

verus! {

/// The action an invocation asks for.
pub enum CliAction {
    /// Print the usage text to standard error and take no action.
    Help,
    /// Print the build version string to standard output.
    Version,
    /// Switch every connected matching tablet.
    SwitchAll,
    /// Walk the cache for the named device-tree path and switch on a miss.
    SwitchPath(String),
    /// Bad or missing arguments: print an error plus the usage text and
    /// fail, with no device I/O attempted.
    Usage,
}

/// Whether some argument equals the given flag.
pub open spec fn has_flag(args: Seq<Seq<char>>, flag: Seq<char>) -> bool {
    exists|i: int| 0 <= i < args.len() && args[i] == flag
}

fn string_is(s: &String, lit: &str) -> (r: bool)
    ensures
        r == (s@ == lit@),
{
    let target = String::from_str(lit);
    s.eq(&target)
}

fn any_arg_is(args: &Vec<String>, lit: &str) -> (r: bool)
    ensures
        r == has_flag(args.deep_view(), lit@),
{
    let mut i: usize = 0;
    while i < args.len()
        invariant
            i <= args@.len(),
            forall|j: int| 0 <= j < i ==> args.deep_view()[j] != lit@,
        decreases args@.len() - i,
    {
        if string_is(&args[i], lit) {
            proof {
                assert(args.deep_view()[i as int] == lit@);
            }
            return true;
        }
        i = i + 1;
    }
    false
}

/// Decide what an invocation asks for. A `--help` anywhere wins; then a
/// `--version` anywhere; then a single `--all` selects the all-devices
/// sweep, any other single argument names a device-tree path, and every
/// remaining shape is a usage error.
pub fn parse_args(args: &Vec<String>) -> (r: CliAction)
    ensures
        (match r {
            CliAction::Help => has_flag(args.deep_view(), "--help"@),
            CliAction::Version => !has_flag(args.deep_view(), "--help"@) && has_flag(
                args.deep_view(),
                "--version"@,
            ),
            CliAction::SwitchAll => !has_flag(args.deep_view(), "--help"@) && !has_flag(
                args.deep_view(),
                "--version"@,
            ) && args@.len() == 1 && args.deep_view()[0] == "--all"@,
            CliAction::SwitchPath(p) => !has_flag(args.deep_view(), "--help"@) && !has_flag(
                args.deep_view(),
                "--version"@,
            ) && args@.len() == 1 && args.deep_view()[0] != "--all"@ && p@ == args.deep_view()[0],
            CliAction::Usage => !has_flag(args.deep_view(), "--help"@) && !has_flag(
                args.deep_view(),
                "--version"@,
            ) && args@.len() != 1,
        }),
{
    if any_arg_is(args, "--help") {
        return CliAction::Help;
    }
    if any_arg_is(args, "--version") {
        return CliAction::Version;
    }
    if args.len() == 1 {
        if string_is(&args[0], "--all") {
            CliAction::SwitchAll
        } else {
            CliAction::SwitchPath(args[0].clone())
        }
    } else {
        CliAction::Usage
    }
}

} // verus!
