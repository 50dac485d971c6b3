//! What the program does when started: which command the arguments ask
//! for, and which calendar it opens.
use vstd::prelude::*;
use crate::text::{chars_eq_str, chars_of};

verus! {

/// What the command line asks for.
#[derive(Clone, Copy, Debug, PartialEq, Eq, Structural)]
pub enum CliCommand {
    /// Print the version.
    Version,
    /// Print the usage.
    Help,
    /// Sign in to Google from the command line.
    Login,
    /// Start the calendar.
    Run,
}

/// Whether one of the arguments is `a` or `b`.
pub open spec fn has_arg(args: Seq<Seq<char>>, a: Seq<char>, b: Seq<char>) -> bool {
    exists|i: int| 0 <= i < args.len() && (args[i] == a || args[i] == b)
}

/// The command that the arguments ask for: the version before the usage,
/// the usage before a sign-in, and the calendar when none of them is asked.
pub open spec fn cli_command_of(args: Seq<Seq<char>>) -> CliCommand {
    if has_arg(args, "--version"@, "-V"@) {
        CliCommand::Version
    } else if has_arg(args, "--help"@, "-h"@) || has_arg(args, "help"@, "help"@) {
        CliCommand::Help
    } else if has_arg(args, "--login"@, "login"@) {
        CliCommand::Login
    } else {
        CliCommand::Run
    }
}

/// Whether one of the arguments is `a` or `b`.
fn any_arg(args: &Vec<String>, a: &str, b: &str) -> (r: bool)
    ensures
        r == has_arg(args@.map_values(|s: String| s@), a@, b@),
{
    let ghost v = args@.map_values(|s: String| s@);
    let mut i: usize = 0;
    while i < args.len()
        invariant
            i <= args@.len(),
            v == args@.map_values(|s: String| s@),
            forall|j: int| 0 <= j < i ==> !(v[j] == a@ || v[j] == b@),
        decreases args@.len() - i,
    {
        let cs = chars_of(args[i].as_str());
        assert(v[i as int] == args@[i as int]@);
        if chars_eq_str(cs.as_slice(), a) || chars_eq_str(cs.as_slice(), b) {
            return true;
        }
        i = i + 1;
    }
    false
}

/// The command that the arguments ask for (the program's name among them
/// counts like any other argument).
pub fn cli_command(args: &Vec<String>) -> (r: CliCommand)
    ensures
        r == cli_command_of(args@.map_values(|s: String| s@)),
{
    if any_arg(args, "--version", "-V") {
        CliCommand::Version
    } else if any_arg(args, "--help", "-h") || any_arg(args, "help", "help") {
        CliCommand::Help
    } else if any_arg(args, "--login", "login") {
        CliCommand::Login
    } else {
        CliCommand::Run
    }
}

/// Which calendar the program opens.
#[derive(Clone, Copy, Debug, PartialEq, Eq, Structural)]
pub enum StartupBackend {
    /// Google Calendar, with the stored token.
    Google,
    /// The local store, because the stored token no longer works.
    LocalExpired,
    /// The local store: nobody signed in.
    Local,
}

/// Which calendar to open: Google when a token is stored and usable, else
/// the local store.
pub fn startup_backend(token_exists: bool, needs_auth: bool) -> (r: StartupBackend)
    ensures
        r == if !token_exists {
            StartupBackend::Local
        } else if needs_auth {
            StartupBackend::LocalExpired
        } else {
            StartupBackend::Google
        },
{
    if !token_exists {
        StartupBackend::Local
    } else if needs_auth {
        StartupBackend::LocalExpired
    } else {
        StartupBackend::Google
    }
}

/// Whether the `cal` wrapper may be written into a directory of the search
/// path: not the user's own command directory (it is written there
/// anyway), only an absolute directory, and never over a `cal` command that
/// is not this program's.
pub fn may_install_cal_in(is_local_bin: bool, is_absolute: bool, cal_exists: bool, cal_is_ours: bool) -> (b: bool)
    ensures
        b == (!is_local_bin && is_absolute && (!cal_exists || cal_is_ours)),
{
    !is_local_bin && is_absolute && (!cal_exists || cal_is_ours)
}

} // verus!
