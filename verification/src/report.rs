//! Human-readable report strings: terminal colouring and the fixed error
//! texts that the binary prints on failure.

use vstd::prelude::*;
use vstd::string::StringExecFns;

verus! {

/// The view of a snippet wrapped in the green terminal colour code.
pub open spec fn spec_green(s: Seq<char>) -> Seq<char> {
    "\x1b[38;5;10m"@ + s + "\x1b[m"@
}

/// The view of a snippet wrapped in the red terminal colour code.
pub open spec fn spec_red(s: Seq<char>) -> Seq<char> {
    "\x1b[38;5;160m"@ + s + "\x1b[m"@
}

/// Wraps a snippet in the ANSI escape codes for green.
pub fn to_green(snippet: &str) -> (r: String)
    ensures
        r@ == spec_green(snippet@),
{
    let mut s = String::from_str("\x1b[38;5;10m");
    s.append(snippet);
    s.append("\x1b[m");
    s
}

/// Wraps a snippet in the ANSI escape codes for red.
pub fn to_red(snippet: &str) -> (r: String)
    ensures
        r@ == spec_red(snippet@),
{
    let mut s = String::from_str("\x1b[38;5;160m");
    s.append(snippet);
    s.append("\x1b[m");
    s
}

/// The error message reported when the target path is already taken.
pub open spec fn spec_path_exists_message(name: Seq<char>) -> Seq<char> {
    spec_red("\u{2718}"@) + " The `"@ + name + "` already exists!"@
}

/// Builds the error message for a target path that is already taken.
pub fn path_exists_message(name: &str) -> (r: String)
    ensures
        r@ == spec_path_exists_message(name@),
{
    let mut s = to_red("\u{2718}");
    s.append(" The `");
    s.append(name);
    s.append("` already exists!");
    s
}

/// The error message reported when the version-control binary could not be
/// run or returned a non-zero exit status.
pub open spec fn spec_git_init_error_message() -> Seq<char> {
    spec_red("\u{2718}"@) + " Fatal error during Git initialization:\n\tis Git installed and the project path writable?"@
}

/// Builds the error message for a failed version-control initialization.
pub fn git_init_error_message() -> (r: String)
    ensures
        r@ == spec_git_init_error_message(),
{
    let mut s = to_red("\u{2718}");
    s.append(" Fatal error during Git initialization:\n\tis Git installed and the project path writable?");
    s
}

} // verus!
