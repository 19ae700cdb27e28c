//! Starting with Windows: the per-user `Run` entry that launches the program.
//!
//! The shell reads and writes the registry; this module decides what the
//! registry's answers mean and what the entry holds.

use vstd::prelude::*;

verus! {

/// Windows' `ERROR_SUCCESS`.
pub const ERROR_SUCCESS: u32 = 0;

/// Windows' `ERROR_FILE_NOT_FOUND`.
pub const ERROR_FILE_NOT_FOUND: u32 = 2;

/// The command the `Run` entry holds: the executable path in double quotes,
/// so that paths with spaces stay one argument.
pub fn startup_command(executable: &str) -> (r: String)
    ensures
        r@ == "\""@ + executable@ + "\""@,
{
    let s = String::from_str("\"");
    let s = s.concat(executable);
    s.concat("\"")
}

/// Whether starting with Windows is enabled, from the answer to reading the
/// entry: present, absent, or `None` when the read failed otherwise.
pub fn startup_state(result: u32) -> (r: Option<bool>)
    ensures
        result == ERROR_SUCCESS ==> r == Some(true),
        result == ERROR_FILE_NOT_FOUND ==> r == Some(false),
        result != ERROR_SUCCESS && result != ERROR_FILE_NOT_FOUND ==> r is None,
{
    if result == ERROR_SUCCESS {
        Some(true)
    } else if result == ERROR_FILE_NOT_FOUND {
        Some(false)
    } else {
        None
    }
}

/// Whether writing or removing the entry succeeded: removing an entry that
/// does not exist is no failure.
pub fn startup_update_succeeded(enabled: bool, result: u32) -> (r: bool)
    ensures
        r == (result == ERROR_SUCCESS || (!enabled && result == ERROR_FILE_NOT_FOUND)),
{
    result == ERROR_SUCCESS || (!enabled && result == ERROR_FILE_NOT_FOUND)
}

} // verus!
