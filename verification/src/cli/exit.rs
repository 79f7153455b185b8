//! Exit codes of the `winmux` command line.
use vstd::prelude::*;

verus! {

/// Success.
pub const SUCCESS: u8 = 0;
/// General error (the message goes to standard error).
pub const GENERAL_ERROR: u8 = 1;
/// The server is not running and could not be started.
pub const NO_SERVER: u8 = 2;
/// The target (session, window, pane) was not found.
pub const TARGET_NOT_FOUND: u8 = 3;
/// Protocol version mismatch.
pub const PROTOCOL_MISMATCH: u8 = 4;
/// Permission denied (such as a user mismatch).
pub const PERMISSION_DENIED: u8 = 5;
/// Malformed arguments (as `EX_USAGE`).
pub const USAGE_ERROR: u8 = 64;

} // verus!
