//! Protocol version constants and the compatibility check.
use vstd::prelude::*;

verus! {

/// Current wire protocol version.
pub const PROTOCOL_VERSION: u32 = 1;

/// Lowest client protocol version the server accepts.
pub const MIN_COMPATIBLE_VERSION: u32 = 1;

/// Highest client protocol version the server accepts.
pub const MAX_COMPATIBLE_VERSION: u32 = 1;

/// Whether a client reporting `client_version` can be served.
pub open spec fn compatible(client_version: u32) -> bool {
    MIN_COMPATIBLE_VERSION <= client_version <= MAX_COMPATIBLE_VERSION
}

/// Checks that the version a client announced lies in the accepted range.
pub fn is_compatible(client_version: u32) -> (ok: bool)
    ensures
        ok == compatible(client_version),
{
    client_version >= MIN_COMPATIBLE_VERSION && client_version <= MAX_COMPATIBLE_VERSION
}

} // verus!
