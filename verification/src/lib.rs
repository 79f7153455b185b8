//! WinMux: the wire protocol, the session model and the decision logic of a
//! Windows terminal multiplexer, with their contracts proved by Verus.

use vstd::prelude::*;

pub mod text;
pub mod keyed;
pub mod version;
pub mod codec;
pub mod keys;
pub mod ids;
pub mod errors;
pub mod types;
pub mod messages;
pub mod session;
pub mod terminal;
pub mod cli;
pub mod server;
pub mod client;
pub mod tray;
pub mod sha256;
pub mod user;

verus! {

} // verus!
