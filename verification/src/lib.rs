//! Interactive WebSocket client core: header parsing, slash-command
//! interpretation, protocol frame responses, session-step dispatch,
//! credential loading and TLS trust policy construction.
use vstd::prelude::*;

pub mod chars;
pub mod command;
pub mod credential;
pub mod errors;
pub mod frames;
pub mod header;
pub mod session;
pub mod target;
pub mod trust;

verus! {

} // verus!
