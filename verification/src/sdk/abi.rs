//! The first form of a host call: one message with the action inline.

use vstd::prelude::*;

pub use crate::sdk::rpc::logging::{Log, LogLevel};

verus! {

/// A call from a guest to the host.
#[derive(Debug)]
pub struct HostCall {
    pub action: Option<Action>,
}

/// What a `HostCall` asks the host to do.
#[derive(Debug)]
pub enum Action {
    /// Log the message.
    Log(Log),
}

} // verus!
