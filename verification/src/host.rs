//! The host engine: call dispatch and the protocol with guest modules.

pub mod cli;
pub mod helpers;
pub mod rpc;
pub mod wasm;
