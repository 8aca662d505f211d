//! The host side of the exchange with WASM guest modules.

pub mod connection;
pub mod externs;
pub mod memory;
pub mod state;
