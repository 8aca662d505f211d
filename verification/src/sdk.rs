//! The plugin SDK: what plugins and the host exchange.

pub mod abi;
pub mod memory;
pub mod result;
pub mod rpc;
