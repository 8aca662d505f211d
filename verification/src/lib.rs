//! Home Companion: the host engine that runs connection plugins as WASM modules,
//! the SDK that plugins link against, and the YouLess connection.
//!
//! Verified here: the packed buffer descriptors that cross the host/guest
//! boundary, the RPC and log messages, the call dispatch of the host, the host
//! side of the plugin initialisation protocol and the YouLess plugin's start-up
//! logic. Two calls into outside crates stand behind trusted wrappers whose
//! contracts are believed, not proved: `host::helpers::transcode_table`
//! (toml, serde-transcode and rmp-serde) and `host::rpc::unknown_enum_value_text`
//! (prost's text for an unknown enumeration value).

pub mod host;
pub mod sdk;
pub mod youless;
