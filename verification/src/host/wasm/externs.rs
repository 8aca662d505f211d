//! Names under which guests export what the host looks up.

use vstd::prelude::*;

verus! {

/// An export that the host looks up in a guest by name.
pub trait ExternName {
    /// Native WASM export name.
    const NAME: &'static str;
}

} // verus!
