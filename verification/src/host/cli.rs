//! The command line of the host program.

use vstd::prelude::*;

verus! {

/// What the host program is asked to do.
pub enum Command {
    /// Run the home companion indefinitely.
    Run {
        /// Home setup file path.
        setup_path: String,
    },
}

} // verus!
