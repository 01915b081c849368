//! The ways in which work on a device, or on the configuration, can fail.

use vstd::prelude::*;

verus! {

/// Why no reading could be produced, or why the exporter cannot start.
#[derive(Clone, Copy, Debug, PartialEq, Eq, Structural)]
pub enum ExportError {
    /// The device could not be reached, or its answer could not be read.
    Transport,
    /// The device answered, but not with the expected document.
    Decode,
    /// A required setting is missing or empty.
    Config,
}

} // verus!
