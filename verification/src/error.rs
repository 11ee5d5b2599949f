//! The failures that a caller can branch on.

use vstd::prelude::*;

verus! {

/// Why two pictures could not be merged.
#[derive(Debug, Clone, Copy, PartialEq, Eq, Structural)]
pub enum ImageDataErrors {
    /// The two pictures were decoded from different container formats.
    DifferentImageFormats,
    /// The merged bytes are more than the output was made to hold.
    BufferTooSmall,
}

} // verus!
