//! Errors reported by the extraction entry points.

use vstd::prelude::*;

verus! {

/// Why an extraction call failed as a whole.
///
/// Field-level decode problems (a name that is not valid text) are absorbed
/// by the extractors and never surface here.
#[derive(Clone, Copy, Debug, PartialEq, Eq, Structural)]
pub enum BinError {
    /// The buffer is too short, has an unrecognized magic number, or a
    /// structurally broken table.
    MalformedInput,
    /// The magic number is recognized, but no extraction path exists for
    /// the format.
    UnsupportedFormat,
}

} // verus!
