//! Classification of a byte buffer into the image-header layout that
//! drives extraction.

use vstd::prelude::*;

use crate::error::BinError;

verus! {

/// The concrete image-header layout of an input, fixed once by
/// classification and then driving which extraction path runs.
#[derive(Clone, Copy, Debug, PartialEq, Eq, Structural)]
pub enum Layout {
    /// The 32-bit PE image-header layout.
    Narrow,
    /// The 64-bit PE image-header layout.
    Wide,
    /// Any other recognized format, handled uniformly.
    Generic,
}

impl Layout {
    /// Classify a byte buffer into its image-header layout.
    ///
    /// An unrecognized magic number is a `MalformedInput` error; a
    /// recognized format with no extraction path is `UnsupportedFormat`.
    pub fn detect(data: &Vec<u8>) -> (r: Result<Layout, BinError>)
        ensures
            r == crate::parse::layout_of(data@),
    {
        crate::parse::classify_bytes(data)
    }
}

} // verus!
