//! The errors of the library.

use vstd::prelude::*;

verus! {

/// The ways an operation on a texture container can fail.
#[derive(Clone, Copy, Debug, PartialEq, Eq, Structural)]
pub enum Ktx2Error {
    /// The pixel format has no rule for the requested operation.
    UnsupportedFormat,
    /// The byte stream ends before a field that has to be read.
    TruncatedOrMalformed,
    /// The coordinates lie outside the image, or the pixel value is of
    /// another representation than the container's format.
    InvalidPixelAccess,
}

} // verus!
