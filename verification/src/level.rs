//! The record of one mip level.

use vstd::prelude::*;

verus! {

/// Location and size of one mip level's pixel payload inside the file.
#[derive(Copy, Clone, Debug, PartialEq, Eq, Structural)]
pub struct Level {
    pub byte_offset: u64,
    pub byte_length: u64,
    pub uncompressed_byte_length: u64,
}

} // verus!
