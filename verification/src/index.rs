//! The index of a container's sections.

use crate::level::Level;
use vstd::prelude::*;

verus! {

/// Where the sections of a file lie: the descriptor block, the key/value
/// block, the global data of a supercompression scheme, and the levels.
#[derive(Clone, Debug, PartialEq, Eq)]
pub struct Index {
    pub dfd_byte_offset: u32,
    pub dfd_byte_length: u32,
    pub kvd_byte_offset: u32,
    pub kvd_byte_length: u32,
    pub sgd_byte_offset: u64,
    pub sgd_byte_length: u64,
    pub levels: Vec<Level>,
}

/// What an index holds, with its levels as a sequence.
pub struct IndexView {
    pub dfd_byte_offset: u32,
    pub dfd_byte_length: u32,
    pub kvd_byte_offset: u32,
    pub kvd_byte_length: u32,
    pub sgd_byte_offset: u64,
    pub sgd_byte_length: u64,
    pub levels: Seq<Level>,
}

impl View for Index {
    type V = IndexView;

    open spec fn view(&self) -> IndexView {
        IndexView {
            dfd_byte_offset: self.dfd_byte_offset,
            dfd_byte_length: self.dfd_byte_length,
            kvd_byte_offset: self.kvd_byte_offset,
            kvd_byte_length: self.kvd_byte_length,
            sgd_byte_offset: self.sgd_byte_offset,
            sgd_byte_length: self.sgd_byte_length,
            levels: self.levels@,
        }
    }
}

} // verus!
