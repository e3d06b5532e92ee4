//! What a file holds: the container that is read from a sequence of bytes.

use crate::dfd::{BasicDataFormatDescriptor, DFDSampleType, DescriptorView};
use crate::endian::{field_value, read_u32_at, read_u64_at};
use crate::error::Ktx2Error;
use crate::header::{magic, HeaderView};
use crate::index::IndexView;
use crate::level::Level;
use crate::texture::{key_value_block, TextureView};
use crate::vk_format::VkFormat;
use vstd::prelude::*;

verus! {

/// The 32-bit word at `at`.
pub open spec fn u32_at(bytes: Seq<u8>, at: int) -> u32 {
    field_value(bytes, at, 4) as u32
}

/// The 64-bit word at `at`.
pub open spec fn u64_at(bytes: Seq<u8>, at: int) -> u64 {
    field_value(bytes, at, 8) as u64
}

/// The header that a file holds. The identifier is not read: the header
/// gets the one that every file should start with.
pub open spec fn header_at(bytes: Seq<u8>, format: VkFormat) -> HeaderView {
    HeaderView {
        identifier: magic(),
        vk_format: format,
        type_size: u32_at(bytes, 16),
        pixel_width: u32_at(bytes, 20),
        pixel_height: u32_at(bytes, 24),
        pixel_depth: u32_at(bytes, 28),
        layer_count: u32_at(bytes, 32),
        face_count: u32_at(bytes, 36),
        level_count: u32_at(bytes, 40),
        supercompression_scheme: u32_at(bytes, 44),
    }
}

/// The level record at `at`.
pub open spec fn level_at(bytes: Seq<u8>, at: int) -> Level {
    Level {
        byte_offset: u64_at(bytes, at),
        byte_length: u64_at(bytes, at + 8),
        uncompressed_byte_length: u64_at(bytes, at + 16),
    }
}

/// The first `count` level records, which follow the fixed part of the
/// index, 24 bytes each.
pub open spec fn levels_at(bytes: Seq<u8>, count: nat) -> Seq<Level> {
    Seq::new(count, |l: int| level_at(bytes, 80 + 24 * l))
}

/// The index that a file holds, with `count` levels.
pub open spec fn index_at(bytes: Seq<u8>, count: nat) -> IndexView {
    IndexView {
        dfd_byte_offset: u32_at(bytes, 48),
        dfd_byte_length: u32_at(bytes, 52),
        kvd_byte_offset: u32_at(bytes, 56),
        kvd_byte_length: u32_at(bytes, 60),
        sgd_byte_offset: u64_at(bytes, 64),
        sgd_byte_length: u64_at(bytes, 72),
        levels: levels_at(bytes, count),
    }
}

/// The sample at `at`.
pub open spec fn sample_at(bytes: Seq<u8>, at: int) -> DFDSampleType {
    DFDSampleType {
        row_0: u32_at(bytes, at),
        row_1: u32_at(bytes, at + 4),
        row_2: u32_at(bytes, at + 8),
        row_3: u32_at(bytes, at + 12),
    }
}

/// The descriptor at `at`, of which the total size, the six header rows and
/// the first sample are read, however many samples were written.
pub open spec fn descriptor_at(bytes: Seq<u8>, at: int) -> DescriptorView {
    DescriptorView {
        dfd_total_size: u32_at(bytes, at),
        row_0: u32_at(bytes, at + 4),
        row_1: u32_at(bytes, at + 8),
        row_2: u32_at(bytes, at + 12),
        row_3: u32_at(bytes, at + 16),
        row_4: u32_at(bytes, at + 20),
        row_5: u32_at(bytes, at + 24),
        samples: seq![sample_at(bytes, at + 28)],
    }
}

/// Why a file cannot be read, if it cannot. The checks are made in this
/// order: the header and the fixed part of the index are there; the format
/// is known; there is a level, and every level record is there; the part
/// of the descriptor that is read is there; the payload starts inside the
/// file or at its end.
pub open spec fn read_failure(bytes: Seq<u8>) -> Option<Ktx2Error> {
    if bytes.len() < 80 {
        Some(Ktx2Error::TruncatedOrMalformed)
    } else if VkFormat::of_id(u32_at(bytes, 12)) is None {
        Some(Ktx2Error::UnsupportedFormat)
    } else if u32_at(bytes, 40) == 0 || 80 + 24 * u32_at(bytes, 40) > bytes.len() {
        Some(Ktx2Error::TruncatedOrMalformed)
    } else if u32_at(bytes, 48) + 44 > bytes.len() {
        Some(Ktx2Error::TruncatedOrMalformed)
    } else if u64_at(bytes, 80) > bytes.len() {
        Some(Ktx2Error::TruncatedOrMalformed)
    } else {
        None
    }
}

/// The container that a file holds, where it can be read. The key/value
/// block is not read, nor the global data: the container gets the block
/// that every container carries, and no global data. The payload is
/// everything from the first level's offset to the end of the file.
pub open spec fn read_container(bytes: Seq<u8>) -> TextureView {
    let format = VkFormat::of_id(u32_at(bytes, 12)).unwrap();
    let count = u32_at(bytes, 40) as nat;
    TextureView {
        header: header_at(bytes, format),
        index: index_at(bytes, count),
        descriptors: seq![descriptor_at(bytes, u32_at(bytes, 48) as int)],
        key_value_data: key_value_block(),
        supercompression_global_data: Seq::empty(),
        level_images: bytes.subrange(u64_at(bytes, 80) as int, bytes.len() as int),
    }
}

/// What reading a file gives: the container, or the reason why not.
pub open spec fn read_result(bytes: Seq<u8>) -> Result<TextureView, Ktx2Error> {
    match read_failure(bytes) {
        Some(error) => Err(error),
        None => Ok(read_container(bytes)),
    }
}

/// Reads the level record at `at`.
pub fn read_level(bytes: &[u8], at: usize) -> (level: Level)
    requires
        at + 24 <= bytes.len(),
    ensures
        level == level_at(bytes@, at as int),
{
    Level {
        byte_offset: read_u64_at(bytes, at),
        byte_length: read_u64_at(bytes, at + 8),
        uncompressed_byte_length: read_u64_at(bytes, at + 16),
    }
}

/// Reads `count` level records.
pub fn read_levels(bytes: &[u8], count: u32) -> (levels: Vec<Level>)
    requires
        80 + 24 * count <= bytes.len(),
    ensures
        levels@ == levels_at(bytes@, count as nat),
{
    let mut levels: Vec<Level> = Vec::new();
    let mut l: u32 = 0;
    while l < count
        invariant
            l <= count,
            80 + 24 * count <= bytes.len(),
            levels@ == levels_at(bytes@, l as nat),
        decreases count - l,
    {
        let at: usize = 80 + 24 * (l as usize);
        levels.push(read_level(bytes, at));
        assert(levels@ =~= levels_at(bytes@, (l + 1) as nat));
        l += 1;
    }
    levels
}

/// Reads the descriptor at `at` with its first sample.
pub fn read_descriptor(bytes: &[u8], at: usize) -> (descriptor: BasicDataFormatDescriptor)
    requires
        at + 44 <= bytes.len(),
    ensures
        descriptor@ == descriptor_at(bytes@, at as int),
{
    let mut samples: Vec<DFDSampleType> = Vec::new();
    samples.push(
        DFDSampleType {
            row_0: read_u32_at(bytes, at + 28),
            row_1: read_u32_at(bytes, at + 32),
            row_2: read_u32_at(bytes, at + 36),
            row_3: read_u32_at(bytes, at + 40),
        },
    );
    assert(samples@ =~= seq![sample_at(bytes@, at + 28)]);
    BasicDataFormatDescriptor {
        dfd_total_size: read_u32_at(bytes, at),
        row_0: read_u32_at(bytes, at + 4),
        row_1: read_u32_at(bytes, at + 8),
        row_2: read_u32_at(bytes, at + 12),
        row_3: read_u32_at(bytes, at + 16),
        row_4: read_u32_at(bytes, at + 20),
        row_5: read_u32_at(bytes, at + 24),
        samples,
    }
}

} // verus!
