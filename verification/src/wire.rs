//! The bytes of a container's file, section by section.

use crate::dfd::{BasicDataFormatDescriptor, DFDSampleType, DescriptorView};
use crate::endian::{le_bytes, put_u32, put_u64};
use crate::header::{Header, HeaderView};
use crate::index::{Index, IndexView};
use crate::level::Level;
use crate::texture::TextureView;
use vstd::prelude::*;

verus! {

/// The header in a file: the identifier, then the nine fields as
/// little-endian 32-bit words.
#[verifier::opaque]
pub open spec fn header_bytes(header: HeaderView) -> Seq<u8> {
    header.identifier + le_bytes(header.vk_format.id() as nat, 4) + le_bytes(
        header.type_size as nat,
        4,
    ) + le_bytes(header.pixel_width as nat, 4) + le_bytes(header.pixel_height as nat, 4)
        + le_bytes(header.pixel_depth as nat, 4) + le_bytes(header.layer_count as nat, 4)
        + le_bytes(header.face_count as nat, 4) + le_bytes(header.level_count as nat, 4)
        + le_bytes(header.supercompression_scheme as nat, 4)
}

/// The fixed part of the index in a file: four 32-bit words, then two
/// 64-bit words.
#[verifier::opaque]
pub open spec fn index_bytes(index: IndexView) -> Seq<u8> {
    le_bytes(index.dfd_byte_offset as nat, 4) + le_bytes(index.dfd_byte_length as nat, 4)
        + le_bytes(index.kvd_byte_offset as nat, 4) + le_bytes(index.kvd_byte_length as nat, 4)
        + le_bytes(index.sgd_byte_offset as nat, 8) + le_bytes(index.sgd_byte_length as nat, 8)
}

/// One level record in a file: three 64-bit words.
#[verifier::opaque]
pub open spec fn level_bytes(level: Level) -> Seq<u8> {
    le_bytes(level.byte_offset as nat, 8) + le_bytes(level.byte_length as nat, 8) + le_bytes(
        level.uncompressed_byte_length as nat,
        8,
    )
}

/// The level records in a file, one after the other.
pub open spec fn levels_bytes(levels: Seq<Level>) -> Seq<u8>
    decreases levels.len(),
{
    if levels.len() == 0 {
        Seq::empty()
    } else {
        levels_bytes(levels.drop_last()) + level_bytes(levels.last())
    }
}

/// One sample in a file: its four rows.
#[verifier::opaque]
pub open spec fn sample_bytes(sample: DFDSampleType) -> Seq<u8> {
    le_bytes(sample.row_0 as nat, 4) + le_bytes(sample.row_1 as nat, 4) + le_bytes(
        sample.row_2 as nat,
        4,
    ) + le_bytes(sample.row_3 as nat, 4)
}

/// The samples of a descriptor in a file, one after the other.
pub open spec fn samples_bytes(samples: Seq<DFDSampleType>) -> Seq<u8>
    decreases samples.len(),
{
    if samples.len() == 0 {
        Seq::empty()
    } else {
        samples_bytes(samples.drop_last()) + sample_bytes(samples.last())
    }
}

/// The seven words in front of a descriptor's samples: the total size and
/// the six header rows.
#[verifier::opaque]
pub open spec fn descriptor_head_bytes(descriptor: DescriptorView) -> Seq<u8> {
    le_bytes(descriptor.dfd_total_size as nat, 4) + le_bytes(descriptor.row_0 as nat, 4)
        + le_bytes(descriptor.row_1 as nat, 4) + le_bytes(descriptor.row_2 as nat, 4)
        + le_bytes(descriptor.row_3 as nat, 4) + le_bytes(descriptor.row_4 as nat, 4)
        + le_bytes(descriptor.row_5 as nat, 4)
}

/// One descriptor in a file.
pub open spec fn descriptor_bytes(descriptor: DescriptorView) -> Seq<u8> {
    descriptor_head_bytes(descriptor) + samples_bytes(descriptor.samples)
}

/// The descriptors of a container in a file, one after the other.
pub open spec fn descriptors_bytes(descriptors: Seq<DescriptorView>) -> Seq<u8>
    decreases descriptors.len(),
{
    if descriptors.len() == 0 {
        Seq::empty()
    } else {
        descriptors_bytes(descriptors.drop_last()) + descriptor_bytes(descriptors.last())
    }
}

/// Everything in a file in front of the key/value block.
pub open spec fn prefix_bytes(texture: TextureView) -> Seq<u8> {
    header_bytes(texture.header) + index_bytes(texture.index) + levels_bytes(
        texture.index.levels,
    ) + descriptors_bytes(texture.descriptors)
}

/// The file of a container: header, index, level records, descriptors,
/// key/value block, global data and payload, with nothing between them.
pub open spec fn file_bytes(texture: TextureView) -> Seq<u8> {
    prefix_bytes(texture) + texture.key_value_data + texture.supercompression_global_data
        + texture.level_images
}

/// Appends `bytes` as they are.
pub fn put_bytes(out: &mut Vec<u8>, bytes: &[u8])
    ensures
        final(out)@ == old(out)@ + bytes@,
{
    out.extend_from_slice(bytes);
    assert(out@ =~= old(out)@ + bytes@);
}

/// Appends the header.
pub fn put_header(out: &mut Vec<u8>, header: &Header)
    ensures
        final(out)@ == old(out)@ + header_bytes(header@),
{
    put_bytes(out, header.identifier.as_slice());
    put_u32(out, header.vk_format.to_u32());
    put_u32(out, header.type_size);
    put_u32(out, header.pixel_width);
    put_u32(out, header.pixel_height);
    put_u32(out, header.pixel_depth);
    put_u32(out, header.layer_count);
    put_u32(out, header.face_count);
    put_u32(out, header.level_count);
    put_u32(out, header.supercompression_scheme);
    assert(out@ =~= old(out)@ + header_bytes(header@)) by {
        reveal(header_bytes);
    }
}

/// Appends the fixed part of the index and then its level records.
pub fn put_index(out: &mut Vec<u8>, index: &Index)
    ensures
        final(out)@ == old(out)@ + index_bytes(index@) + levels_bytes(index@.levels),
{
    put_u32(out, index.dfd_byte_offset);
    put_u32(out, index.dfd_byte_length);
    put_u32(out, index.kvd_byte_offset);
    put_u32(out, index.kvd_byte_length);
    put_u64(out, index.sgd_byte_offset);
    put_u64(out, index.sgd_byte_length);
    assert(out@ =~= old(out)@ + index_bytes(index@)) by {
        reveal(index_bytes);
    }
    let ghost fixed = out@;
    let mut i: usize = 0;
    while i < index.levels.len()
        invariant
            i <= index.levels.len(),
            out@ == fixed + levels_bytes(index.levels@.take(i as int)),
        decreases index.levels.len() - i,
    {
        let level: Level = index.levels[i];
        put_u64(out, level.byte_offset);
        put_u64(out, level.byte_length);
        put_u64(out, level.uncompressed_byte_length);
        proof {
            let next = index.levels@.take(i + 1);
            assert(next.drop_last() =~= index.levels@.take(i as int));
            assert(next.last() == level);
            assert(out@ =~= fixed + levels_bytes(next)) by {
                reveal(level_bytes);
            }
        }
        i += 1;
    }
    assert(index.levels@.take(i as int) =~= index.levels@);
}

/// Appends one descriptor.
pub fn put_descriptor(out: &mut Vec<u8>, descriptor: &BasicDataFormatDescriptor)
    ensures
        final(out)@ == old(out)@ + descriptor_bytes(descriptor@),
{
    put_u32(out, descriptor.dfd_total_size);
    put_u32(out, descriptor.row_0);
    put_u32(out, descriptor.row_1);
    put_u32(out, descriptor.row_2);
    put_u32(out, descriptor.row_3);
    put_u32(out, descriptor.row_4);
    put_u32(out, descriptor.row_5);
    assert(out@ =~= old(out)@ + descriptor_head_bytes(descriptor@)) by {
        reveal(descriptor_head_bytes);
    }
    let ghost head = out@;
    let mut i: usize = 0;
    while i < descriptor.samples.len()
        invariant
            i <= descriptor.samples.len(),
            out@ == head + samples_bytes(descriptor.samples@.take(i as int)),
        decreases descriptor.samples.len() - i,
    {
        let sample: DFDSampleType = descriptor.samples[i];
        put_u32(out, sample.row_0);
        put_u32(out, sample.row_1);
        put_u32(out, sample.row_2);
        put_u32(out, sample.row_3);
        proof {
            let next = descriptor.samples@.take(i + 1);
            assert(next.drop_last() =~= descriptor.samples@.take(i as int));
            assert(next.last() == sample);
            assert(out@ =~= head + samples_bytes(next)) by {
                reveal(sample_bytes);
            }
        }
        i += 1;
    }
    assert(descriptor.samples@.take(i as int) =~= descriptor.samples@);
    assert(out@ =~= old(out)@ + descriptor_bytes(descriptor@));
}

} // verus!
