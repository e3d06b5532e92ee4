//! A container's file reads back as the container.

use crate::dfd::{sample_layouts, DFDSampleType, DescriptorView};
use crate::endian::{
    le_bytes, lemma_field_in_section, lemma_le_bytes_len, lemma_u32_round_trip,
    lemma_u64_round_trip,
};
use crate::error::Ktx2Error;
use crate::header::{magic, HeaderView};
use crate::index::IndexView;
use crate::level::Level;
use crate::reader::{
    descriptor_at, header_at, index_at, level_at, levels_at, read_failure, read_result,
    sample_at, u32_at, u64_at,
};
use crate::texture::{key_value_block, TextureView};
use crate::vk_format::VkFormat;
use crate::wire::{
    descriptor_bytes, descriptor_head_bytes, descriptors_bytes, file_bytes, header_bytes,
    index_bytes, level_bytes, levels_bytes, sample_bytes, samples_bytes,
};
use vstd::prelude::*;

verus! {

/// The nine words of a written header hold its fields.
pub proof fn lemma_header_fields(header: HeaderView)
    requires
        header.identifier.len() == 12,
    ensures
        header_bytes(header).len() == 48,
        u32_at(header_bytes(header), 12) == header.vk_format.id(),
        u32_at(header_bytes(header), 16) == header.type_size,
        u32_at(header_bytes(header), 20) == header.pixel_width,
        u32_at(header_bytes(header), 24) == header.pixel_height,
        u32_at(header_bytes(header), 28) == header.pixel_depth,
        u32_at(header_bytes(header), 32) == header.layer_count,
        u32_at(header_bytes(header), 36) == header.face_count,
        u32_at(header_bytes(header), 40) == header.level_count,
        u32_at(header_bytes(header), 44) == header.supercompression_scheme,
{
    broadcast use lemma_le_bytes_len;
    reveal(header_bytes);

    let bytes = header_bytes(header);
    assert(bytes.subrange(12, 16) =~= le_bytes(header.vk_format.id() as nat, 4));
    assert(bytes.subrange(16, 20) =~= le_bytes(header.type_size as nat, 4));
    assert(bytes.subrange(20, 24) =~= le_bytes(header.pixel_width as nat, 4));
    assert(bytes.subrange(24, 28) =~= le_bytes(header.pixel_height as nat, 4));
    assert(bytes.subrange(28, 32) =~= le_bytes(header.pixel_depth as nat, 4));
    assert(bytes.subrange(32, 36) =~= le_bytes(header.layer_count as nat, 4));
    assert(bytes.subrange(36, 40) =~= le_bytes(header.face_count as nat, 4));
    assert(bytes.subrange(40, 44) =~= le_bytes(header.level_count as nat, 4));
    assert(bytes.subrange(44, 48) =~= le_bytes(header.supercompression_scheme as nat, 4));
    lemma_u32_round_trip(header.vk_format.id());
    lemma_u32_round_trip(header.type_size);
    lemma_u32_round_trip(header.pixel_width);
    lemma_u32_round_trip(header.pixel_height);
    lemma_u32_round_trip(header.pixel_depth);
    lemma_u32_round_trip(header.layer_count);
    lemma_u32_round_trip(header.face_count);
    lemma_u32_round_trip(header.level_count);
    lemma_u32_round_trip(header.supercompression_scheme);
}

/// The six words of a written index hold its fields.
pub proof fn lemma_index_fields(index: IndexView)
    ensures
        index_bytes(index).len() == 32,
        u32_at(index_bytes(index), 0) == index.dfd_byte_offset,
        u32_at(index_bytes(index), 4) == index.dfd_byte_length,
        u32_at(index_bytes(index), 8) == index.kvd_byte_offset,
        u32_at(index_bytes(index), 12) == index.kvd_byte_length,
        u64_at(index_bytes(index), 16) == index.sgd_byte_offset,
        u64_at(index_bytes(index), 24) == index.sgd_byte_length,
{
    broadcast use lemma_le_bytes_len;
    reveal(index_bytes);

    let bytes = index_bytes(index);
    assert(bytes.subrange(0, 4) =~= le_bytes(index.dfd_byte_offset as nat, 4));
    assert(bytes.subrange(4, 8) =~= le_bytes(index.dfd_byte_length as nat, 4));
    assert(bytes.subrange(8, 12) =~= le_bytes(index.kvd_byte_offset as nat, 4));
    assert(bytes.subrange(12, 16) =~= le_bytes(index.kvd_byte_length as nat, 4));
    assert(bytes.subrange(16, 24) =~= le_bytes(index.sgd_byte_offset as nat, 8));
    assert(bytes.subrange(24, 32) =~= le_bytes(index.sgd_byte_length as nat, 8));
    lemma_u32_round_trip(index.dfd_byte_offset);
    lemma_u32_round_trip(index.dfd_byte_length);
    lemma_u32_round_trip(index.kvd_byte_offset);
    lemma_u32_round_trip(index.kvd_byte_length);
    lemma_u64_round_trip(index.sgd_byte_offset);
    lemma_u64_round_trip(index.sgd_byte_length);
}

/// A written level record reads back as the level.
pub proof fn lemma_level_fields(level: Level)
    ensures
        level_bytes(level).len() == 24,
        level_at(level_bytes(level), 0) == level,
{
    broadcast use lemma_le_bytes_len;
    reveal(level_bytes);

    let bytes = level_bytes(level);
    assert(bytes.subrange(0, 8) =~= le_bytes(level.byte_offset as nat, 8));
    assert(bytes.subrange(8, 16) =~= le_bytes(level.byte_length as nat, 8));
    assert(bytes.subrange(16, 24) =~= le_bytes(level.uncompressed_byte_length as nat, 8));
    lemma_u64_round_trip(level.byte_offset);
    lemma_u64_round_trip(level.byte_length);
    lemma_u64_round_trip(level.uncompressed_byte_length);
}

/// A written sample reads back as the sample.
pub proof fn lemma_sample_fields(sample: DFDSampleType)
    ensures
        sample_bytes(sample).len() == 16,
        sample_at(sample_bytes(sample), 0) == sample,
{
    broadcast use lemma_le_bytes_len;
    reveal(sample_bytes);

    let bytes = sample_bytes(sample);
    assert(bytes.subrange(0, 4) =~= le_bytes(sample.row_0 as nat, 4));
    assert(bytes.subrange(4, 8) =~= le_bytes(sample.row_1 as nat, 4));
    assert(bytes.subrange(8, 12) =~= le_bytes(sample.row_2 as nat, 4));
    assert(bytes.subrange(12, 16) =~= le_bytes(sample.row_3 as nat, 4));
    lemma_u32_round_trip(sample.row_0);
    lemma_u32_round_trip(sample.row_1);
    lemma_u32_round_trip(sample.row_2);
    lemma_u32_round_trip(sample.row_3);
}

/// The samples of a descriptor take 16 bytes each, and the first 16 are
/// those of the first sample.
pub proof fn lemma_samples_bytes(samples: Seq<DFDSampleType>)
    ensures
        samples_bytes(samples).len() == 16 * samples.len(),
        samples.len() > 0 ==> samples_bytes(samples).subrange(0, 16) == sample_bytes(samples[0]),
    decreases samples.len(),
{
    if samples.len() > 0 {
        lemma_samples_bytes(samples.drop_last());
        lemma_sample_fields(samples.last());
        if samples.len() == 1 {
            assert(samples_bytes(samples).subrange(0, 16) =~= sample_bytes(samples[0]));
        } else {
            assert(samples.drop_last()[0] == samples[0]);
            assert(samples_bytes(samples).subrange(0, 16) =~= samples_bytes(
                samples.drop_last(),
            ).subrange(0, 16));
        }
    }
}

/// The seven words in front of a written descriptor's samples hold its
/// total size and header rows.
pub proof fn lemma_descriptor_head_fields(descriptor: DescriptorView)
    ensures
        descriptor_head_bytes(descriptor).len() == 28,
        u32_at(descriptor_head_bytes(descriptor), 0) == descriptor.dfd_total_size,
        u32_at(descriptor_head_bytes(descriptor), 4) == descriptor.row_0,
        u32_at(descriptor_head_bytes(descriptor), 8) == descriptor.row_1,
        u32_at(descriptor_head_bytes(descriptor), 12) == descriptor.row_2,
        u32_at(descriptor_head_bytes(descriptor), 16) == descriptor.row_3,
        u32_at(descriptor_head_bytes(descriptor), 20) == descriptor.row_4,
        u32_at(descriptor_head_bytes(descriptor), 24) == descriptor.row_5,
{
    broadcast use lemma_le_bytes_len;
    reveal(descriptor_head_bytes);

    let bytes = descriptor_head_bytes(descriptor);
    assert(bytes.subrange(0, 4) =~= le_bytes(descriptor.dfd_total_size as nat, 4));
    assert(bytes.subrange(4, 8) =~= le_bytes(descriptor.row_0 as nat, 4));
    assert(bytes.subrange(8, 12) =~= le_bytes(descriptor.row_1 as nat, 4));
    assert(bytes.subrange(12, 16) =~= le_bytes(descriptor.row_2 as nat, 4));
    assert(bytes.subrange(16, 20) =~= le_bytes(descriptor.row_3 as nat, 4));
    assert(bytes.subrange(20, 24) =~= le_bytes(descriptor.row_4 as nat, 4));
    assert(bytes.subrange(24, 28) =~= le_bytes(descriptor.row_5 as nat, 4));
    lemma_u32_round_trip(descriptor.dfd_total_size);
    lemma_u32_round_trip(descriptor.row_0);
    lemma_u32_round_trip(descriptor.row_1);
    lemma_u32_round_trip(descriptor.row_2);
    lemma_u32_round_trip(descriptor.row_3);
    lemma_u32_round_trip(descriptor.row_4);
    lemma_u32_round_trip(descriptor.row_5);
}

/// A written descriptor with at least one sample reads back with its first
/// sample.
pub proof fn lemma_descriptor_fields(descriptor: DescriptorView)
    requires
        descriptor.samples.len() > 0,
    ensures
        descriptor_bytes(descriptor).len() == 28 + 16 * descriptor.samples.len(),
        descriptor_at(descriptor_bytes(descriptor), 0) == keeping_first_sample(descriptor),
{
    let bytes = descriptor_bytes(descriptor);
    let head = descriptor_head_bytes(descriptor);
    let first = sample_bytes(descriptor.samples[0]);
    lemma_descriptor_head_fields(descriptor);
    lemma_samples_bytes(descriptor.samples);
    lemma_sample_fields(descriptor.samples[0]);
    assert(bytes.subrange(0, 28) =~= head);
    assert(bytes.subrange(28, 44) =~= samples_bytes(descriptor.samples).subrange(0, 16));
    lemma_field_in_section(bytes, 0, head, 0, 4);
    lemma_field_in_section(bytes, 0, head, 4, 4);
    lemma_field_in_section(bytes, 0, head, 8, 4);
    lemma_field_in_section(bytes, 0, head, 12, 4);
    lemma_field_in_section(bytes, 0, head, 16, 4);
    lemma_field_in_section(bytes, 0, head, 20, 4);
    lemma_field_in_section(bytes, 0, head, 24, 4);
    lemma_field_in_section(bytes, 28, first, 0, 4);
    lemma_field_in_section(bytes, 28, first, 4, 4);
    lemma_field_in_section(bytes, 28, first, 8, 4);
    lemma_field_in_section(bytes, 28, first, 12, 4);
    assert(descriptor.samples.take(1) =~= seq![descriptor.samples[0]]);
}

/// A descriptor with no sample but its first.
pub open spec fn keeping_first_sample(descriptor: DescriptorView) -> DescriptorView {
    DescriptorView {
        dfd_total_size: descriptor.dfd_total_size,
        row_0: descriptor.row_0,
        row_1: descriptor.row_1,
        row_2: descriptor.row_2,
        row_3: descriptor.row_3,
        row_4: descriptor.row_4,
        row_5: descriptor.row_5,
        samples: descriptor.samples.take(1),
    }
}

/// A container as it comes back from its file: the same, but that each
/// descriptor keeps only its first sample.
pub open spec fn as_read(texture: TextureView) -> TextureView {
    TextureView {
        header: texture.header,
        index: texture.index,
        descriptors: texture.descriptors.map_values(
            |descriptor: DescriptorView| keeping_first_sample(descriptor),
        ),
        key_value_data: texture.key_value_data,
        supercompression_global_data: texture.supercompression_global_data,
        level_images: texture.level_images,
    }
}

/// A level record of a section is the same record of any sequence that
/// holds the section.
pub proof fn lemma_level_in_section(bytes: Seq<u8>, start: int, section: Seq<u8>)
    requires
        0 <= start,
        start + section.len() <= bytes.len(),
        bytes.subrange(start, start + section.len()) == section,
        section.len() >= 24,
    ensures
        level_at(bytes, start) == level_at(section, 0),
{
    lemma_field_in_section(bytes, start, section, 0, 8);
    lemma_field_in_section(bytes, start, section, 8, 8);
    lemma_field_in_section(bytes, start, section, 16, 8);
}

/// A descriptor of a section is the same descriptor of any sequence that
/// holds the section.
pub proof fn lemma_descriptor_in_section(bytes: Seq<u8>, start: int, section: Seq<u8>)
    requires
        0 <= start,
        start + section.len() <= bytes.len(),
        bytes.subrange(start, start + section.len()) == section,
        section.len() >= 44,
    ensures
        descriptor_at(bytes, start) == descriptor_at(section, 0),
{
    lemma_field_in_section(bytes, start, section, 0, 4);
    lemma_field_in_section(bytes, start, section, 4, 4);
    lemma_field_in_section(bytes, start, section, 8, 4);
    lemma_field_in_section(bytes, start, section, 12, 4);
    lemma_field_in_section(bytes, start, section, 16, 4);
    lemma_field_in_section(bytes, start, section, 20, 4);
    lemma_field_in_section(bytes, start, section, 24, 4);
    lemma_field_in_section(bytes, start, section, 28, 4);
    lemma_field_in_section(bytes, start, section, 32, 4);
    lemma_field_in_section(bytes, start, section, 36, 4);
    lemma_field_in_section(bytes, start, section, 40, 4);
}

/// The header of a file is the header that was written, but for the
/// identifier, which is not read.
pub proof fn lemma_header_read(bytes: Seq<u8>, header: HeaderView)
    requires
        header.identifier.len() == 12,
        bytes.len() >= 48,
        bytes.subrange(0, 48) == header_bytes(header),
    ensures
        u32_at(bytes, 12) == header.vk_format.id(),
        header_at(bytes, header.vk_format) == (HeaderView { identifier: magic(), ..header }),
{
    let section = header_bytes(header);
    lemma_header_fields(header);
    lemma_field_in_section(bytes, 0, section, 12, 4);
    lemma_field_in_section(bytes, 0, section, 16, 4);
    lemma_field_in_section(bytes, 0, section, 20, 4);
    lemma_field_in_section(bytes, 0, section, 24, 4);
    lemma_field_in_section(bytes, 0, section, 28, 4);
    lemma_field_in_section(bytes, 0, section, 32, 4);
    lemma_field_in_section(bytes, 0, section, 36, 4);
    lemma_field_in_section(bytes, 0, section, 40, 4);
    lemma_field_in_section(bytes, 0, section, 44, 4);
}

/// The index of a file with one level is the index that was written.
pub proof fn lemma_index_read(bytes: Seq<u8>, index: IndexView)
    requires
        index.levels.len() == 1,
        bytes.len() >= 104,
        bytes.subrange(48, 80) == index_bytes(index),
        bytes.subrange(80, 104) == level_bytes(index.levels[0]),
    ensures
        index_at(bytes, 1) == index,
{
    let section = index_bytes(index);
    lemma_index_fields(index);
    lemma_field_in_section(bytes, 48, section, 0, 4);
    lemma_field_in_section(bytes, 48, section, 4, 4);
    lemma_field_in_section(bytes, 48, section, 8, 4);
    lemma_field_in_section(bytes, 48, section, 12, 4);
    lemma_field_in_section(bytes, 48, section, 16, 8);
    lemma_field_in_section(bytes, 48, section, 24, 8);
    lemma_level_fields(index.levels[0]);
    lemma_level_in_section(bytes, 80, level_bytes(index.levels[0]));
    assert(levels_at(bytes, 1) =~= index.levels);
}

/// What reading relies on: the container has the identifier and the
/// key/value block that every container carries, no global data, one level
/// and one descriptor with a sample; the header counts one level; and the
/// index gives the descriptor and the payload the places that they have in
/// the file.
pub open spec fn readable(texture: TextureView) -> bool {
    &&& texture.header.identifier == magic()
    &&& texture.header.level_count == 1
    &&& texture.index.levels.len() == 1
    &&& texture.descriptors.len() == 1
    &&& texture.descriptors[0].samples.len() >= 1
    &&& texture.key_value_data == key_value_block()
    &&& texture.supercompression_global_data.len() == 0
    &&& texture.index.dfd_byte_offset == 104
    &&& texture.index.levels[0].byte_offset == 184 + 16 * texture.descriptors[0].samples.len()
}

/// Where the sections of a file lie, for a container with one level and one
/// descriptor.
pub proof fn lemma_file_sections(texture: TextureView)
    requires
        texture.header.identifier.len() == 12,
        texture.index.levels.len() == 1,
        texture.descriptors.len() == 1,
        texture.descriptors[0].samples.len() >= 1,
        texture.key_value_data.len() == 52,
        texture.supercompression_global_data.len() == 0,
    ensures
        ({
            let bytes = file_bytes(texture);
            let samples = texture.descriptors[0].samples.len() as int;
            &&& bytes.len() == 184 + 16 * samples + texture.level_images.len()
            &&& bytes.subrange(0, 48) == header_bytes(texture.header)
            &&& bytes.subrange(48, 80) == index_bytes(texture.index)
            &&& bytes.subrange(80, 104) == level_bytes(texture.index.levels[0])
            &&& bytes.subrange(104, 132 + 16 * samples) == descriptor_bytes(
                texture.descriptors[0],
            )
            &&& bytes.subrange(184 + 16 * samples, bytes.len() as int) == texture.level_images
        }),
{
    let bytes = file_bytes(texture);
    let samples = texture.descriptors[0].samples.len() as int;
    let head = header_bytes(texture.header);
    let fixed = index_bytes(texture.index);
    let record = level_bytes(texture.index.levels[0]);
    let records = levels_bytes(texture.index.levels);
    let block = descriptor_bytes(texture.descriptors[0]);
    let blocks = descriptors_bytes(texture.descriptors);
    assert(records =~= record) by {
        reveal_with_fuel(levels_bytes, 2);
        assert(texture.index.levels.drop_last() =~= Seq::<Level>::empty());
    }
    assert(blocks =~= block) by {
        reveal_with_fuel(descriptors_bytes, 2);
        assert(texture.descriptors.drop_last() =~= Seq::<DescriptorView>::empty());
    }
    assert(head.len() == 48) by {
        lemma_header_fields(texture.header);
    }
    assert(fixed.len() == 32) by {
        lemma_index_fields(texture.index);
    }
    assert(record.len() == 24) by {
        lemma_level_fields(texture.index.levels[0]);
    }
    assert(block.len() == 28 + 16 * samples) by {
        lemma_descriptor_fields(texture.descriptors[0]);
    }
    lemma_sections(
        head,
        fixed,
        record,
        block,
        texture.key_value_data,
        texture.supercompression_global_data,
        texture.level_images,
    );
}

/// Where seven sequences lie in the sequence that holds them one after the
/// other.
proof fn lemma_sections(
    a: Seq<u8>,
    b: Seq<u8>,
    c: Seq<u8>,
    d: Seq<u8>,
    e: Seq<u8>,
    f: Seq<u8>,
    g: Seq<u8>,
)
    ensures
        ({
            let all = a + b + c + d + e + f + g;
            let b0 = a.len() as int;
            let c0 = b0 + b.len();
            let d0 = c0 + c.len();
            let e0 = d0 + d.len();
            let f0 = e0 + e.len();
            let g0 = f0 + f.len();
            &&& all.len() == g0 + g.len()
            &&& all.subrange(0, b0) == a
            &&& all.subrange(b0, c0) == b
            &&& all.subrange(c0, d0) == c
            &&& all.subrange(d0, e0) == d
            &&& all.subrange(g0, all.len() as int) == g
        }),
{
    let all = a + b + c + d + e + f + g;
    let b0 = a.len() as int;
    let c0 = b0 + b.len();
    let d0 = c0 + c.len();
    let e0 = d0 + d.len();
    let f0 = e0 + e.len();
    let g0 = f0 + f.len();
    assert(all.subrange(0, b0) =~= a);
    assert(all.subrange(b0, c0) =~= b);
    assert(all.subrange(c0, d0) =~= c);
    assert(all.subrange(d0, e0) =~= d);
    assert(all.subrange(g0, all.len() as int) =~= g);
}

/// The identifier and the key/value block have their lengths.
proof fn lemma_fixed_lengths()
    ensures
        magic().len() == 12,
        key_value_block().len() == 52,
{
}

/// What reading gives for a sequence of bytes of which the fields are
/// known.
proof fn lemma_read_from_fields(bytes: Seq<u8>, texture: TextureView)
    requires
        texture.descriptors.len() == 1,
        texture.key_value_data == key_value_block(),
        texture.supercompression_global_data.len() == 0,
        184 <= u64_at(bytes, 80) <= bytes.len(),
        u32_at(bytes, 12) == texture.header.vk_format.id(),
        u32_at(bytes, 40) == 1,
        u32_at(bytes, 48) == 104,
        header_at(bytes, texture.header.vk_format) == texture.header,
        index_at(bytes, 1) == texture.index,
        descriptor_at(bytes, 104) == keeping_first_sample(texture.descriptors[0]),
        bytes.subrange(u64_at(bytes, 80) as int, bytes.len() as int) == texture.level_images,
    ensures
        read_result(bytes) == Ok::<TextureView, Ktx2Error>(as_read(texture)),
{
    let format = texture.header.vk_format;
    assert(VkFormat::of_id(format.id()) == Some(format));
    assert(read_failure(bytes) is None);
    assert(as_read(texture).descriptors =~= seq![keeping_first_sample(texture.descriptors[0])]);
    assert(texture.supercompression_global_data =~= Seq::<u8>::empty());
}

/// A readable container's file reads back as the container, with each
/// descriptor up to its first sample.
pub proof fn lemma_read_readable(texture: TextureView)
    requires
        readable(texture),
    ensures
        read_result(file_bytes(texture)) == Ok::<TextureView, Ktx2Error>(as_read(texture)),
{
    let bytes = file_bytes(texture);
    let descriptor = texture.descriptors[0];
    let block = descriptor_bytes(descriptor);
    lemma_fixed_lengths();
    lemma_file_sections(texture);
    lemma_header_read(bytes, texture.header);
    lemma_index_read(bytes, texture.index);
    lemma_descriptor_fields(descriptor);
    lemma_descriptor_in_section(bytes, 104, block);
    lemma_read_from_fields(bytes, texture);
}

/// A well-formed container is readable.
pub proof fn lemma_well_formed_readable(texture: TextureView)
    requires
        texture.well_formed(),
    ensures
        readable(texture),
        texture.descriptors[0].samples.len() == sample_layouts(texture.header.vk_format).len(),
{
}

/// The file of a well-formed container reads back as that container, with
/// its header, its index, its key/value block and every byte of its
/// payload, and with the descriptor up to its first sample. For a format of
/// one sample the container that comes back is the one that was written.
pub proof fn lemma_read_after_write(texture: TextureView)
    requires
        texture.well_formed(),
    ensures
        read_result(file_bytes(texture)) == Ok::<TextureView, Ktx2Error>(as_read(texture)),
        as_read(texture).header == texture.header,
        as_read(texture).index == texture.index,
        as_read(texture).level_images == texture.level_images,
        as_read(texture).descriptors == seq![keeping_first_sample(texture.descriptors[0])],
        sample_layouts(texture.header.vk_format).len() == 1 ==> as_read(texture) == texture,
{
    assert(as_read(texture).descriptors =~= seq![keeping_first_sample(texture.descriptors[0])]);
    lemma_well_formed_readable(texture);
    lemma_read_readable(texture);
    if sample_layouts(texture.header.vk_format).len() == 1 {
        let descriptor = texture.descriptors[0];
        assert(descriptor.samples.take(1) =~= descriptor.samples);
        assert(as_read(texture).descriptors =~= texture.descriptors);
    }
}

/// The size that a well-formed container's file holds in front of the
/// descriptor is the length that its index gives for the descriptor block,
/// in the container and in the file, and it is 28 bytes and 16 more for
/// each sample.
pub proof fn lemma_descriptor_size_in_file(texture: TextureView)
    requires
        texture.well_formed(),
    ensures
        ({
            let bytes = file_bytes(texture);
            let descriptor = texture.descriptors[0];
            &&& descriptor.dfd_total_size == 28 + 16 * descriptor.samples.len()
            &&& texture.index.dfd_byte_length == descriptor.dfd_total_size
            &&& u32_at(bytes, 52) == texture.index.dfd_byte_length
            &&& u32_at(bytes, texture.index.dfd_byte_offset as int) == descriptor.dfd_total_size
        }),
{
    let bytes = file_bytes(texture);
    let descriptor = texture.descriptors[0];
    lemma_well_formed_readable(texture);
    lemma_fixed_lengths();
    lemma_file_sections(texture);
    lemma_index_read(bytes, texture.index);
    lemma_descriptor_fields(descriptor);
    lemma_descriptor_in_section(bytes, 104, descriptor_bytes(descriptor));
}

} // verus!
