//! The basic data format descriptor of each pixel format.

use crate::vk_format::{format_pixel_size, get_format_pixel_size_bytes, VkFormat};
use vstd::prelude::*;

verus! {

/// One sample of a descriptor: four 32-bit rows that say where a channel's
/// bits lie in a texel block and which range of values they take.
#[derive(Clone, Copy, Debug, PartialEq, Eq, Structural)]
pub struct DFDSampleType {
    /// Bit offset, bit length minus one, channel and qualifiers, packed.
    pub row_0: u32,
    /// Sample position.
    pub row_1: u32,
    /// Lower bound of the channel's values.
    pub row_2: u32,
    /// Upper bound of the channel's values.
    pub row_3: u32,
}

/// A basic data format descriptor: its total size, six header rows and one
/// sample for each channel.
#[derive(Clone, Debug, PartialEq, Eq)]
pub struct BasicDataFormatDescriptor {
    pub dfd_total_size: u32,
    pub row_0: u32,
    pub row_1: u32,
    pub row_2: u32,
    pub row_3: u32,
    pub row_4: u32,
    pub row_5: u32,
    pub samples: Vec<DFDSampleType>,
}

/// What a descriptor holds, with its samples as a sequence.
pub struct DescriptorView {
    pub dfd_total_size: u32,
    pub row_0: u32,
    pub row_1: u32,
    pub row_2: u32,
    pub row_3: u32,
    pub row_4: u32,
    pub row_5: u32,
    pub samples: Seq<DFDSampleType>,
}

impl View for BasicDataFormatDescriptor {
    type V = DescriptorView;

    open spec fn view(&self) -> DescriptorView {
        DescriptorView {
            dfd_total_size: self.dfd_total_size,
            row_0: self.row_0,
            row_1: self.row_1,
            row_2: self.row_2,
            row_3: self.row_3,
            row_4: self.row_4,
            row_5: self.row_5,
            samples: self.samples@,
        }
    }
}

/// How one channel is laid out, before it is packed into rows.
pub struct SampleLayout {
    /// The first bit of the channel in the texel block.
    pub bit_offset: nat,
    /// The number of bits of the channel.
    pub bit_length: nat,
    /// The number that names the channel.
    pub channel: nat,
    /// The qualifier bits: 8 floating point, 4 signed, 2 exponent, 1 linear.
    pub qualifiers: nat,
    /// The smallest value, as the bits that are stored.
    pub lower: u32,
    /// The largest value, as the bits that are stored.
    pub upper: u32,
}

/// The bits of the single-precision number -1.
pub const MINUS_ONE_BITS: u32 = 0xBF80_0000;

/// The bits of the single-precision number 1.
pub const ONE_BITS: u32 = 0x3F80_0000;

/// A channel of `bit_length` bits at `bit_offset` of half-precision numbers
/// between -1 and 1.
pub open spec fn half_channel(bit_offset: nat, channel: nat, qualifiers: nat) -> SampleLayout {
    SampleLayout {
        bit_offset,
        bit_length: 16,
        channel,
        qualifiers,
        lower: MINUS_ONE_BITS,
        upper: ONE_BITS,
    }
}

/// A channel of eight bits at `bit_offset` of values between 0 and 255.
pub open spec fn byte_channel(bit_offset: nat, channel: nat) -> SampleLayout {
    SampleLayout { bit_offset, bit_length: 8, channel, qualifiers: 0, lower: 0, upper: 255 }
}

/// The channels of each format, in the order of their samples. The four
/// half-precision channels are numbered 0 to 3; of the four 8-bit channels
/// red, green and blue are 0, 1 and 2, and alpha is 15.
pub open spec fn sample_layouts(format: VkFormat) -> Seq<SampleLayout> {
    match format {
        VkFormat::R16_SFLOAT => seq![half_channel(0, 0, 12)],
        VkFormat::R16G16B16A16_SFLOAT => seq![
            half_channel(0, 0, 0),
            half_channel(16, 1, 0),
            half_channel(32, 2, 0),
            half_channel(48, 3, 0),
        ],
        VkFormat::R8G8B8A8_UNORM => seq![
            byte_channel(0, 0),
            byte_channel(8, 1),
            byte_channel(16, 2),
            byte_channel(24, 15),
        ],
        VkFormat::BC1_RGB_UNORM_BLOCK => seq![
            SampleLayout {
                bit_offset: 0,
                bit_length: 64,
                channel: 0,
                qualifiers: 0,
                lower: 0,
                upper: u32::MAX,
            },
        ],
    }
}

/// The first row of a sample: the bit offset in bits 0 to 15, the bit length
/// minus one in bits 16 to 23, the channel in bits 24 to 27 and the
/// qualifiers in bits 28 to 31.
pub open spec fn sample_word(layout: SampleLayout) -> int {
    layout.bit_offset + (layout.bit_length - 1) * 0x1_0000 + layout.channel * 0x100_0000
        + layout.qualifiers * 0x1000_0000
}

/// The four rows of a sample.
pub open spec fn sample_rows(layout: SampleLayout) -> DFDSampleType {
    DFDSampleType {
        row_0: sample_word(layout) as u32,
        row_1: 0,
        row_2: layout.lower,
        row_3: layout.upper,
    }
}

/// The size of a descriptor block with `samples` samples: 24 bytes of header
/// rows and 16 bytes for each sample.
pub open spec fn descriptor_block_size(samples: nat) -> nat {
    24 + 16 * samples
}

/// The colour model of a format: 1 for red, green, blue and alpha, 128 for
/// BC1 blocks.
pub open spec fn color_model(format: VkFormat) -> nat {
    match format {
        VkFormat::BC1_RGB_UNORM_BLOCK => 128,
        _ => 1,
    }
}

/// The flags of a format: 1 for BC1 blocks, whose alpha is not straight, 0
/// otherwise.
pub open spec fn descriptor_flags(format: VkFormat) -> nat {
    match format {
        VkFormat::BC1_RGB_UNORM_BLOCK => 1,
        _ => 0,
    }
}

/// The row of texel block dimensions, each stored minus one: a block of 4 by
/// 4 texels for BC1, a single texel otherwise.
pub open spec fn block_dimensions_word(format: VkFormat) -> nat {
    match format {
        VkFormat::BC1_RGB_UNORM_BLOCK => 3 + 3 * 0x100,
        _ => 0,
    }
}

/// The bytes of the first plane: eight for a BC1 block, else the size of
/// one pixel.
pub open spec fn plane_bytes(format: VkFormat) -> nat {
    match format {
        VkFormat::BC1_RGB_UNORM_BLOCK => 8,
        _ => format_pixel_size(format).bytes as nat,
    }
}

/// The descriptor of a format. The second row holds the version 2 and the
/// size of the block; the third the colour model, the primaries 1, the
/// transfer function 1 and the flags, a byte each.
pub open spec fn descriptor_of(format: VkFormat) -> DescriptorView {
    let layouts = sample_layouts(format);
    let block_size = descriptor_block_size(layouts.len());
    DescriptorView {
        dfd_total_size: (block_size + 4) as u32,
        row_0: 0,
        row_1: (2 + block_size * 0x1_0000) as u32,
        row_2: (color_model(format) + 1 * 0x100 + 1 * 0x1_0000 + descriptor_flags(format)
            * 0x100_0000) as u32,
        row_3: block_dimensions_word(format) as u32,
        row_4: plane_bytes(format) as u32,
        row_5: 0,
        samples: layouts.map_values(|layout: SampleLayout| sample_rows(layout)),
    }
}

/// The total size of a format's descriptor is 28 bytes and 16 more for
/// each sample, and every format has a sample.
pub proof fn lemma_descriptor_size(format: VkFormat)
    ensures
        descriptor_of(format).dfd_total_size == 28 + 16 * descriptor_of(format).samples.len(),
        descriptor_of(format).samples.len() == sample_layouts(format).len(),
        descriptor_of(format).samples.len() >= 1,
{
}

/// The third row of a compressed format holds the colour model 128 and a
/// flags byte that is not zero; that of every other format holds the colour
/// model 1 and no flag.
pub proof fn lemma_descriptor_flags(format: VkFormat)
    ensures
        format == VkFormat::BC1_RGB_UNORM_BLOCK ==> descriptor_of(format).row_2 == 0x0101_0180,
        format != VkFormat::BC1_RGB_UNORM_BLOCK ==> descriptor_of(format).row_2 == 0x0001_0101,
        descriptor_of(format).row_2 / 0x100_0000 == descriptor_flags(format),
        descriptor_of(format).row_2 % 0x100 == color_model(format),
        descriptor_flags(format) != 0 <==> format == VkFormat::BC1_RGB_UNORM_BLOCK,
{
}

/// The four samples of the four half-precision channels carry the channels
/// 0 to 3, 16 bits each, one after the other.
pub proof fn lemma_half_channels(i: int)
    requires
        0 <= i < 4,
    ensures
        sample_layouts(VkFormat::R16G16B16A16_SFLOAT).len() == 4,
        sample_layouts(VkFormat::R16G16B16A16_SFLOAT)[i] == half_channel((16 * i) as nat, i as nat, 0),
        descriptor_of(VkFormat::R16G16B16A16_SFLOAT).samples[i].row_0 == 16 * i + 15 * 0x1_0000 + i
            * 0x100_0000,
{
}

/// Packs one sample from the layout of its channel.
fn pack_sample(
    bit_offset: u32,
    bit_length: u32,
    channel: u32,
    qualifiers: u32,
    lower: u32,
    upper: u32,
) -> (sample: DFDSampleType)
    requires
        bit_offset < 0x1_0000,
        1 <= bit_length <= 256,
        channel < 16,
        qualifiers < 16,
    ensures
        sample == sample_rows(
            SampleLayout {
                bit_offset: bit_offset as nat,
                bit_length: bit_length as nat,
                channel: channel as nat,
                qualifiers: qualifiers as nat,
                lower,
                upper,
            },
        ),
{
    let length_bits: u32 = bit_length - 1;
    assert((bit_offset | length_bits << 16 | channel << 24 | qualifiers << 28) == bit_offset
        + length_bits * 0x1_0000 + channel * 0x100_0000 + qualifiers * 0x1000_0000)
        by (bit_vector)
        requires
            bit_offset < 0x1_0000,
            length_bits < 256,
            channel < 16,
            qualifiers < 16,
    ;
    DFDSampleType {
        row_0: bit_offset | length_bits << 16 | channel << 24 | qualifiers << 28,
        row_1: 0,
        row_2: lower,
        row_3: upper,
    }
}

/// Packs four bytes into a row, the first in the lowest bits.
fn pack_row(b0: u32, b1: u32, b2: u32, b3: u32) -> (word: u32)
    requires
        b0 < 256,
        b1 < 256,
        b2 < 256,
        b3 < 256,
    ensures
        word == b0 + b1 * 0x100 + b2 * 0x1_0000 + b3 * 0x100_0000,
{
    assert((b0 | b1 << 8 | b2 << 16 | b3 << 24) == b0 + b1 * 0x100 + b2 * 0x1_0000 + b3
        * 0x100_0000) by (bit_vector)
        requires
            b0 < 256,
            b1 < 256,
            b2 < 256,
            b3 < 256,
    ;
    b0 | b1 << 8 | b2 << 16 | b3 << 24
}

impl BasicDataFormatDescriptor {
    /// Builds the descriptor of a format. The total size is 28 bytes plus 16
    /// for each sample.
    pub fn new(vk_format: VkFormat) -> (descriptor: Self)
        ensures
            descriptor@ == descriptor_of(vk_format),
            descriptor.dfd_total_size == 28 + 16 * descriptor.samples@.len(),
            descriptor.samples@.len() == sample_layouts(vk_format).len(),
    {
        let mut samples: Vec<DFDSampleType> = Vec::new();
        match vk_format {
            VkFormat::R16_SFLOAT => {
                samples.push(pack_sample(0, 16, 0, 12, MINUS_ONE_BITS, ONE_BITS));
            },
            VkFormat::R16G16B16A16_SFLOAT => {
                samples.push(pack_sample(0, 16, 0, 0, MINUS_ONE_BITS, ONE_BITS));
                samples.push(pack_sample(16, 16, 1, 0, MINUS_ONE_BITS, ONE_BITS));
                samples.push(pack_sample(32, 16, 2, 0, MINUS_ONE_BITS, ONE_BITS));
                samples.push(pack_sample(48, 16, 3, 0, MINUS_ONE_BITS, ONE_BITS));
            },
            VkFormat::R8G8B8A8_UNORM => {
                samples.push(pack_sample(0, 8, 0, 0, 0, 255));
                samples.push(pack_sample(8, 8, 1, 0, 0, 255));
                samples.push(pack_sample(16, 8, 2, 0, 0, 255));
                samples.push(pack_sample(24, 8, 15, 0, 0, 255));
            },
            VkFormat::BC1_RGB_UNORM_BLOCK => {
                samples.push(pack_sample(0, 64, 0, 0, 0, u32::MAX));
            },
        }
        assert(samples@ =~= descriptor_of(vk_format).samples);
        let count: u32 = samples.len() as u32;
        let descriptor_block_size: u32 = 24 + 16 * count;
        assert((2u32 | descriptor_block_size << 16) == 2 + descriptor_block_size * 0x1_0000)
            by (bit_vector)
            requires
                descriptor_block_size < 0x1_0000,
        ;
        let (model, flags, dimensions, plane): (u32, u32, u32, u32) = match vk_format {
            VkFormat::BC1_RGB_UNORM_BLOCK => (128, 1, pack_row(3, 3, 0, 0), 8),
            _ => (1, 0, 0, get_format_pixel_size_bytes(vk_format).bytes),
        };
        BasicDataFormatDescriptor {
            dfd_total_size: descriptor_block_size + 4,
            row_0: 0,
            row_1: 2 | descriptor_block_size << 16,
            row_2: pack_row(model, 1, 1, flags),
            row_3: dimensions,
            row_4: plane,
            row_5: 0,
            samples,
        }
    }
}

impl Default for BasicDataFormatDescriptor {
    /// A descriptor without samples, all rows zero, whose size field holds
    /// the 24 bytes of the header rows.
    fn default() -> (descriptor: Self)
        ensures
            descriptor@ == (DescriptorView {
                dfd_total_size: 24,
                row_0: 0,
                row_1: 0,
                row_2: 0,
                row_3: 0,
                row_4: 0,
                row_5: 0,
                samples: Seq::empty(),
            }),
    {
        BasicDataFormatDescriptor {
            dfd_total_size: 24,
            row_0: 0,
            row_1: 0,
            row_2: 0,
            row_3: 0,
            row_4: 0,
            row_5: 0,
            samples: Vec::new(),
        }
    }
}

} // verus!
