//! The container: construction, pixel access, writing and reading.

use crate::dfd::{descriptor_of, BasicDataFormatDescriptor, DescriptorView};
use crate::endian::{put_u16, read_u16_at, read_u32_at, read_u64_at};
use crate::error::Ktx2Error;
use crate::header::{magic, magic_identifier, Header, HeaderView};
use crate::index::{Index, IndexView};
use crate::level::Level;
use crate::pixel::{offset, pixel_at, pixel_bytes, pixel_offset, splice, store, Pixel};
use crate::reader::{read_container, read_descriptor, read_levels, read_result};
use crate::vk_format::{
    bytes_of_pixels, format_pixel_size, format_type_size, get_format_pixel_size_bytes,
    get_format_type_size_bytes, VkFormat,
};
use crate::wire::{
    descriptors_bytes, file_bytes, prefix_bytes, put_bytes, put_descriptor, put_header, put_index,
};
use vstd::prelude::*;
use vstd::slice::{slice_subrange, slice_to_vec};

verus! {

/// A texture container in memory: the header, the index of the sections,
/// the descriptor block, the key/value block, the global data of a
/// supercompression scheme (always empty) and the pixels of the one level,
/// row by row without padding.
#[derive(Clone, Debug, PartialEq, Eq)]
pub struct TextureKtx2 {
    pub header: Header,
    pub index: Index,
    pub dfd_descriptor_block: Vec<BasicDataFormatDescriptor>,
    pub key_value_data: [u8; 52],
    pub supercompression_global_data: Vec<u8>,
    pub level_images: Vec<u8>,
}

/// What a container holds, with every collection as a sequence.
pub struct TextureView {
    pub header: HeaderView,
    pub index: IndexView,
    pub descriptors: Seq<DescriptorView>,
    pub key_value_data: Seq<u8>,
    pub supercompression_global_data: Seq<u8>,
    pub level_images: Seq<u8>,
}

impl View for TextureKtx2 {
    type V = TextureView;

    open spec fn view(&self) -> TextureView {
        TextureView {
            header: self.header@,
            index: self.index@,
            descriptors: self.dfd_descriptor_block@.map_values(
                |descriptor: BasicDataFormatDescriptor| descriptor@,
            ),
            key_value_data: self.key_value_data@,
            supercompression_global_data: self.supercompression_global_data@,
            level_images: self.level_images@,
        }
    }
}

/// The bytes of the header in a file.
pub const HEADER_BYTES: u32 = 48;

/// The bytes of the index in a file, without its levels.
pub const INDEX_BYTES: u32 = 32;

/// The bytes of one level record in a file.
pub const LEVEL_BYTES: u32 = 24;

/// The bytes of the key/value block.
pub const KEY_VALUE_BYTES: u32 = 52;

/// The key/value block that every container carries: the entries
/// `KTXorientation` = `rd` and `KTXwriter` = `SeniorSKY_dt2`, each with its
/// length in front and padded to four bytes.
pub open spec fn key_value_block() -> Seq<u8> {
    seq![
        0x12, 0x00, 0x00, 0x00,
        0x4B, 0x54, 0x58, 0x6F,
        0x72, 0x69, 0x65, 0x6E,
        0x74, 0x61, 0x74, 0x69,
        0x6F, 0x6E, 0x00, 0x72,
        0x64, 0x00, 0x00, 0x00,
        0x18, 0x00, 0x00, 0x00,
        0x4B, 0x54, 0x58, 0x77,
        0x72, 0x69, 0x74, 0x65,
        0x72, 0x00, 0x53, 0x65,
        0x6e, 0x69, 0x6f, 0x72,
        0x53, 0x4b, 0x59, 0x5f,
        0x64, 0x74, 0x32, 0x00,
    ]
}

/// The key/value block that every container carries.
pub fn key_value_data() -> (block: [u8; 52])
    ensures
        block@ == key_value_block(),
{
    let block: [u8; 52] = [
        0x12, 0x00, 0x00, 0x00,
        0x4B, 0x54, 0x58, 0x6F,
        0x72, 0x69, 0x65, 0x6E,
        0x74, 0x61, 0x74, 0x69,
        0x6F, 0x6E, 0x00, 0x72,
        0x64, 0x00, 0x00, 0x00,
        0x18, 0x00, 0x00, 0x00,
        0x4B, 0x54, 0x58, 0x77,
        0x72, 0x69, 0x74, 0x65,
        0x72, 0x00, 0x53, 0x65,
        0x6e, 0x69, 0x6f, 0x72,
        0x53, 0x4b, 0x59, 0x5f,
        0x64, 0x74, 0x32, 0x00,
    ];
    assert(block@ =~= key_value_block());
    block
}

/// The number of payload bytes of an image of `width` by `height` pixels.
pub open spec fn payload_len(width: u32, height: u32, format: VkFormat) -> nat {
    bytes_of_pixels(width as nat * height as nat, format)
}

/// The header of a container with one level, one face, no layers and no
/// supercompression.
pub open spec fn plain_header(width: u32, height: u32, format: VkFormat) -> HeaderView {
    HeaderView {
        identifier: magic(),
        vk_format: format,
        type_size: format_type_size(format),
        pixel_width: width,
        pixel_height: height,
        pixel_depth: 0,
        layer_count: 0,
        face_count: 1,
        level_count: 1,
        supercompression_scheme: 0,
    }
}

/// The index of a container with one level of `payload` bytes: the
/// descriptor block follows the header, the index and the level record; the
/// key/value block follows the descriptor block; the payload follows the
/// key/value block.
pub open spec fn plain_index(format: VkFormat, payload: nat) -> IndexView {
    let dfd_offset = HEADER_BYTES + INDEX_BYTES + LEVEL_BYTES;
    let dfd_length = descriptor_of(format).dfd_total_size;
    IndexView {
        dfd_byte_offset: dfd_offset as u32,
        dfd_byte_length: dfd_length,
        kvd_byte_offset: (dfd_offset + dfd_length) as u32,
        kvd_byte_length: KEY_VALUE_BYTES,
        sgd_byte_offset: 0,
        sgd_byte_length: 0,
        levels: seq![
            Level {
                byte_offset: (dfd_offset + dfd_length + KEY_VALUE_BYTES) as u64,
                byte_length: payload as u64,
                uncompressed_byte_length: payload as u64,
            },
        ],
    }
}

/// The container of an image with the given payload.
pub open spec fn container_of(
    width: u32,
    height: u32,
    format: VkFormat,
    payload: Seq<u8>,
) -> TextureView {
    TextureView {
        header: plain_header(width, height, format),
        index: plain_index(format, payload.len()),
        descriptors: seq![descriptor_of(format)],
        key_value_data: key_value_block(),
        supercompression_global_data: Seq::empty(),
        level_images: payload,
    }
}

/// The number of payload bytes of an image of `width` by `height` pixels.
pub fn payload_size(width: u32, height: u32, format: VkFormat) -> (size: u128)
    ensures
        size == payload_len(width, height, format),
{
    let pixel_size = get_format_pixel_size_bytes(format);
    assert(width as nat * height as nat <= 0xFFFF_FFFF * 0xFFFF_FFFF) by (nonlinear_arith)
        requires
            width <= 0xFFFF_FFFF,
            height <= 0xFFFF_FFFF,
    ;
    let pixels: u128 = width as u128 * height as u128;
    assert(pixels * pixel_size.bytes <= 0xFFFF_FFFF * 0xFFFF_FFFF * 8) by (nonlinear_arith)
        requires
            pixels <= 0xFFFF_FFFF * 0xFFFF_FFFF,
            pixel_size.bytes <= 8,
    ;
    pixels * pixel_size.bytes as u128 / pixel_size.texels as u128
}

impl TextureView {
    /// The layout rules of a container: everything but the pixels follows
    /// from the width, the height and the format, and the payload holds
    /// every pixel and nothing else.
    pub open spec fn well_formed(self) -> bool {
        let header = self.header;
        &&& self == container_of(
            header.pixel_width,
            header.pixel_height,
            header.vk_format,
            self.level_images,
        )
        &&& self.level_images.len() == payload_len(
            header.pixel_width,
            header.pixel_height,
            header.vk_format,
        )
        &&& self.level_images.len() <= isize::MAX
    }

    /// The payload reaches to the end of the pixel at column `x` of row `y`.
    pub open spec fn holds_pixel(self, x: u32, y: u32) -> bool {
        let format = self.header.vk_format;
        pixel_offset(x, y, self.header.pixel_width, format) + pixel_bytes(format)
            <= self.level_images.len()
    }

    /// The payload is long enough for every pixel of the image.
    pub open spec fn holds_all_pixels(self) -> bool {
        self.level_images.len() >= payload_len(
            self.header.pixel_width,
            self.header.pixel_height,
            self.header.vk_format,
        )
    }

    /// Why the pixel at column `x` of row `y` cannot be read, if it cannot:
    /// the texels of a compressed block have no values of their own, and
    /// the coordinates have to lie inside the image.
    pub open spec fn read_pixel_failure(self, x: u32, y: u32) -> Option<Ktx2Error> {
        if self.header.vk_format == VkFormat::BC1_RGB_UNORM_BLOCK {
            Some(Ktx2Error::UnsupportedFormat)
        } else if x >= self.header.pixel_width || y >= self.header.pixel_height {
            Some(Ktx2Error::InvalidPixelAccess)
        } else {
            None
        }
    }

    /// The pixel at column `x` of row `y`.
    pub open spec fn pixel(self, x: u32, y: u32) -> Pixel {
        let format = self.header.vk_format;
        pixel_at(
            self.level_images,
            pixel_offset(x, y, self.header.pixel_width, format) as int,
            format,
        )
    }

    /// The bits of the half-precision number at column `x` of row `y` of
    /// an image of one channel of such numbers.
    pub open spec fn sample(self, x: u32, y: u32) -> u16 {
        match self.pixel(x, y) {
            Pixel::R16_SFLOAT(bits) => bits,
            _ => 0,
        }
    }

    /// Why `pixel` cannot be written at column `x` of row `y`, if it cannot:
    /// the value has to be of the container's format, the texels of a
    /// compressed block have no values of their own, and the coordinates
    /// have to lie inside the image.
    pub open spec fn write_pixel_failure(self, x: u32, y: u32, pixel: Pixel) -> Option<Ktx2Error> {
        if pixel.format() != self.header.vk_format {
            Some(Ktx2Error::InvalidPixelAccess)
        } else {
            self.read_pixel_failure(x, y)
        }
    }

    /// The container with `pixel` at column `x` of row `y`: the bytes of
    /// that pixel are those of the value, and nothing else differs.
    pub open spec fn with_pixel(self, x: u32, y: u32, pixel: Pixel) -> TextureView {
        let at = pixel_offset(x, y, self.header.pixel_width, self.header.vk_format) as int;
        TextureView { level_images: splice(self.level_images, at, pixel.bytes()), ..self }
    }
}

impl TextureKtx2 {
    /// The layout rules of a container hold of it.
    pub open spec fn well_formed(&self) -> bool {
        self@.well_formed()
    }

    /// A container of `width` by `height` pixels, all bytes of its payload
    /// zero.
    pub fn new(width: u32, height: u32, format: VkFormat) -> (texture: Self)
        requires
            payload_len(width, height, format) <= isize::MAX,
        ensures
            texture@ == container_of(
                width,
                height,
                format,
                Seq::new(payload_len(width, height, format), |i: int| 0u8),
            ),
            texture.well_formed(),
    {
        let type_size: u32 = get_format_type_size_bytes(format);
        let header = Header {
            identifier: magic_identifier(),
            vk_format: format,
            type_size,
            pixel_width: width,
            pixel_height: height,
            pixel_depth: 0,
            layer_count: 0,
            face_count: 1,
            level_count: 1,
            supercompression_scheme: 0,
        };
        let dfd = BasicDataFormatDescriptor::new(format);
        let byte_length: u64 = payload_size(width, height, format) as u64;
        let mut levels: Vec<Level> = Vec::new();
        let dfd_byte_offset: u32 = HEADER_BYTES + INDEX_BYTES + LEVEL_BYTES;
        let kvd_byte_offset: u32 = dfd_byte_offset + dfd.dfd_total_size;
        levels.push(
            Level {
                byte_offset: kvd_byte_offset as u64 + KEY_VALUE_BYTES as u64,
                byte_length,
                uncompressed_byte_length: byte_length,
            },
        );
        let index = Index {
            dfd_byte_offset,
            dfd_byte_length: dfd.dfd_total_size,
            kvd_byte_offset,
            kvd_byte_length: KEY_VALUE_BYTES,
            sgd_byte_offset: 0,
            sgd_byte_length: 0,
            levels,
        };
        let mut dfd_descriptor_block: Vec<BasicDataFormatDescriptor> = Vec::new();
        dfd_descriptor_block.push(dfd);
        let level_images: Vec<u8> = vec![0x00u8; byte_length as usize];
        let texture = TextureKtx2 {
            header,
            index,
            dfd_descriptor_block,
            key_value_data: key_value_data(),
            supercompression_global_data: Vec::new(),
            level_images,
        };
        proof {
            let zeros = Seq::new(payload_len(width, height, format), |i: int| 0u8);
            assert(texture@.level_images =~= zeros);
            assert(texture@.index.levels =~= plain_index(format, zeros.len()).levels);
            assert(texture@.descriptors =~= seq![descriptor_of(format)]);
        }
        texture
    }

    /// The bytes of the container's file: the header, the index with its
    /// level records, the descriptors, the key/value block, the global data
    /// and the payload, in this order and with nothing between them.
    pub fn write_to_ktx2(&self) -> (bytes: Vec<u8>)
        ensures
            bytes@ == file_bytes(self@),
    {
        let mut out: Vec<u8> = Vec::new();
        put_header(&mut out, &self.header);
        put_index(&mut out, &self.index);
        let ghost front = out@;
        let mut i: usize = 0;
        while i < self.dfd_descriptor_block.len()
            invariant
                i <= self.dfd_descriptor_block.len(),
                out@ == front + descriptors_bytes(self@.descriptors.take(i as int)),
            decreases self.dfd_descriptor_block.len() - i,
        {
            put_descriptor(&mut out, &self.dfd_descriptor_block[i]);
            proof {
                let next = self@.descriptors.take(i + 1);
                assert(next.drop_last() =~= self@.descriptors.take(i as int));
                assert(next.last() == self.dfd_descriptor_block[i as int]@);
            }
            i += 1;
        }
        assert(self@.descriptors.take(i as int) =~= self@.descriptors);
        assert(out@ =~= prefix_bytes(self@));
        put_bytes(&mut out, self.key_value_data.as_slice());
        put_bytes(&mut out, self.supercompression_global_data.as_slice());
        put_bytes(&mut out, self.level_images.as_slice());
        out
    }

    /// Reads a container from the bytes of a file. Only what is needed to
    /// find each section is checked: the identifier is not compared, nor
    /// are the offsets held against each other.
    pub fn read_from_ktx2(bytes: &[u8]) -> (result: Result<TextureKtx2, Ktx2Error>)
        ensures
            match result {
                Ok(texture) => read_result(bytes@) == Ok::<TextureView, Ktx2Error>(texture@),
                Err(error) => read_result(bytes@) == Err::<TextureView, Ktx2Error>(error),
            },
    {
        let len: usize = bytes.len();
        if len < 80 {
            return Err(Ktx2Error::TruncatedOrMalformed);
        }
        let format: VkFormat = match VkFormat::from_u32(read_u32_at(bytes, 12)) {
            Ok(format) => format,
            Err(error) => {
                return Err(error);
            },
        };
        let level_count: u32 = read_u32_at(bytes, 40);
        if level_count == 0 || 80 + 24 * (level_count as u64) > len as u64 {
            return Err(Ktx2Error::TruncatedOrMalformed);
        }
        let dfd_byte_offset: u32 = read_u32_at(bytes, 48);
        if dfd_byte_offset as u64 + 44 > len as u64 {
            return Err(Ktx2Error::TruncatedOrMalformed);
        }
        let levels: Vec<Level> = read_levels(bytes, level_count);
        let payload_offset: u64 = levels[0].byte_offset;
        if payload_offset > len as u64 {
            return Err(Ktx2Error::TruncatedOrMalformed);
        }
        let header = Header {
            identifier: magic_identifier(),
            vk_format: format,
            type_size: read_u32_at(bytes, 16),
            pixel_width: read_u32_at(bytes, 20),
            pixel_height: read_u32_at(bytes, 24),
            pixel_depth: read_u32_at(bytes, 28),
            layer_count: read_u32_at(bytes, 32),
            face_count: read_u32_at(bytes, 36),
            level_count,
            supercompression_scheme: read_u32_at(bytes, 44),
        };
        let index = Index {
            dfd_byte_offset,
            dfd_byte_length: read_u32_at(bytes, 52),
            kvd_byte_offset: read_u32_at(bytes, 56),
            kvd_byte_length: read_u32_at(bytes, 60),
            sgd_byte_offset: read_u64_at(bytes, 64),
            sgd_byte_length: read_u64_at(bytes, 72),
            levels,
        };
        let mut dfd_descriptor_block: Vec<BasicDataFormatDescriptor> = Vec::new();
        dfd_descriptor_block.push(read_descriptor(bytes, dfd_byte_offset as usize));
        let texture = TextureKtx2 {
            header,
            index,
            dfd_descriptor_block,
            key_value_data: key_value_data(),
            supercompression_global_data: Vec::new(),
            level_images: slice_to_vec(slice_subrange(bytes, payload_offset as usize, len)),
        };
        proof {
            assert(texture@.descriptors =~= read_container(bytes@).descriptors);
            assert(texture@.supercompression_global_data =~= Seq::<u8>::empty());
        }
        Ok(texture)
    }

    /// Whether the payload reaches to the end of the pixel at column `x` of
    /// row `y`.
    pub fn holds_pixel(&self, x: u32, y: u32) -> (held: bool)
        ensures
            held == self@.holds_pixel(x, y),
    {
        let format: VkFormat = self.header.vk_format;
        let unit: u128 = match format {
            VkFormat::R16_SFLOAT => 2,
            VkFormat::R16G16B16A16_SFLOAT => 8,
            VkFormat::R8G8B8A8_UNORM => 4,
            VkFormat::BC1_RGB_UNORM_BLOCK => 0,
        };
        let at: u128 = offset(x, y, self.header.pixel_width, format);
        assert(at <= (0xFFFF_FFFF + 0xFFFF_FFFF * 0xFFFF_FFFF) * 8) by (nonlinear_arith)
            requires
                at == pixel_offset(x, y, self.header.pixel_width, format),
                x <= 0xFFFF_FFFF,
                y <= 0xFFFF_FFFF,
                self.header.pixel_width <= 0xFFFF_FFFF,
                format_pixel_size(format).bytes <= 8,
                format_pixel_size(format).texels >= 1,
        ;
        at + unit <= self.level_images.len() as u128
    }

    /// Whether the payload is long enough for every pixel of the image.
    pub fn holds_all_pixels(&self) -> (held: bool)
        ensures
            held == self@.holds_all_pixels(),
    {
        let size: u128 = payload_size(
            self.header.pixel_width,
            self.header.pixel_height,
            self.header.vk_format,
        );
        self.level_images.len() as u128 >= size
    }

    /// The pixel at column `x` of row `y`. The payload has to reach to the
    /// end of that pixel, as it does in every well-formed container.
    pub fn read_pixel(&self, x: u32, y: u32) -> (result: Result<Pixel, Ktx2Error>)
        requires
            self@.read_pixel_failure(x, y) is None ==> self@.holds_pixel(x, y),
        ensures
            match self@.read_pixel_failure(x, y) {
                Some(error) => result == Err::<Pixel, Ktx2Error>(error),
                None => result == Ok::<Pixel, Ktx2Error>(self@.pixel(x, y)),
            },
    {
        let format: VkFormat = self.header.vk_format;
        match format {
            VkFormat::BC1_RGB_UNORM_BLOCK => {
                return Err(Ktx2Error::UnsupportedFormat);
            },
            _ => {},
        }
        if x >= self.header.pixel_width || y >= self.header.pixel_height {
            return Err(Ktx2Error::InvalidPixelAccess);
        }
        let at: usize = offset(x, y, self.header.pixel_width, format) as usize;
        let payload: &[u8] = self.level_images.as_slice();
        let pixel = match format {
            VkFormat::R16_SFLOAT => Pixel::R16_SFLOAT(read_u16_at(payload, at)),
            VkFormat::R16G16B16A16_SFLOAT => Pixel::R16G16B16A16_SFLOAT(
                [
                    read_u16_at(payload, at),
                    read_u16_at(payload, at + 2),
                    read_u16_at(payload, at + 4),
                    read_u16_at(payload, at + 6),
                ],
            ),
            VkFormat::R8G8B8A8_UNORM => Pixel::R8G8B8A8_UNORM(
                [payload[at], payload[at + 1], payload[at + 2], payload[at + 3]],
            ),
            VkFormat::BC1_RGB_UNORM_BLOCK => Pixel::BC1_RGB_UNORM_BLOCK,
        };
        proof {
            match pixel {
                Pixel::R16G16B16A16_SFLOAT(bits) => {
                    assert(self@.pixel(x, y) matches Pixel::R16G16B16A16_SFLOAT(other) && bits
                        =~= other);
                },
                Pixel::R8G8B8A8_UNORM(channels) => {
                    assert(self@.pixel(x, y) matches Pixel::R8G8B8A8_UNORM(other) && channels
                        =~= other);
                },
                _ => {},
            }
        }
        Ok(pixel)
    }

    /// Writes `pixel` at column `x` of row `y`. The payload has to reach to
    /// the end of that pixel, as it does in every well-formed container.
    /// Where the value is refused the container stays as it was.
    pub fn write_pixel(&mut self, x: u32, y: u32, pixel: Pixel) -> (result: Result<(), Ktx2Error>)
        requires
            old(self)@.write_pixel_failure(x, y, pixel) is None ==> old(self)@.holds_pixel(x, y),
        ensures
            match old(self)@.write_pixel_failure(x, y, pixel) {
                Some(error) => result == Err::<(), Ktx2Error>(error) && *final(self) == *old(self),
                None => result == Ok::<(), Ktx2Error>(()) && final(self)@ == old(self)@.with_pixel(
                    x,
                    y,
                    pixel,
                ),
            },
            old(self).well_formed() ==> final(self).well_formed(),
    {
        let format: VkFormat = self.header.vk_format;
        let mut data: Vec<u8> = Vec::new();
        match pixel {
            Pixel::R16_SFLOAT(bits) => {
                match format {
                    VkFormat::R16_SFLOAT => {},
                    _ => {
                        return Err(Ktx2Error::InvalidPixelAccess);
                    },
                }
                put_u16(&mut data, bits);
            },
            Pixel::R16G16B16A16_SFLOAT(bits) => {
                match format {
                    VkFormat::R16G16B16A16_SFLOAT => {},
                    _ => {
                        return Err(Ktx2Error::InvalidPixelAccess);
                    },
                }
                put_u16(&mut data, bits[0]);
                put_u16(&mut data, bits[1]);
                put_u16(&mut data, bits[2]);
                put_u16(&mut data, bits[3]);
            },
            Pixel::R8G8B8A8_UNORM(channels) => {
                match format {
                    VkFormat::R8G8B8A8_UNORM => {},
                    _ => {
                        return Err(Ktx2Error::InvalidPixelAccess);
                    },
                }
                put_bytes(&mut data, channels.as_slice());
            },
            Pixel::BC1_RGB_UNORM_BLOCK => {
                match format {
                    VkFormat::BC1_RGB_UNORM_BLOCK => {
                        return Err(Ktx2Error::UnsupportedFormat);
                    },
                    _ => {
                        return Err(Ktx2Error::InvalidPixelAccess);
                    },
                }
            },
        }
        if x >= self.header.pixel_width || y >= self.header.pixel_height {
            return Err(Ktx2Error::InvalidPixelAccess);
        }
        proof {
            broadcast use crate::endian::lemma_le_bytes_len;

            assert(data@ =~= pixel.bytes());
            assert(self@.holds_pixel(x, y));
        }
        let at: usize = offset(x, y, self.header.pixel_width, format) as usize;
        store(&mut self.level_images, at, &data);
        Ok(())
    }
}

} // verus!
