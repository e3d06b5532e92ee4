use ktx2_texture::dfd::{BasicDataFormatDescriptor, DFDSampleType};
use ktx2_texture::endian::{read_u16_at, read_u32_at, read_u64_at};
use ktx2_texture::error::Ktx2Error;
use ktx2_texture::header::magic_identifier;
use ktx2_texture::level::Level;
use ktx2_texture::pixel::Pixel;
use ktx2_texture::reader::{read_descriptor, read_level, read_levels};
use ktx2_texture::texture::{key_value_data, TextureKtx2};
use ktx2_texture::vk_format::VkFormat;
use ktx2_texture::wire::{put_bytes, put_descriptor, put_header, put_index};

const FORMATS: [VkFormat; 4] = [
    VkFormat::R16_SFLOAT,
    VkFormat::R16G16B16A16_SFLOAT,
    VkFormat::R8G8B8A8_UNORM,
    VkFormat::BC1_RGB_UNORM_BLOCK,
];

fn fill(tex: &mut TextureKtx2) {
    for (i, byte) in tex.level_images.iter_mut().enumerate() {
        *byte = (i * 7 + 3) as u8;
    }
}

#[test]
fn file_of_small_half_image_byte_for_byte() {
    let mut tex = TextureKtx2::new(2, 1, VkFormat::R16_SFLOAT);
    tex.write_pixel(0, 0, Pixel::R16_SFLOAT(0x3C00)).unwrap();
    tex.write_pixel(1, 0, Pixel::R16_SFLOAT(0xC000)).unwrap();
    let bytes = tex.write_to_ktx2();
    let mut expected: Vec<u8> = Vec::new();
    expected.extend_from_slice(&[
        0xAB, 0x4B, 0x54, 0x58, 0x20, 0x32, 0x30, 0xBB, 0x0D, 0x0A, 0x1A, 0x0A,
    ]);
    for word in [76u32, 2, 2, 1, 0, 0, 1, 1, 0] {
        expected.extend_from_slice(&word.to_le_bytes());
    }
    for word in [104u32, 44, 148, 52] {
        expected.extend_from_slice(&word.to_le_bytes());
    }
    for word in [0u64, 0, 200, 4, 4] {
        expected.extend_from_slice(&word.to_le_bytes());
    }
    for word in [44u32, 0, 0x0028_0002, 0x0001_0101, 0, 2, 0, 0xC00F_0000, 0, 0xBF80_0000, 0x3F80_0000]
    {
        expected.extend_from_slice(&word.to_le_bytes());
    }
    expected.extend_from_slice(&key_value_data());
    expected.extend_from_slice(&[0x00, 0x3C, 0x00, 0xC0]);
    assert_eq!(expected.len(), 204);
    assert_eq!(bytes, expected);
}

#[test]
fn fields_lie_at_their_offsets() {
    let tex = TextureKtx2::new(5, 9, VkFormat::R8G8B8A8_UNORM);
    let bytes = tex.write_to_ktx2();
    assert_eq!(read_u32_at(&bytes, 12), 37);
    assert_eq!(read_u32_at(&bytes, 16), 1);
    assert_eq!(read_u32_at(&bytes, 20), 5);
    assert_eq!(read_u32_at(&bytes, 24), 9);
    assert_eq!(read_u32_at(&bytes, 28), 0);
    assert_eq!(read_u32_at(&bytes, 32), 0);
    assert_eq!(read_u32_at(&bytes, 36), 1);
    assert_eq!(read_u32_at(&bytes, 40), 1);
    assert_eq!(read_u32_at(&bytes, 44), 0);
    assert_eq!(read_u32_at(&bytes, 48), 104);
    assert_eq!(read_u32_at(&bytes, 52), 92);
    assert_eq!(read_u32_at(&bytes, 56), 196);
    assert_eq!(read_u32_at(&bytes, 60), 52);
    assert_eq!(read_u64_at(&bytes, 64), 0);
    assert_eq!(read_u64_at(&bytes, 72), 0);
    assert_eq!(read_u64_at(&bytes, 80), 248);
    assert_eq!(read_u64_at(&bytes, 88), 180);
    assert_eq!(read_u64_at(&bytes, 96), 180);
    assert_eq!(read_u32_at(&bytes, 104), 92);
    assert_eq!(&bytes[196..248], &key_value_data());
    assert_eq!(bytes.len(), 248 + 180);
}

#[test]
fn words_are_little_endian() {
    let bytes: [u8; 8] = [0x01, 0x02, 0x03, 0x04, 0x05, 0x06, 0x07, 0x08];
    assert_eq!(read_u16_at(&bytes, 0), 0x0201);
    assert_eq!(read_u16_at(&bytes, 3), 0x0504);
    assert_eq!(read_u32_at(&bytes, 0), 0x0403_0201);
    assert_eq!(read_u32_at(&bytes, 4), 0x0807_0605);
    assert_eq!(read_u64_at(&bytes, 0), 0x0807_0605_0403_0201);
}

#[test]
fn round_trip_of_every_format_and_size() {
    for format in FORMATS {
        for width in [1u32, 2, 4, 16] {
            for height in [1u32, 2, 4, 16] {
                let mut tex = TextureKtx2::new(width, height, format);
                fill(&mut tex);
                let bytes = tex.write_to_ktx2();
                let back = TextureKtx2::read_from_ktx2(&bytes).unwrap();
                assert_eq!(back.header, tex.header);
                assert_eq!(back.index, tex.index);
                assert_eq!(back.key_value_data, tex.key_value_data);
                assert_eq!(back.supercompression_global_data, tex.supercompression_global_data);
                assert_eq!(back.level_images, tex.level_images);
                assert_eq!(back.dfd_descriptor_block.len(), 1);
                let written = &tex.dfd_descriptor_block[0];
                let read = &back.dfd_descriptor_block[0];
                assert_eq!(read.dfd_total_size, written.dfd_total_size);
                assert_eq!(read.row_0, written.row_0);
                assert_eq!(read.row_1, written.row_1);
                assert_eq!(read.row_2, written.row_2);
                assert_eq!(read.row_3, written.row_3);
                assert_eq!(read.row_4, written.row_4);
                assert_eq!(read.row_5, written.row_5);
                assert_eq!(read.samples, written.samples[..1].to_vec());
            }
        }
    }
}

#[test]
fn round_trip_of_single_sample_formats_gives_the_container_back() {
    for format in [VkFormat::R16_SFLOAT, VkFormat::BC1_RGB_UNORM_BLOCK] {
        for width in [1u32, 2, 4, 16] {
            for height in [1u32, 2, 4, 16] {
                let mut tex = TextureKtx2::new(width, height, format);
                fill(&mut tex);
                let back = TextureKtx2::read_from_ktx2(&tex.write_to_ktx2()).unwrap();
                assert_eq!(back, tex);
            }
        }
    }
}

#[test]
fn reading_keeps_only_the_first_sample() {
    let tex = TextureKtx2::new(2, 2, VkFormat::R8G8B8A8_UNORM);
    let back = TextureKtx2::read_from_ktx2(&tex.write_to_ktx2()).unwrap();
    let full = BasicDataFormatDescriptor::new(VkFormat::R8G8B8A8_UNORM);
    assert_eq!(back.dfd_descriptor_block[0].samples, vec![full.samples[0]]);
    assert_eq!(back.dfd_descriptor_block[0].dfd_total_size, 92);
}

#[test]
fn four_colours_survive_the_file() {
    let mut tex = TextureKtx2::new(2, 2, VkFormat::R8G8B8A8_UNORM);
    tex.write_pixel(0, 0, Pixel::R8G8B8A8_UNORM([255, 0, 0, 255])).unwrap();
    tex.write_pixel(1, 0, Pixel::R8G8B8A8_UNORM([0, 255, 0, 255])).unwrap();
    tex.write_pixel(0, 1, Pixel::R8G8B8A8_UNORM([0, 0, 255, 255])).unwrap();
    tex.write_pixel(1, 1, Pixel::R8G8B8A8_UNORM([255, 255, 0, 255])).unwrap();
    let bytes = tex.write_to_ktx2();
    let back = TextureKtx2::read_from_ktx2(&bytes).unwrap();
    assert!(back.holds_all_pixels());
    assert_eq!(back.read_pixel(0, 0), Ok(Pixel::R8G8B8A8_UNORM([255, 0, 0, 255])));
    assert_eq!(back.read_pixel(1, 0), Ok(Pixel::R8G8B8A8_UNORM([0, 255, 0, 255])));
    assert_eq!(back.read_pixel(0, 1), Ok(Pixel::R8G8B8A8_UNORM([0, 0, 255, 255])));
    assert_eq!(back.read_pixel(1, 1), Ok(Pixel::R8G8B8A8_UNORM([255, 255, 0, 255])));
}

#[test]
fn short_input_is_truncated() {
    let bytes = TextureKtx2::new(2, 2, VkFormat::R16_SFLOAT).write_to_ktx2();
    for len in [0usize, 11, 12, 47, 79] {
        assert_eq!(
            TextureKtx2::read_from_ktx2(&bytes[..len]).err(),
            Some(Ktx2Error::TruncatedOrMalformed)
        );
    }
}

#[test]
fn input_without_its_level_record_is_truncated() {
    let bytes = TextureKtx2::new(2, 2, VkFormat::R16_SFLOAT).write_to_ktx2();
    for len in [80usize, 103] {
        assert_eq!(
            TextureKtx2::read_from_ktx2(&bytes[..len]).err(),
            Some(Ktx2Error::TruncatedOrMalformed)
        );
    }
}

#[test]
fn input_without_its_descriptor_is_truncated() {
    let bytes = TextureKtx2::new(2, 2, VkFormat::R16_SFLOAT).write_to_ktx2();
    for len in [104usize, 147] {
        assert_eq!(
            TextureKtx2::read_from_ktx2(&bytes[..len]).err(),
            Some(Ktx2Error::TruncatedOrMalformed)
        );
    }
}

#[test]
fn input_that_ends_before_its_payload_is_truncated() {
    let bytes = TextureKtx2::new(2, 2, VkFormat::R16_SFLOAT).write_to_ktx2();
    for len in [148usize, 199] {
        assert_eq!(
            TextureKtx2::read_from_ktx2(&bytes[..len]).err(),
            Some(Ktx2Error::TruncatedOrMalformed)
        );
    }
    let empty = TextureKtx2::read_from_ktx2(&bytes[..200]).unwrap();
    assert!(empty.level_images.is_empty());
    let partial = TextureKtx2::read_from_ktx2(&bytes[..203]).unwrap();
    assert_eq!(partial.level_images.len(), 3);
    assert!(!partial.holds_all_pixels());
}

#[test]
fn input_without_levels_is_malformed() {
    let mut bytes = TextureKtx2::new(2, 2, VkFormat::R16_SFLOAT).write_to_ktx2();
    bytes[40..44].copy_from_slice(&0u32.to_le_bytes());
    assert_eq!(
        TextureKtx2::read_from_ktx2(&bytes).err(),
        Some(Ktx2Error::TruncatedOrMalformed)
    );
}

#[test]
fn input_with_more_levels_than_bytes_is_truncated() {
    let mut bytes = TextureKtx2::new(2, 2, VkFormat::R16_SFLOAT).write_to_ktx2();
    bytes[40..44].copy_from_slice(&u32::MAX.to_le_bytes());
    assert_eq!(
        TextureKtx2::read_from_ktx2(&bytes).err(),
        Some(Ktx2Error::TruncatedOrMalformed)
    );
}

#[test]
fn input_of_unknown_format_is_unsupported() {
    let mut bytes = TextureKtx2::new(2, 2, VkFormat::R16_SFLOAT).write_to_ktx2();
    bytes[12..16].copy_from_slice(&109u32.to_le_bytes());
    assert_eq!(
        TextureKtx2::read_from_ktx2(&bytes).err(),
        Some(Ktx2Error::UnsupportedFormat)
    );
}

#[test]
fn identifier_is_not_compared() {
    let tex = TextureKtx2::new(2, 2, VkFormat::R16_SFLOAT);
    let mut bytes = tex.write_to_ktx2();
    for byte in bytes[..12].iter_mut() {
        *byte = 0;
    }
    let back = TextureKtx2::read_from_ktx2(&bytes).unwrap();
    assert_eq!(back, tex);
}

#[test]
fn levels_are_read_24_bytes_apart() {
    let mut tex = TextureKtx2::new(1, 1, VkFormat::R16_SFLOAT);
    let first = tex.index.levels[0];
    let mut second = first;
    second.byte_offset = 7;
    second.byte_length = 8;
    second.uncompressed_byte_length = 9;
    tex.index.levels.push(second);
    tex.header.level_count = 2;
    tex.index.dfd_byte_offset = 128;
    let bytes = tex.write_to_ktx2();
    let back = TextureKtx2::read_from_ktx2(&bytes).unwrap();
    assert_eq!(back.index.levels, vec![first, second]);
    assert_eq!(back.dfd_descriptor_block, tex.dfd_descriptor_block);
    assert_eq!(back.level_images, bytes[200..].to_vec());
}

#[test]
fn sections_are_appended_to_what_is_there() {
    let tex = TextureKtx2::new(2, 2, VkFormat::R16G16B16A16_SFLOAT);
    let whole = tex.write_to_ktx2();
    let mut out: Vec<u8> = vec![9, 9];
    put_header(&mut out, &tex.header);
    assert_eq!(out.len(), 2 + 48);
    assert_eq!(&out[..2], &[9, 9]);
    assert_eq!(&out[2..14], &magic_identifier());
    assert_eq!(&out[2..], &whole[..48]);
    put_index(&mut out, &tex.index);
    assert_eq!(out.len(), 2 + 104);
    assert_eq!(&out[2..], &whole[..104]);
    put_descriptor(&mut out, &tex.dfd_descriptor_block[0]);
    assert_eq!(out.len(), 2 + 196);
    assert_eq!(&out[2..], &whole[..196]);
    put_bytes(&mut out, &[1, 2, 3]);
    assert_eq!(&out[198..], &[1, 2, 3]);
    put_bytes(&mut out, &[]);
    assert_eq!(out.len(), 201);
}

#[test]
fn an_index_without_levels_is_its_fixed_part() {
    let mut tex = TextureKtx2::new(2, 2, VkFormat::R16_SFLOAT);
    tex.index.levels.clear();
    let mut out: Vec<u8> = Vec::new();
    put_index(&mut out, &tex.index);
    assert_eq!(out.len(), 32);
}

#[test]
fn a_descriptor_without_samples_is_its_seven_words() {
    let mut out: Vec<u8> = Vec::new();
    put_descriptor(&mut out, &BasicDataFormatDescriptor::default());
    let mut expected: Vec<u8> = 24u32.to_le_bytes().to_vec();
    expected.extend_from_slice(&[0u8; 24]);
    assert_eq!(out, expected);
}

#[test]
fn level_records_are_three_words_each() {
    let mut bytes: Vec<u8> = vec![0xEE; 80];
    for word in [1u64, 2, 3, 0x0102_0304_0506_0708, 5, u64::MAX] {
        bytes.extend_from_slice(&word.to_le_bytes());
    }
    assert_eq!(
        read_level(&bytes, 80),
        Level { byte_offset: 1, byte_length: 2, uncompressed_byte_length: 3 }
    );
    assert_eq!(
        read_levels(&bytes, 2),
        vec![
            Level { byte_offset: 1, byte_length: 2, uncompressed_byte_length: 3 },
            Level {
                byte_offset: 0x0102_0304_0506_0708,
                byte_length: 5,
                uncompressed_byte_length: u64::MAX
            }
        ]
    );
    assert_eq!(read_levels(&bytes, 0), vec![]);
}

#[test]
fn a_descriptor_is_read_with_one_sample() {
    let mut bytes: Vec<u8> = vec![0xEE; 3];
    for word in 1u32..=15 {
        bytes.extend_from_slice(&word.to_le_bytes());
    }
    assert_eq!(
        read_descriptor(&bytes, 3),
        BasicDataFormatDescriptor {
            dfd_total_size: 1,
            row_0: 2,
            row_1: 3,
            row_2: 4,
            row_3: 5,
            row_4: 6,
            row_5: 7,
            samples: vec![DFDSampleType { row_0: 8, row_1: 9, row_2: 10, row_3: 11 }],
        }
    );
}
