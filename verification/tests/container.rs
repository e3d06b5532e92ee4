use half::f16;
use ktx2_texture::dfd::{BasicDataFormatDescriptor, DFDSampleType};
use ktx2_texture::error::Ktx2Error;
use ktx2_texture::level::Level;
use ktx2_texture::pixel::Pixel;
use ktx2_texture::texture::{key_value_data, TextureKtx2};
use ktx2_texture::vk_format::{
    get_format_pixel_size_bytes, get_format_type_size_bytes, PixelSize, VkFormat,
};

const FORMATS: [VkFormat; 4] = [
    VkFormat::R16_SFLOAT,
    VkFormat::R16G16B16A16_SFLOAT,
    VkFormat::R8G8B8A8_UNORM,
    VkFormat::BC1_RGB_UNORM_BLOCK,
];

#[test]
fn test_r16_sfloat() {
    let size = 2u32;

    let mut tex: TextureKtx2 = TextureKtx2::new(size, size, VkFormat::R16_SFLOAT);
    for i in 0..size {
        for j in 0..size {
            tex.write_pixel(j, i, Pixel::R16_SFLOAT(f16::from_f32(1500f32).to_bits()))
                .unwrap();
        }
    }
    let bytes = tex.write_to_ktx2();

    assert_eq!(2 + 2, 4);
    assert_eq!(bytes.len(), 208);
    assert_eq!(&bytes[200..], &[0xDC, 0x65, 0xDC, 0x65, 0xDC, 0x65, 0xDC, 0x65]);
}

#[test]
fn test_rgba8_uint() {
    let size = 2u32;

    let mut tex: TextureKtx2 = TextureKtx2::new(size, size, VkFormat::R8G8B8A8_UNORM);
    tex.write_pixel(0, 0, Pixel::R8G8B8A8_UNORM([255, 0, 0, 255])).unwrap();
    tex.write_pixel(1, 0, Pixel::R8G8B8A8_UNORM([0, 255, 0, 255])).unwrap();
    tex.write_pixel(0, 1, Pixel::R8G8B8A8_UNORM([0, 0, 255, 255])).unwrap();
    tex.write_pixel(1, 1, Pixel::R8G8B8A8_UNORM([255, 255, 0, 255])).unwrap();

    let bytes = tex.write_to_ktx2();

    assert_eq!(2 + 2, 4);
    assert_eq!(bytes.len(), 248 + 16);
    assert_eq!(
        &bytes[248..],
        &[255, 0, 0, 255, 0, 255, 0, 255, 0, 0, 255, 255, 255, 255, 0, 255]
    );
}

#[test]
fn test_bc1_new() {
    let size = 4u32;

    let tex: TextureKtx2 = TextureKtx2::new(size, size, VkFormat::BC1_RGB_UNORM_BLOCK);

    let bytes = tex.write_to_ktx2();

    assert_eq!(2 + 2, 4);
    assert_eq!(bytes.len(), 208);
    assert_eq!(&bytes[200..], &[0u8; 8]);
}

#[test]
fn test_bc1_load() {
    let first = TextureKtx2::new(4, 4, VkFormat::BC1_RGB_UNORM_BLOCK).write_to_ktx2();
    let tex: TextureKtx2 = TextureKtx2::read_from_ktx2(&first).unwrap();

    let second = tex.write_to_ktx2();

    assert_eq!(2 + 2, 4);
    assert_eq!(first, second);
}

#[test]
fn format_ids_are_those_of_vulkan() {
    assert_eq!(VkFormat::R8G8B8A8_UNORM.to_u32(), 37);
    assert_eq!(VkFormat::R16_SFLOAT.to_u32(), 76);
    assert_eq!(VkFormat::R16G16B16A16_SFLOAT.to_u32(), 97);
    assert_eq!(VkFormat::BC1_RGB_UNORM_BLOCK.to_u32(), 131);
    for format in FORMATS {
        assert_eq!(VkFormat::from_u32(format.to_u32()), Ok(format));
    }
}

#[test]
fn unknown_format_id_is_unsupported() {
    assert_eq!(VkFormat::from_u32(0), Err(Ktx2Error::UnsupportedFormat));
    assert_eq!(VkFormat::from_u32(38), Err(Ktx2Error::UnsupportedFormat));
    assert_eq!(VkFormat::from_u32(u32::MAX), Err(Ktx2Error::UnsupportedFormat));
}

#[test]
fn registry_sizes() {
    assert_eq!(get_format_type_size_bytes(VkFormat::R8G8B8A8_UNORM), 1);
    assert_eq!(get_format_type_size_bytes(VkFormat::R16_SFLOAT), 2);
    assert_eq!(get_format_type_size_bytes(VkFormat::R16G16B16A16_SFLOAT), 2);
    assert_eq!(get_format_type_size_bytes(VkFormat::BC1_RGB_UNORM_BLOCK), 1);
    assert_eq!(
        get_format_pixel_size_bytes(VkFormat::R8G8B8A8_UNORM),
        PixelSize { bytes: 4, texels: 1 }
    );
    assert_eq!(
        get_format_pixel_size_bytes(VkFormat::R16_SFLOAT),
        PixelSize { bytes: 2, texels: 1 }
    );
    assert_eq!(
        get_format_pixel_size_bytes(VkFormat::R16G16B16A16_SFLOAT),
        PixelSize { bytes: 8, texels: 1 }
    );
    assert_eq!(
        get_format_pixel_size_bytes(VkFormat::BC1_RGB_UNORM_BLOCK),
        PixelSize { bytes: 8, texels: 16 }
    );
}

#[test]
fn descriptor_of_single_half_channel() {
    let d = BasicDataFormatDescriptor::new(VkFormat::R16_SFLOAT);
    assert_eq!(d.dfd_total_size, 44);
    assert_eq!(d.row_0, 0);
    assert_eq!(d.row_1, 2 | 40 << 16);
    assert_eq!(d.row_2, 1 | 1 << 8 | 1 << 16);
    assert_eq!(d.row_3, 0);
    assert_eq!(d.row_4, 2);
    assert_eq!(d.row_5, 0);
    assert_eq!(
        d.samples,
        vec![DFDSampleType {
            row_0: (15 << 16) | 0b11000000 << 24,
            row_1: 0,
            row_2: 0xBF800000,
            row_3: 0x3F800000,
        }]
    );
    assert_eq!(f32::from_bits(d.samples[0].row_2), -1.0);
    assert_eq!(f32::from_bits(d.samples[0].row_3), 1.0);
}

#[test]
fn descriptor_of_four_half_channels() {
    let d = BasicDataFormatDescriptor::new(VkFormat::R16G16B16A16_SFLOAT);
    assert_eq!(d.dfd_total_size, 92);
    assert_eq!(d.row_1, 2 | 88 << 16);
    assert_eq!(d.row_2, 1 | 1 << 8 | 1 << 16);
    assert_eq!(d.row_3, 0);
    assert_eq!(d.row_4, 8);
    let words: Vec<u32> = d.samples.iter().map(|s| s.row_0).collect();
    assert_eq!(
        words,
        vec![
            15 << 16,
            16 | 15 << 16 | 1 << 24,
            32 | 15 << 16 | 2 << 24,
            48 | 15 << 16 | 3 << 24
        ]
    );
    for (i, sample) in d.samples.iter().enumerate() {
        assert_eq!(sample.row_0 & 0xFFFF, 16 * i as u32);
        assert_eq!((sample.row_0 >> 16) & 0xFF, 15);
        assert_eq!((sample.row_0 >> 24) & 0x0F, i as u32);
        assert_eq!(sample.row_0 >> 28, 0);
        assert_eq!(sample.row_1, 0);
        assert_eq!(sample.row_2, 0xBF800000);
        assert_eq!(sample.row_3, 0x3F800000);
    }
}

#[test]
fn descriptor_of_four_byte_channels() {
    let d = BasicDataFormatDescriptor::new(VkFormat::R8G8B8A8_UNORM);
    assert_eq!(d.dfd_total_size, 92);
    assert_eq!(d.row_1, 2 | 88 << 16);
    assert_eq!(d.row_2, 1 | 1 << 8 | 1 << 16);
    assert_eq!(d.row_2 >> 24, 0);
    assert_eq!(d.row_4, 4);
    let words: Vec<u32> = d.samples.iter().map(|s| s.row_0).collect();
    assert_eq!(
        words,
        vec![
            7 << 16,
            8 | 7 << 16 | 1 << 24,
            16 | 7 << 16 | 2 << 24,
            24 | 7 << 16 | 15 << 24
        ]
    );
    for sample in &d.samples {
        assert_eq!(sample.row_1, 0);
        assert_eq!(sample.row_2, 0);
        assert_eq!(sample.row_3, 255);
    }
}

#[test]
fn descriptor_of_compressed_blocks() {
    let d = BasicDataFormatDescriptor::new(VkFormat::BC1_RGB_UNORM_BLOCK);
    assert_eq!(d.dfd_total_size, 44);
    assert_eq!(d.row_0, 0);
    assert_eq!(d.row_1, 2 | 40 << 16);
    assert_eq!(d.row_2, 128 | 1 << 8 | 1 << 16 | 1 << 24);
    assert_eq!(d.row_2 & 0xFF, 128);
    assert_ne!(d.row_2 >> 24, 0);
    assert_eq!(d.row_3, 3 | 3 << 8);
    assert_eq!(d.row_4, 8);
    assert_eq!(d.row_5, 0);
    assert_eq!(
        d.samples,
        vec![DFDSampleType { row_0: 63 << 16, row_1: 0, row_2: 0, row_3: u32::MAX }]
    );
}

#[test]
fn descriptor_size_is_28_and_16_for_each_sample() {
    for format in FORMATS {
        let d = BasicDataFormatDescriptor::new(format);
        assert_eq!(d.dfd_total_size as usize, 28 + 16 * d.samples.len());
        let tex = TextureKtx2::new(3, 5, format);
        assert_eq!(tex.index.dfd_byte_length, d.dfd_total_size);
        let bytes = tex.write_to_ktx2();
        let at = tex.index.dfd_byte_offset as usize;
        assert_eq!(bytes[52..56], bytes[at..at + 4]);
        assert_eq!(bytes[at..at + 4], d.dfd_total_size.to_le_bytes());
    }
}

#[test]
fn default_descriptor_is_empty() {
    let d = BasicDataFormatDescriptor::default();
    assert_eq!(d.dfd_total_size, 24);
    assert_eq!(
        (d.row_0, d.row_1, d.row_2, d.row_3, d.row_4, d.row_5),
        (0, 0, 0, 0, 0, 0)
    );
    assert!(d.samples.is_empty());
}

#[test]
fn new_container_layout() {
    let tex = TextureKtx2::new(2, 2, VkFormat::R16_SFLOAT);
    assert_eq!(
        tex.header.identifier,
        [0xAB, 0x4B, 0x54, 0x58, 0x20, 0x32, 0x30, 0xBB, 0x0D, 0x0A, 0x1A, 0x0A]
    );
    assert_eq!(tex.header.vk_format, VkFormat::R16_SFLOAT);
    assert_eq!(tex.header.type_size, 2);
    assert_eq!(tex.header.pixel_width, 2);
    assert_eq!(tex.header.pixel_height, 2);
    assert_eq!(tex.header.pixel_depth, 0);
    assert_eq!(tex.header.layer_count, 0);
    assert_eq!(tex.header.face_count, 1);
    assert_eq!(tex.header.level_count, 1);
    assert_eq!(tex.header.supercompression_scheme, 0);
    assert_eq!(tex.index.dfd_byte_offset, 104);
    assert_eq!(tex.index.dfd_byte_length, 44);
    assert_eq!(tex.index.kvd_byte_offset, 148);
    assert_eq!(tex.index.kvd_byte_length, 52);
    assert_eq!(tex.index.sgd_byte_offset, 0);
    assert_eq!(tex.index.sgd_byte_length, 0);
    assert_eq!(
        tex.index.levels,
        vec![Level { byte_offset: 200, byte_length: 8, uncompressed_byte_length: 8 }]
    );
    assert_eq!(tex.dfd_descriptor_block, vec![BasicDataFormatDescriptor::new(VkFormat::R16_SFLOAT)]);
    assert_eq!(tex.key_value_data, key_value_data());
    assert!(tex.supercompression_global_data.is_empty());
    assert_eq!(tex.level_images, vec![0u8; 8]);
    assert!(tex.holds_all_pixels());
}

#[test]
fn new_container_with_four_samples_starts_its_payload_later() {
    let tex = TextureKtx2::new(3, 2, VkFormat::R16G16B16A16_SFLOAT);
    assert_eq!(tex.index.dfd_byte_offset, 104);
    assert_eq!(tex.index.dfd_byte_length, 92);
    assert_eq!(tex.index.kvd_byte_offset, 196);
    assert_eq!(
        tex.index.levels,
        vec![Level { byte_offset: 248, byte_length: 48, uncompressed_byte_length: 48 }]
    );
    assert_eq!(tex.level_images.len(), 48);
}

#[test]
fn payload_of_compressed_image_is_cut_off_after_the_product() {
    assert_eq!(TextureKtx2::new(4, 4, VkFormat::BC1_RGB_UNORM_BLOCK).level_images.len(), 8);
    assert_eq!(TextureKtx2::new(3, 3, VkFormat::BC1_RGB_UNORM_BLOCK).level_images.len(), 4);
    assert_eq!(TextureKtx2::new(1, 1, VkFormat::BC1_RGB_UNORM_BLOCK).level_images.len(), 0);
    assert_eq!(TextureKtx2::new(0, 7, VkFormat::R16_SFLOAT).level_images.len(), 0);
}

#[test]
fn key_value_block_names_orientation_and_writer() {
    let block = key_value_data();
    assert_eq!(block.len(), 52);
    assert_eq!(&block[0..4], &18u32.to_le_bytes());
    assert_eq!(&block[4..21], b"KTXorientation\0rd");
    assert_eq!(&block[24..28], &24u32.to_le_bytes());
    assert_eq!(&block[28..52], b"KTXwriter\0SeniorSKY_dt2\0");
}
