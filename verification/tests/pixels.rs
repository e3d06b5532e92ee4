use ktx2_texture::error::Ktx2Error;
use ktx2_texture::pixel::{offset, store, Pixel};
use ktx2_texture::texture::TextureKtx2;
use ktx2_texture::vk_format::VkFormat;

#[test]
fn offset_is_pixel_size_times_index() {
    assert_eq!(offset(0, 0, 7, VkFormat::R16_SFLOAT), 0);
    assert_eq!(offset(3, 2, 7, VkFormat::R16_SFLOAT), 34);
    assert_eq!(offset(3, 2, 7, VkFormat::R8G8B8A8_UNORM), 68);
    assert_eq!(offset(3, 2, 7, VkFormat::R16G16B16A16_SFLOAT), 136);
    assert_eq!(offset(3, 2, 7, VkFormat::BC1_RGB_UNORM_BLOCK), 8);
    assert_eq!(offset(1, 0, 4, VkFormat::BC1_RGB_UNORM_BLOCK), 0);
    assert_eq!(
        offset(u32::MAX, u32::MAX, u32::MAX, VkFormat::R16G16B16A16_SFLOAT),
        (u32::MAX as u128 + u32::MAX as u128 * u32::MAX as u128) * 8
    );
}

#[test]
fn store_replaces_only_the_patch() {
    let mut payload: Vec<u8> = vec![1, 2, 3, 4, 5, 6];
    store(&mut payload, 2, &vec![9, 8, 7]);
    assert_eq!(payload, vec![1, 2, 9, 8, 7, 6]);
    store(&mut payload, 6, &vec![]);
    assert_eq!(payload, vec![1, 2, 9, 8, 7, 6]);
}

#[test]
fn half_pixel_is_stored_low_byte_first() {
    let mut tex = TextureKtx2::new(3, 2, VkFormat::R16_SFLOAT);
    assert_eq!(tex.write_pixel(1, 1, Pixel::R16_SFLOAT(0x65DC)), Ok(()));
    assert_eq!(tex.level_images, vec![0, 0, 0, 0, 0, 0, 0, 0, 0xDC, 0x65, 0, 0]);
    assert_eq!(tex.read_pixel(1, 1), Ok(Pixel::R16_SFLOAT(0x65DC)));
    assert_eq!(tex.read_pixel(0, 1), Ok(Pixel::R16_SFLOAT(0)));
}

#[test]
fn four_half_pixel_is_stored_channel_by_channel() {
    let mut tex = TextureKtx2::new(2, 1, VkFormat::R16G16B16A16_SFLOAT);
    let value = Pixel::R16G16B16A16_SFLOAT([0x0102, 0x0304, 0x0506, 0x0708]);
    assert_eq!(tex.write_pixel(1, 0, value), Ok(()));
    assert_eq!(tex.level_images, vec![0, 0, 0, 0, 0, 0, 0, 0, 2, 1, 4, 3, 6, 5, 8, 7]);
    assert_eq!(tex.read_pixel(1, 0), Ok(value));
    assert_eq!(tex.read_pixel(0, 0), Ok(Pixel::R16G16B16A16_SFLOAT([0, 0, 0, 0])));
}

#[test]
fn byte_pixel_is_stored_as_it_is() {
    let mut tex = TextureKtx2::new(2, 2, VkFormat::R8G8B8A8_UNORM);
    assert_eq!(tex.write_pixel(0, 1, Pixel::R8G8B8A8_UNORM([1, 2, 3, 4])), Ok(()));
    assert_eq!(tex.level_images, vec![0, 0, 0, 0, 0, 0, 0, 0, 1, 2, 3, 4, 0, 0, 0, 0]);
    assert_eq!(tex.read_pixel(0, 1), Ok(Pixel::R8G8B8A8_UNORM([1, 2, 3, 4])));
}

#[test]
fn written_pixel_is_read_and_no_other_changes() {
    let formats_and_values = [
        (VkFormat::R16_SFLOAT, Pixel::R16_SFLOAT(0xBEEF), Pixel::R16_SFLOAT(0)),
        (
            VkFormat::R16G16B16A16_SFLOAT,
            Pixel::R16G16B16A16_SFLOAT([0xBEEF, 0x1234, 0xFFFF, 0x8001]),
            Pixel::R16G16B16A16_SFLOAT([0; 4]),
        ),
        (
            VkFormat::R8G8B8A8_UNORM,
            Pixel::R8G8B8A8_UNORM([0xDE, 0xAD, 0xBE, 0xEF]),
            Pixel::R8G8B8A8_UNORM([0; 4]),
        ),
    ];
    for (format, value, zero) in formats_and_values {
        for x in 0..4u32 {
            for y in 0..3u32 {
                let mut tex = TextureKtx2::new(4, 3, format);
                let before = tex.level_images.clone();
                assert_eq!(tex.write_pixel(x, y, value), Ok(()));
                assert_eq!(tex.read_pixel(x, y), Ok(value));
                for other_x in 0..4u32 {
                    for other_y in 0..3u32 {
                        if (other_x, other_y) != (x, y) {
                            assert_eq!(tex.read_pixel(other_x, other_y), Ok(zero));
                        }
                    }
                }
                let at = offset(x, y, 4, format) as usize;
                let unit = before.len() / 12;
                for k in 0..before.len() {
                    if k < at || k >= at + unit {
                        assert_eq!(tex.level_images[k], before[k]);
                    }
                }
                assert_eq!(tex.level_images.len(), before.len());
            }
        }
    }
}

#[test]
fn coordinates_outside_the_image_are_refused() {
    let mut tex = TextureKtx2::new(2, 3, VkFormat::R16_SFLOAT);
    let before = tex.clone();
    assert_eq!(tex.read_pixel(2, 0), Err(Ktx2Error::InvalidPixelAccess));
    assert_eq!(tex.read_pixel(0, 3), Err(Ktx2Error::InvalidPixelAccess));
    assert_eq!(tex.read_pixel(u32::MAX, u32::MAX), Err(Ktx2Error::InvalidPixelAccess));
    assert_eq!(
        tex.write_pixel(2, 0, Pixel::R16_SFLOAT(1)),
        Err(Ktx2Error::InvalidPixelAccess)
    );
    assert_eq!(
        tex.write_pixel(0, 3, Pixel::R16_SFLOAT(1)),
        Err(Ktx2Error::InvalidPixelAccess)
    );
    assert_eq!(tex, before);
}

#[test]
fn value_of_another_format_is_refused() {
    let mut tex = TextureKtx2::new(2, 2, VkFormat::R16_SFLOAT);
    let before = tex.clone();
    assert_eq!(
        tex.write_pixel(0, 0, Pixel::R8G8B8A8_UNORM([1, 2, 3, 4])),
        Err(Ktx2Error::InvalidPixelAccess)
    );
    assert_eq!(
        tex.write_pixel(0, 0, Pixel::R16G16B16A16_SFLOAT([1, 2, 3, 4])),
        Err(Ktx2Error::InvalidPixelAccess)
    );
    assert_eq!(
        tex.write_pixel(0, 0, Pixel::BC1_RGB_UNORM_BLOCK),
        Err(Ktx2Error::InvalidPixelAccess)
    );
    assert_eq!(tex, before);
    let mut bytes = TextureKtx2::new(2, 2, VkFormat::R8G8B8A8_UNORM);
    assert_eq!(
        bytes.write_pixel(0, 0, Pixel::R16_SFLOAT(1)),
        Err(Ktx2Error::InvalidPixelAccess)
    );
}

#[test]
fn texels_of_compressed_blocks_are_not_addressed() {
    let mut tex = TextureKtx2::new(4, 4, VkFormat::BC1_RGB_UNORM_BLOCK);
    let before = tex.clone();
    assert_eq!(tex.read_pixel(0, 0), Err(Ktx2Error::UnsupportedFormat));
    assert_eq!(tex.read_pixel(9, 9), Err(Ktx2Error::UnsupportedFormat));
    assert_eq!(
        tex.write_pixel(0, 0, Pixel::BC1_RGB_UNORM_BLOCK),
        Err(Ktx2Error::UnsupportedFormat)
    );
    assert_eq!(
        tex.write_pixel(0, 0, Pixel::R16_SFLOAT(1)),
        Err(Ktx2Error::InvalidPixelAccess)
    );
    assert_eq!(tex, before);
}

#[test]
fn pixel_knows_its_format() {
    assert_eq!(Pixel::R16_SFLOAT(0).vk_format(), VkFormat::R16_SFLOAT);
    assert_eq!(Pixel::R16G16B16A16_SFLOAT([0; 4]).vk_format(), VkFormat::R16G16B16A16_SFLOAT);
    assert_eq!(Pixel::R8G8B8A8_UNORM([0; 4]).vk_format(), VkFormat::R8G8B8A8_UNORM);
    assert_eq!(Pixel::BC1_RGB_UNORM_BLOCK.vk_format(), VkFormat::BC1_RGB_UNORM_BLOCK);
}

#[test]
fn payload_holds_pixels_up_to_its_length() {
    let mut tex = TextureKtx2::new(2, 2, VkFormat::R16_SFLOAT);
    assert!(tex.holds_pixel(1, 1));
    assert!(!tex.holds_pixel(0, 2));
    tex.level_images.truncate(7);
    assert!(tex.holds_pixel(0, 1));
    assert!(!tex.holds_pixel(1, 1));
    assert!(!tex.holds_all_pixels());
}
