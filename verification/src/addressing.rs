//! Laws of pixel addressing: what is written at a place is read there, and
//! nothing else changes.

use crate::endian::{le_bytes, lemma_le_bytes_len, lemma_u16_round_trip};
use crate::pixel::{pixel_at, pixel_bytes, pixel_offset, splice, Pixel};
use crate::texture::TextureView;
use crate::vk_format::VkFormat;
use vstd::prelude::*;

verus! {

/// A value has as many bytes as a pixel of its format.
pub proof fn lemma_pixel_bytes_len(pixel: Pixel)
    ensures
        pixel.bytes().len() == pixel_bytes(pixel.format()),
{
    broadcast use lemma_le_bytes_len;

}

/// A value that was put into a payload is the pixel that is found there.
pub proof fn lemma_pixel_in_place(payload: Seq<u8>, at: int, pixel: Pixel)
    requires
        0 <= at,
        at + pixel.bytes().len() <= payload.len(),
    ensures
        pixel_at(splice(payload, at, pixel.bytes()), at, pixel.format()) == pixel,
{
    broadcast use lemma_le_bytes_len;

    let after = splice(payload, at, pixel.bytes());
    match pixel {
        Pixel::R16_SFLOAT(bits) => {
            assert(after.subrange(at, at + 2) =~= le_bytes(bits as nat, 2));
            lemma_u16_round_trip(bits);
        },
        Pixel::R16G16B16A16_SFLOAT(bits) => {
            assert(after.subrange(at, at + 2) =~= le_bytes(bits[0] as nat, 2));
            assert(after.subrange(at + 2, at + 4) =~= le_bytes(bits[1] as nat, 2));
            assert(after.subrange(at + 4, at + 6) =~= le_bytes(bits[2] as nat, 2));
            assert(after.subrange(at + 6, at + 8) =~= le_bytes(bits[3] as nat, 2));
            lemma_u16_round_trip(bits[0]);
            lemma_u16_round_trip(bits[1]);
            lemma_u16_round_trip(bits[2]);
            lemma_u16_round_trip(bits[3]);
            assert(pixel_at(after, at, pixel.format()) matches Pixel::R16G16B16A16_SFLOAT(found)
                && found =~= bits);
        },
        Pixel::R8G8B8A8_UNORM(channels) => {
            assert(after[at] == channels[0]);
            assert(after[at + 1] == channels[1]);
            assert(after[at + 2] == channels[2]);
            assert(after[at + 3] == channels[3]);
            assert(pixel_at(after, at, pixel.format()) matches Pixel::R8G8B8A8_UNORM(found)
                && found =~= channels);
        },
        Pixel::BC1_RGB_UNORM_BLOCK => {},
    }
}

/// Two pixels of an image at different coordinates share no byte: one ends
/// where the other starts, or before.
pub proof fn lemma_pixels_apart(
    x: u32,
    y: u32,
    other_x: u32,
    other_y: u32,
    width: u32,
    format: VkFormat,
)
    requires
        x < width,
        other_x < width,
        x != other_x || y != other_y,
        format != VkFormat::BC1_RGB_UNORM_BLOCK,
    ensures
        pixel_offset(x, y, width, format) + pixel_bytes(format) <= pixel_offset(
            other_x,
            other_y,
            width,
            format,
        ) || pixel_offset(other_x, other_y, width, format) + pixel_bytes(format) <= pixel_offset(
            x,
            y,
            width,
            format,
        ),
{
    let here = x as int + width as int * y as int;
    let there = other_x as int + width as int * other_y as int;
    assert(here != there) by (nonlinear_arith)
        requires
            here == x as int + width as int * y as int,
            there == other_x as int + width as int * other_y as int,
            0 <= x < width,
            0 <= other_x < width,
            0 <= y,
            0 <= other_y,
            x != other_x || y != other_y,
    ;
    let unit = pixel_bytes(format) as int;
    assert(pixel_offset(x, y, width, format) == here * unit);
    assert(pixel_offset(other_x, other_y, width, format) == there * unit);
    assert(here * unit + unit <= there * unit || there * unit + unit <= here * unit)
        by (nonlinear_arith)
        requires
            here != there,
            unit >= 0,
    ;
}

/// A payload that is long enough for every pixel reaches to the end of
/// each pixel inside the image.
pub proof fn lemma_all_pixels_held(texture: TextureView, x: u32, y: u32)
    requires
        texture.holds_all_pixels(),
        x < texture.header.pixel_width,
        y < texture.header.pixel_height,
        texture.header.vk_format != VkFormat::BC1_RGB_UNORM_BLOCK,
    ensures
        texture.holds_pixel(x, y),
{
    let width = texture.header.pixel_width as int;
    let height = texture.header.pixel_height as int;
    let unit = pixel_bytes(texture.header.vk_format) as int;
    let here = x as int + width * y as int;
    assert(here + 1 <= width * height) by (nonlinear_arith)
        requires
            here == x as int + width * y as int,
            0 <= x < width,
            0 <= y < height,
    ;
    assert((here + 1) * unit <= (width * height) * unit) by (nonlinear_arith)
        requires
            here + 1 <= width * height,
            unit >= 0,
    ;
    assert((here + 1) * unit == here * unit + unit) by (nonlinear_arith);
    assert(pixel_offset(x, y, texture.header.pixel_width, texture.header.vk_format) == here
        * unit);
    assert(crate::texture::payload_len(
        texture.header.pixel_width,
        texture.header.pixel_height,
        texture.header.vk_format,
    ) == (width * height) * unit);
}

/// A value that was written at a place in the image is the value that is
/// read there.
pub proof fn lemma_read_after_write_pixel(texture: TextureView, x: u32, y: u32, pixel: Pixel)
    requires
        texture.write_pixel_failure(x, y, pixel) is None,
        texture.holds_pixel(x, y),
    ensures
        texture.with_pixel(x, y, pixel).read_pixel_failure(x, y) is None,
        texture.with_pixel(x, y, pixel).holds_pixel(x, y),
        texture.with_pixel(x, y, pixel).pixel(x, y) == pixel,
{
    let at = pixel_offset(x, y, texture.header.pixel_width, texture.header.vk_format) as int;
    lemma_pixel_bytes_len(pixel);
    lemma_pixel_in_place(texture.level_images, at, pixel);
}

/// Writing at one place in the image leaves every byte of every pixel at
/// another place as it was, and so the pixel that is read there.
pub proof fn lemma_write_keeps_other_pixels(
    texture: TextureView,
    x: u32,
    y: u32,
    pixel: Pixel,
    other_x: u32,
    other_y: u32,
)
    requires
        texture.write_pixel_failure(x, y, pixel) is None,
        texture.holds_pixel(x, y),
        texture.read_pixel_failure(other_x, other_y) is None,
        texture.holds_pixel(other_x, other_y),
        x != other_x || y != other_y,
    ensures
        ({
            let format = texture.header.vk_format;
            let at = pixel_offset(other_x, other_y, texture.header.pixel_width, format) as int;
            let after = texture.with_pixel(x, y, pixel);
            &&& after.level_images.len() == texture.level_images.len()
            &&& after.level_images.subrange(at, at + pixel_bytes(format))
                == texture.level_images.subrange(at, at + pixel_bytes(format))
            &&& after.pixel(other_x, other_y) == texture.pixel(other_x, other_y)
        }),
{
    let format = texture.header.vk_format;
    let width = texture.header.pixel_width;
    let unit = pixel_bytes(format) as int;
    let here = pixel_offset(x, y, width, format) as int;
    let at = pixel_offset(other_x, other_y, width, format) as int;
    let before = texture.level_images;
    let after = texture.with_pixel(x, y, pixel).level_images;
    lemma_pixel_bytes_len(pixel);
    lemma_pixels_apart(x, y, other_x, other_y, width, format);
    assert(after.len() == before.len());
    assert forall|k: int| at <= k < at + unit implies after[k] == before[k] by {}
    assert(after.subrange(at, at + unit) =~= before.subrange(at, at + unit));
    assert(after.subrange(at, at + 2) =~= before.subrange(at, at + 2));
    if unit == 8 {
        assert(after.subrange(at + 2, at + 4) =~= before.subrange(at + 2, at + 4));
        assert(after.subrange(at + 4, at + 6) =~= before.subrange(at + 4, at + 6));
        assert(after.subrange(at + 6, at + 8) =~= before.subrange(at + 6, at + 8));
    }
}

} // verus!
