//! Pixel values and where they lie in a payload.

use crate::endian::{field_value, le_bytes};
use crate::vk_format::{bytes_of_pixels, get_format_pixel_size_bytes, VkFormat};
use vstd::prelude::*;

verus! {

/// The value of one pixel. A half-precision number is held as its 16 bits.
#[allow(non_camel_case_types)]
#[derive(Clone, Copy, Debug, PartialEq, Eq)]
pub enum Pixel {
    /// One half-precision number.
    R16_SFLOAT(u16),
    /// Four half-precision numbers: red, green, blue, alpha.
    R16G16B16A16_SFLOAT([u16; 4]),
    /// Four 8-bit values: red, green, blue, alpha.
    R8G8B8A8_UNORM([u8; 4]),
    /// A texel of a compressed block, which has no value of its own.
    BC1_RGB_UNORM_BLOCK,
}

impl Pixel {
    /// The format that the value is of.
    pub open spec fn format(self) -> VkFormat {
        match self {
            Pixel::R16_SFLOAT(_) => VkFormat::R16_SFLOAT,
            Pixel::R16G16B16A16_SFLOAT(_) => VkFormat::R16G16B16A16_SFLOAT,
            Pixel::R8G8B8A8_UNORM(_) => VkFormat::R8G8B8A8_UNORM,
            Pixel::BC1_RGB_UNORM_BLOCK => VkFormat::BC1_RGB_UNORM_BLOCK,
        }
    }

    /// The bytes of the value in a payload: each channel in turn, each
    /// 16-bit channel with its low byte first.
    pub open spec fn bytes(self) -> Seq<u8> {
        match self {
            Pixel::R16_SFLOAT(bits) => le_bytes(bits as nat, 2),
            Pixel::R16G16B16A16_SFLOAT(bits) => le_bytes(bits[0] as nat, 2) + le_bytes(
                bits[1] as nat,
                2,
            ) + le_bytes(bits[2] as nat, 2) + le_bytes(bits[3] as nat, 2),
            Pixel::R8G8B8A8_UNORM(channels) => channels@,
            Pixel::BC1_RGB_UNORM_BLOCK => Seq::empty(),
        }
    }

    /// The format that the value is of.
    pub fn vk_format(&self) -> (format: VkFormat)
        ensures
            format == self.format(),
    {
        match self {
            Pixel::R16_SFLOAT(_) => VkFormat::R16_SFLOAT,
            Pixel::R16G16B16A16_SFLOAT(_) => VkFormat::R16G16B16A16_SFLOAT,
            Pixel::R8G8B8A8_UNORM(_) => VkFormat::R8G8B8A8_UNORM,
            Pixel::BC1_RGB_UNORM_BLOCK => VkFormat::BC1_RGB_UNORM_BLOCK,
        }
    }
}

/// The number of bytes that are read or written for one pixel: none for a
/// texel of a compressed block.
pub open spec fn pixel_bytes(format: VkFormat) -> nat {
    match format {
        VkFormat::R16_SFLOAT => 2,
        VkFormat::R16G16B16A16_SFLOAT => 8,
        VkFormat::R8G8B8A8_UNORM => 4,
        VkFormat::BC1_RGB_UNORM_BLOCK => 0,
    }
}

/// Where the pixel at column `x` of row `y` starts in the payload of an
/// image of `width` columns: the pixel size times `x + width * y`, cut off
/// toward zero after the multiplication.
pub open spec fn pixel_offset(x: u32, y: u32, width: u32, format: VkFormat) -> nat {
    bytes_of_pixels(x as nat + width as nat * y as nat, format)
}

/// The pixel of `format` whose bytes start at `at`.
pub open spec fn pixel_at(payload: Seq<u8>, at: int, format: VkFormat) -> Pixel {
    match format {
        VkFormat::R16_SFLOAT => Pixel::R16_SFLOAT(field_value(payload, at, 2) as u16),
        VkFormat::R16G16B16A16_SFLOAT => Pixel::R16G16B16A16_SFLOAT(
            [
                field_value(payload, at, 2) as u16,
                field_value(payload, at + 2, 2) as u16,
                field_value(payload, at + 4, 2) as u16,
                field_value(payload, at + 6, 2) as u16,
            ],
        ),
        VkFormat::R8G8B8A8_UNORM => Pixel::R8G8B8A8_UNORM(
            [payload[at], payload[at + 1], payload[at + 2], payload[at + 3]],
        ),
        VkFormat::BC1_RGB_UNORM_BLOCK => Pixel::BC1_RGB_UNORM_BLOCK,
    }
}

/// `payload` with the bytes from `at` on replaced by `patch`.
pub open spec fn splice(payload: Seq<u8>, at: int, patch: Seq<u8>) -> Seq<u8> {
    payload.subrange(0, at) + patch + payload.subrange(at + patch.len(), payload.len() as int)
}

/// Where the pixel at column `x` of row `y` starts in the payload of an
/// image of `width` columns.
pub fn offset(x: u32, y: u32, width: u32, format: VkFormat) -> (at: u128)
    ensures
        at == pixel_offset(x, y, width, format),
{
    let size = get_format_pixel_size_bytes(format);
    assert(width as nat * y as nat <= 0xFFFF_FFFF * 0xFFFF_FFFF) by (nonlinear_arith)
        requires
            width <= 0xFFFF_FFFF,
            y <= 0xFFFF_FFFF,
    ;
    let pixels: u128 = x as u128 + width as u128 * y as u128;
    assert(pixels * size.bytes <= (0xFFFF_FFFF + 0xFFFF_FFFF * 0xFFFF_FFFF) * 8)
        by (nonlinear_arith)
        requires
            pixels <= 0xFFFF_FFFF + 0xFFFF_FFFF * 0xFFFF_FFFF,
            size.bytes <= 8,
    ;
    pixels * size.bytes as u128 / size.texels as u128
}

/// Replaces the bytes of `payload` from `at` on by `patch`.
pub fn store(payload: &mut Vec<u8>, at: usize, patch: &Vec<u8>)
    requires
        at + patch.len() <= old(payload).len(),
    ensures
        final(payload)@ == splice(old(payload)@, at as int, patch@),
{
    let mut k: usize = 0;
    while k < patch.len()
        invariant
            k <= patch.len(),
            at + patch.len() <= payload.len(),
            payload@.len() == old(payload)@.len(),
            payload@ == splice(old(payload)@, at as int, patch@.take(k as int)),
        decreases patch.len() - k,
    {
        payload.set(at + k, patch[k]);
        assert(payload@ =~= splice(old(payload)@, at as int, patch@.take(k + 1)));
        k += 1;
    }
    assert(patch@.take(k as int) =~= patch@);
}

} // verus!
