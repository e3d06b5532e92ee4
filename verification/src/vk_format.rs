//! The pixel formats and their sizes.

use crate::error::Ktx2Error;
use vstd::prelude::*;

verus! {

/// The pixel formats that a container can hold, named as Vulkan names them.
#[allow(non_camel_case_types)]
#[derive(Clone, Copy, Debug, PartialEq, Eq, Structural)]
pub enum VkFormat {
    /// Four channels of 8-bit unsigned normalized values.
    R8G8B8A8_UNORM,
    /// One channel of half-precision numbers.
    R16_SFLOAT,
    /// Four channels of half-precision numbers.
    R16G16B16A16_SFLOAT,
    /// Blocks of 4 by 4 texels, eight bytes each, three colour channels.
    BC1_RGB_UNORM_BLOCK,
}

/// The size of a pixel as a fraction: `bytes` bytes for every `texels`
/// texels. A block-compressed format spreads the bytes of a block over its
/// texels, so one texel may take less than a byte.
#[derive(Clone, Copy, Debug, PartialEq, Eq, Structural)]
pub struct PixelSize {
    pub bytes: u32,
    pub texels: u32,
}

impl VkFormat {
    /// The number that stands for the format in a file.
    pub open spec fn id(self) -> u32 {
        match self {
            VkFormat::R8G8B8A8_UNORM => 37,
            VkFormat::R16_SFLOAT => 76,
            VkFormat::R16G16B16A16_SFLOAT => 97,
            VkFormat::BC1_RGB_UNORM_BLOCK => 131,
        }
    }

    /// The format that `id` stands for, if there is one.
    pub open spec fn of_id(id: u32) -> Option<VkFormat> {
        if id == 37 {
            Some(VkFormat::R8G8B8A8_UNORM)
        } else if id == 76 {
            Some(VkFormat::R16_SFLOAT)
        } else if id == 97 {
            Some(VkFormat::R16G16B16A16_SFLOAT)
        } else if id == 131 {
            Some(VkFormat::BC1_RGB_UNORM_BLOCK)
        } else {
            None
        }
    }

    /// The number that stands for the format in a file.
    pub fn to_u32(self) -> (id: u32)
        ensures
            id == self.id(),
            VkFormat::of_id(id) == Some(self),
    {
        match self {
            VkFormat::R8G8B8A8_UNORM => 37,
            VkFormat::R16_SFLOAT => 76,
            VkFormat::R16G16B16A16_SFLOAT => 97,
            VkFormat::BC1_RGB_UNORM_BLOCK => 131,
        }
    }

    /// Reads a format back from its number. A number that stands for no
    /// format of this library is refused as `UnsupportedFormat`.
    pub fn from_u32(id: u32) -> (r: Result<VkFormat, Ktx2Error>)
        ensures
            match VkFormat::of_id(id) {
                Some(format) => r == Ok::<VkFormat, Ktx2Error>(format) && format.id() == id,
                None => r == Err::<VkFormat, Ktx2Error>(Ktx2Error::UnsupportedFormat),
            },
    {
        if id == 37 {
            Ok(VkFormat::R8G8B8A8_UNORM)
        } else if id == 76 {
            Ok(VkFormat::R16_SFLOAT)
        } else if id == 97 {
            Ok(VkFormat::R16G16B16A16_SFLOAT)
        } else if id == 131 {
            Ok(VkFormat::BC1_RGB_UNORM_BLOCK)
        } else {
            Err(Ktx2Error::UnsupportedFormat)
        }
    }
}

/// The number of bytes of one component of a pixel.
pub open spec fn format_type_size(format: VkFormat) -> u32 {
    match format {
        VkFormat::R8G8B8A8_UNORM => 1,
        VkFormat::R16_SFLOAT => 2,
        VkFormat::R16G16B16A16_SFLOAT => 2,
        VkFormat::BC1_RGB_UNORM_BLOCK => 1,
    }
}

/// The size of one pixel.
pub open spec fn format_pixel_size(format: VkFormat) -> PixelSize {
    match format {
        VkFormat::R8G8B8A8_UNORM => PixelSize { bytes: 4, texels: 1 },
        VkFormat::R16_SFLOAT => PixelSize { bytes: 2, texels: 1 },
        VkFormat::R16G16B16A16_SFLOAT => PixelSize { bytes: 8, texels: 1 },
        VkFormat::BC1_RGB_UNORM_BLOCK => PixelSize { bytes: 8, texels: 16 },
    }
}

/// The number of bytes that `pixels` pixels of `format` take: the product
/// with the pixel size, cut off toward zero after the multiplication.
pub open spec fn bytes_of_pixels(pixels: nat, format: VkFormat) -> nat {
    let size = format_pixel_size(format);
    (pixels * size.bytes as nat) / (size.texels as nat)
}

/// The number of bytes of one component of a pixel.
pub fn get_format_type_size_bytes(format: VkFormat) -> (size: u32)
    ensures
        size == format_type_size(format),
{
    match format {
        VkFormat::R8G8B8A8_UNORM => 1,
        VkFormat::R16_SFLOAT => 2,
        VkFormat::R16G16B16A16_SFLOAT => 2,
        VkFormat::BC1_RGB_UNORM_BLOCK => 1,
    }
}

/// The size of one pixel.
pub fn get_format_pixel_size_bytes(format: VkFormat) -> (size: PixelSize)
    ensures
        size == format_pixel_size(format),
        size.texels > 0,
{
    match format {
        VkFormat::R8G8B8A8_UNORM => PixelSize { bytes: 4, texels: 1 },
        VkFormat::R16_SFLOAT => PixelSize { bytes: 2, texels: 1 },
        VkFormat::R16G16B16A16_SFLOAT => PixelSize { bytes: 8, texels: 1 },
        VkFormat::BC1_RGB_UNORM_BLOCK => PixelSize { bytes: 8, texels: 16 },
    }
}

} // verus!
