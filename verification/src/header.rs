//! The header of a container.

use crate::vk_format::VkFormat;
use vstd::prelude::*;

verus! {

/// The fixed record at the start of a file.
#[derive(Clone, Copy, Debug, PartialEq, Eq)]
pub struct Header {
    pub identifier: [u8; 12],
    pub vk_format: VkFormat,
    pub type_size: u32,
    pub pixel_width: u32,
    pub pixel_height: u32,
    pub pixel_depth: u32,
    pub layer_count: u32,
    pub face_count: u32,
    pub level_count: u32,
    pub supercompression_scheme: u32,
}

/// What a header holds, with the identifier as a sequence of bytes.
pub struct HeaderView {
    pub identifier: Seq<u8>,
    pub vk_format: VkFormat,
    pub type_size: u32,
    pub pixel_width: u32,
    pub pixel_height: u32,
    pub pixel_depth: u32,
    pub layer_count: u32,
    pub face_count: u32,
    pub level_count: u32,
    pub supercompression_scheme: u32,
}

impl View for Header {
    type V = HeaderView;

    open spec fn view(&self) -> HeaderView {
        HeaderView {
            identifier: self.identifier@,
            vk_format: self.vk_format,
            type_size: self.type_size,
            pixel_width: self.pixel_width,
            pixel_height: self.pixel_height,
            pixel_depth: self.pixel_depth,
            layer_count: self.layer_count,
            face_count: self.face_count,
            level_count: self.level_count,
            supercompression_scheme: self.supercompression_scheme,
        }
    }
}

/// The twelve bytes that every file starts with.
pub open spec fn magic() -> Seq<u8> {
    seq![0xAB, 0x4B, 0x54, 0x58, 0x20, 0x32, 0x30, 0xBB, 0x0D, 0x0A, 0x1A, 0x0A]
}

/// The twelve bytes that every file starts with.
pub fn magic_identifier() -> (identifier: [u8; 12])
    ensures
        identifier@ == magic(),
{
    let identifier: [u8; 12] = [
        0xAB, 0x4B, 0x54, 0x58, 0x20, 0x32, 0x30, 0xBB, 0x0D, 0x0A, 0x1A, 0x0A,
    ];
    assert(identifier@ =~= magic());
    identifier
}

} // verus!
