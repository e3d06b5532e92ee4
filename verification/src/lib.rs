//! KTX2 texture containers: construction, pixel access, and a byte-exact codec.

pub mod addressing;
pub mod dfd;
pub mod endian;
pub mod error;
pub mod filter;
pub mod header;
pub mod index;
pub mod level;
pub mod pixel;
pub mod reader;
pub mod resample;
pub mod round_trip;
pub mod texture;
pub mod vk_format;
pub mod wire;
