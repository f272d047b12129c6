//! Decoding of game textures into RGBA8 images, for a preview written as
//! JPEG: KTX2 containers are decoded here, and the container of a file is
//! chosen by its extension.
//!
//! - `pixels`: uncompressed RGB8/RGBA8 texels and BGRA-packed words to RGBA8 bytes;
//! - `formats`: the Vulkan pixel formats of KTX2 headers and their decoders;
//! - `astc`: the ASTC blocks on which the ASTC decoder would panic;
//! - `block`: block-compressed texels, decoded by `texture2ddecoder`;
//! - `ktx2_container`: KTX2 files, read by `ktx2`;
//! - `image_buffer`: the `image` crate's image that decoding produces;
//! - `ktx2_reader`: the KTX2 inputs on which the `ktx2` reader would panic;
//! - `texture`: choosing the container by a file's extension;
//! - `error`: why decoding failed.

pub mod astc;
pub mod block;
pub mod error;
pub mod formats;
pub mod image_buffer;
pub mod ktx2_container;
pub mod ktx2_reader;
pub mod pixels;
pub mod texture;

pub use block::decode_block_compressed;
pub use error::DecodeError;
pub use ktx2_container::{
    decode_ktx2, decode_ktx2_checked, decode_ktx2_pixels, decode_ktx2_rgba, RgbaPixels,
};
pub use pixels::{bgra_u32_to_rgba_u8, decode_uncompressed_rgb, decode_uncompressed_rgba};
pub use texture::{texture_kind, TextureKind};
