//! The Vulkan pixel formats (`VkFormat` numbers) that KTX2 headers carry,
//! and how each supported one is decoded.

use vstd::prelude::*;

verus! {

pub const R8G8B8_UNORM: u32 = 23;
pub const R8G8B8_SRGB: u32 = 29;
pub const R8G8B8A8_UNORM: u32 = 37;
pub const R8G8B8A8_SRGB: u32 = 43;
pub const BC1_RGB_UNORM_BLOCK: u32 = 131;
pub const BC1_RGB_SRGB_BLOCK: u32 = 132;
pub const BC1_RGBA_UNORM_BLOCK: u32 = 133;
pub const BC1_RGBA_SRGB_BLOCK: u32 = 134;
pub const BC3_UNORM_BLOCK: u32 = 137;
pub const BC3_SRGB_BLOCK: u32 = 138;
pub const BC4_UNORM_BLOCK: u32 = 139;
pub const BC4_SNORM_BLOCK: u32 = 140;
pub const BC5_UNORM_BLOCK: u32 = 141;
pub const BC5_SNORM_BLOCK: u32 = 142;
pub const BC7_UNORM_BLOCK: u32 = 145;
pub const BC7_SRGB_BLOCK: u32 = 146;
pub const ETC2_R8G8B8_UNORM_BLOCK: u32 = 147;
pub const ETC2_R8G8B8_SRGB_BLOCK: u32 = 148;
pub const ETC2_R8G8B8A8_UNORM_BLOCK: u32 = 151;
pub const ETC2_R8G8B8A8_SRGB_BLOCK: u32 = 152;
pub const ASTC_4X4_UNORM_BLOCK: u32 = 157;
pub const ASTC_4X4_SRGB_BLOCK: u32 = 158;

/// The block decoders that compressed KTX2 formats are handed to.
#[derive(Debug, Clone, Copy, PartialEq, Eq)]
pub enum BlockCodec {
    Bc1,
    Bc3,
    Bc4,
    Bc5,
    Bc7,
    Etc1,
    Etc2Rgba8,
    Astc4x4,
}

/// Formats whose texels are stored as RGBA8 bytes.
pub open spec fn is_rgba8_format(format: u32) -> bool {
    format == R8G8B8A8_UNORM || format == R8G8B8A8_SRGB
}

/// Formats whose texels are stored as RGB8 bytes.
pub open spec fn is_rgb8_format(format: u32) -> bool {
    format == R8G8B8_UNORM || format == R8G8B8_SRGB
}

/// The block decoder for a format, or `None` for a format that has none.
/// ETC2 RGB data is decoded as ETC1, which ETC2 RGB extends.
pub open spec fn block_codec_of(format: u32) -> Option<BlockCodec> {
    if format == BC1_RGB_UNORM_BLOCK || format == BC1_RGB_SRGB_BLOCK || format
        == BC1_RGBA_UNORM_BLOCK || format == BC1_RGBA_SRGB_BLOCK {
        Some(BlockCodec::Bc1)
    } else if format == BC3_UNORM_BLOCK || format == BC3_SRGB_BLOCK {
        Some(BlockCodec::Bc3)
    } else if format == BC4_UNORM_BLOCK || format == BC4_SNORM_BLOCK {
        Some(BlockCodec::Bc4)
    } else if format == BC5_UNORM_BLOCK || format == BC5_SNORM_BLOCK {
        Some(BlockCodec::Bc5)
    } else if format == BC7_UNORM_BLOCK || format == BC7_SRGB_BLOCK {
        Some(BlockCodec::Bc7)
    } else if format == ETC2_R8G8B8_UNORM_BLOCK || format == ETC2_R8G8B8_SRGB_BLOCK {
        Some(BlockCodec::Etc1)
    } else if format == ETC2_R8G8B8A8_UNORM_BLOCK || format == ETC2_R8G8B8A8_SRGB_BLOCK {
        Some(BlockCodec::Etc2Rgba8)
    } else if format == ASTC_4X4_UNORM_BLOCK || format == ASTC_4X4_SRGB_BLOCK {
        Some(BlockCodec::Astc4x4)
    } else {
        None
    }
}

/// Finds the block decoder for a format.
pub fn block_codec(format: u32) -> (codec: Option<BlockCodec>)
    ensures
        codec == block_codec_of(format),
{
    if format == BC1_RGB_UNORM_BLOCK || format == BC1_RGB_SRGB_BLOCK || format
        == BC1_RGBA_UNORM_BLOCK || format == BC1_RGBA_SRGB_BLOCK {
        Some(BlockCodec::Bc1)
    } else if format == BC3_UNORM_BLOCK || format == BC3_SRGB_BLOCK {
        Some(BlockCodec::Bc3)
    } else if format == BC4_UNORM_BLOCK || format == BC4_SNORM_BLOCK {
        Some(BlockCodec::Bc4)
    } else if format == BC5_UNORM_BLOCK || format == BC5_SNORM_BLOCK {
        Some(BlockCodec::Bc5)
    } else if format == BC7_UNORM_BLOCK || format == BC7_SRGB_BLOCK {
        Some(BlockCodec::Bc7)
    } else if format == ETC2_R8G8B8_UNORM_BLOCK || format == ETC2_R8G8B8_SRGB_BLOCK {
        Some(BlockCodec::Etc1)
    } else if format == ETC2_R8G8B8A8_UNORM_BLOCK || format == ETC2_R8G8B8A8_SRGB_BLOCK {
        Some(BlockCodec::Etc2Rgba8)
    } else if format == ASTC_4X4_UNORM_BLOCK || format == ASTC_4X4_SRGB_BLOCK {
        Some(BlockCodec::Astc4x4)
    } else {
        None
    }
}

/// No format is both stored uncompressed and handed to a block decoder.
pub proof fn lemma_uncompressed_formats_have_no_codec(format: u32)
    requires
        is_rgba8_format(format) || is_rgb8_format(format),
    ensures
        block_codec_of(format) is None,
{
}

} // verus!

verus! {

/// Each block decoder serves exactly its own Vulkan formats: BC1 the four BC1
/// formats (131 to 134), BC3 137 and 138, BC4 139 and 140, BC5 141 and 142,
/// BC7 145 and 146, ETC1 the ETC2 RGB formats 147 and 148, ETC2 RGBA8 151
/// and 152, ASTC 4x4 157 and 158; no other format has a decoder.
pub proof fn lemma_block_codecs_serve_their_formats(format: u32)
    ensures
        block_codec_of(format) == Some(BlockCodec::Bc1) <==> (131 <= format <= 134),
        block_codec_of(format) == Some(BlockCodec::Bc3) <==> (format == 137 || format == 138),
        block_codec_of(format) == Some(BlockCodec::Bc4) <==> (format == 139 || format == 140),
        block_codec_of(format) == Some(BlockCodec::Bc5) <==> (format == 141 || format == 142),
        block_codec_of(format) == Some(BlockCodec::Bc7) <==> (format == 145 || format == 146),
        block_codec_of(format) == Some(BlockCodec::Etc1) <==> (format == 147 || format == 148),
        block_codec_of(format) == Some(BlockCodec::Etc2Rgba8) <==> (format == 151 || format
            == 152),
        block_codec_of(format) == Some(BlockCodec::Astc4x4) <==> (format == 157 || format
            == 158),
        block_codec_of(format) is None <==> !(131 <= format <= 134 || 137 <= format <= 142 || 145
            <= format <= 148 || format == 151 || format == 152 || format == 157 || format == 158),
{
}

} // verus!
