//! Errors reported while decoding a texture.

use vstd::prelude::*;

verus! {

/// Why a texture could not be decoded.
#[derive(Debug, PartialEq, Eq)]
pub enum DecodeError {
    /// The file extension (ASCII-lowercased) names no supported container.
    UnsupportedExtension(Vec<u8>),
    /// The KTX2 container was rejected by the KTX2 reader; holds its message.
    Ktx2Parse(String),
    /// The KTX2 container holds no mip level.
    NoMipLevels,
    /// The KTX2 header gives no pixel format (Basis Universal textures).
    NoFormat,
    /// The texel count `width * height` does not fit in 32 bits, or the
    /// buffers decoding it needs would not fit in memory.
    DimensionsOverflow,
    /// An uncompressed first mip level holds fewer bytes than its pixels need.
    LevelTooShort,
    /// The KTX2 pixel format (a Vulkan format number) is not supported.
    UnsupportedPixelFormat(u32),
    /// The block decoder rejected the data; holds its message.
    Decoder(String),
    /// The decoded pixels do not fill an RGBA8 image of the texture's size.
    ImageBuffer,
}

/// The mathematical value of a [`DecodeError`].
pub enum DecodeErrorView {
    UnsupportedExtension(Seq<u8>),
    Ktx2Parse(Seq<char>),
    NoMipLevels,
    NoFormat,
    DimensionsOverflow,
    LevelTooShort,
    UnsupportedPixelFormat(u32),
    Decoder(Seq<char>),
    ImageBuffer,
}

impl View for DecodeError {
    type V = DecodeErrorView;

    open spec fn view(&self) -> DecodeErrorView {
        match self {
            DecodeError::UnsupportedExtension(ext) => DecodeErrorView::UnsupportedExtension(ext@),
            DecodeError::Ktx2Parse(m) => DecodeErrorView::Ktx2Parse(m@),
            DecodeError::NoMipLevels => DecodeErrorView::NoMipLevels,
            DecodeError::NoFormat => DecodeErrorView::NoFormat,
            DecodeError::DimensionsOverflow => DecodeErrorView::DimensionsOverflow,
            DecodeError::LevelTooShort => DecodeErrorView::LevelTooShort,
            DecodeError::UnsupportedPixelFormat(f) => DecodeErrorView::UnsupportedPixelFormat(*f),
            DecodeError::Decoder(m) => DecodeErrorView::Decoder(m@),
            DecodeError::ImageBuffer => DecodeErrorView::ImageBuffer,
        }
    }
}

/// A decoding result taken by the views of its value and its error.
pub open spec fn result_view<T: View>(r: Result<T, DecodeError>) -> Result<T::V, DecodeErrorView> {
    match r {
        Ok(v) => Ok(v@),
        Err(e) => Err(e@),
    }
}

} // verus!
