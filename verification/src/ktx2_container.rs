//! KTX2 textures: the container is read by the `ktx2` crate, the first mip
//! level is then decoded to RGBA8.

use vstd::prelude::*;

use image::DynamicImage;

use crate::astc::{astc_data_panics, astc_data_would_panic};
use crate::block::{
    block_compressed_result, decode_block_compressed, decoder_sizes_fit,
    lemma_same_codec_decodes_alike,
};
use crate::error::{result_view, DecodeError, DecodeErrorView};
use crate::formats::{
    block_codec, block_codec_of, BlockCodec, is_rgb8_format, is_rgba8_format, R8G8B8A8_SRGB, R8G8B8A8_UNORM, R8G8B8_SRGB, R8G8B8_UNORM,
};
use crate::image_buffer::{rgba8_image, rgba8_image_of};
use crate::ktx2_reader::{ktx2_reader_panics, ktx2_reader_would_panic};
use crate::pixels::{
    bgra_u32_to_rgba_u8, bgra_words_to_rgba, decode_uncompressed_rgb, decode_uncompressed_rgba,
    lemma_bgra_words_to_rgba_pixels, lemma_rgb_to_rgba_pixels, rgb_to_rgba,
};

verus! {

/// What decoding reads of a KTX2 container: the header's pixel format (a
/// Vulkan format number; `None` for an undefined format), the texture's size,
/// and the bytes of each mip level, largest first.
pub struct Ktx2Contents {
    pub format: Option<u32>,
    pub pixel_width: u32,
    pub pixel_height: u32,
    pub levels: Vec<Vec<u8>>,
}

impl View for Ktx2Contents {
    type V = (Option<u32>, u32, u32, Seq<Seq<u8>>);

    open spec fn view(&self) -> (Option<u32>, u32, u32, Seq<Seq<u8>>) {
        (
            self.format,
            self.pixel_width,
            self.pixel_height,
            self.levels@.map_values(|level: Vec<u8>| level@),
        )
    }
}

/// What `ktx2::Reader::new` makes of a buffer: its message when it rejects
/// the buffer, else the format, width, height and mip levels it reads.
pub uninterp spec fn ktx2_read(data: Seq<u8>) -> Result<(Option<u32>, u32, u32, Seq<Seq<u8>>), Seq<char>>;

/// Calls `ktx2::Reader::new`, then reads the header's format, width and
/// height and the bytes of every item of `levels()`. Trusted: the result is
/// `ktx2_read` of the buffer, the message being the error's `Display` text;
/// and `levels()` yields at least one level (it yields `max(level_count, 1)`
/// levels, validated by `new`). What the reader accepts and what it reads are
/// not stated. The inputs on which `new` panics are left out (see
/// `ktx2_reader_panics`).
#[verifier::external_body]
fn read_ktx2(data: &[u8]) -> (r: Result<Ktx2Contents, String>)
    requires
        !ktx2_reader_panics(data@),
    ensures
        match r {
            Ok(contents) => ktx2_read(data@) == Ok::<_, Seq<char>>(contents@),
            Err(message) => ktx2_read(data@) == Err::<(Option<u32>, u32, u32, Seq<Seq<u8>>), _>(message@),
        },
        r matches Ok(contents) ==> contents.levels@.len() >= 1,
{
    match ktx2::Reader::new(data) {
        Ok(reader) => {
            let header = reader.header();
            Ok(Ktx2Contents {
                format: header.format.map(|format| format.value()),
                pixel_width: header.pixel_width,
                pixel_height: header.pixel_height,
                levels: reader.levels().map(|level| level.data.to_vec()).collect(),
            })
        },
        Err(error) => Err(format!("{}", error)),
    }
}

/// What decoding the first mip level of a KTX2 texture gives: RGBA8 texels
/// are copied, RGB8 texels get an opaque alpha, block-compressed texels are
/// decoded and their BGRA words turned into RGBA bytes.
pub open spec fn ktx2_pixels_result(format: u32, data: Seq<u8>, width: u32, height: u32) -> Result<Seq<u8>, DecodeErrorView> {
    let pixel_count = width * height;
    if is_rgba8_format(format) {
        Ok(data.subrange(0, 4 * pixel_count))
    } else if is_rgb8_format(format) {
        Ok(rgb_to_rgba(data, pixel_count as nat))
    } else {
        match block_compressed_result(format, data, width as usize, height as usize) {
            Ok(words) => Ok(bgra_words_to_rgba(words)),
            Err(e) => Err(e),
        }
    }
}

/// The texel count fits in 32 bits, and the buffers that decoding texels of
/// `format` allocates fit in memory: the RGBA8 bytes of RGB8 texels, and the
/// BGRA words (with the block products the decoders compute) of
/// block-compressed texels.
pub open spec fn texel_sizes_fit(format: u32, width: u32, height: u32) -> bool {
    &&& width * height <= u32::MAX
    &&& is_rgb8_format(format) ==> 4 * width * height <= isize::MAX
    &&& !is_rgba8_format(format) && !is_rgb8_format(format) ==> {
        &&& decoder_sizes_fit(width as nat, height as nat, 4, 4, 16)
        &&& 4 * width * height <= isize::MAX
    }
}

/// An uncompressed level holds the bytes of all its texels.
pub open spec fn level_holds_texels(format: u32, level_len: nat, pixel_count: nat) -> bool {
    &&& is_rgba8_format(format) ==> 4 * pixel_count <= level_len
    &&& is_rgb8_format(format) ==> 3 * pixel_count <= level_len
}

/// Decodes the texels of a KTX2 mip level in `format` into RGBA8 bytes.
pub fn decode_ktx2_pixels(format: u32, data: &[u8], width: u32, height: u32) -> (r: Result<Vec<u8>, DecodeError>)
    requires
        texel_sizes_fit(format, width, height),
        level_holds_texels(format, data@.len(), (width * height) as nat),
        block_codec_of(format) == Some(BlockCodec::Astc4x4) ==> !astc_data_panics(
            data@,
            width as nat,
            height as nat,
        ),
    ensures
        result_view(r) == ktx2_pixels_result(format, data@, width, height),
        r matches Ok(rgba) ==> rgba@.len() == 4 * width * height,
{
    let pixel_count = (width * height) as usize;
    assert(4 * width * height == 4 * (width * height)) by (nonlinear_arith);
    if format == R8G8B8A8_UNORM || format == R8G8B8A8_SRGB {
        Ok(decode_uncompressed_rgba(data, pixel_count))
    } else if format == R8G8B8_UNORM || format == R8G8B8_SRGB {
        proof {
            lemma_rgb_to_rgba_pixels(data@, pixel_count as nat);
        }
        Ok(decode_uncompressed_rgb(data, pixel_count))
    } else {
        match decode_block_compressed(format, data, width as usize, height as usize) {
            Ok(buf) => {
                proof {
                    lemma_bgra_words_to_rgba_pixels(buf@);
                }
                Ok(bgra_u32_to_rgba_u8(buf.as_slice()))
            },
            Err(e) => Err(e),
        }
    }
}

} // verus!

verus! {

/// Decoded RGBA8 texels: `width * height` pixels of four bytes, row by row.
pub struct RgbaPixels {
    pub width: u32,
    pub height: u32,
    pub rgba: Vec<u8>,
}

impl View for RgbaPixels {
    type V = (u32, u32, Seq<u8>);

    open spec fn view(&self) -> (u32, u32, Seq<u8>) {
        (self.width, self.height, self.rgba@)
    }
}

/// What decoding a KTX2 file's bytes to RGBA8 gives. The container must be
/// read, hold a mip level and give a pixel format; a texel count that does
/// not fit in 32 bits (or buffers that would not fit in memory), and an
/// uncompressed first level shorter than its texels, are refused; the first
/// level is then decoded.
pub open spec fn ktx2_rgba_result(data: Seq<u8>) -> Result<(u32, u32, Seq<u8>), DecodeErrorView> {
    match ktx2_read(data) {
        Err(message) => Err(DecodeErrorView::Ktx2Parse(message)),
        Ok((format, width, height, levels)) => if levels.len() == 0 {
            Err(DecodeErrorView::NoMipLevels)
        } else {
            let level = levels[0];
            match format {
                None => Err(DecodeErrorView::NoFormat),
                Some(format) => if !texel_sizes_fit(format, width, height) {
                    Err(DecodeErrorView::DimensionsOverflow)
                } else if !level_holds_texels(format, level.len(), (width * height) as nat) {
                    Err(DecodeErrorView::LevelTooShort)
                } else {
                    match ktx2_pixels_result(format, level, width, height) {
                        Ok(rgba) => Ok((width, height, rgba)),
                        Err(e) => Err(e),
                    }
                },
            }
        },
    }
}

/// Whether the texel sizes fit, computed without overflow.
fn check_texel_sizes(format: u32, width: u32, height: u32) -> (fits: bool)
    ensures
        fits == texel_sizes_fit(format, width, height),
{
    let w = width as u128;
    let h = height as u128;
    assert(w * h <= 0xffff_ffffu128 * 0xffff_ffffu128) by (nonlinear_arith)
        requires
            w <= 0xffff_ffffu128,
            h <= 0xffff_ffffu128,
    ;
    let texels = w * h;
    let blocks_x = (w + 3) / 4;
    let blocks_y = (h + 3) / 4;
    assert(blocks_x * blocks_y <= 0x4000_0000u128 * 0x4000_0000u128) by (nonlinear_arith)
        requires
            blocks_x <= 0x4000_0000u128,
            blocks_y <= 0x4000_0000u128,
    ;
    let block_bytes = blocks_x * blocks_y * 16;
    assert(4 * width * height == 4 * texels) by (nonlinear_arith)
        requires
            texels == w * h,
            w == width,
            h == height,
    ;
    let rgba8 = format == R8G8B8A8_UNORM || format == R8G8B8A8_SRGB;
    let rgb8 = format == R8G8B8_UNORM || format == R8G8B8_SRGB;
    let buffers_fit = if rgba8 {
        true
    } else if rgb8 {
        4 * texels <= isize::MAX as u128
    } else {
        texels <= usize::MAX as u128 && block_bytes <= usize::MAX as u128 && 4 * texels
            <= isize::MAX as u128
    };
    texels <= 0xffff_ffffu128 && buffers_fit
}

/// The ASTC decoder would panic on the first mip level of this KTX2 file:
/// the container is read, gives an ASTC 4x4 format and sizes that fit, and
/// its first level holds blocks on which the decoder panics.
pub open spec fn ktx2_astc_panics(data: Seq<u8>) -> bool {
    match ktx2_read(data) {
        Ok((Some(format), width, height, levels)) => {
            &&& levels.len() > 0
            &&& block_codec_of(format) == Some(BlockCodec::Astc4x4)
            &&& texel_sizes_fit(format, width, height)
            &&& astc_data_panics(levels[0], width as nat, height as nat)
        },
        _ => false,
    }
}

/// Whether decoding this KTX2 file would reach the ASTC decoder with blocks
/// on which it panics.
pub fn ktx2_astc_would_panic(data: &[u8]) -> (panics: bool)
    requires
        !ktx2_reader_panics(data@),
    ensures
        panics == ktx2_astc_panics(data@),
{
    let contents = match read_ktx2(data) {
        Ok(contents) => contents,
        Err(_) => return false,
    };
    if contents.levels.len() == 0 {
        return false;
    }
    let level = &contents.levels[0];
    proof {
        assert(contents@.3[0] == level@);
    }
    let format = match contents.format {
        Some(format) => format,
        None => return false,
    };
    match block_codec(format) {
        Some(BlockCodec::Astc4x4) => {},
        _ => return false,
    }
    if !check_texel_sizes(format, contents.pixel_width, contents.pixel_height) {
        return false;
    }
    astc_data_would_panic(
        level.as_slice(),
        contents.pixel_width as usize,
        contents.pixel_height as usize,
    )
}

/// Decodes the bytes of a KTX2 file into RGBA8 texels of its first mip level.
pub fn decode_ktx2_rgba(data: &[u8]) -> (r: Result<RgbaPixels, DecodeError>)
    requires
        !ktx2_reader_panics(data@),
        !ktx2_astc_panics(data@),
    ensures
        result_view(r) == ktx2_rgba_result(data@),
        r matches Ok(pixels) ==> pixels.rgba@.len() == 4 * pixels.width * pixels.height,
        !(r matches Err(DecodeError::NoMipLevels)),
{
    let contents = match read_ktx2(data) {
        Ok(contents) => contents,
        Err(message) => return Err(DecodeError::Ktx2Parse(message)),
    };
    let width = contents.pixel_width;
    let height = contents.pixel_height;
    if contents.levels.len() == 0 {
        return Err(DecodeError::NoMipLevels);
    }
    let level = &contents.levels[0];
    proof {
        assert(contents@.3[0] == level@);
    }
    let format = match contents.format {
        Some(format) => format,
        None => return Err(DecodeError::NoFormat),
    };
    if !check_texel_sizes(format, width, height) {
        return Err(DecodeError::DimensionsOverflow);
    }
    let pixel_count = (width * height) as u128;
    let level_len = level.len() as u128;
    if (format == R8G8B8A8_UNORM || format == R8G8B8A8_SRGB) && level_len < 4 * pixel_count {
        return Err(DecodeError::LevelTooShort);
    }
    if (format == R8G8B8_UNORM || format == R8G8B8_SRGB) && level_len < 3 * pixel_count {
        return Err(DecodeError::LevelTooShort);
    }
    match decode_ktx2_pixels(format, level.as_slice(), width, height) {
        Ok(rgba) => Ok(RgbaPixels { width, height, rgba }),
        Err(e) => Err(e),
    }
}

/// What decoding a KTX2 file's bytes into an image gives: the decoded texels
/// become an RGBA8 image unless `4 * width` overflows `usize` (which the
/// image buffer refuses).
pub open spec fn ktx2_image_result(data: Seq<u8>) -> Result<(), DecodeErrorView> {
    match ktx2_rgba_result(data) {
        Err(e) => Err(e),
        Ok((width, height, rgba)) => if 4 * width <= usize::MAX {
            Ok(())
        } else {
            Err(DecodeErrorView::ImageBuffer)
        },
    }
}

/// Decodes the bytes of a KTX2 file into an RGBA8 image of its first mip level.
pub fn decode_ktx2(data: &[u8]) -> (r: Result<DynamicImage, DecodeError>)
    requires
        !ktx2_reader_panics(data@),
        !ktx2_astc_panics(data@),
    ensures
        r is Ok <==> ktx2_image_result(data@) is Ok,
        r matches Err(e) ==> ktx2_image_result(data@) == Err::<(), _>(e@),
        r matches Ok(image) ==> (ktx2_rgba_result(data@) matches Ok((width, height, rgba))
            && image == rgba8_image_of(width, height, rgba)),
{
    let pixels = match decode_ktx2_rgba(data) {
        Ok(pixels) => pixels,
        Err(e) => return Err(e),
    };
    let rgba_len = pixels.rgba.len();
    assert(4 * pixels.width * pixels.height == rgba_len);
    match rgba8_image(pixels.width, pixels.height, pixels.rgba) {
        Some(image) => Ok(image),
        None => Err(DecodeError::ImageBuffer),
    }
}

/// Decodes the bytes of a KTX2 file into an RGBA8 image of its first mip
/// level, as `decode_ktx2` does, where that is safe: `None` where the KTX2
/// reader or the ASTC decoder would panic on the file.
pub fn decode_ktx2_checked(data: &[u8]) -> (r: Option<Result<DynamicImage, DecodeError>>)
    ensures
        r is None <==> ktx2_reader_panics(data@) || ktx2_astc_panics(data@),
        r matches Some(res) ==> (res is Ok <==> ktx2_image_result(data@) is Ok),
        r matches Some(Err(e)) ==> ktx2_image_result(data@) == Err::<(), _>(e@),
        r matches Some(Ok(image)) ==> (ktx2_rgba_result(data@) matches Ok((width, height, rgba))
            && image == rgba8_image_of(width, height, rgba)),
{
    if ktx2_reader_would_panic(data) {
        return None;
    }
    if ktx2_astc_would_panic(data) {
        return None;
    }
    Some(decode_ktx2(data))
}

/// Where `usize` holds four times any 32-bit width (on 64-bit targets), a
/// KTX2 file whose texels decode always becomes an image: the decoded bytes
/// fill the RGBA8 buffer exactly.
pub proof fn lemma_decoded_ktx2_always_fits_image(data: Seq<u8>)
    requires
        4 * (u32::MAX as int) <= usize::MAX,
    ensures
        ktx2_image_result(data) is Ok <==> ktx2_rgba_result(data) is Ok,
{
}

} // verus!

verus! {

/// The UNORM and SRGB variants of the uncompressed formats decode alike:
/// texel bytes pass through with no colour-space conversion.
pub proof fn lemma_unorm_and_srgb_decode_alike(data: Seq<u8>, width: u32, height: u32)
    ensures
        ktx2_pixels_result(R8G8B8A8_UNORM, data, width, height) == ktx2_pixels_result(
            R8G8B8A8_SRGB,
            data,
            width,
            height,
        ),
        ktx2_pixels_result(R8G8B8_UNORM, data, width, height) == ktx2_pixels_result(
            R8G8B8_SRGB,
            data,
            width,
            height,
        ),
{
}

/// Block-compressed formats handed to the same decoder give the same RGBA8
/// bytes, or fail alike.
pub proof fn lemma_block_formats_of_one_codec_decode_alike(
    format1: u32,
    format2: u32,
    data: Seq<u8>,
    width: u32,
    height: u32,
)
    requires
        block_codec_of(format1) is Some,
        block_codec_of(format1) == block_codec_of(format2),
    ensures
        ktx2_pixels_result(format1, data, width, height) == ktx2_pixels_result(
            format2,
            data,
            width,
            height,
        ),
{
    lemma_same_codec_decodes_alike(format1, format2, data, width as usize, height as usize);
}

} // verus!

verus! {

/// How a mip level's texels are decoded, by format: RGBA8 texels (37, 43)
/// are copied, `4 * width * height` bytes of them; RGB8 texels (23, 29) get
/// an opaque alpha; block-compressed texels are decoded as a `width x height`
/// image (width first) and their BGRA words turned into RGBA bytes; any
/// other format is refused.
pub proof fn lemma_level_texels_by_format(format: u32, data: Seq<u8>, width: u32, height: u32)
    ensures
        ({
            let r = ktx2_pixels_result(format, data, width, height);
            &&& (format == 37 || format == 43) ==> r == Ok::<_, DecodeErrorView>(
                data.subrange(0, 4 * (width * height)),
            )
            &&& (format == 23 || format == 29) ==> r == Ok::<_, DecodeErrorView>(
                rgb_to_rgba(data, (width * height) as nat),
            )
            &&& block_codec_of(format) is Some ==> r == match block_compressed_result(
                format,
                data,
                width as usize,
                height as usize,
            ) {
                Ok(words) => Ok(bgra_words_to_rgba(words)),
                Err(e) => Err(e),
            }
            &&& !(format == 37 || format == 43 || format == 23 || format == 29) && block_codec_of(
                format,
            ) is None ==> r == Err::<Seq<u8>, _>(DecodeErrorView::UnsupportedPixelFormat(format))
        }),
{
}

/// A KTX2 file is decoded from its first mip level, `levels[0]`, the largest:
/// once the container is read with a format, the sizes are checked, the first
/// level's length is checked against its texels, and that level's texels are
/// decoded at the texture's width and height. The ASTC decoder would panic
/// on the file exactly when it would on that first level.
pub proof fn lemma_first_mip_level_is_decoded(
    data: Seq<u8>,
    format: u32,
    width: u32,
    height: u32,
    levels: Seq<Seq<u8>>,
)
    requires
        ktx2_read(data) == Ok::<_, Seq<char>>((Some(format), width, height, levels)),
        levels.len() > 0,
    ensures
        !texel_sizes_fit(format, width, height) ==> ktx2_rgba_result(data) == Err::<
            (u32, u32, Seq<u8>),
            _,
        >(DecodeErrorView::DimensionsOverflow),
        texel_sizes_fit(format, width, height) && !level_holds_texels(
            format,
            levels[0].len(),
            (width * height) as nat,
        ) ==> ktx2_rgba_result(data) == Err::<(u32, u32, Seq<u8>), _>(
            DecodeErrorView::LevelTooShort,
        ),
        texel_sizes_fit(format, width, height) && level_holds_texels(
            format,
            levels[0].len(),
            (width * height) as nat,
        ) ==> ktx2_rgba_result(data) == match ktx2_pixels_result(format, levels[0], width, height) {
            Ok(rgba) => Ok((width, height, rgba)),
            Err(e) => Err(e),
        },
        ktx2_astc_panics(data) <==> (block_codec_of(format) == Some(BlockCodec::Astc4x4)
            && texel_sizes_fit(format, width, height) && astc_data_panics(
            levels[0],
            width as nat,
            height as nat,
        )),
{
}

/// An RGBA8 KTX2 file (format 37 or 43) whose first mip level holds its
/// texels decodes to the first `4 * width * height` bytes of that level,
/// whatever the smaller levels after it hold.
pub proof fn lemma_rgba8_first_level_passes_through(
    data: Seq<u8>,
    format: u32,
    width: u32,
    height: u32,
    levels: Seq<Seq<u8>>,
)
    requires
        ktx2_read(data) == Ok::<_, Seq<char>>((Some(format), width, height, levels)),
        levels.len() > 0,
        format == 37 || format == 43,
        width * height <= u32::MAX,
        4 * (width * height) <= levels[0].len(),
    ensures
        ktx2_rgba_result(data) == Ok::<_, DecodeErrorView>(
            (width, height, levels[0].subrange(0, 4 * (width * height))),
        ),
{
}

/// A KTX2 file the reader rejects is refused with the reader's message, and
/// one whose header gives no format is refused as such.
pub proof fn lemma_unreadable_or_formatless_ktx2_is_refused(data: Seq<u8>)
    ensures
        ktx2_read(data) matches Err(m) ==> ktx2_rgba_result(data) == Err::<(u32, u32, Seq<u8>), _>(
            DecodeErrorView::Ktx2Parse(m),
        ),
        ktx2_read(data) matches Ok((None, _, _, levels)) && levels.len() > 0
            ==> ktx2_rgba_result(data) == Err::<(u32, u32, Seq<u8>), _>(DecodeErrorView::NoFormat),
{
}

} // verus!
