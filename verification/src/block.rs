//! Block-compressed texels (BCn, ETC, ASTC), decoded by `texture2ddecoder`
//! into BGRA-packed 32-bit pixels.

use vstd::prelude::*;

use crate::astc::astc_data_panics;
use crate::error::{result_view, DecodeError, DecodeErrorView};
use crate::formats::{block_codec, block_codec_of, BlockCodec};

verus! {

/// The number of blocks of extent `block_extent` that cover `extent` texels.
pub open spec fn block_count(extent: nat, block_extent: nat) -> nat
    recommends
        block_extent > 0,
{
    ((extent + block_extent - 1) / (block_extent as int)) as nat
}

/// The message the block decoders of `texture2ddecoder` fail with, or `None`
/// when they decode: they need `block_bytes` bytes for each block that covers
/// the image, and an output buffer of at least `width * height` pixels.
pub open spec fn block_decode_failure(
    data_len: nat,
    width: nat,
    height: nat,
    image_len: nat,
    block_width: nat,
    block_height: nat,
    block_bytes: nat,
) -> Option<Seq<char>> {
    if data_len < block_count(width, block_width) * block_count(height, block_height)
        * block_bytes {
        Some("Not enough data to decode image!"@)
    } else if image_len < width * height {
        Some("Image buffer is too small!"@)
    } else {
        None
    }
}

/// The message the ASTC decoder fails with, or `None` when it decodes: the
/// general block checks, then a block of more than 144 texels is refused.
pub open spec fn astc_decode_failure(
    data_len: nat,
    width: nat,
    height: nat,
    image_len: nat,
    block_width: nat,
    block_height: nat,
) -> Option<Seq<char>> {
    match block_decode_failure(data_len, width, height, image_len, block_width, block_height, 16) {
        Some(m) => Some(m),
        None => if block_width * block_height > 144 {
            Some("Block size is too big!"@)
        } else {
            None
        },
    }
}

/// The block products that the decoders compute fit in `usize`.
pub open spec fn decoder_sizes_fit(
    width: nat,
    height: nat,
    block_width: nat,
    block_height: nat,
    block_bytes: nat,
) -> bool {
    &&& width * height <= usize::MAX
    &&& block_count(width, block_width) * block_count(height, block_height) * block_bytes
        <= usize::MAX
}

/// What `texture2ddecoder::decode_bc1` leaves in the output buffer when it succeeds.
pub uninterp spec fn bc1_decoded_pixels(data: Seq<u8>, width: usize, height: usize, image: Seq<u32>) -> Seq<u32>;

/// What `texture2ddecoder::decode_bc3` leaves in the output buffer when it succeeds.
pub uninterp spec fn bc3_decoded_pixels(data: Seq<u8>, width: usize, height: usize, image: Seq<u32>) -> Seq<u32>;

/// What `texture2ddecoder::decode_bc4` leaves in the output buffer when it succeeds.
pub uninterp spec fn bc4_decoded_pixels(data: Seq<u8>, width: usize, height: usize, image: Seq<u32>) -> Seq<u32>;

/// What `texture2ddecoder::decode_bc5` leaves in the output buffer when it succeeds.
pub uninterp spec fn bc5_decoded_pixels(data: Seq<u8>, width: usize, height: usize, image: Seq<u32>) -> Seq<u32>;

/// What `texture2ddecoder::decode_bc7` leaves in the output buffer when it succeeds.
pub uninterp spec fn bc7_decoded_pixels(data: Seq<u8>, width: usize, height: usize, image: Seq<u32>) -> Seq<u32>;

/// What `texture2ddecoder::decode_etc1` leaves in the output buffer when it succeeds.
pub uninterp spec fn etc1_decoded_pixels(data: Seq<u8>, width: usize, height: usize, image: Seq<u32>) -> Seq<u32>;

/// What `texture2ddecoder::decode_etc2_rgba8` leaves in the output buffer when it succeeds.
pub uninterp spec fn etc2_rgba8_decoded_pixels(data: Seq<u8>, width: usize, height: usize, image: Seq<u32>) -> Seq<u32>;

/// What `texture2ddecoder::decode_astc` leaves in the output buffer when it succeeds.
pub uninterp spec fn astc_decoded_pixels(data: Seq<u8>, width: usize, height: usize, block_width: usize, block_height: usize, image: Seq<u32>) -> Seq<u32>;

/// Calls `texture2ddecoder::decode_bc1` (8-byte blocks of 4x4 texels).
/// Trusted: it fails exactly as `block_decode_failure` says, before writing
/// anything; on success the buffer holds `bc1_decoded_pixels` of the inputs
/// (the decoded texels themselves are not stated); the buffer's length never
/// changes.
#[verifier::external_body]
fn bc1_decode(data: &[u8], width: usize, height: usize, image: &mut Vec<u32>) -> (r: Result<(), String>)
    requires
        decoder_sizes_fit(width as nat, height as nat, 4, 4, 8),
    ensures
        final(image)@.len() == old(image)@.len(),
        match r {
            Ok(_) => block_decode_failure(data@.len(), width as nat, height as nat, old(image)@.len(), 4, 4, 8) is None
                && final(image)@ == bc1_decoded_pixels(data@, width, height, old(image)@),
            Err(m) => block_decode_failure(data@.len(), width as nat, height as nat, old(image)@.len(), 4, 4, 8) == Some(m@)
                && final(image)@ == old(image)@,
        },
{
    match texture2ddecoder::decode_bc1(data, width, height, image) {
        Ok(()) => Ok(()),
        Err(message) => Err(String::from(message)),
    }
}

/// Calls `texture2ddecoder::decode_bc3` (16-byte blocks of 4x4 texels).
/// Trusted: it fails exactly as `block_decode_failure` says, before writing
/// anything; on success the buffer holds `bc3_decoded_pixels` of the inputs
/// (the decoded texels themselves are not stated); the buffer's length never
/// changes.
#[verifier::external_body]
fn bc3_decode(data: &[u8], width: usize, height: usize, image: &mut Vec<u32>) -> (r: Result<(), String>)
    requires
        decoder_sizes_fit(width as nat, height as nat, 4, 4, 16),
    ensures
        final(image)@.len() == old(image)@.len(),
        match r {
            Ok(_) => block_decode_failure(data@.len(), width as nat, height as nat, old(image)@.len(), 4, 4, 16) is None
                && final(image)@ == bc3_decoded_pixels(data@, width, height, old(image)@),
            Err(m) => block_decode_failure(data@.len(), width as nat, height as nat, old(image)@.len(), 4, 4, 16) == Some(m@)
                && final(image)@ == old(image)@,
        },
{
    match texture2ddecoder::decode_bc3(data, width, height, image) {
        Ok(()) => Ok(()),
        Err(message) => Err(String::from(message)),
    }
}

/// Calls `texture2ddecoder::decode_bc4` (8-byte blocks of 4x4 texels).
/// Trusted: it fails exactly as `block_decode_failure` says, before writing
/// anything; on success the buffer holds `bc4_decoded_pixels` of the inputs
/// (the decoded texels themselves are not stated); the buffer's length never
/// changes.
#[verifier::external_body]
fn bc4_decode(data: &[u8], width: usize, height: usize, image: &mut Vec<u32>) -> (r: Result<(), String>)
    requires
        decoder_sizes_fit(width as nat, height as nat, 4, 4, 8),
    ensures
        final(image)@.len() == old(image)@.len(),
        match r {
            Ok(_) => block_decode_failure(data@.len(), width as nat, height as nat, old(image)@.len(), 4, 4, 8) is None
                && final(image)@ == bc4_decoded_pixels(data@, width, height, old(image)@),
            Err(m) => block_decode_failure(data@.len(), width as nat, height as nat, old(image)@.len(), 4, 4, 8) == Some(m@)
                && final(image)@ == old(image)@,
        },
{
    match texture2ddecoder::decode_bc4(data, width, height, image) {
        Ok(()) => Ok(()),
        Err(message) => Err(String::from(message)),
    }
}

/// Calls `texture2ddecoder::decode_bc5` (16-byte blocks of 4x4 texels).
/// Trusted: it fails exactly as `block_decode_failure` says, before writing
/// anything; on success the buffer holds `bc5_decoded_pixels` of the inputs
/// (the decoded texels themselves are not stated); the buffer's length never
/// changes.
#[verifier::external_body]
fn bc5_decode(data: &[u8], width: usize, height: usize, image: &mut Vec<u32>) -> (r: Result<(), String>)
    requires
        decoder_sizes_fit(width as nat, height as nat, 4, 4, 16),
    ensures
        final(image)@.len() == old(image)@.len(),
        match r {
            Ok(_) => block_decode_failure(data@.len(), width as nat, height as nat, old(image)@.len(), 4, 4, 16) is None
                && final(image)@ == bc5_decoded_pixels(data@, width, height, old(image)@),
            Err(m) => block_decode_failure(data@.len(), width as nat, height as nat, old(image)@.len(), 4, 4, 16) == Some(m@)
                && final(image)@ == old(image)@,
        },
{
    match texture2ddecoder::decode_bc5(data, width, height, image) {
        Ok(()) => Ok(()),
        Err(message) => Err(String::from(message)),
    }
}

/// Calls `texture2ddecoder::decode_bc7` (16-byte blocks of 4x4 texels).
/// Trusted: it fails exactly as `block_decode_failure` says, before writing
/// anything; on success the buffer holds `bc7_decoded_pixels` of the inputs
/// (the decoded texels themselves are not stated); the buffer's length never
/// changes.
#[verifier::external_body]
fn bc7_decode(data: &[u8], width: usize, height: usize, image: &mut Vec<u32>) -> (r: Result<(), String>)
    requires
        decoder_sizes_fit(width as nat, height as nat, 4, 4, 16),
    ensures
        final(image)@.len() == old(image)@.len(),
        match r {
            Ok(_) => block_decode_failure(data@.len(), width as nat, height as nat, old(image)@.len(), 4, 4, 16) is None
                && final(image)@ == bc7_decoded_pixels(data@, width, height, old(image)@),
            Err(m) => block_decode_failure(data@.len(), width as nat, height as nat, old(image)@.len(), 4, 4, 16) == Some(m@)
                && final(image)@ == old(image)@,
        },
{
    match texture2ddecoder::decode_bc7(data, width, height, image) {
        Ok(()) => Ok(()),
        Err(message) => Err(String::from(message)),
    }
}

/// Calls `texture2ddecoder::decode_etc1` (8-byte blocks of 4x4 texels).
/// Trusted: it fails exactly as `block_decode_failure` says, before writing
/// anything; on success the buffer holds `etc1_decoded_pixels` of the inputs
/// (the decoded texels themselves are not stated); the buffer's length never
/// changes.
#[verifier::external_body]
fn etc1_decode(data: &[u8], width: usize, height: usize, image: &mut Vec<u32>) -> (r: Result<(), String>)
    requires
        decoder_sizes_fit(width as nat, height as nat, 4, 4, 8),
    ensures
        final(image)@.len() == old(image)@.len(),
        match r {
            Ok(_) => block_decode_failure(data@.len(), width as nat, height as nat, old(image)@.len(), 4, 4, 8) is None
                && final(image)@ == etc1_decoded_pixels(data@, width, height, old(image)@),
            Err(m) => block_decode_failure(data@.len(), width as nat, height as nat, old(image)@.len(), 4, 4, 8) == Some(m@)
                && final(image)@ == old(image)@,
        },
{
    match texture2ddecoder::decode_etc1(data, width, height, image) {
        Ok(()) => Ok(()),
        Err(message) => Err(String::from(message)),
    }
}

/// Calls `texture2ddecoder::decode_etc2_rgba8` (16-byte blocks of 4x4 texels).
/// Trusted: it fails exactly as `block_decode_failure` says, before writing
/// anything; on success the buffer holds `etc2_rgba8_decoded_pixels` of the
/// inputs (the decoded texels themselves are not stated); the buffer's length
/// never changes.
#[verifier::external_body]
fn etc2_rgba8_decode(data: &[u8], width: usize, height: usize, image: &mut Vec<u32>) -> (r: Result<(), String>)
    requires
        decoder_sizes_fit(width as nat, height as nat, 4, 4, 16),
    ensures
        final(image)@.len() == old(image)@.len(),
        match r {
            Ok(_) => block_decode_failure(data@.len(), width as nat, height as nat, old(image)@.len(), 4, 4, 16) is None
                && final(image)@ == etc2_rgba8_decoded_pixels(data@, width, height, old(image)@),
            Err(m) => block_decode_failure(data@.len(), width as nat, height as nat, old(image)@.len(), 4, 4, 16) == Some(m@)
                && final(image)@ == old(image)@,
        },
{
    match texture2ddecoder::decode_etc2_rgba8(data, width, height, image) {
        Ok(()) => Ok(()),
        Err(message) => Err(String::from(message)),
    }
}

/// Calls `texture2ddecoder::decode_astc` (16-byte blocks of 4x4 texels).
/// Trusted: it fails exactly as `astc_decode_failure` says, before writing
/// anything; on success the buffer holds `astc_decoded_pixels` of the inputs
/// (the decoded texels themselves are not stated); the buffer's length never
/// changes. It is not called on data that `astc_data_panics` describes, on
/// which the decoder overflows or reads past the data's end.
#[verifier::external_body]
fn astc_decode(
    data: &[u8],
    width: usize,
    height: usize,
    block_width: usize,
    block_height: usize,
    image: &mut Vec<u32>,
) -> (r: Result<(), String>)
    requires
        block_width == 4,
        block_height == 4,
        decoder_sizes_fit(width as nat, height as nat, 4, 4, 16),
        old(image)@.len() >= width * height ==> !astc_data_panics(data@, width as nat, height as nat),
    ensures
        final(image)@.len() == old(image)@.len(),
        match r {
            Ok(_) => astc_decode_failure(data@.len(), width as nat, height as nat, old(image)@.len(), block_width as nat, block_height as nat) is None
                && final(image)@ == astc_decoded_pixels(data@, width, height, block_width, block_height, old(image)@),
            Err(m) => astc_decode_failure(data@.len(), width as nat, height as nat, old(image)@.len(), block_width as nat, block_height as nat) == Some(m@)
                && final(image)@ == old(image)@,
        },
{
    match texture2ddecoder::decode_astc(data, width, height, block_width, block_height, image) {
        Ok(()) => Ok(()),
        Err(message) => Err(String::from(message)),
    }
}

/// The bytes each block of a codec takes.
pub open spec fn codec_block_bytes(codec: BlockCodec) -> nat {
    match codec {
        BlockCodec::Bc1 | BlockCodec::Bc4 | BlockCodec::Etc1 => 8,
        _ => 16,
    }
}

/// The `width * height` pixels, all zero, that decoding starts from.
pub open spec fn zero_pixels(count: nat) -> Seq<u32> {
    Seq::new(count, |i: int| 0u32)
}

/// What decoding `data` with `codec` into a zeroed buffer of `width * height`
/// pixels gives: the decoder's message when it fails, else the buffer.
pub open spec fn codec_decode(codec: BlockCodec, data: Seq<u8>, width: usize, height: usize) -> Result<Seq<u32>, Seq<char>> {
    let n = (width * height) as nat;
    let init = zero_pixels(n);
    let failure = match codec {
        BlockCodec::Astc4x4 => astc_decode_failure(data.len(), width as nat, height as nat, n, 4, 4),
        _ => block_decode_failure(data.len(), width as nat, height as nat, n, 4, 4, codec_block_bytes(codec)),
    };
    match failure {
        Some(m) => Err(m),
        None => Ok(match codec {
            BlockCodec::Bc1 => bc1_decoded_pixels(data, width, height, init),
            BlockCodec::Bc3 => bc3_decoded_pixels(data, width, height, init),
            BlockCodec::Bc4 => bc4_decoded_pixels(data, width, height, init),
            BlockCodec::Bc5 => bc5_decoded_pixels(data, width, height, init),
            BlockCodec::Bc7 => bc7_decoded_pixels(data, width, height, init),
            BlockCodec::Etc1 => etc1_decoded_pixels(data, width, height, init),
            BlockCodec::Etc2Rgba8 => etc2_rgba8_decoded_pixels(data, width, height, init),
            BlockCodec::Astc4x4 => astc_decoded_pixels(data, width, height, 4, 4, init),
        }),
    }
}

/// What decoding block-compressed texels of a KTX2 `format` gives: the format
/// is refused when no block decoder handles it, the decoder's message is
/// passed on when it fails, else the decoded BGRA pixels.
pub open spec fn block_compressed_result(format: u32, data: Seq<u8>, width: usize, height: usize) -> Result<Seq<u32>, DecodeErrorView> {
    match block_codec_of(format) {
        None => Err(DecodeErrorView::UnsupportedPixelFormat(format)),
        Some(codec) => match codec_decode(codec, data, width, height) {
            Ok(pixels) => Ok(pixels),
            Err(m) => Err(DecodeErrorView::Decoder(m)),
        },
    }
}

/// Decodes block-compressed texels of a KTX2 `format` into `width * height`
/// BGRA-packed pixels.
pub fn decode_block_compressed(format: u32, data: &[u8], width: usize, height: usize) -> (r: Result<Vec<u32>, DecodeError>)
    requires
        decoder_sizes_fit(width as nat, height as nat, 4, 4, 16),
        4 * width * height <= isize::MAX,
        block_codec_of(format) == Some(BlockCodec::Astc4x4) ==> !astc_data_panics(
            data@,
            width as nat,
            height as nat,
        ),
    ensures
        result_view(r) == block_compressed_result(format, data@, width, height),
        r matches Ok(pixels) ==> pixels@.len() == width * height,
{
    let mut buf = vec![0u32; width * height];
    let ghost init = buf@;
    proof {
        assert(init =~= zero_pixels((width * height) as nat));
    }
    let codec = match block_codec(format) {
        Some(codec) => codec,
        None => return Err(DecodeError::UnsupportedPixelFormat(format)),
    };
    let outcome = match codec {
        BlockCodec::Bc1 => bc1_decode(data, width, height, &mut buf),
        BlockCodec::Bc3 => bc3_decode(data, width, height, &mut buf),
        BlockCodec::Bc4 => bc4_decode(data, width, height, &mut buf),
        BlockCodec::Bc5 => bc5_decode(data, width, height, &mut buf),
        BlockCodec::Bc7 => bc7_decode(data, width, height, &mut buf),
        BlockCodec::Etc1 => etc1_decode(data, width, height, &mut buf),
        BlockCodec::Etc2Rgba8 => etc2_rgba8_decode(data, width, height, &mut buf),
        BlockCodec::Astc4x4 => astc_decode(data, width, height, 4, 4, &mut buf),
    };
    match outcome {
        Ok(()) => Ok(buf),
        Err(message) => Err(DecodeError::Decoder(message)),
    }
}

} // verus!

verus! {

/// Every format that has a block decoder refuses an empty payload for a
/// non-empty image with the decoder's message that data is missing.
pub proof fn lemma_empty_payload_is_refused(format: u32, width: usize, height: usize)
    requires
        block_codec_of(format) is Some,
        width > 0,
        height > 0,
    ensures
        block_compressed_result(format, Seq::<u8>::empty(), width, height) == Err::<Seq<u32>, _>(
            DecodeErrorView::Decoder("Not enough data to decode image!"@),
        ),
{
    let codec = block_codec_of(format).unwrap();
    assert(block_count(width as nat, 4) >= 1);
    assert(block_count(height as nat, 4) >= 1);
    assert(block_count(width as nat, 4) * block_count(height as nat, 4) >= 1) by (nonlinear_arith)
        requires
            block_count(width as nat, 4) >= 1,
            block_count(height as nat, 4) >= 1,
    ;
    assert(block_count(width as nat, 4) * block_count(height as nat, 4) * codec_block_bytes(codec)
        >= 1) by (nonlinear_arith)
        requires
            block_count(width as nat, 4) * block_count(height as nat, 4) >= 1,
            codec_block_bytes(codec) >= 8,
    ;
}

} // verus!

verus! {

/// Formats handed to the same block decoder decode alike: no colour-space or
/// signedness handling tells the UNORM, SNORM and SRGB variants apart.
pub proof fn lemma_same_codec_decodes_alike(
    format1: u32,
    format2: u32,
    data: Seq<u8>,
    width: usize,
    height: usize,
)
    requires
        block_codec_of(format1) is Some,
        block_codec_of(format1) == block_codec_of(format2),
    ensures
        block_compressed_result(format1, data, width, height) == block_compressed_result(
            format2,
            data,
            width,
            height,
        ),
{
}

} // verus!

verus! {

/// What a decoder's run gives: its message when it fails, else the pixels it
/// wrote.
pub open spec fn decoder_outcome(failure: Option<Seq<char>>, pixels: Seq<u32>) -> Result<Seq<u32>, DecodeErrorView> {
    match failure {
        Some(m) => Err(DecodeErrorView::Decoder(m)),
        None => Ok(pixels),
    }
}

/// Block-compressed texels of each Vulkan format go to the decoder of that
/// format, run on a zeroed `width x height` buffer (width first): BC1
/// (131 to 134), BC4 (139, 140) and ETC2 RGB as ETC1 (147, 148) with 8-byte
/// blocks; BC3 (137, 138), BC5 (141, 142), BC7 (145, 146), ETC2 RGBA8
/// (151, 152) and ASTC 4x4 (157, 158) with 16-byte blocks. Every other format
/// is refused as unsupported.
pub proof fn lemma_formats_reach_their_decoders(format: u32, data: Seq<u8>, width: usize, height: usize)
    ensures
        ({
            let n = (width * height) as nat;
            let zeros = Seq::new(n, |i: int| 0u32);
            let w = width as nat;
            let h = height as nat;
            let r = block_compressed_result(format, data, width, height);
            &&& 131 <= format <= 134 ==> r == decoder_outcome(
                block_decode_failure(data.len(), w, h, n, 4, 4, 8),
                bc1_decoded_pixels(data, width, height, zeros),
            )
            &&& (format == 137 || format == 138) ==> r == decoder_outcome(
                block_decode_failure(data.len(), w, h, n, 4, 4, 16),
                bc3_decoded_pixels(data, width, height, zeros),
            )
            &&& (format == 139 || format == 140) ==> r == decoder_outcome(
                block_decode_failure(data.len(), w, h, n, 4, 4, 8),
                bc4_decoded_pixels(data, width, height, zeros),
            )
            &&& (format == 141 || format == 142) ==> r == decoder_outcome(
                block_decode_failure(data.len(), w, h, n, 4, 4, 16),
                bc5_decoded_pixels(data, width, height, zeros),
            )
            &&& (format == 145 || format == 146) ==> r == decoder_outcome(
                block_decode_failure(data.len(), w, h, n, 4, 4, 16),
                bc7_decoded_pixels(data, width, height, zeros),
            )
            &&& (format == 147 || format == 148) ==> r == decoder_outcome(
                block_decode_failure(data.len(), w, h, n, 4, 4, 8),
                etc1_decoded_pixels(data, width, height, zeros),
            )
            &&& (format == 151 || format == 152) ==> r == decoder_outcome(
                block_decode_failure(data.len(), w, h, n, 4, 4, 16),
                etc2_rgba8_decoded_pixels(data, width, height, zeros),
            )
            &&& (format == 157 || format == 158) ==> r == decoder_outcome(
                astc_decode_failure(data.len(), w, h, n, 4, 4),
                astc_decoded_pixels(data, width, height, 4, 4, zeros),
            )
            &&& !(131 <= format <= 134 || 137 <= format <= 142 || 145 <= format <= 148 || format
                == 151 || format == 152 || format == 157 || format == 158) ==> r == Err::<
                Seq<u32>,
                _,
            >(DecodeErrorView::UnsupportedPixelFormat(format))
        }),
{
    let n = (width * height) as nat;
    assert(Seq::new(n, |i: int| 0u32) =~= zero_pixels(n));
}

} // verus!
