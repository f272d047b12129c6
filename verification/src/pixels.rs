//! Conversions of raw pixel buffers into tightly packed RGBA8 bytes.

use vstd::prelude::*;

verus! {

/// The RGBA bytes of the first `pixel_count` pixels of tightly packed RGB8
/// data, each pixel given an opaque alpha of 255.
pub open spec fn rgb_to_rgba(rgb: Seq<u8>, pixel_count: nat) -> Seq<u8>
    decreases pixel_count,
{
    if pixel_count == 0 {
        seq![]
    } else {
        let p = pixel_count - 1;
        rgb_to_rgba(rgb, p as nat) + seq![rgb[3 * p], rgb[3 * p + 1], rgb[3 * p + 2], 255u8]
    }
}

/// Copies the RGBA8 bytes of the first `pixel_count` pixels.
pub fn decode_uncompressed_rgba(data: &[u8], pixel_count: usize) -> (rgba: Vec<u8>)
    requires
        4 * pixel_count <= data@.len(),
    ensures
        rgba@ == data@.subrange(0, 4 * pixel_count),
{
    let len = data.len();
    assert(pixel_count * 4 <= len);
    vstd::slice::slice_to_vec(&data[0..pixel_count * 4])
}

/// Expands the first `pixel_count` RGB8 pixels to RGBA8 with opaque alpha.
pub fn decode_uncompressed_rgb(data: &[u8], pixel_count: usize) -> (rgba: Vec<u8>)
    requires
        3 * pixel_count <= data@.len(),
        4 * pixel_count <= isize::MAX,
    ensures
        rgba@ == rgb_to_rgba(data@, pixel_count as nat),
{
    let mut rgba: Vec<u8> = Vec::with_capacity(pixel_count * 4);
    let len = data.len();
    let mut i: usize = 0;
    while i < pixel_count
        invariant
            i <= pixel_count,
            3 * pixel_count <= len,
            len == data@.len(),
            rgba@ == rgb_to_rgba(data@, i as nat),
        decreases pixel_count - i,
    {
        let base = i * 3;
        let ghost before = rgba@;
        rgba.push(data[base]);
        rgba.push(data[base + 1]);
        rgba.push(data[base + 2]);
        rgba.push(255);
        proof {
            assert(rgba@ =~= before + seq![data@[3 * i], data@[3 * i + 1], data@[3 * i + 2], 255u8]);
        }
        i += 1;
    }
    rgba
}

/// The four RGBA bytes of one pixel packed as a 32-bit BGRA word: blue in the
/// lowest byte, then green, then red, with alpha in the highest byte.
pub open spec fn bgra_word_to_rgba(pixel: u32) -> Seq<u8> {
    seq![
        ((pixel >> 16u32) & 0xffu32) as u8,
        ((pixel >> 8u32) & 0xffu32) as u8,
        (pixel & 0xffu32) as u8,
        ((pixel >> 24u32) & 0xffu32) as u8,
    ]
}

/// The RGBA bytes of a sequence of BGRA words, pixel after pixel.
pub open spec fn bgra_words_to_rgba(words: Seq<u32>) -> Seq<u8>
    decreases words.len(),
{
    if words.len() == 0 {
        seq![]
    } else {
        bgra_words_to_rgba(words.drop_last()) + bgra_word_to_rgba(words.last())
    }
}

/// Converts BGRA-packed 32-bit pixels into RGBA bytes.
pub fn bgra_u32_to_rgba_u8(buf: &[u32]) -> (rgba: Vec<u8>)
    ensures
        rgba@ == bgra_words_to_rgba(buf@),
{
    let mut rgba: Vec<u8> = Vec::new();
    let mut i: usize = 0;
    while i < buf.len()
        invariant
            i <= buf@.len(),
            rgba@ == bgra_words_to_rgba(buf@.take(i as int)),
        decreases buf@.len() - i,
    {
        let pixel = buf[i];
        let b = (pixel & 0xFF) as u8;
        let g = ((pixel >> 8) & 0xFF) as u8;
        let r = ((pixel >> 16) & 0xFF) as u8;
        let a = ((pixel >> 24) & 0xFF) as u8;
        let ghost before = rgba@;
        rgba.push(r);
        rgba.push(g);
        rgba.push(b);
        rgba.push(a);
        proof {
            assert(buf@.take(i + 1).drop_last() =~= buf@.take(i as int));
            assert(rgba@ =~= before + bgra_word_to_rgba(pixel));
        }
        i += 1;
    }
    proof {
        assert(buf@.take(buf@.len() as int) =~= buf@);
    }
    rgba
}

} // verus!

verus! {

/// The four bytes of pixel `i` in a tightly packed RGBA8 buffer.
pub open spec fn rgba_pixel(rgba: Seq<u8>, i: int) -> Seq<u8> {
    rgba.subrange(4 * i, 4 * i + 4)
}

/// The three bytes of pixel `i` in a tightly packed RGB8 buffer.
pub open spec fn rgb_pixel(rgb: Seq<u8>, i: int) -> Seq<u8> {
    rgb.subrange(3 * i, 3 * i + 3)
}

/// Expanding RGB8 to RGBA8 gives four bytes per pixel: the pixel's red,
/// green and blue bytes unchanged, then an opaque alpha of 255. Dropping
/// the alpha byte of each pixel therefore gives back the RGB8 input.
pub proof fn lemma_rgb_to_rgba_pixels(rgb: Seq<u8>, pixel_count: nat)
    requires
        3 * pixel_count <= rgb.len(),
    ensures
        rgb_to_rgba(rgb, pixel_count).len() == 4 * pixel_count,
        forall|i: int|
            0 <= i < pixel_count ==> #[trigger] rgba_pixel(rgb_to_rgba(rgb, pixel_count), i)
                == rgb_pixel(rgb, i).push(255u8),
    decreases pixel_count,
{
    if pixel_count > 0 {
        let p = (pixel_count - 1) as nat;
        lemma_rgb_to_rgba_pixels(rgb, p);
        let prev = rgb_to_rgba(rgb, p);
        let out = rgb_to_rgba(rgb, pixel_count);
        assert forall|i: int| 0 <= i < pixel_count implies #[trigger] rgba_pixel(out, i)
            == rgb_pixel(rgb, i).push(255u8) by {
            if i < p {
                assert(rgba_pixel(out, i) =~= rgba_pixel(prev, i));
            } else {
                assert(rgba_pixel(out, i) =~= rgb_pixel(rgb, i).push(255u8));
            }
        }
    }
}

/// Converting BGRA words gives four bytes per word, and the bytes of word
/// `i` are exactly that word's red, green, blue and alpha channels.
pub proof fn lemma_bgra_words_to_rgba_pixels(words: Seq<u32>)
    ensures
        bgra_words_to_rgba(words).len() == 4 * words.len(),
        forall|i: int|
            0 <= i < words.len() ==> #[trigger] rgba_pixel(bgra_words_to_rgba(words), i)
                == bgra_word_to_rgba(words[i]),
    decreases words.len(),
{
    if words.len() > 0 {
        let prev_words = words.drop_last();
        lemma_bgra_words_to_rgba_pixels(prev_words);
        let prev = bgra_words_to_rgba(prev_words);
        let out = bgra_words_to_rgba(words);
        assert forall|i: int| 0 <= i < words.len() implies #[trigger] rgba_pixel(out, i)
            == bgra_word_to_rgba(words[i]) by {
            if i < prev_words.len() {
                assert(rgba_pixel(out, i) =~= rgba_pixel(prev, i));
            } else {
                assert(rgba_pixel(out, i) =~= bgra_word_to_rgba(words.last()));
            }
        }
    }
}

/// Packing the RGBA bytes of a pixel back into a BGRA word gives the
/// original word: the conversion loses no bits.
pub proof fn lemma_bgra_word_round_trip(pixel: u32)
    ensures
        ({
            let rgba = bgra_word_to_rgba(pixel);
            (rgba[2] as u32) | ((rgba[1] as u32) << 8u32) | ((rgba[0] as u32) << 16u32) | (
            (rgba[3] as u32) << 24u32) == pixel
        }),
{
    let r = ((pixel >> 16u32) & 0xffu32) as u8;
    let g = ((pixel >> 8u32) & 0xffu32) as u8;
    let b = (pixel & 0xffu32) as u8;
    let a = ((pixel >> 24u32) & 0xffu32) as u8;
    assert((b as u32) | ((g as u32) << 8u32) | ((r as u32) << 16u32) | ((a as u32) << 24u32)
        == pixel) by (bit_vector)
        requires
            r == ((pixel >> 16u32) & 0xffu32) as u8,
            g == ((pixel >> 8u32) & 0xffu32) as u8,
            b == (pixel & 0xffu32) as u8,
            a == ((pixel >> 24u32) & 0xffu32) as u8,
    ;
}

} // verus!

verus! {

/// Packing the RGBA bytes of each converted pixel back into a BGRA word gives
/// the word it came from: the conversion of a whole buffer loses no bits.
pub proof fn lemma_bgra_words_round_trip(words: Seq<u32>)
    ensures
        forall|i: int|
            0 <= i < words.len() ==> {
                let rgba = #[trigger] rgba_pixel(bgra_words_to_rgba(words), i);
                (rgba[2] as u32) | ((rgba[1] as u32) << 8u32) | ((rgba[0] as u32) << 16u32) | (
                (rgba[3] as u32) << 24u32) == words[i]
            },
{
    lemma_bgra_words_to_rgba_pixels(words);
    assert forall|i: int| 0 <= i < words.len() implies {
        let rgba = #[trigger] rgba_pixel(bgra_words_to_rgba(words), i);
        (rgba[2] as u32) | ((rgba[1] as u32) << 8u32) | ((rgba[0] as u32) << 16u32) | (
        (rgba[3] as u32) << 24u32) == words[i]
    } by {
        lemma_bgra_word_round_trip(words[i]);
    }
}

} // verus!

verus! {

/// Bytes past the first `3 * pixel_count` never reach the RGB8 expansion.
pub proof fn lemma_rgb_to_rgba_ignores_trailing_bytes(rgb: Seq<u8>, extra: Seq<u8>, pixel_count: nat)
    requires
        3 * pixel_count <= rgb.len(),
    ensures
        rgb_to_rgba(rgb + extra, pixel_count) == rgb_to_rgba(rgb, pixel_count),
    decreases pixel_count,
{
    if pixel_count > 0 {
        let p: int = pixel_count - 1;
        lemma_rgb_to_rgba_ignores_trailing_bytes(rgb, extra, p as nat);
        let joined = rgb + extra;
        assert(joined[3 * p] == rgb[3 * p]);
        assert(joined[3 * p + 1] == rgb[3 * p + 1]);
        assert(joined[3 * p + 2] == rgb[3 * p + 2]);
    }
}

/// The RGB8 expansion of two whole buffers laid end to end is the expansion
/// of the first followed by that of the second.
pub proof fn lemma_rgb_to_rgba_concatenation(
    first: Seq<u8>,
    second: Seq<u8>,
    first_count: nat,
    second_count: nat,
)
    requires
        first.len() == 3 * first_count,
        3 * second_count <= second.len(),
    ensures
        rgb_to_rgba(first + second, first_count + second_count) == rgb_to_rgba(first, first_count)
            + rgb_to_rgba(second, second_count),
    decreases second_count,
{
    if second_count == 0 {
        lemma_rgb_to_rgba_ignores_trailing_bytes(first, second, first_count);
        assert(rgb_to_rgba(first, first_count) + rgb_to_rgba(second, 0) =~= rgb_to_rgba(
            first,
            first_count,
        ));
    } else {
        let m: int = second_count - 1;
        lemma_rgb_to_rgba_concatenation(first, second, first_count, m as nat);
        let joined = first + second;
        let p: int = first_count + m;
        assert(joined[3 * p] == second[3 * m]);
        assert(joined[3 * p + 1] == second[3 * m + 1]);
        assert(joined[3 * p + 2] == second[3 * m + 2]);
        assert(rgb_to_rgba(joined, first_count + second_count) == rgb_to_rgba(joined, p as nat) + seq![
            second[3 * m],
            second[3 * m + 1],
            second[3 * m + 2],
            255u8,
        ]);
        assert(rgb_to_rgba(first, first_count) + rgb_to_rgba(second, second_count) =~= (
        rgb_to_rgba(first, first_count) + rgb_to_rgba(second, m as nat)) + seq![
            second[3 * m],
            second[3 * m + 1],
            second[3 * m + 2],
            255u8,
        ]);
    }
}

} // verus!
