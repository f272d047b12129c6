use texture_preview::pixels::{
    bgra_u32_to_rgba_u8, decode_uncompressed_rgb, decode_uncompressed_rgba,
};

#[test]
fn uncompressed_rgba_copies_exact_pixel_bytes() {
    let data = [1, 2, 3, 4, 5, 6, 7, 8, 9];
    assert_eq!(
        decode_uncompressed_rgba(&data, 2),
        vec![1, 2, 3, 4, 5, 6, 7, 8]
    );
}

#[test]
fn uncompressed_rgb_adds_opaque_alpha() {
    let data = [10, 20, 30, 40, 50, 60, 70];
    assert_eq!(
        decode_uncompressed_rgb(&data, 2),
        vec![10, 20, 30, 255, 40, 50, 60, 255]
    );
}

#[test]
fn converts_bgra_words_to_rgba_bytes() {
    const FIRST_BGRA_PIXEL: u32 = 0x44332211;
    const SECOND_BGRA_PIXEL: u32 = 0xDDCCBBAA;
    let pixels = [FIRST_BGRA_PIXEL, SECOND_BGRA_PIXEL];
    assert_eq!(
        bgra_u32_to_rgba_u8(&pixels),
        vec![0x33, 0x22, 0x11, 0x44, 0xCC, 0xBB, 0xAA, 0xDD]
    );
}

#[test]
fn zero_pixels_give_empty_buffers() {
    assert!(decode_uncompressed_rgba(&[1, 2, 3], 0).is_empty());
    assert!(decode_uncompressed_rgb(&[1, 2, 3], 0).is_empty());
    assert!(bgra_u32_to_rgba_u8(&[]).is_empty());
}

#[test]
fn rgb_expansion_drops_back_to_its_input() {
    let data = [9, 8, 7, 6, 5, 4, 3, 2, 1, 0, 250];
    let rgba = decode_uncompressed_rgb(&data, 3);
    assert_eq!(rgba.len(), 12);
    let dropped: Vec<u8> = rgba
        .chunks(4)
        .flat_map(|pixel| {
            assert_eq!(pixel[3], 255);
            pixel[..3].to_vec()
        })
        .collect();
    assert_eq!(dropped, data[..9].to_vec());
}

#[test]
fn bgra_conversion_repacks_to_the_same_words() {
    let words = [0x0000_0000u32, 0xFFFF_FFFF, 0x8040_2010, 0x01FE_7F80];
    let rgba = bgra_u32_to_rgba_u8(&words);
    assert_eq!(rgba.len(), 16);
    for (i, pixel) in rgba.chunks(4).enumerate() {
        let repacked = (pixel[2] as u32)
            | ((pixel[1] as u32) << 8)
            | ((pixel[0] as u32) << 16)
            | ((pixel[3] as u32) << 24);
        assert_eq!(repacked, words[i]);
    }
}

#[test]
fn rgba_copy_ignores_trailing_bytes() {
    let data = [1, 2, 3, 4, 5];
    assert_eq!(decode_uncompressed_rgba(&data, 1), vec![1, 2, 3, 4]);
}

#[test]
fn rgb_expansion_of_joined_buffers_is_joined() {
    let first = [1, 2, 3, 4, 5, 6];
    let second = [7, 8, 9, 10];
    let joined: Vec<u8> = first.iter().chain(second.iter()).copied().collect();
    let mut expected = decode_uncompressed_rgb(&first, 2);
    expected.extend(decode_uncompressed_rgb(&second, 1));
    assert_eq!(decode_uncompressed_rgb(&joined, 3), expected);
    assert_eq!(decode_uncompressed_rgb(&joined, 2), decode_uncompressed_rgb(&first, 2));
}
