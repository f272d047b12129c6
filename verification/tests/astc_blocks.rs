use ktx2::Format;
use texture_preview::astc::astc_data_would_panic;
use texture_preview::block::decode_block_compressed;
use texture_preview::ktx2_container::{decode_ktx2_checked, ktx2_astc_would_panic};

/// A block whose first four bytes are given and whose other bytes are zero.
fn astc_block(head: [u8; 4]) -> Vec<u8> {
    let mut block = vec![0_u8; 16];
    block[..4].copy_from_slice(&head);
    block
}

fn astc_ktx2(width: u32, height: u32, texels: &[u8]) -> Vec<u8> {
    let header = ktx2::Header {
        format: Some(Format::ASTC_4x4_UNORM_BLOCK),
        type_size: 1,
        pixel_width: width,
        pixel_height: height,
        pixel_depth: 0,
        layer_count: 0,
        face_count: 1,
        level_count: 1,
        supercompression_scheme: None,
        index: ktx2::Index {
            dfd_byte_offset: (ktx2::Header::LENGTH + ktx2::LevelIndex::LENGTH) as u32,
            dfd_byte_length: 4,
            kvd_byte_offset: 0,
            kvd_byte_length: 0,
            sgd_byte_offset: 0,
            sgd_byte_length: 0,
        },
    };
    let pixel_offset = (ktx2::Header::LENGTH + ktx2::LevelIndex::LENGTH) as u64 + 4;
    let level = ktx2::LevelIndex {
        byte_offset: pixel_offset,
        byte_length: texels.len() as u64,
        uncompressed_byte_length: texels.len() as u64,
    };
    let mut bytes = Vec::new();
    bytes.extend_from_slice(&header.as_bytes());
    bytes.extend_from_slice(&level.as_bytes());
    bytes.extend_from_slice(&4_u32.to_le_bytes());
    bytes.extend_from_slice(texels);
    bytes
}

#[test]
fn astc_blocks_whose_weights_overflow_the_block_are_caught() {
    // 6x10 weights on two planes, one bit each: 120 weight bits and 19
    // configuration bits.
    assert!(astc_data_would_panic(&astc_block([0x84, 0x05, 0, 0]), 4, 4));
    // The same grid with two bits per weight: 240 weight bits.
    assert!(astc_data_would_panic(&astc_block([0x88, 0x05, 0, 0]), 4, 4));
}

#[test]
fn astc_blocks_the_decoder_handles_are_not_caught() {
    assert!(!astc_data_would_panic(&[0xA5; 16], 4, 4));
    // A void-extent block (one colour) and a reserved block.
    assert!(!astc_data_would_panic(&astc_block([0xFC, 0x01, 0xFF, 0xFF]), 4, 4));
    assert!(!astc_data_would_panic(&[0; 16], 4, 4));
    // Data too short for the image is refused by the decoder, not decoded.
    assert!(!astc_data_would_panic(&astc_block([0x84, 0x05, 0, 0])[..15], 4, 4));
}

#[test]
fn every_astc_block_covering_the_image_is_checked() {
    let mut data = vec![0xA5_u8; 16];
    data.extend_from_slice(&astc_block([0x84, 0x05, 0, 0]));
    assert!(!astc_data_would_panic(&data, 4, 4));
    assert!(astc_data_would_panic(&data, 8, 4));
    assert!(astc_data_would_panic(&data, 5, 1));
}

#[test]
fn astc_endpoint_reads_past_the_data_are_caught() {
    // Three partitions of 8 endpoint values leave no room for the 24 values,
    // which the decoder then reads as bytes beyond the block.
    let block = astc_block([0x01, 0x17, 0x00, 0x18]);
    assert!(astc_data_would_panic(&block, 4, 4));
    let mut padded = block.clone();
    padded.extend_from_slice(&[0x3C; 32]);
    assert!(!astc_data_would_panic(&padded, 4, 4));
    let bgra = decode_block_compressed(Format::ASTC_4x4_UNORM_BLOCK.value(), &padded, 4, 4).unwrap();
    assert_eq!(bgra.len(), 16);
}

#[test]
fn astc_blocks_that_pass_the_check_decode() {
    let tails: [(u8, u8); 4] = [(0x00, 0x00), (0x81, 0x1F), (0x80, 0x19), (0x01, 0x0E)];
    for b0 in 0..=255_u8 {
        for b1 in 0..=255_u8 {
            let derived = [(b0 ^ b1, b1.rotate_left(3)), (b1.wrapping_add(0x37), b0.rotate_right(2))];
            for &(b2, b3) in tails.iter().chain(derived.iter()) {
                let mut data = astc_block([b0, b1, b2, b3]);
                for i in 4..16 {
                    data[i] = b0.wrapping_mul(i as u8).wrapping_add(b1);
                }
                for extra in [0_usize, 32] {
                    let mut bytes = data.clone();
                    bytes.extend(std::iter::repeat(b1 ^ 0x5A).take(extra));
                    if !astc_data_would_panic(&bytes, 4, 4) {
                        let bgra = decode_block_compressed(Format::ASTC_4x4_UNORM_BLOCK.value(), &bytes, 4, 4)
                            .unwrap();
                        assert_eq!(bgra.len(), 16);
                    }
                }
            }
        }
    }
}

#[test]
fn ktx2_astc_files_the_decoder_would_panic_on_are_refused() {
    let file = astc_ktx2(4, 4, &astc_block([0x84, 0x05, 0, 0]));
    assert!(ktx2_astc_would_panic(&file));
    assert!(decode_ktx2_checked(&file).is_none());
}

#[test]
fn ktx2_astc_files_decode_through_the_checked_entry() {
    let file = astc_ktx2(4, 4, &[0xA5; 16]);
    assert!(!ktx2_astc_would_panic(&file));
    let image = decode_ktx2_checked(&file).unwrap().unwrap().to_rgba8();
    assert_eq!(image.dimensions(), (4, 4));
    let short = astc_ktx2(8, 4, &[0xA5; 16]);
    assert!(!ktx2_astc_would_panic(&short));
    match decode_ktx2_checked(&short) {
        Some(Err(texture_preview::DecodeError::Decoder(message))) => {
            assert_eq!(message, "Not enough data to decode image!")
        }
        _ => panic!("short ASTC level was not refused"),
    }
}
