use ktx2::Format;
use texture_preview::block::decode_block_compressed;
use texture_preview::error::DecodeError;
use texture_preview::ktx2_container::{decode_ktx2, decode_ktx2_pixels, decode_ktx2_rgba};
use texture_preview::ktx2_reader::ktx2_reader_would_panic;

fn minimal_ktx2_header(format: Option<ktx2::Format>, width: u32, height: u32, dfd_offset: u64, dfd_len: u64) -> ktx2::Header {
    ktx2::Header {
        format,
        type_size: 1,
        pixel_width: width,
        pixel_height: height,
        pixel_depth: 0,
        layer_count: 0,
        face_count: 1,
        level_count: 1,
        supercompression_scheme: None,
        index: ktx2::Index {
            dfd_byte_offset: dfd_offset as u32,
            dfd_byte_length: dfd_len as u32,
            kvd_byte_offset: 0,
            kvd_byte_length: 0,
            sgd_byte_offset: 0,
            sgd_byte_length: 0,
        },
    }
}

fn minimal_ktx2_level(pixel_offset: u64, pixel_len: u64) -> ktx2::LevelIndex {
    ktx2::LevelIndex {
        byte_offset: pixel_offset,
        byte_length: pixel_len,
        uncompressed_byte_length: pixel_len,
    }
}

fn ktx2_file(format: Option<ktx2::Format>, width: u32, height: u32, texels: &[u8]) -> Vec<u8> {
    ktx2_file_with_dfd(format, width, height, &[], texels)
}

fn ktx2_file_with_dfd(
    format: Option<ktx2::Format>,
    width: u32,
    height: u32,
    dfd_blocks: &[u8],
    texels: &[u8],
) -> Vec<u8> {
    let header_len = ktx2::Header::LENGTH as u64;
    let level_index_len = ktx2::LevelIndex::LENGTH as u64;
    let dfd_len = 4_u64 + dfd_blocks.len() as u64;
    let dfd_offset = header_len + level_index_len;
    let pixel_offset = dfd_offset + dfd_len;
    let header = minimal_ktx2_header(format, width, height, dfd_offset, dfd_len);
    let level = minimal_ktx2_level(pixel_offset, texels.len() as u64);

    let mut bytes = Vec::new();
    bytes.extend_from_slice(&header.as_bytes());
    bytes.extend_from_slice(&level.as_bytes());
    bytes.extend_from_slice(&(dfd_len as u32).to_le_bytes());
    bytes.extend_from_slice(dfd_blocks);
    bytes.extend_from_slice(texels);
    bytes
}

fn minimal_rgba_ktx2(pixel: [u8; 4]) -> Vec<u8> {
    ktx2_file(Some(ktx2::Format::R8G8B8A8_UNORM), 1, 1, &pixel)
}

#[test]
fn decodes_uncompressed_ktx2_pixel_formats() {
    let rgba = decode_ktx2_pixels(Format::R8G8B8A8_UNORM.value(), &[1, 2, 3, 4], 1, 1).unwrap();
    assert_eq!(rgba, vec![1, 2, 3, 4]);

    let rgb = decode_ktx2_pixels(Format::R8G8B8_SRGB.value(), &[5, 6, 7], 1, 1).unwrap();
    assert_eq!(rgb, vec![5, 6, 7, 255]);
}

#[test]
fn rejects_unsupported_block_format() {
    let err = decode_block_compressed(ktx2::Format::R4G4_UNORM_PACK8.value(), &[], 1, 1).unwrap_err();
    assert!(matches!(err, DecodeError::UnsupportedPixelFormat(f) if f == ktx2::Format::R4G4_UNORM_PACK8.value()));
}

#[test]
fn supported_block_formats_report_decoder_errors_for_invalid_payloads() {
    let formats = [
        Format::BC1_RGB_UNORM_BLOCK,
        Format::BC1_RGB_SRGB_BLOCK,
        Format::BC1_RGBA_UNORM_BLOCK,
        Format::BC1_RGBA_SRGB_BLOCK,
        Format::BC3_UNORM_BLOCK,
        Format::BC3_SRGB_BLOCK,
        Format::BC4_UNORM_BLOCK,
        Format::BC4_SNORM_BLOCK,
        Format::BC5_UNORM_BLOCK,
        Format::BC5_SNORM_BLOCK,
        Format::BC7_UNORM_BLOCK,
        Format::BC7_SRGB_BLOCK,
        Format::ETC2_R8G8B8_UNORM_BLOCK,
        Format::ETC2_R8G8B8_SRGB_BLOCK,
        Format::ETC2_R8G8B8A8_UNORM_BLOCK,
        Format::ETC2_R8G8B8A8_SRGB_BLOCK,
        Format::ASTC_4x4_UNORM_BLOCK,
        Format::ASTC_4x4_SRGB_BLOCK,
    ];

    for format in formats {
        let err = decode_block_compressed(format.value(), &[], 4, 4).unwrap_err();
        match err {
            DecodeError::Decoder(message) => {
                assert!(!message.is_empty());
                assert_eq!(message, "Not enough data to decode image!");
            }
            other => panic!("unexpected error {:?}", other),
        }
    }
}

#[test]
fn decodes_valid_bc1_block_to_rgba_bytes() {
    let block = [0_u8; 8];

    let bgra =
        decode_block_compressed(ktx2::Format::BC1_RGB_UNORM_BLOCK.value(), &block, 4, 4).unwrap();
    let rgba = decode_ktx2_pixels(ktx2::Format::BC1_RGB_UNORM_BLOCK.value(), &block, 4, 4).unwrap();

    assert_eq!(bgra.len(), 16);
    assert_eq!(rgba.len(), 64);
}

#[test]
fn decodes_minimal_uncompressed_ktx2_file() {
    let image = decode_ktx2(&minimal_rgba_ktx2([1, 2, 3, 4])).unwrap();
    let rgba = image.to_rgba8();

    assert_eq!(rgba.dimensions(), (1, 1));
    assert_eq!(rgba.get_pixel(0, 0).0, [1, 2, 3, 4]);
}

#[test]
fn invalid_texture_payloads_report_parse_errors() {
    assert!(!ktx2_reader_would_panic(b"not ktx2"));
    assert!(matches!(decode_ktx2(b"not ktx2"), Err(DecodeError::Ktx2Parse(_))));
}

/// A basic DFD block with the given texel block dimension bytes and one sample.
fn basic_dfd_block(dimensions: [u8; 4], sample_bit_length: u8) -> Vec<u8> {
    let mut block = vec![0, 0, 0, 0, 2, 0, 40, 0];
    block.extend_from_slice(&[1, 1, 2, 0]);
    block.extend_from_slice(&dimensions);
    block.extend_from_slice(&[4, 0, 0, 0, 0, 0, 0, 0]);
    block.extend_from_slice(&[0, 0, sample_bit_length, 0, 0, 0, 0, 0, 0, 0, 0, 0, 255, 0, 0, 0]);
    block
}

#[test]
fn basic_dfd_blocks_parse_and_decode() {
    let file = ktx2_file_with_dfd(
        Some(Format::R8G8B8A8_UNORM),
        1,
        1,
        &basic_dfd_block([0, 0, 0, 0], 7),
        &[9, 8, 7, 6],
    );
    assert!(!ktx2_reader_would_panic(&file));
    assert_eq!(decode_ktx2_rgba(&file).unwrap().rgba, vec![9, 8, 7, 6]);
}

#[test]
fn maximal_texel_block_dimension_is_caught_before_reading() {
    let file = ktx2_file_with_dfd(
        Some(Format::R8G8B8A8_UNORM),
        1,
        1,
        &basic_dfd_block([0, 255, 0, 0], 7),
        &[9, 8, 7, 6],
    );
    assert!(ktx2_reader_would_panic(&file));
    // A sample bit length of 255 makes the reader refuse the file before any
    // later block, so a bad dimension in a later block is not reached.
    let mut blocks = basic_dfd_block([0, 0, 0, 0], 255);
    blocks.extend_from_slice(&basic_dfd_block([255, 0, 0, 0], 7));
    let file = ktx2_file_with_dfd(Some(Format::R8G8B8A8_UNORM), 1, 1, &blocks, &[9, 8, 7, 6]);
    assert!(!ktx2_reader_would_panic(&file));
    assert!(matches!(decode_ktx2(&file), Err(DecodeError::Ktx2Parse(_))));
}

#[test]
fn invalid_ktx2_payload_reports_parse_error() {
    match decode_ktx2(b"not ktx2") {
        Err(DecodeError::Ktx2Parse(message)) => assert_eq!(message, "unexpected end of buffer"),
        other => panic!("unexpected result {:?}", other.map(|_| ())),
    }
}

#[test]
fn ktx2_reader_fields_reach_the_decoder() {
    let texels = [10, 20, 30, 40, 50, 60];
    let pixels = decode_ktx2_rgba(&ktx2_file(Some(ktx2::Format::R8G8B8_UNORM), 2, 1, &texels)).unwrap();
    assert_eq!((pixels.width, pixels.height), (2, 1));
    assert_eq!(pixels.rgba, vec![10, 20, 30, 255, 40, 50, 60, 255]);
}

#[test]
fn ktx2_without_format_is_refused() {
    let file = ktx2_file(None, 1, 1, &[1, 2, 3, 4]);
    assert!(matches!(decode_ktx2_rgba(&file), Err(DecodeError::NoFormat)));
}

#[test]
fn ktx2_short_uncompressed_level_is_refused() {
    let file = ktx2_file(Some(ktx2::Format::R8G8B8A8_SRGB), 2, 2, &[1, 2, 3, 4]);
    assert!(matches!(decode_ktx2_rgba(&file), Err(DecodeError::LevelTooShort)));
    let file = ktx2_file(Some(ktx2::Format::R8G8B8_SRGB), 1, 2, &[1, 2, 3]);
    assert!(matches!(decode_ktx2_rgba(&file), Err(DecodeError::LevelTooShort)));
}

#[test]
fn ktx2_texel_count_over_32_bits_is_refused() {
    let file = ktx2_file(Some(ktx2::Format::R8G8B8A8_UNORM), 0x1_0000, 0x1_0000, &[1, 2, 3, 4]);
    assert!(matches!(decode_ktx2_rgba(&file), Err(DecodeError::DimensionsOverflow)));
}

#[test]
fn ktx2_unsupported_pixel_format_is_refused() {
    let file = ktx2_file(Some(ktx2::Format::R16_UNORM), 1, 1, &[1, 2]);
    assert!(matches!(
        decode_ktx2(&file),
        Err(DecodeError::UnsupportedPixelFormat(f)) if f == ktx2::Format::R16_UNORM.value()
    ));
}

#[test]
fn ktx2_block_decoder_error_is_passed_on() {
    let file = ktx2_file(Some(ktx2::Format::BC7_UNORM_BLOCK), 8, 4, &[0; 16]);
    match decode_ktx2_rgba(&file) {
        Err(DecodeError::Decoder(message)) => assert_eq!(message, "Not enough data to decode image!"),
        other => panic!("unexpected result {:?}", other.map(|p| p.rgba)),
    }
}

#[test]
fn ktx2_block_compressed_file_decodes_to_an_image() {
    let file = ktx2_file(Some(ktx2::Format::BC1_RGBA_UNORM_BLOCK), 4, 4, &[0; 8]);
    let image = decode_ktx2(&file).unwrap().to_rgba8();
    assert_eq!(image.dimensions(), (4, 4));
    assert_eq!(image.get_pixel(3, 3).0, [0, 0, 0, 255]);
}

#[test]
fn bc1_black_block_decodes_to_opaque_black() {
    let bgra = decode_block_compressed(ktx2::Format::BC1_RGB_UNORM_BLOCK.value(), &[0; 8], 4, 4).unwrap();
    assert_eq!(bgra, vec![0xFF00_0000; 16]);
}

#[test]
fn partial_blocks_cover_odd_sizes() {
    // A 5x3 image needs two by one blocks.
    let bgra = decode_block_compressed(ktx2::Format::BC1_RGB_UNORM_BLOCK.value(), &[0; 16], 5, 3).unwrap();
    assert_eq!(bgra.len(), 15);
    let err = decode_block_compressed(ktx2::Format::BC1_RGB_UNORM_BLOCK.value(), &[0; 15], 5, 3).unwrap_err();
    assert!(matches!(err, DecodeError::Decoder(_)));
}

#[test]
fn every_block_decoder_writes_pixels() {
    let cases: [(Format, usize); 8] = [
        (Format::BC1_RGB_UNORM_BLOCK, 8),
        (Format::BC3_UNORM_BLOCK, 16),
        (Format::BC4_UNORM_BLOCK, 8),
        (Format::BC5_UNORM_BLOCK, 16),
        (Format::BC7_UNORM_BLOCK, 16),
        (Format::ETC2_R8G8B8_UNORM_BLOCK, 8),
        (Format::ETC2_R8G8B8A8_UNORM_BLOCK, 16),
        (Format::ASTC_4x4_UNORM_BLOCK, 16),
    ];
    for (format, block_bytes) in cases {
        let data = vec![0xA5_u8; block_bytes];
        let bgra = decode_block_compressed(format.value(), &data, 4, 4).unwrap();
        assert_eq!(bgra.len(), 16);
        assert!(bgra.iter().any(|&word| word != 0), "{:?} left the buffer zeroed", format);
    }
}

#[test]
fn unorm_and_srgb_variants_decode_alike() {
    let data = [3, 1, 4, 1, 5, 9, 2, 6];
    assert_eq!(
        decode_ktx2_pixels(Format::R8G8B8A8_UNORM.value(), &data, 2, 1).unwrap(),
        decode_ktx2_pixels(Format::R8G8B8A8_SRGB.value(), &data, 2, 1).unwrap()
    );
    assert_eq!(
        decode_ktx2_pixels(Format::R8G8B8_UNORM.value(), &data, 2, 1).unwrap(),
        decode_ktx2_pixels(Format::R8G8B8_SRGB.value(), &data, 2, 1).unwrap()
    );
    let block = [0x5A_u8; 16];
    assert_eq!(
        decode_ktx2_pixels(Format::BC7_UNORM_BLOCK.value(), &block, 4, 4).unwrap(),
        decode_ktx2_pixels(Format::BC7_SRGB_BLOCK.value(), &block, 4, 4).unwrap()
    );
}
