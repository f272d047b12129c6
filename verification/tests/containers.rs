use texture_preview::error::DecodeError;
use texture_preview::texture::{ascii_lowercase, texture_kind, TextureKind};

#[test]
fn extensions_choose_the_container_ignoring_case() {
    assert_eq!(texture_kind(b"blp"), Ok(TextureKind::Blp));
    assert_eq!(texture_kind(b"BLP"), Ok(TextureKind::Blp));
    assert_eq!(texture_kind(b"ktx2"), Ok(TextureKind::Ktx2));
    assert_eq!(texture_kind(b"KtX2"), Ok(TextureKind::Ktx2));
}

#[test]
fn unknown_extensions_are_refused_in_lower_case() {
    assert_eq!(
        texture_kind(b"PNG"),
        Err(DecodeError::UnsupportedExtension(b"png".to_vec()))
    );
    assert_eq!(texture_kind(b""), Err(DecodeError::UnsupportedExtension(Vec::new())));
    assert_eq!(
        texture_kind(b"ktx"),
        Err(DecodeError::UnsupportedExtension(b"ktx".to_vec()))
    );
}

#[test]
fn ascii_lowercase_keeps_other_bytes() {
    assert_eq!(ascii_lowercase(b"AZaz09@[`{"), b"azaz09@[`{".to_vec());
    assert_eq!(ascii_lowercase("ÉtÉ".as_bytes()), "ÉtÉ".as_bytes().to_vec());
}

#[test]
fn lowercasing_twice_changes_nothing_more() {
    let once = ascii_lowercase(b"KTX2 Blp");
    assert_eq!(once, b"ktx2 blp".to_vec());
    assert_eq!(ascii_lowercase(&once), once);
    assert_eq!(texture_kind(&once[..4]), texture_kind(b"KTX2"));
}
