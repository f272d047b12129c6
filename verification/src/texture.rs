//! Choosing the texture container by file extension.

use vstd::prelude::*;

use crate::error::{DecodeError, DecodeErrorView};

verus! {

pub const ASCII_A: u8 = 0x41;
pub const ASCII_Z: u8 = 0x5a;
pub const ASCII_CASE_OFFSET: u8 = 0x20;
pub const ASCII_LOWER_B: u8 = 0x62;
pub const ASCII_LOWER_L: u8 = 0x6c;
pub const ASCII_LOWER_P: u8 = 0x70;
pub const ASCII_LOWER_K: u8 = 0x6b;
pub const ASCII_LOWER_T: u8 = 0x74;
pub const ASCII_LOWER_X: u8 = 0x78;
pub const ASCII_DIGIT_2: u8 = 0x32;

/// The texture containers that can be decoded.
#[derive(Debug, Clone, Copy, PartialEq, Eq)]
pub enum TextureKind {
    Blp,
    Ktx2,
}

/// A byte with ASCII upper-case letters mapped to lower case.
pub open spec fn ascii_lower(byte: u8) -> u8 {
    if ASCII_A <= byte && byte <= ASCII_Z {
        (byte + ASCII_CASE_OFFSET) as u8
    } else {
        byte
    }
}

/// Bytes with ASCII upper-case letters mapped to lower case.
pub open spec fn ascii_lowercase_of(bytes: Seq<u8>) -> Seq<u8> {
    bytes.map_values(|byte: u8| ascii_lower(byte))
}

/// Maps the ASCII upper-case letters of `bytes` to lower case; every other
/// byte (non-ASCII UTF-8 bytes among them) is kept.
pub fn ascii_lowercase(bytes: &[u8]) -> (lower: Vec<u8>)
    ensures
        lower@ == ascii_lowercase_of(bytes@),
{
    let mut lower: Vec<u8> = Vec::with_capacity(bytes.len());
    let mut i: usize = 0;
    while i < bytes.len()
        invariant
            i <= bytes@.len(),
            lower@ == ascii_lowercase_of(bytes@.take(i as int)),
        decreases bytes@.len() - i,
    {
        let byte = bytes[i];
        let mapped = if ASCII_A <= byte && byte <= ASCII_Z {
            byte + ASCII_CASE_OFFSET
        } else {
            byte
        };
        lower.push(mapped);
        proof {
            assert(ascii_lowercase_of(bytes@.take(i + 1)) =~= ascii_lowercase_of(
                bytes@.take(i as int),
            ).push(ascii_lower(byte)));
        }
        i += 1;
    }
    proof {
        assert(bytes@.take(bytes@.len() as int) =~= bytes@);
    }
    lower
}

/// The container that a lower-case extension names.
pub open spec fn texture_kind_of(lower: Seq<u8>) -> Option<TextureKind> {
    if lower == seq![ASCII_LOWER_B, ASCII_LOWER_L, ASCII_LOWER_P] {
        Some(TextureKind::Blp)
    } else if lower == seq![ASCII_LOWER_K, ASCII_LOWER_T, ASCII_LOWER_X, ASCII_DIGIT_2] {
        Some(TextureKind::Ktx2)
    } else {
        None
    }
}

/// Chooses the container by a file's extension, ignoring ASCII case; an
/// extension naming no container is refused with its lower-case form.
pub fn texture_kind(extension: &[u8]) -> (r: Result<TextureKind, DecodeError>)
    ensures
        match texture_kind_of(ascii_lowercase_of(extension@)) {
            Some(kind) => r == Ok::<TextureKind, DecodeError>(kind),
            None => r matches Err(e) && e@ == DecodeErrorView::UnsupportedExtension(
                ascii_lowercase_of(extension@),
            ),
        },
{
    let lower = ascii_lowercase(extension);
    if lower.len() == 3 && lower[0] == ASCII_LOWER_B && lower[1] == ASCII_LOWER_L && lower[2] == ASCII_LOWER_P {
        assert(lower@ =~= seq![ASCII_LOWER_B, ASCII_LOWER_L, ASCII_LOWER_P]);
        Ok(TextureKind::Blp)
    } else if lower.len() == 4 && lower[0] == ASCII_LOWER_K && lower[1] == ASCII_LOWER_T && lower[2] == ASCII_LOWER_X
        && lower[3] == ASCII_DIGIT_2 {
        assert(lower@ =~= seq![ASCII_LOWER_K, ASCII_LOWER_T, ASCII_LOWER_X, ASCII_DIGIT_2]);
        Ok(TextureKind::Ktx2)
    } else {
        proof {
            if lower@ == seq![ASCII_LOWER_B, ASCII_LOWER_L, ASCII_LOWER_P] {
                assert(lower@[0] == ASCII_LOWER_B && lower@[1] == ASCII_LOWER_L && lower@[2] == ASCII_LOWER_P);
            }
            if lower@ == seq![ASCII_LOWER_K, ASCII_LOWER_T, ASCII_LOWER_X, ASCII_DIGIT_2] {
                assert(lower@[0] == ASCII_LOWER_K && lower@[1] == ASCII_LOWER_T && lower@[2] == ASCII_LOWER_X && lower@[3]
                    == ASCII_DIGIT_2);
            }
        }
        Err(DecodeError::UnsupportedExtension(lower))
    }
}

} // verus!

verus! {

/// Lowercasing is idempotent: a lower-cased extension is its own lower case,
/// so the container chosen for it is the one chosen for the extension as given.
pub proof fn lemma_ascii_lowercase_idempotent(bytes: Seq<u8>)
    ensures
        ascii_lowercase_of(ascii_lowercase_of(bytes)) == ascii_lowercase_of(bytes),
        texture_kind_of(ascii_lowercase_of(ascii_lowercase_of(bytes))) == texture_kind_of(
            ascii_lowercase_of(bytes),
        ),
{
    assert(ascii_lowercase_of(ascii_lowercase_of(bytes)) =~= ascii_lowercase_of(bytes));
}

} // verus!

verus! {

/// Only the extensions `blp` and `ktx2`, in any ASCII case, choose a
/// container: `blp` chooses BLP, `ktx2` chooses KTX2, and every other
/// extension chooses none.
pub proof fn lemma_only_blp_and_ktx2_are_chosen(extension: Seq<u8>)
    ensures
        texture_kind_of(ascii_lowercase_of(extension)) == Some(TextureKind::Blp)
            <==> ascii_lowercase_of(extension) == seq![0x62u8, 0x6cu8, 0x70u8],
        texture_kind_of(ascii_lowercase_of(extension)) == Some(TextureKind::Ktx2)
            <==> ascii_lowercase_of(extension) == seq![0x6bu8, 0x74u8, 0x78u8, 0x32u8],
        texture_kind_of(ascii_lowercase_of(extension)) is None <==> (ascii_lowercase_of(extension)
            != seq![0x62u8, 0x6cu8, 0x70u8] && ascii_lowercase_of(extension) != seq![
            0x6bu8,
            0x74u8,
            0x78u8,
            0x32u8,
        ]),
{
}

} // verus!
