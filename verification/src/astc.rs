//! The ASTC blocks on which `texture2ddecoder::decode_astc` panics.
//!
//! For 4x4 blocks the decoder reads each block's mode: the weight grid, the
//! weight range, dual-plane use, the partition count and the colour endpoint
//! modes. It computes `128 - configuration bits - weight bits` in `usize`,
//! which overflows (a panic where overflow checks are on) when the weights
//! and configuration need more than the 128 bits of a block. When the
//! remaining bits cannot hold even one bit per endpoint value, it reads the
//! endpoints as whole bytes from bit 17 (one partition) or bit 29 of the
//! block, and these reads run on into the bytes that follow the block; they
//! fail once they pass the end of the data. Void-extent and reserved blocks
//! are filled with one colour; nothing else it does with a 4x4 block can
//! panic.

use vstd::prelude::*;

use crate::block::block_count;

verus! {

/// Bits 7 and 8 of the block's first 16 bits, which select the layout of
/// the weight grid.
pub open spec fn astc_layout_bits(b0: u8, b1: u8) -> nat {
    (b0 >> 7u8) as nat + 2 * ((b1 & 1u8) as nat)
}

/// A void-extent block: one constant colour.
pub open spec fn astc_void_extent(b0: u8, b1: u8) -> bool {
    b0 == 0xfc && b1 & 1u8 == 1
}

/// A reserved block, decoded as an error colour.
pub open spec fn astc_reserved(b0: u8, b1: u8) -> bool {
    (b0 & 0xc3u8 == 0xc0 && b1 & 1u8 == 1) || b0 & 0xfu8 == 0
}

/// The weight range index.
pub open spec fn astc_weight_range(b0: u8, b1: u8) -> u8 {
    let base = ((b0 >> 4u8) & 1u8) | ((b1 << 2u8) & 8u8);
    if b0 & 3u8 != 0 {
        base | ((b0 << 1u8) & 6u8)
    } else if astc_layout_bits(b0, b1) == 2 {
        (base | ((b0 >> 1u8) & 6u8)) & 7u8
    } else {
        base | ((b0 >> 1u8) & 6u8)
    }
}

/// The weight grid's width and height.
pub open spec fn astc_grid(b0: u8, b1: u8) -> (nat, nat) {
    let m = astc_layout_bits(b0, b1) as nat;
    let f = ((b0 >> 5u8) & 3u8) as nat;
    let g = ((b0 >> 7u8) & 1u8) as nat;
    if b0 & 3u8 != 0 {
        if b0 & 0xcu8 == 0 {
            (m + 4, f + 2)
        } else if b0 & 0xcu8 == 4 {
            (m + 8, f + 2)
        } else if b0 & 0xcu8 == 8 {
            (f + 2, m + 8)
        } else if b1 & 1u8 != 0 {
            (g + 2, f + 2)
        } else {
            (f + 2, g + 6)
        }
    } else if m == 0 {
        (12, f + 2)
    } else if m == 1 {
        (f + 2, 12)
    } else if m == 2 {
        (f + 6, ((b1 >> 1u8) & 3u8) as nat + 6)
    } else if b0 & 0x20u8 != 0 {
        (10, 6)
    } else {
        (6, 10)
    }
}

/// The block holds two weight planes.
pub open spec fn astc_dual_plane(b0: u8, b1: u8) -> bool {
    b1 & 4u8 != 0 && !(b0 & 3u8 == 0 && astc_layout_bits(b0, b1) == 2)
}

/// The number of weights.
pub open spec fn astc_weight_count(b0: u8, b1: u8) -> nat {
    let (w, h) = astc_grid(b0, b1);
    if astc_dual_plane(b0, b1) {
        2 * (w * h)
    } else {
        w * h
    }
}

/// Whether a weight range packs weights with trits (3), quints (5) or neither (0).
pub open spec fn weight_packing(range: u8) -> nat {
    if range == 3 || range == 6 || range == 11 || range == 14 {
        3
    } else if range == 5 || range == 10 || range == 13 {
        5
    } else {
        0
    }
}

/// The plain bits of each weight of a weight range.
pub open spec fn weight_plain_bits(range: u8) -> nat {
    if range == 2 || range == 6 || range == 10 {
        1
    } else if range == 4 || range == 11 || range == 13 {
        2
    } else if range == 7 || range == 14 {
        3
    } else if range == 12 {
        4
    } else if range == 15 {
        5
    } else {
        0
    }
}

/// The bits that the weights take.
pub open spec fn astc_weight_bits(b0: u8, b1: u8) -> nat {
    let n = astc_weight_count(b0, b1);
    let range = astc_weight_range(b0, b1);
    let plain = n * weight_plain_bits(range);
    if weight_packing(range) == 3 {
        plain + (8 * n + 4) / 5
    } else if weight_packing(range) == 5 {
        plain + (7 * n + 2) / 3
    } else {
        plain
    }
}

/// The number of partitions.
pub open spec fn astc_partitions(b1: u8) -> nat {
    ((b1 >> 3u8) & 3u8) as nat + 1
}

/// The shared colour endpoint mode class of a multi-partition block (0 when
/// all partitions share one mode).
pub open spec fn astc_mode_class(b2: u8, b3: u8) -> nat {
    ((b2 >> 7u8) & 1u8) as nat + 2 * ((b3 & 1u8) as nat)
}

/// The configuration bits before the weights.
pub open spec fn astc_config_bits(b0: u8, b1: u8, b2: u8, b3: u8) -> nat {
    let base = if astc_partitions(b1) == 1 {
        17
    } else if astc_mode_class(b2, b3) == 0 {
        29
    } else {
        25 + 3 * astc_partitions(b1)
    };
    if astc_dual_plane(b0, b1) {
        base + 2
    } else {
        base
    }
}

/// The endpoint values of partition `i` of a block with a shared mode class.
pub open spec fn class_endpoint_values(b3: u8, class: nat, i: nat) -> nat {
    2 * ((((b3 >> (i + 1) as u8) & 1u8) as nat) + class)
}

/// The number of colour endpoint values.
pub open spec fn astc_endpoint_values(b1: u8, b2: u8, b3: u8) -> nat {
    let parts = astc_partitions(b1);
    let class = astc_mode_class(b2, b3);
    if parts == 1 {
        2 * (((b1 >> 7u8) & 1u8) as nat + 2 * ((b2 & 1u8) as nat)) + 2
    } else if class == 0 {
        parts * (2 * (((b3 >> 3u8) & 3u8) as nat) + 2)
    } else if parts == 2 {
        class_endpoint_values(b3, class, 0) + class_endpoint_values(b3, class, 1)
    } else if parts == 3 {
        class_endpoint_values(b3, class, 0) + class_endpoint_values(b3, class, 1)
            + class_endpoint_values(b3, class, 2)
    } else {
        class_endpoint_values(b3, class, 0) + class_endpoint_values(b3, class, 1)
            + class_endpoint_values(b3, class, 2) + class_endpoint_values(b3, class, 3)
    }
}

/// Decoding this 4x4 block panics, where `rest` bytes of the data remain
/// from the block's start on.
pub open spec fn astc_block_panics(b0: u8, b1: u8, b2: u8, b3: u8, rest: nat) -> bool {
    let config = astc_config_bits(b0, b1, b2, b3);
    let weights = astc_weight_bits(b0, b1);
    let values = astc_endpoint_values(b1, b2, b3);
    let first_byte: nat = if astc_partitions(b1) == 1 {
        3
    } else {
        4
    };
    &&& !astc_void_extent(b0, b1)
    &&& !astc_reserved(b0, b1)
    &&& (config + weights > 128 || (128 - config - weights < values && first_byte + values > rest))
}

/// Block `k` of ASTC data panics when decoded.
pub open spec fn astc_block_at_panics(data: Seq<u8>, k: int) -> bool {
    astc_block_panics(
        data[16 * k],
        data[16 * k + 1],
        data[16 * k + 2],
        data[16 * k + 3],
        (data.len() - 16 * k) as nat,
    )
}

/// Decoding `data` as 4x4 ASTC blocks of a `width x height` image panics:
/// the data covers the image, and one of the blocks that cover it panics.
pub open spec fn astc_data_panics(data: Seq<u8>, width: nat, height: nat) -> bool {
    let blocks = block_count(width, 4) * block_count(height, 4);
    &&& data.len() >= 16 * blocks
    &&& exists|k: int| 0 <= k < blocks && #[trigger] astc_block_at_panics(data, k)
}

proof fn lemma_field_bounds(x: u8)
    ensures
        (x >> 7u8) <= 1,
        (x >> 7u8) & 1u8 <= 1,
        (x >> 5u8) & 3u8 <= 3,
        (x >> 3u8) & 3u8 <= 3,
        (x >> 1u8) & 3u8 <= 3,
        (x >> 1u8) & 1u8 <= 1,
        (x >> 2u8) & 1u8 <= 1,
        (x >> 3u8) & 1u8 <= 1,
        (x >> 4u8) & 1u8 <= 1,
        x & 1u8 <= 1,
{
    assert((x >> 7u8) <= 1) by (bit_vector);
    assert((x >> 7u8) & 1u8 <= 1) by (bit_vector);
    assert((x >> 5u8) & 3u8 <= 3) by (bit_vector);
    assert((x >> 3u8) & 3u8 <= 3) by (bit_vector);
    assert((x >> 1u8) & 3u8 <= 3) by (bit_vector);
    assert((x >> 1u8) & 1u8 <= 1) by (bit_vector);
    assert((x >> 2u8) & 1u8 <= 1) by (bit_vector);
    assert((x >> 3u8) & 1u8 <= 1) by (bit_vector);
    assert((x >> 4u8) & 1u8 <= 1) by (bit_vector);
    assert(x & 1u8 <= 1) by (bit_vector);
}

fn layout_bits(b0: u8, b1: u8) -> (r: u8)
    ensures
        r == astc_layout_bits(b0, b1),
        r <= 3,
{
    proof {
        lemma_field_bounds(b0);
        lemma_field_bounds(b1);
    }
    (b0 >> 7u8) + 2 * (b1 & 1u8)
}

fn grid(b0: u8, b1: u8) -> (r: (u64, u64))
    ensures
        r.0 == astc_grid(b0, b1).0,
        r.1 == astc_grid(b0, b1).1,
        r.0 <= 12,
        r.1 <= 12,
{
    proof {
        lemma_field_bounds(b0);
        lemma_field_bounds(b1);
    }
    let m = layout_bits(b0, b1) as u64;
    let f = ((b0 >> 5u8) & 3u8) as u64;
    let g = ((b0 >> 7u8) & 1u8) as u64;
    if b0 & 3u8 != 0 {
        if b0 & 0xcu8 == 0 {
            (m + 4, f + 2)
        } else if b0 & 0xcu8 == 4 {
            (m + 8, f + 2)
        } else if b0 & 0xcu8 == 8 {
            (f + 2, m + 8)
        } else if b1 & 1u8 != 0 {
            (g + 2, f + 2)
        } else {
            (f + 2, g + 6)
        }
    } else if m == 0 {
        (12, f + 2)
    } else if m == 1 {
        (f + 2, 12)
    } else if m == 2 {
        (f + 6, ((b1 >> 1u8) & 3u8) as u64 + 6)
    } else if b0 & 0x20u8 != 0 {
        (10, 6)
    } else {
        (6, 10)
    }
}

fn weight_bits(b0: u8, b1: u8) -> (r: u64)
    ensures
        r == astc_weight_bits(b0, b1),
        r <= 2000,
{
    let (w, h) = grid(b0, b1);
    let m = layout_bits(b0, b1);
    let dual = b1 & 4u8 != 0 && !(b0 & 3u8 == 0 && m == 2);
    let base = ((b0 >> 4u8) & 1u8) | ((b1 << 2u8) & 8u8);
    let range = if b0 & 3u8 != 0 {
        base | ((b0 << 1u8) & 6u8)
    } else if m == 2 {
        (base | ((b0 >> 1u8) & 6u8)) & 7u8
    } else {
        base | ((b0 >> 1u8) & 6u8)
    };
    assert(w * h <= 144) by (nonlinear_arith)
        requires
            w <= 12,
            h <= 12,
    ;
    let wh = w * h;
    let n = if dual {
        2 * wh
    } else {
        wh
    };
    let plain_bits: u64 = if range == 2 || range == 6 || range == 10 {
        1
    } else if range == 4 || range == 11 || range == 13 {
        2
    } else if range == 7 || range == 14 {
        3
    } else if range == 12 {
        4
    } else if range == 15 {
        5
    } else {
        0
    };
    assert(n * plain_bits <= 1440) by (nonlinear_arith)
        requires
            n <= 288,
            plain_bits <= 5,
    ;
    let plain = n * plain_bits;
    if range == 3 || range == 6 || range == 11 || range == 14 {
        plain + (8 * n + 4) / 5
    } else if range == 5 || range == 10 || range == 13 {
        plain + (7 * n + 2) / 3
    } else {
        plain
    }
}

fn block_would_panic(b0: u8, b1: u8, b2: u8, b3: u8, rest: usize) -> (r: bool)
    ensures
        r == astc_block_panics(b0, b1, b2, b3, rest as nat),
{
    proof {
        lemma_field_bounds(b1);
        lemma_field_bounds(b2);
        lemma_field_bounds(b3);
    }
    if (b0 == 0xfc && b1 & 1u8 == 1) || (b0 & 0xc3u8 == 0xc0 && b1 & 1u8 == 1) || b0 & 0xfu8
        == 0 {
        return false;
    }
    let m = layout_bits(b0, b1);
    let dual = b1 & 4u8 != 0 && !(b0 & 3u8 == 0 && m == 2);
    let parts = ((b1 >> 3u8) & 3u8) as u64 + 1;
    let class = ((b2 >> 7u8) & 1u8) as u64 + 2 * ((b3 & 1u8) as u64);
    let base: u64 = if parts == 1 {
        17
    } else if class == 0 {
        29
    } else {
        25 + 3 * parts
    };
    let config = if dual {
        base + 2
    } else {
        base
    };
    let weights = weight_bits(b0, b1);
    let values: u64 = if parts == 1 {
        2 * (((b1 >> 7u8) & 1u8) as u64 + 2 * ((b2 & 1u8) as u64)) + 2
    } else if class == 0 {
        let per_part = 2 * (((b3 >> 3u8) & 3u8) as u64) + 2;
        assert(parts * per_part <= 32) by (nonlinear_arith)
            requires
                parts <= 4,
                per_part <= 8,
        ;
        parts * per_part
    } else {
        let v0 = 2 * (((b3 >> 1u8) & 1u8) as u64 + class);
        let v1 = 2 * (((b3 >> 2u8) & 1u8) as u64 + class);
        let v2 = 2 * (((b3 >> 3u8) & 1u8) as u64 + class);
        let v3 = 2 * (((b3 >> 4u8) & 1u8) as u64 + class);
        if parts == 2 {
            v0 + v1
        } else if parts == 3 {
            v0 + v1 + v2
        } else {
            v0 + v1 + v2 + v3
        }
    };
    let first_byte: u64 = if parts == 1 {
        3
    } else {
        4
    };
    config + weights > 128 || (128 - config - weights < values && first_byte + values > rest as u64)
}

/// Whether decoding `data` as 4x4 ASTC blocks of a `width x height` image
/// would panic.
pub fn astc_data_would_panic(data: &[u8], width: usize, height: usize) -> (panics: bool)
    requires
        block_count(width as nat, 4) * block_count(height as nat, 4) * 16 <= usize::MAX,
    ensures
        panics == astc_data_panics(data@, width as nat, height as nat),
{
    let blocks_x = width / 4 + if width % 4 == 0 {
        0
    } else {
        1
    };
    let blocks_y = height / 4 + if height % 4 == 0 {
        0
    } else {
        1
    };
    assert(blocks_x == block_count(width as nat, 4));
    assert(blocks_y == block_count(height as nat, 4));
    let blocks = blocks_x * blocks_y;
    let len = data.len();
    if len / 16 < blocks {
        return false;
    }
    let mut k: usize = 0;
    while k < blocks
        invariant
            blocks == block_count(width as nat, 4) * block_count(height as nat, 4),
            16 * blocks <= len,
            len == data@.len(),
            k <= blocks,
            forall|j: int| 0 <= j < k ==> !#[trigger] astc_block_at_panics(data@, j),
        decreases blocks - k,
    {
        let i = 16 * k;
        if block_would_panic(data[i], data[i + 1], data[i + 2], data[i + 3], len - i) {
            assert(astc_block_at_panics(data@, k as int));
            return true;
        }
        k += 1;
    }
    false
}

} // verus!

verus! {

/// Void-extent and reserved blocks never make the decoder panic, whatever
/// follows them.
pub proof fn lemma_constant_colour_blocks_never_panic(b0: u8, b1: u8, b2: u8, b3: u8, rest: nat)
    requires
        (b0 == 0xfc && b1 & 1u8 == 1) || (b0 & 0xc3u8 == 0xc0 && b1 & 1u8 == 1) || b0 & 0xfu8
            == 0,
    ensures
        !astc_block_panics(b0, b1, b2, b3, rest),
{
}

/// More bytes after a block never make it panic where fewer did not.
pub proof fn lemma_block_panics_less_with_more_data(
    b0: u8,
    b1: u8,
    b2: u8,
    b3: u8,
    rest: nat,
    more: nat,
)
    requires
        rest <= more,
    ensures
        astc_block_panics(b0, b1, b2, b3, more) ==> astc_block_panics(b0, b1, b2, b3, rest),
{
}

/// Bytes appended after data that covers the image never make decoding
/// panic where it did not.
pub proof fn lemma_trailing_bytes_never_add_a_panic(
    data: Seq<u8>,
    extra: Seq<u8>,
    width: nat,
    height: nat,
)
    requires
        data.len() >= 16 * (block_count(width, 4) * block_count(height, 4)),
    ensures
        astc_data_panics(data + extra, width, height) ==> astc_data_panics(data, width, height),
{
    let blocks = block_count(width, 4) * block_count(height, 4);
    let joined = data + extra;
    if astc_data_panics(joined, width, height) {
        let k = choose|k: int| 0 <= k < blocks && #[trigger] astc_block_at_panics(joined, k);
        assert(16 * k + 16 <= 16 * blocks);
        assert(joined[16 * k] == data[16 * k]);
        assert(joined[16 * k + 1] == data[16 * k + 1]);
        assert(joined[16 * k + 2] == data[16 * k + 2]);
        assert(joined[16 * k + 3] == data[16 * k + 3]);
        lemma_block_panics_less_with_more_data(
            data[16 * k],
            data[16 * k + 1],
            data[16 * k + 2],
            data[16 * k + 3],
            (data.len() - 16 * k) as nat,
            (joined.len() - 16 * k) as nat,
        );
        assert(astc_block_at_panics(data, k));
    }
}

} // verus!
