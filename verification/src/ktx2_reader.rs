//! The inputs on which `ktx2::Reader::new` panics instead of answering.
//!
//! The reader checks the header and the section bounds, then parses the data
//! format descriptor (DFD) block by block. For a basic DFD block it computes
//! each texel block dimension as `byte + 1` in `u8`, which panics for a byte of
//! 255; nothing else it does before answering can panic.

use vstd::prelude::*;

verus! {

/// The little-endian `u16` at byte `i`.
pub open spec fn le_u16(d: Seq<u8>, i: int) -> nat {
    (d[i] + 256 * d[i + 1]) as nat
}

/// The little-endian `u32` at byte `i`.
pub open spec fn le_u32(d: Seq<u8>, i: int) -> nat {
    le_u16(d, i) + 65536 * le_u16(d, i + 2)
}

/// The little-endian `u64` at byte `i`.
pub open spec fn le_u64(d: Seq<u8>, i: int) -> nat {
    le_u32(d, i) + 4294967296 * le_u32(d, i + 4)
}

/// The KTX2 file identifier `«KTX 20»\r\n\x1A\n` starts the bytes.
pub open spec fn ktx2_identifier_at_start(d: Seq<u8>) -> bool {
    &&& d.len() >= 12
    &&& d[0] == 0xAB && d[1] == 0x4B && d[2] == 0x54 && d[3] == 0x58
    &&& d[4] == 0x20 && d[5] == 0x32 && d[6] == 0x30 && d[7] == 0xBB
    &&& d[8] == 0x0D && d[9] == 0x0A && d[10] == 0x1A && d[11] == 0x0A
}

/// The reader gets as far as parsing the DFD: the 80-byte header is present
/// with the identifier, a non-zero width and face count, and the DFD, SGD and
/// KVD sections lie inside the bytes without overflowing their offset types.
pub open spec fn ktx2_reader_parses_dfd(d: Seq<u8>) -> bool {
    &&& d.len() >= 80
    &&& ktx2_identifier_at_start(d)
    &&& le_u32(d, 20) != 0
    &&& le_u32(d, 36) != 0
    &&& le_u32(d, 48) + 4 <= u32::MAX
    &&& le_u32(d, 48) + le_u32(d, 52) <= u32::MAX
    &&& le_u32(d, 52) >= 4
    &&& le_u32(d, 48) + le_u32(d, 52) < d.len()
    &&& le_u64(d, 64) + le_u64(d, 72) <= u64::MAX
    &&& le_u64(d, 64) + le_u64(d, 72) < d.len()
    &&& le_u32(d, 56) + le_u32(d, 60) <= u32::MAX
    &&& le_u32(d, 56) + le_u32(d, 60) < d.len()
}

/// A block header names a basic DFD block: vendor 0, type 0, version 2.
pub open spec fn is_basic_block_header(block: Seq<u8>) -> bool {
    block[0] == 0 && block[1] == 0 && block[2] == 0 && block[3] == 0 && block[4] == 2 && block[5]
        == 0
}

/// A basic block's data with a texel block dimension byte of 255.
pub open spec fn has_maximal_dimension_byte(data: Seq<u8>) -> bool {
    data.len() >= 8 && (data[4] == 255 || data[5] == 255 || data[6] == 255 || data[7] == 255)
}

/// A basic block's data parses: 16 fixed bytes, then whole 16-byte samples,
/// none with a bit-length byte of 255.
pub open spec fn basic_block_parses(data: Seq<u8>) -> bool {
    &&& data.len() >= 16
    &&& (data.len() - 16) % 16 == 0
    &&& forall|k: int| 0 <= k < (data.len() - 16) / 16 ==> #[trigger] data[16 + 16 * k + 2] != 255
}

/// Parsing the DFD blocks in `d` reaches a basic block with a texel block
/// dimension byte of 255 before it stops, at the end or at an error.
pub open spec fn dfd_blocks_panic(d: Seq<u8>) -> bool
    decreases d.len(),
{
    if d.len() < 8 {
        false
    } else {
        let size = le_u16(d, 6) as int;
        if size < 8 || size > d.len() {
            false
        } else if is_basic_block_header(d) && has_maximal_dimension_byte(d.subrange(8, size)) {
            true
        } else if is_basic_block_header(d) && !basic_block_parses(d.subrange(8, size)) {
            false
        } else {
            dfd_blocks_panic(d.subrange(size, d.len() as int))
        }
    }
}

/// `ktx2::Reader::new` panics on these bytes.
pub open spec fn ktx2_reader_panics(d: Seq<u8>) -> bool {
    ktx2_reader_parses_dfd(d) && dfd_blocks_panic(
        d.subrange(le_u32(d, 48) + 4int, le_u32(d, 48) + le_u32(d, 52) as int),
    )
}

fn read_le_u16(d: &[u8], i: usize) -> (v: u64)
    requires
        i + 2 <= d@.len(),
    ensures
        v == le_u16(d@, i as int),
{
    d[i] as u64 + 256 * (d[i + 1] as u64)
}

fn read_le_u32(d: &[u8], i: usize) -> (v: u64)
    requires
        i + 4 <= d@.len(),
    ensures
        v == le_u32(d@, i as int),
{
    let len = d.len();
    read_le_u16(d, i) + 65536 * read_le_u16(d, i + 2)
}

fn read_le_u64(d: &[u8], i: usize) -> (v: u128)
    requires
        i + 8 <= d@.len(),
    ensures
        v == le_u64(d@, i as int),
{
    let len = d.len();
    read_le_u32(d, i) as u128 + 4294967296 * (read_le_u32(d, i + 4) as u128)
}

/// Whether the basic block data at `d[start..end]` parses.
fn basic_block_data_parses(d: &[u8], start: usize, end: usize) -> (parses: bool)
    requires
        start <= end <= d@.len(),
    ensures
        parses == basic_block_parses(d@.subrange(start as int, end as int)),
{
    let ghost data = d@.subrange(start as int, end as int);
    let len = end - start;
    if len < 16 || (len - 16) % 16 != 0 {
        return false;
    }
    let count = (len - 16) / 16;
    let mut k: usize = 0;
    while k < count
        invariant
            start <= end <= d@.len(),
            data == d@.subrange(start as int, end as int),
            len == end - start,
            len >= 16,
            count == (len - 16) / 16,
            k <= count,
            forall|j: int| 0 <= j < k ==> #[trigger] data[16 + 16 * j + 2] != 255,
        decreases count - k,
    {
        assert(16 + 16 * k + 2 < len) by (nonlinear_arith)
            requires
                k < count,
                count == (len - 16) / 16,
                len >= 16,
        ;
        if d[start + 16 + 16 * k + 2] == 255 {
            assert(data[16 + 16 * k + 2] == 255);
            return false;
        }
        k += 1;
    }
    true
}

/// Whether parsing the DFD blocks in `d[start..end]` panics.
fn dfd_blocks_would_panic(d: &[u8], start: usize, end: usize) -> (panics: bool)
    requires
        start <= end <= d@.len(),
    ensures
        panics == dfd_blocks_panic(d@.subrange(start as int, end as int)),
{
    let mut pos = start;
    while pos < end
        invariant
            start <= pos <= end <= d@.len(),
            dfd_blocks_panic(d@.subrange(start as int, end as int)) == dfd_blocks_panic(
                d@.subrange(pos as int, end as int),
            ),
        decreases end - pos,
    {
        let ghost rest = d@.subrange(pos as int, end as int);
        if end - pos < 8 {
            return false;
        }
        let size = read_le_u16(d, pos + 6) as usize;
        assert(le_u16(d@, pos + 6) == le_u16(rest, 6));
        if size < 8 || size > end - pos {
            return false;
        }
        let basic = d[pos] == 0 && d[pos + 1] == 0 && d[pos + 2] == 0 && d[pos + 3] == 0 && d[pos
            + 4] == 2 && d[pos + 5] == 0;
        assert(basic == is_basic_block_header(rest));
        assert(rest.subrange(8, size as int) =~= d@.subrange(pos + 8, pos + size));
        assert(rest.subrange(size as int, rest.len() as int) =~= d@.subrange(
            pos + size,
            end as int,
        ));
        if basic {
            let data = pos + 8;
            if size >= 16 && (d[data + 4] == 255 || d[data + 5] == 255 || d[data + 6] == 255
                || d[data + 7] == 255) {
                return true;
            }
            if !basic_block_data_parses(d, data, pos + size) {
                return false;
            }
        }
        pos = pos + size;
    }
    assert(d@.subrange(pos as int, end as int).len() == 0);
    false
}

/// Whether `ktx2::Reader::new` would panic on these bytes.
pub fn ktx2_reader_would_panic(data: &[u8]) -> (panics: bool)
    ensures
        panics == ktx2_reader_panics(data@),
{
    let len = data.len();
    if len < 80 {
        return false;
    }
    let identifier = data[0] == 0xAB && data[1] == 0x4B && data[2] == 0x54 && data[3] == 0x58
        && data[4] == 0x20 && data[5] == 0x32 && data[6] == 0x30 && data[7] == 0xBB && data[8]
        == 0x0D && data[9] == 0x0A && data[10] == 0x1A && data[11] == 0x0A;
    let width = read_le_u32(data, 20);
    let face_count = read_le_u32(data, 36);
    let dfd_offset = read_le_u32(data, 48);
    let dfd_length = read_le_u32(data, 52);
    let kvd_offset = read_le_u32(data, 56);
    let kvd_length = read_le_u32(data, 60);
    let sgd_offset = read_le_u64(data, 64);
    let sgd_length = read_le_u64(data, 72);
    let parses_dfd = identifier && width != 0 && face_count != 0 && dfd_offset + 4
        <= 0xffff_ffff && dfd_offset + dfd_length <= 0xffff_ffff && dfd_length >= 4 && dfd_offset
        + dfd_length < len as u64 && sgd_offset + sgd_length <= 0xffff_ffff_ffff_ffff
        && sgd_offset + sgd_length < len as u128 && kvd_offset + kvd_length <= 0xffff_ffff
        && kvd_offset + kvd_length < len as u64;
    if !parses_dfd {
        return false;
    }
    dfd_blocks_would_panic(data, (dfd_offset + 4) as usize, (dfd_offset + dfd_length) as usize)
}

} // verus!

verus! {

/// A basic block's data has a maximal texel block dimension exactly when one
/// of its four dimension bytes, at offsets 4 to 7, is 255.
pub proof fn lemma_maximal_dimension_byte(data: Seq<u8>)
    ensures
        has_maximal_dimension_byte(data) <==> (data.len() >= 8 && exists|i: int|
            4 <= i < 8 && #[trigger] data[i] == 255),
{
    if data.len() >= 8 && exists|i: int| 4 <= i < 8 && #[trigger] data[i] == 255 {
        let i = choose|i: int| 4 <= i < 8 && #[trigger] data[i] == 255;
        assert(i == 4 || i == 5 || i == 6 || i == 7);
    }
}

/// Parsing DFD blocks panics only where some byte of them is 255: a texel
/// block dimension byte that overflows when one is added to it.
pub proof fn lemma_dfd_panics_only_on_a_maximal_byte(d: Seq<u8>)
    ensures
        dfd_blocks_panic(d) ==> exists|i: int| 0 <= i < d.len() && #[trigger] d[i] == 255,
    decreases d.len(),
{
    if d.len() >= 8 {
        let size = le_u16(d, 6) as int;
        if size >= 8 && size <= d.len() {
            let data = d.subrange(8, size);
            if is_basic_block_header(d) && has_maximal_dimension_byte(data) {
                lemma_maximal_dimension_byte(data);
                let i = choose|i: int| 4 <= i < 8 && #[trigger] data[i] == 255;
                assert(d[8 + i] == 255);
            } else if is_basic_block_header(d) && !basic_block_parses(data) {
            } else {
                let rest = d.subrange(size, d.len() as int);
                lemma_dfd_panics_only_on_a_maximal_byte(rest);
                if dfd_blocks_panic(rest) {
                    let j = choose|j: int| 0 <= j < rest.len() && #[trigger] rest[j] == 255;
                    assert(d[size + j] == 255);
                }
            }
        }
    }
}

/// The KTX2 reader panics only on bytes of which one, inside the data format
/// descriptor's blocks, is 255.
pub proof fn lemma_reader_panics_only_on_a_maximal_byte(d: Seq<u8>)
    ensures
        ktx2_reader_panics(d) ==> exists|i: int|
            le_u32(d, 48) + 4 <= i < le_u32(d, 48) + le_u32(d, 52) && #[trigger] d[i] == 255,
{
    if ktx2_reader_panics(d) {
        let start = le_u32(d, 48) + 4int;
        let blocks = d.subrange(start, le_u32(d, 48) + le_u32(d, 52) as int);
        lemma_dfd_panics_only_on_a_maximal_byte(blocks);
        let j = choose|j: int| 0 <= j < blocks.len() && #[trigger] blocks[j] == 255;
        assert(d[start + j] == 255);
    }
}

/// A basic block (vendor 0, type 0, version 2) that comes first, fits in the
/// DFD and has a texel block dimension byte of 255 makes parsing panic.
pub proof fn lemma_first_basic_block_with_maximal_byte_panics(d: Seq<u8>, i: int)
    requires
        d.len() >= 16,
        d[0] == 0 && d[1] == 0 && d[2] == 0 && d[3] == 0 && d[4] == 2 && d[5] == 0,
        16 <= d[6] + 256 * d[7] <= d.len(),
        12 <= i < 16,
        d[i] == 255,
    ensures
        dfd_blocks_panic(d),
{
    let size = le_u16(d, 6) as int;
    let data = d.subrange(8, size);
    assert(data[i - 8] == 255);
    lemma_maximal_dimension_byte(data);
}

} // verus!
