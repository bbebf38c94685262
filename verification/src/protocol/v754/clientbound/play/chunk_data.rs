use vstd::prelude::*;
use crate::raw_packet::{decode_varint_list, RawPacket};
use crate::nbt_blob::{
    concat_bytes, lemma_nbt_list_fail_stays, lemma_nbt_list_whole, nbt_list_step, nbt_step, nbt_whole,
    nbt_written, new_blob, write_nbt_blob,
};
use crate::wire::{
    and_then, bool_step, int_step, short_step, take_step, u16_be, u32_be, u64_be, ubyte_step,
    ulong_step, varint_bytes, varint_list_step, varint_step, Step,
};
use crate::packet::{sent, Packet};
use crate::protocol::v754::{fid_to_pid, pid_of, Fid};
use crate::replies::one;
use crate::types::Direction;
use crate::laws::{
    law_bool_roundtrip, law_double_roundtrip, law_int_roundtrip, law_short_roundtrip,
    law_ubyte_roundtrip,
};
use crate::wire::{lemma_varint_bits_encode, lemma_varint_roundtrip};

verus! {

/// One 16×16×16 section of a chunk column: its block count, the bits that
/// each block takes, the palette (absent in the direct format), the number
/// of longs the blocks were packed into, and the block ids.
#[derive(Debug)]
pub struct ChunkSection {
    pub block_count: i16,
    pub bits_per_block: u8,
    pub palette: Option<Vec<i32>>,
    pub data_array_length: i32,
    pub block_ids_array: Vec<i32>,
}

/// A section as plain values: block count, bits per block, palette,
/// number of longs, block ids.
pub type SectionView = (i16, u8, Option<Seq<i32>>, i32, Seq<i32>);

/// The plain values of an optional list.
pub open spec fn opt_seq(o: Option<Vec<i32>>) -> Option<Seq<i32>> {
    match o {
        Some(v) => Some(v@),
        None => None,
    }
}

impl ChunkSection {
    pub open spec fn view_section(&self) -> SectionView {
        (
            self.block_count,
            self.bits_per_block,
            opt_seq(self.palette),
            self.data_array_length,
            self.block_ids_array@,
        )
    }
}

/// The plain values of a list of optional sections.
pub open spec fn sections_view(d: Seq<Option<ChunkSection>>) -> Seq<Option<SectionView>> {
    d.map_values(
        |o: Option<ChunkSection>|
            match o {
                Some(c) => Some(c.view_section()),
                None => None,
            },
    )
}

/// The bits per block that a reader keeps: 4 for anything up to 4, the
/// value itself from 5 to 8, and 255 (the direct format) above 8.
pub open spec fn kept_bits(b: u8) -> u8 {
    if b <= 4 {
        4
    } else if b <= 8 {
        b
    } else {
        255
    }
}

/// A mask of the `bits` lowest bits.
pub open spec fn low_bits(bits: u8) -> u64 {
    ((1u64 << bits) - 1) as u64
}

/// Field number `i` of width `bits` in a long, counted from the least
/// significant end.
pub open spec fn packed_field(long: u64, i: int, bits: u8) -> u64 {
    (long >> ((i * bits) as u64)) & low_bits(bits)
}

/// The block id that a field stands for: its palette entry (0 when the
/// field points past the palette), or the field itself without a palette.
pub open spec fn block_of(field: u64, palette: Option<Seq<i32>>) -> i32 {
    match palette {
        Some(p) => if field < p.len() {
            p[field as int]
        } else {
            0
        },
        None => field as i32,
    }
}

/// The block ids that one long holds: `64 / bits` fields, lowest first.
pub open spec fn long_blocks(long: u64, bits: u8, palette: Option<Seq<i32>>) -> Seq<i32> {
    Seq::new((64u8 / bits) as nat, |i: int| block_of(packed_field(long, i, bits), palette))
}

/// Reading `n` longs and unpacking the block ids of each.
pub open spec fn longs_step(s: Seq<u8>, n: int, bits: u8, palette: Option<Seq<i32>>) -> Step<
    Seq<i32>,
>
    decreases n,
{
    if n <= 0 {
        Step::Done(Seq::empty(), s)
    } else {
        and_then(
            longs_step(s, n - 1, bits, palette),
            |ids: Seq<i32>, r: Seq<u8>|
                and_then(
                    ulong_step(r),
                    |l: u64, r2: Seq<u8>| Step::Done(ids + long_blocks(l, bits, palette), r2),
                ),
        )
    }
}

/// The palette of a section: a counted list of VarInts, unless the section
/// is in the direct format.
pub open spec fn palette_step(s: Seq<u8>, bits: u8) -> Step<Option<Seq<i32>>> {
    if bits < 255 {
        and_then(
            varint_step(s),
            |n: i32, r: Seq<u8>|
                and_then(varint_list_step(r, n as int), |p: Seq<i32>, r2: Seq<u8>| Step::Done(Some(p), r2)),
        )
    } else {
        Step::Done(None, s)
    }
}

/// Reading one chunk section.
pub open spec fn section_step(s: Seq<u8>) -> Step<SectionView> {
    and_then(short_step(s), |count: i16, r1: Seq<u8>|
    and_then(ubyte_step(r1), |b: u8, r2: Seq<u8>|
    and_then(palette_step(r2, kept_bits(b)), |palette: Option<Seq<i32>>, r3: Seq<u8>|
    and_then(varint_step(r3), |len: i32, r4: Seq<u8>|
    and_then(longs_step(r4, len as int, kept_bits(b), palette), |ids: Seq<i32>, r5: Seq<u8>|
    Step::Done((count, kept_bits(b), palette, len, ids), r5))))))
}

/// Whether section `y` is present by the primary bit mask.
pub open spec fn section_present(mask: i32, y: i32) -> bool {
    mask & (1i32 << y) != 0
}

/// Reading the first `k` of the sixteen sections: a present one is read,
/// an absent one is recorded as `None`.
pub open spec fn sections_step(s: Seq<u8>, mask: i32, k: int) -> Step<Seq<Option<SectionView>>>
    decreases k,
{
    if k <= 0 {
        Step::Done(Seq::empty(), s)
    } else {
        and_then(
            sections_step(s, mask, k - 1),
            |secs: Seq<Option<SectionView>>, r: Seq<u8>|
                if section_present(mask, (k - 1) as i32) {
                    and_then(
                        section_step(r),
                        |sec: SectionView, r2: Seq<u8>| Step::Done(secs.push(Some(sec)), r2),
                    )
                } else {
                    Step::Done(secs.push(None), r)
                },
        )
    }
}

/// The biome list of a full chunk (a count, then that many VarInts), or
/// nothing.
pub open spec fn biomes_step(s: Seq<u8>, full: bool) -> Step<Option<(i32, Seq<i32>)>> {
    if full {
        and_then(
            varint_step(s),
            |n: i32, r: Seq<u8>|
                and_then(varint_list_step(r, n as int), |l: Seq<i32>, r2: Seq<u8>| Step::Done(Some((n, l)), r2)),
        )
    } else {
        Step::Done(None, s)
    }
}

/// The bytes of the section data: `size` bytes, refused when negative.
pub open spec fn section_bytes_step(s: Seq<u8>, size: i32) -> Step<Seq<u8>> {
    if size < 0 {
        Step::Fail(s)
    } else {
        take_step(s, size as nat)
    }
}

/// A chunk as plain values: x, z, full chunk, primary bit mask, biome
/// count and list (full chunks only), data size, the sixteen sections,
/// number of block entities.
pub type ChunkView = (i32, i32, bool, i32, Option<(i32, Seq<i32>)>, i32, Seq<Option<SectionView>>, i32);

/// The fields of a Chunk Data packet, in the order they are read; the
/// section data is read from its own `size` bytes, and what the sixteen
/// sections leave of them is ignored.
pub open spec fn chunk_step(s: Seq<u8>) -> Step<ChunkView> {
    and_then(int_step(s), |x: i32, r1: Seq<u8>|
    and_then(int_step(r1), |z: i32, r2: Seq<u8>|
    and_then(bool_step(r2), |full: bool, r3: Seq<u8>|
    and_then(varint_step(r3), |mask: i32, r4: Seq<u8>|
    and_then(nbt_step(r4), |u: (), r5: Seq<u8>|
    and_then(biomes_step(r5, full), |biomes: Option<(i32, Seq<i32>)>, r6: Seq<u8>|
    chunk_body_step(r6, x, z, full, mask, biomes)))))))
}

/// The rest of a Chunk Data packet after the biomes: the data size, the
/// sections read from that many bytes, the block entity count and the
/// block entities.
pub open spec fn chunk_body_step(
    s: Seq<u8>,
    x: i32,
    z: i32,
    full: bool,
    mask: i32,
    biomes: Option<(i32, Seq<i32>)>,
) -> Step<ChunkView> {
    and_then(varint_step(s), |size: i32, r7: Seq<u8>|
    and_then(section_bytes_step(r7, size), |raw: Seq<u8>, r8: Seq<u8>|
    and_then(sections_step(raw, mask, 16), |secs: Seq<Option<SectionView>>, left: Seq<u8>|
    and_then(varint_step(r8), |n: i32, r9: Seq<u8>|
    and_then(nbt_list_step(r9, n as int), |k: nat, r10: Seq<u8>|
    Step::Done((x, z, full, mask, biomes, size, secs, n), r10))))))
}


/* Writing chunks */

/// The number of block fields in a long of `bits`-wide fields.
pub open spec fn fields_per_long(bits: u8) -> int {
    (64u8 / bits) as int
}

/// The number of longs a section is written with: 64 times its bits per
/// block.
pub open spec fn long_count(bits: u8) -> int {
    64 * bits
}

/// The block id at a position of the list, 0 past its end.
pub open spec fn id_at(ids: Seq<i32>, idx: int) -> i32 {
    if 0 <= idx < ids.len() {
        ids[idx]
    } else {
        0
    }
}

/// The first position of a value in a list.
pub open spec fn first_index(p: Seq<i32>, id: i32) -> int {
    choose|k: int| 0 <= k < p.len() && p[k] == id && forall|j: int| 0 <= j < k ==> p[j] != id
}

/// What is packed for a block id: its first position in the palette, or
/// the id itself without a palette.
pub open spec fn written_id(id: i32, palette: Option<Seq<i32>>) -> i32 {
    match palette {
        Some(p) => first_index(p, id) as i32,
        None => id,
    }
}

/// A value placed at field `i` of a long.
pub open spec fn field_bits(w: i32, i: int, bits: u8) -> u64 {
    ((w as i64) as u64) << ((bits * i) as u64)
}

/// The first `n` fields of a long whose first block is at `base`, OR-ed
/// together.
pub open spec fn pack_fields(v: SectionView, base: int, n: int) -> u64
    decreases n,
{
    if n <= 0 {
        0
    } else {
        pack_fields(v, base, n - 1) | field_bits(written_id(id_at(v.4, base + n - 1), v.2), n - 1, v.1)
    }
}

/// The first `m` longs of a section, big-endian.
pub open spec fn longs_out(v: SectionView, m: int) -> Seq<u8>
    decreases m,
{
    if m <= 0 {
        Seq::empty()
    } else {
        longs_out(v, m - 1) + u64_be(
            pack_fields(v, (m - 1) * fields_per_long(v.1), fields_per_long(v.1)),
        )
    }
}

/// A list of VarInts, one after the other.
pub open spec fn varints_out(l: Seq<i32>) -> Seq<u8>
    decreases l.len(),
{
    if l.len() == 0 {
        Seq::empty()
    } else {
        varints_out(l.drop_last()) + varint_bytes(l.last())
    }
}

/// A palette as written: its length, then its entries; nothing without one.
pub open spec fn palette_out(p: Option<Seq<i32>>) -> Seq<u8> {
    match p {
        Some(l) => varint_bytes(l.len() as i32) + varints_out(l),
        None => Seq::empty(),
    }
}

/// A section as written: block count, bits per block, palette, the number
/// of longs (64 times the bits per block) and the longs.
pub open spec fn section_out(v: SectionView) -> Seq<u8> {
    u16_be(v.0 as u16) + seq![v.1] + palette_out(v.2) + varint_bytes(long_count(v.1) as i32)
        + longs_out(v, long_count(v.1))
}

/// A section can be written when its bits per block are not zero and,
/// with a palette, every block id that goes into its longs is in the
/// palette.
pub open spec fn section_writable(v: SectionView) -> bool {
    &&& v.1 > 0
    &&& forall|idx: int|
        0 <= idx < long_count(v.1) * fields_per_long(v.1) ==> #[trigger] pal_has(v.2, id_at(v.4, idx))
}

/// Whether a block id can be packed with the palette: it is in it, or
/// there is none.
pub open spec fn pal_has(palette: Option<Seq<i32>>, id: i32) -> bool {
    match palette {
        Some(p) => p.contains(id),
        None => true,
    }
}

/// The first `k` sections that the mask announces, as written.
pub open spec fn sections_out(d: Seq<Option<SectionView>>, mask: i32, k: int) -> Seq<u8>
    decreases k,
{
    if k <= 0 {
        Seq::empty()
    } else {
        sections_out(d, mask, k - 1) + if section_present(mask, (k - 1) as i32) {
            match d[k - 1] {
                Some(v) => section_out(v),
                None => Seq::empty(),
            }
        } else {
            Seq::empty()
        }
    }
}

/// Entry `y` is a section that can be written.
pub open spec fn section_ok(d: Seq<Option<ChunkSection>>, y: int) -> bool {
    &&& y < d.len()
    &&& d[y] matches Some(sec) && section_writable(sec.view_section())
}

/// A chunk can be written when a full chunk has its biomes and each
/// section the mask announces is there and can be written.
pub open spec fn chunk_writable(c: ChunkData) -> bool {
    &&& c.full_chunk ==> c.biomes_length is Some && c.biomes is Some
    &&& forall|y: int|
        0 <= y < 16 && section_present(c.primary_bit_mask, y as i32) ==> #[trigger] section_ok(
            c.data@,
            y,
        )
}

/// The contents of a list of byte vectors.
pub open spec fn byte_lists(l: Seq<Vec<u8>>) -> Seq<Seq<u8>> {
    l.map_values(|b: Vec<u8>| b@)
}

/// A chunk as written, given the bytes its heightmaps and its block
/// entities were written as.
pub open spec fn chunk_out(c: ChunkData, heightmaps: Seq<u8>, entities: Seq<u8>) -> Seq<u8> {
    let sections = sections_out(sections_view(c.data@), c.primary_bit_mask, 16);
    u32_be(c.chunk_x as u32) + u32_be(c.chunk_z as u32) + seq![
        if c.full_chunk {
            1u8
        } else {
            0u8
        },
    ] + varint_bytes(c.primary_bit_mask) + heightmaps + (if c.full_chunk {
        varint_bytes(c.biomes_length.unwrap()) + varints_out(opt_seq(c.biomes).unwrap())
    } else {
        Seq::empty()
    }) + varint_bytes(sections.len() as i32) + sections + varint_bytes(
        c.number_of_block_entities,
    ) + entities
}

/// The fields of a long that hold `bits`-wide values fit in its 64 bits.
proof fn lemma_fields_fit_any(i: int, bits: int)
    requires
        0 < bits,
        0 <= i < 64int / bits,
    ensures
        i * bits + bits <= 64,
        bits * i + bits <= 64,
{
    let q = 64int / bits;
    let rm = 64int % bits;
    vstd::arithmetic::div_mod::lemma_fundamental_div_mod(64, bits);
    assert(i * bits + bits <= 64) by (nonlinear_arith)
        requires
            0 < bits,
            0 <= i,
            i + 1 <= q,
            64 == bits * q + rm,
            0 <= rm,
    ;
    assert(bits * i == i * bits) by (nonlinear_arith);
}

/// The first position of a value that is in the list.
fn first_position(p: &Vec<i32>, id: i32) -> (r: usize)
    requires
        p@.contains(id),
    ensures
        r == first_index(p@, id),
        r < p@.len(),
{
    let mut k: usize = 0;
    while k < p.len()
        invariant
            k <= p@.len(),
            p@.contains(id),
            forall|j: int| 0 <= j < k ==> p@[j] != id,
        decreases p@.len() - k,
    {
        if p[k] == id {
            let ghost c = first_index(p@, id);
            assert(0 <= k < p@.len() && p@[k as int] == id && forall|j: int| 0 <= j < k ==> p@[j] != id);
            assert(0 <= c < p@.len() && p@[c] == id && forall|j: int| 0 <= j < c ==> p@[j] != id);
            assert(c == k) by {
                if c < k {
                    assert(p@[c] != id);
                }
                if k < c {
                    assert(p@[k as int] != id);
                }
            }
            return k;
        }
        k = k + 1;
    }
    assert(false);
    0
}

/// Appends each VarInt of the list.
fn encode_varints(out: &mut RawPacket, l: &Vec<i32>)
    ensures
        final(out)@ == old(out)@ + varints_out(l@),
{
    let mut i: usize = 0;
    while i < l.len()
        invariant
            i <= l@.len(),
            out@ == old(out)@ + varints_out(l@.take(i as int)),
        decreases l@.len() - i,
    {
        out.encode_varint(l[i]);
        i = i + 1;
        assert(l@.take(i as int).drop_last() =~= l@.take((i - 1) as int));
    }
    assert(l@.take(i as int) =~= l@);
}

/// Packs the long whose first block is at `base`.
fn pack_long(sec: &ChunkSection, base: usize, per: u8) -> (r: u64)
    requires
        sec.bits_per_block > 0,
        per == 64u8 / sec.bits_per_block,
        base + per < 0x1_0000_0000,
        forall|idx: int|
            base <= idx < base + per ==> #[trigger] pal_has(opt_seq(sec.palette), id_at(sec.block_ids_array@, idx)),
    ensures
        r == pack_fields(sec.view_section(), base as int, per as int),
{
    let ghost v = sec.view_section();
    let bits = sec.bits_per_block;
    let mut long: u64 = 0;
    let mut i: u8 = 0;
    while i < per
        invariant
            i <= per,
            v == sec.view_section(),
            bits == sec.bits_per_block,
            bits > 0,
            per == 64u8 / bits,
            base + per < 0x1_0000_0000,
            forall|idx: int|
                base <= idx < base + per ==> #[trigger] pal_has(opt_seq(sec.palette), id_at(sec.block_ids_array@, idx)),
            long == pack_fields(v, base as int, i as int),
        decreases per - i,
    {
        proof {
            assert(64int / (bits as int) == per as int);
            lemma_fields_fit_any(i as int, bits as int);
        }
        let idx: usize = base + i as usize;
        let block_id: i32 = if idx < sec.block_ids_array.len() {
            sec.block_ids_array[idx]
        } else {
            0
        };
        assert(block_id == id_at(v.4, base + i));
        let real_id: i32 = match &sec.palette {
            Some(pal) => {
                assert(pal_has(opt_seq(sec.palette), id_at(sec.block_ids_array@, idx as int)));
                first_position(pal, block_id) as i32
            },
            None => block_id,
        };
        assert(real_id == written_id(id_at(v.4, base + i), v.2));
        let shift: u64 = (bits as u64) * (i as u64);
        long = long | (((real_id as i64) as u64) << shift);
        i = i + 1;
    }
    long
}

/// Appends a section as it is written.
fn encode_section(out: &mut RawPacket, sec: &ChunkSection)
    requires
        section_writable(sec.view_section()),
    ensures
        final(out)@ == old(out)@ + section_out(sec.view_section()),
{
    let ghost v = sec.view_section();
    out.encode_short(sec.block_count);
    out.encode_ubyte(sec.bits_per_block);
    match &sec.palette {
        Some(p) => {
            out.encode_varint(p.len() as i32);
            encode_varints(out, p);
        },
        None => {},
    }
    assert(out@ =~= old(out)@ + u16_be(v.0 as u16) + seq![v.1] + palette_out(v.2));
    let bits = sec.bits_per_block;
    let longs: i32 = 64 * bits as i32;
    out.encode_varint(longs);
    let ghost start = out@;
    let per: u8 = 64 / bits;
    let mut block_idx: usize = 0;
    let mut k: i32 = 0;
    while k < longs
        invariant
            v == sec.view_section(),
            section_writable(v),
            bits == v.1,
            longs == long_count(bits),
            per == 64u8 / bits,
            per == fields_per_long(bits),
            0 <= k <= longs,
            block_idx == k * per,
            out@ == start + longs_out(v, k as int),
        decreases longs - k,
    {
        assert(block_idx + per <= 16320 * 64) by (nonlinear_arith)
            requires
                block_idx == k * per,
                k < longs,
                longs <= 16320,
                per <= 64,
        ;
        proof {
            assert forall|idx: int| block_idx <= idx < block_idx + per implies
                #[trigger] pal_has(opt_seq(sec.palette), id_at(sec.block_ids_array@, idx)) by {
                assert(idx < long_count(v.1) * fields_per_long(v.1)) by (nonlinear_arith)
                    requires
                        idx < block_idx + per,
                        block_idx == k * per,
                        k + 1 <= longs,
                        longs == long_count(v.1),
                        per == fields_per_long(v.1),
                        per >= 0,
                ;
            }
        }
        let long = pack_long(sec, block_idx, per);
        out.push_u64(long);
        assert(block_idx + per == (k + 1) * per) by (nonlinear_arith)
            requires
                block_idx == k * per,
        ;
        block_idx = block_idx + per as usize;
        k = k + 1;
    }
}

/// Appends the sections that the mask announces.
fn encode_sections(out: &mut RawPacket, data: &Vec<Option<ChunkSection>>, mask: i32)
    requires
        forall|y: int|
            0 <= y < 16 && section_present(mask, y as i32) ==> #[trigger] section_ok(data@, y),
    ensures
        final(out)@ == old(out)@ + sections_out(sections_view(data@), mask, 16),
{
    let mut y: i32 = 0;
    while y < 16
        invariant
            0 <= y <= 16,
            forall|y: int|
                0 <= y < 16 && section_present(mask, y as i32) ==> #[trigger] section_ok(data@, y),
            out@ == old(out)@ + sections_out(sections_view(data@), mask, y as int),
        decreases 16 - y,
    {
        if mask & (1i32 << y) != 0 {
            assert(section_present(mask, y));
            assert(section_ok(data@, y as int));
            match &data[y as usize] {
                Some(sec) => {
                    encode_section(out, sec);
                },
                None => {},
            }
        }
        y = y + 1;
        assert(out@ =~= old(out)@ + sections_out(sections_view(data@), mask, y as int));
    }
}

/// A chunk column: coordinates, heightmaps, biomes, sections and block
/// entities.
pub struct ChunkData {
    pub chunk_x: i32,
    pub chunk_z: i32,
    pub full_chunk: bool,
    pub primary_bit_mask: i32,
    pub heightmaps: nbt::Blob,
    pub biomes_length: Option<i32>,
    pub biomes: Option<Vec<i32>>,
    pub size: i32,
    pub data: Vec<Option<ChunkSection>>,
    pub number_of_block_entities: i32,
    pub block_entities: Vec<nbt::Blob>,
}

/// Unpacks the block ids of one long.
fn unpack_long(ids: &mut Vec<i32>, long: u64, bits: u8, palette: &Option<Vec<i32>>)
    requires
        bits == 255 || 4 <= bits <= 8,
    ensures
        final(ids)@ == old(ids)@ + long_blocks(long, bits, opt_seq(*palette)),
{
    let ghost blocks = long_blocks(long, bits, opt_seq(*palette));
    let per: u8 = 64 / bits;
    let mut i: u8 = 0;
    while i < per
        invariant
            bits == 255 || 4 <= bits <= 8,
            per == 64u8 / bits,
            i <= per,
            blocks == long_blocks(long, bits, opt_seq(*palette)),
            blocks.len() == per,
            ids@ == old(ids)@ + blocks.take(i as int),
        decreases per - i,
    {
        assert(bits <= 8);
        assert(i * bits + bits <= 64) by {
            lemma_fields_fit(i, bits, per);
        }
        proof {
            lemma_field_mask(long, bits, shift_of(i, bits));
        }
        let shift: u64 = (i as u64) * (bits as u64);
        let m: u64 = (1u64 << (bits as u64)) - 1;
        let masked: u64 = (long & (m << shift)) >> shift;
        proof {
            assert(masked == packed_field(long, i as int, bits));
        }
        let id: i32 = match palette {
            Some(pal) => {
                if masked as usize >= pal.len() {
                    0
                } else {
                    pal[masked as usize]
                }
            },
            None => masked as i32,
        };
        assert(id == blocks[i as int]);
        ids.push(id);
        i = i + 1;
        assert(blocks.take(i as int) =~= blocks.take((i - 1) as int).push(blocks[i - 1]));
    }
    assert(blocks.take(i as int) =~= blocks);
}

/// The shift of field `i` of width `bits`.
spec fn shift_of(i: u8, bits: u8) -> u64 {
    ((i as u64) * (bits as u64)) as u64
}

/// Masking a field in place and shifting it down is shifting down and
/// masking; the mask of at most 8 bits is the field width's, and the field
/// is below 256.
proof fn lemma_field_mask(long: u64, bits: u8, shift: u64)
    by (bit_vector)
    requires
        1 <= bits <= 8,
        shift < 64,
    ensures
        1u64 << (bits as u64) >= 1,
        ((1u64 << (bits as u64)) - 1) as u64 == low_bits(bits),
        (long & ((((1u64 << (bits as u64)) - 1) as u64) << shift)) >> shift == (long >> shift) & low_bits(bits),
        (long >> shift) & low_bits(bits) <= 255,
{
}

/// The fields of a long fit in its 64 bits.
proof fn lemma_fields_fit(i: u8, bits: u8, per: u8)
    requires
        4 <= bits <= 8,
        per == 64u8 / bits,
        i < per,
    ensures
        i * bits + bits <= 64,
{
    if bits == 4 {
        assert(i * bits + bits <= 64) by (nonlinear_arith)
            requires
                bits == 4,
                i < 16,
        ;
    } else if bits == 5 {
        assert(i * bits + bits <= 64) by (nonlinear_arith)
            requires
                bits == 5,
                i < 12,
        ;
    } else if bits == 6 {
        assert(i * bits + bits <= 64) by (nonlinear_arith)
            requires
                bits == 6,
                i < 10,
        ;
    } else if bits == 7 {
        assert(i * bits + bits <= 64) by (nonlinear_arith)
            requires
                bits == 7,
                i < 9,
        ;
    } else {
        assert(i * bits + bits <= 64) by (nonlinear_arith)
            requires
                bits == 8,
                i < 8,
        ;
    }
}

/// Once reading the first `i` longs fails, reading more fails too.
proof fn lemma_longs_fail_stays(s: Seq<u8>, i: int, n: int, bits: u8, palette: Option<Seq<i32>>)
    requires
        0 < i <= n,
        longs_step(s, i, bits, palette) is Fail,
    ensures
        longs_step(s, n, bits, palette) is Fail,
    decreases n - i,
{
    if i < n {
        lemma_longs_fail_stays(s, i, n - 1, bits, palette);
    }
}

/// Reads `count` longs and unpacks their block ids.
fn decode_longs(raw: &mut RawPacket, count: i32, bits: u8, palette: &Option<Vec<i32>>) -> (r: Result<
    Vec<i32>,
    (),
>)
    requires
        bits == 255 || 4 <= bits <= 8,
    ensures
        match longs_step(old(raw)@, count as int, bits, opt_seq(*palette)) {
            Step::Done(v, rest) => r matches Ok(l) && l@ == v && final(raw)@ == rest,
            _ => r is Err,
        },
{
    let ghost s = raw@;
    let ghost pv = opt_seq(*palette);
    let mut ids: Vec<i32> = Vec::new();
    let mut k: i32 = 0;
    while k < count
        invariant
            s == old(raw)@,
            pv == opt_seq(*palette),
            bits == 255 || 4 <= bits <= 8,
            0 <= k,
            count > 0 ==> k <= count,
            count <= 0 ==> k == 0,
            longs_step(s, k as int, bits, pv) == Step::Done(ids@, raw@),
        decreases count - k,
    {
        let long = match raw.decode_ulong() {
            Ok(v) => v,
            Err(()) => {
                assert(longs_step(s, k + 1, bits, pv) is Fail);
                proof {
                    lemma_longs_fail_stays(s, k + 1, count as int, bits, pv);
                }
                return Err(());
            },
        };
        unpack_long(&mut ids, long, bits, palette);
        k = k + 1;
    }
    assert(longs_step(s, count as int, bits, pv) == longs_step(s, k as int, bits, pv));
    Ok(ids)
}

/// Reads one chunk section.
fn decode_section(raw: &mut RawPacket) -> (r: Result<ChunkSection, ()>)
    ensures
        match section_step(old(raw)@) {
            Step::Done(v, rest) => r matches Ok(c) && c.view_section() == v && final(raw)@ == rest,
            _ => r is Err,
        },
{
    let block_count = raw.decode_short()?;
    let b = raw.decode_ubyte()?;
    let bits: u8 = if b <= 4 {
        4
    } else if b <= 8 {
        b
    } else {
        255
    };
    let palette = if bits < 255 {
        let n = raw.decode_varint()?;
        let list = decode_varint_list(raw, n)?;
        Some(list)
    } else {
        None
    };
    let len = raw.decode_varint()?;
    let ids = decode_longs(raw, len, bits, &palette)?;
    Ok(
        ChunkSection {
            block_count,
            bits_per_block: bits,
            palette,
            data_array_length: len,
            block_ids_array: ids,
        },
    )
}

/// Once reading the first `i` sections fails, reading more fails too.
proof fn lemma_sections_fail_stays(s: Seq<u8>, mask: i32, i: int, n: int)
    requires
        0 < i <= n,
        !(sections_step(s, mask, i) is Done),
    ensures
        !(sections_step(s, mask, n) is Done),
    decreases n - i,
{
    if i < n {
        lemma_sections_fail_stays(s, mask, i, n - 1);
    }
}

/// The fields of a `ChunkData` from the `k`-th on, in the order they are
/// read (x, z, full chunk, bit mask, heightmaps, biome count, biomes,
/// size, sections, number of block entities, block entities), are those
/// of `before`.
pub open spec fn chunk_kept_from(before: ChunkData, after: ChunkData, k: int) -> bool {
    &&& k <= 0 ==> after.chunk_x == before.chunk_x
    &&& k <= 1 ==> after.chunk_z == before.chunk_z
    &&& k <= 2 ==> after.full_chunk == before.full_chunk
    &&& k <= 3 ==> after.primary_bit_mask == before.primary_bit_mask
    &&& k <= 4 ==> after.heightmaps == before.heightmaps
    &&& k <= 5 ==> after.biomes_length == before.biomes_length
    &&& k <= 6 ==> after.biomes == before.biomes
    &&& k <= 7 ==> after.size == before.size
    &&& k <= 8 ==> after.data == before.data
    &&& k <= 9 ==> after.number_of_block_entities == before.number_of_block_entities
    &&& k <= 10 ==> after.block_entities == before.block_entities
}

/// What reading the biomes from `s` does: for a full chunk the count is
/// taken over, then the list once it is read whole; otherwise nothing
/// changes.
pub open spec fn chunk_biomes_effect(before: ChunkData, after: ChunkData, s: Seq<u8>, full: bool) -> bool {
    if full {
        match varint_step(s) {
            Step::Done(n, r) => {
                &&& after.biomes_length == Some(n)
                &&& match varint_list_step(r, n as int) {
                    Step::Done(l, _) => opt_seq(after.biomes) == Some(l),
                    _ => after.biomes == before.biomes,
                }
            },
            _ => after.biomes_length == before.biomes_length && after.biomes == before.biomes,
        }
    } else {
        after.biomes_length == before.biomes_length && after.biomes == before.biomes
    }
}

/// What reading the sections from `s` does to the list held: each section
/// read (or `None` for an absent one) is added after those held, up to the
/// first section that cannot be read.
pub open spec fn sections_effect(
    before: Seq<Option<ChunkSection>>,
    after: Seq<Option<ChunkSection>>,
    s: Seq<u8>,
    mask: i32,
) -> bool {
    match sections_step(s, mask, 16) {
        Step::Done(v, _) => sections_view(after) == sections_view(before) + v,
        _ => exists|k: int|
            0 <= k < 16 && (#[trigger] sections_step(s, mask, k) matches Step::Done(v, _)
                && !(sections_step(s, mask, k + 1) is Done)
                && sections_view(after) == sections_view(before) + v),
    }
}

/// What reading `count` block entities from `s` does to the list held:
/// each compound read is added after those held, up to the first that
/// cannot be read.
pub open spec fn block_entities_effect(
    before: Seq<nbt::Blob>,
    after: Seq<nbt::Blob>,
    s: Seq<u8>,
    count: i32,
) -> bool {
    &&& after.take(before.len() as int) == before
    &&& match nbt_list_step(s, count as int) {
        Step::Done(k, _) => after.len() == before.len() + k && k == (if count > 0 {
            count as int
        } else {
            0
        }),
        _ => exists|j: int|
            0 <= j < count && (#[trigger] nbt_list_step(s, j)) is Done
                && !(nbt_list_step(s, j + 1) is Done) && after.len() == before.len() + j,
    }
}

/// What reading the rest of a chunk from `s` does, from the data size on;
/// `ok` tells whether the whole chunk was read.
pub open spec fn chunk_tail_effect(before: ChunkData, after: ChunkData, s: Seq<u8>, mask: i32, ok: bool) -> bool {
    match varint_step(s) {
        Step::Done(size, r7) => {
            &&& after.size == size
            &&& match section_bytes_step(r7, size) {
                Step::Done(raw, r8) => {
                    &&& sections_effect(before.data@, after.data@, raw, mask)
                    &&& match sections_step(raw, mask, 16) {
                        Step::Done(_, _) => match varint_step(r8) {
                            Step::Done(n, r9) => {
                                &&& after.number_of_block_entities == n
                                &&& block_entities_effect(before.block_entities@, after.block_entities@, r9, n)
                                &&& (ok <==> nbt_list_step(r9, n as int) is Done)
                            },
                            _ => !ok && chunk_kept_from(before, after, 9),
                        },
                        _ => !ok && chunk_kept_from(before, after, 9),
                    }
                },
                _ => !ok && chunk_kept_from(before, after, 8),
            }
        },
        _ => !ok && chunk_kept_from(before, after, 7),
    }
}

impl ChunkData {
    pub fn default() -> (r: Self)
        ensures
            r.chunk_x == 0,
            r.chunk_z == 0,
            !r.full_chunk,
            r.primary_bit_mask == 0,
            r.biomes_length is None,
            r.biomes is None,
            r.size == 0,
            r.data@.len() == 0,
            r.number_of_block_entities == 0,
            r.block_entities@.len() == 0,
    {
        Self {
            chunk_x: 0,
            chunk_z: 0,
            full_chunk: false,
            primary_bit_mask: 0,
            heightmaps: new_blob(),
            biomes_length: None,
            biomes: None,
            size: 0,
            data: Vec::new(),
            number_of_block_entities: 0,
            block_entities: Vec::new(),
        }
    }

    /// Reads the sixteen sections that the mask announces, adding each (or
    /// `None` for an absent one) after those held as it is read.
    #[verifier::loop_isolation(false)]
    fn read_sections(&mut self, raw: &mut RawPacket, mask: i32) -> (r: Result<(), ()>)
        ensures
            sections_effect(old(self).data@, final(self).data@, old(raw)@, mask),
            r is Ok <==> sections_step(old(raw)@, mask, 16) is Done,
            final(self).chunk_x == old(self).chunk_x,
            final(self).chunk_z == old(self).chunk_z,
            final(self).full_chunk == old(self).full_chunk,
            final(self).primary_bit_mask == old(self).primary_bit_mask,
            final(self).heightmaps == old(self).heightmaps,
            final(self).biomes_length == old(self).biomes_length,
            final(self).biomes == old(self).biomes,
            final(self).size == old(self).size,
            final(self).number_of_block_entities == old(self).number_of_block_entities,
            final(self).block_entities == old(self).block_entities,
    {
        let ghost s = raw@;
        let ghost before = self.data@;
        assert(sections_view(self.data@.skip(before.len() as int)) =~= Seq::<Option<SectionView>>::empty());
        let mut y: i32 = 0;
        while y < 16
            invariant
                0 <= y <= 16,
                before == old(self).data@,
                before.len() <= self.data@.len(),
                self.data@ == before + self.data@.skip(before.len() as int),
                sections_step(s, mask, y as int) == Step::Done(
                    sections_view(self.data@.skip(before.len() as int)),
                    raw@,
                ),
                self.chunk_x == old(self).chunk_x,
                self.chunk_z == old(self).chunk_z,
                self.full_chunk == old(self).full_chunk,
                self.primary_bit_mask == old(self).primary_bit_mask,
                self.heightmaps == old(self).heightmaps,
                self.biomes_length == old(self).biomes_length,
                self.biomes == old(self).biomes,
                self.size == old(self).size,
                self.number_of_block_entities == old(self).number_of_block_entities,
                self.block_entities == old(self).block_entities,
            decreases 16 - y,
        {
            let ghost prev = self.data@.skip(before.len() as int);
            if mask & (1i32 << y) != 0 {
                let sec = match decode_section(raw) {
                    Ok(c) => c,
                    Err(()) => {
                        assert(!(sections_step(s, mask, y + 1) is Done));
                        assert(sections_view(before + prev) =~= sections_view(before) + sections_view(prev));
                        assert(sections_step(s, mask, y as int) matches Step::Done(v, _)
                            && !(sections_step(s, mask, y + 1) is Done)
                            && sections_view(self.data@) == sections_view(before) + v);
                        proof {
                            lemma_sections_fail_stays(s, mask, y + 1, 16);
                        }
                        return Err(());
                    },
                };
                self.data.push(Some(sec));
                assert(self.data@.skip(before.len() as int) =~= prev.push(Some(sec)));
                assert(sections_view(prev.push(Some(sec))) =~= sections_view(prev).push(Some(sec.view_section())));
            } else {
                self.data.push(None);
                assert(self.data@.skip(before.len() as int) =~= prev.push(None));
                assert(sections_view(prev.push(None)) =~= sections_view(prev).push(None));
            }
            y = y + 1;
        }
        assert(sections_view(before + self.data@.skip(before.len() as int)) =~= sections_view(before)
            + sections_view(self.data@.skip(before.len() as int)));
        Ok(())
    }

    /// Reads `count` NBT compounds, adding each after the block entities
    /// held as it is read.
    #[verifier::loop_isolation(false)]
    fn read_block_entities(&mut self, packet: &mut RawPacket, count: i32) -> (r: Result<(), ()>)
        ensures
            block_entities_effect(old(self).block_entities@, final(self).block_entities@, old(packet)@, count),
            r is Ok <==> nbt_list_step(old(packet)@, count as int) is Done,
            final(self).chunk_x == old(self).chunk_x,
            final(self).chunk_z == old(self).chunk_z,
            final(self).full_chunk == old(self).full_chunk,
            final(self).primary_bit_mask == old(self).primary_bit_mask,
            final(self).heightmaps == old(self).heightmaps,
            final(self).biomes_length == old(self).biomes_length,
            final(self).biomes == old(self).biomes,
            final(self).size == old(self).size,
            final(self).data == old(self).data,
            final(self).number_of_block_entities == old(self).number_of_block_entities,
    {
        let ghost s = packet@;
        let ghost before = self.block_entities@;
        let mut i: i32 = 0;
        while i < count
            invariant
                0 <= i,
                count > 0 ==> i <= count,
                count <= 0 ==> i == 0,
                before == old(self).block_entities@,
                self.block_entities@.len() == before.len() + i,
                self.block_entities@.take(before.len() as int) == before,
                nbt_list_step(s, i as int) == Step::Done(i as nat, packet@),
                self.chunk_x == old(self).chunk_x,
                self.chunk_z == old(self).chunk_z,
                self.full_chunk == old(self).full_chunk,
                self.primary_bit_mask == old(self).primary_bit_mask,
                self.heightmaps == old(self).heightmaps,
                self.biomes_length == old(self).biomes_length,
                self.biomes == old(self).biomes,
                self.size == old(self).size,
                self.data == old(self).data,
                self.number_of_block_entities == old(self).number_of_block_entities,
            decreases count - i,
        {
            let blob = match packet.decode_nbt() {
                Ok(b) => b,
                Err(()) => {
                    assert(nbt_list_step(s, i + 1) is Fail);
                    assert(nbt_list_step(s, i as int) is Done);
                    proof {
                        lemma_nbt_list_fail_stays(s, i + 1, count as int);
                    }
                    return Err(());
                },
            };
            let ghost prev = self.block_entities@;
            self.block_entities.push(blob);
            assert(self.block_entities@.take(before.len() as int) =~= prev.take(before.len() as int));
            i = i + 1;
        }
        assert(nbt_list_step(s, count as int) == nbt_list_step(s, i as int));
        Ok(())
    }

    /// Reads the fields from the packet body one after the other.  The
    /// biome count and list are only read for a full chunk; the sections
    /// and block entities read are added after those already held, each
    /// as it is read.  On failure what was read before stays.
    pub fn parse_packet(&mut self, packet: RawPacket) -> (r: Result<(), ()>)
        ensures
            r is Ok <==> chunk_step(packet@) is Done,
            match int_step(packet@) {
                Step::Done(x, r1) => {
                    &&& final(self).chunk_x == x
                    &&& match int_step(r1) {
                        Step::Done(z, r2) => {
                            &&& final(self).chunk_z == z
                            &&& match bool_step(r2) {
                                Step::Done(full, r3) => {
                                    &&& final(self).full_chunk == full
                                    &&& match varint_step(r3) {
                                        Step::Done(mask, r4) => {
                                            &&& final(self).primary_bit_mask == mask
                                            &&& match nbt_step(r4) {
                                                Step::Done(_, r5) => {
                                                    &&& chunk_biomes_effect(*old(self), *final(self), r5, full)
                                                    &&& match biomes_step(r5, full) {
                                                        Step::Done(_, r6) => chunk_tail_effect(
                                                            *old(self),
                                                            *final(self),
                                                            r6,
                                                            mask,
                                                            r is Ok,
                                                        ),
                                                        _ => r is Err && chunk_kept_from(*old(self), *final(self), 7),
                                                    }
                                                },
                                                _ => r is Err && chunk_kept_from(*old(self), *final(self), 4),
                                            }
                                        },
                                        _ => r is Err && chunk_kept_from(*old(self), *final(self), 3),
                                    }
                                },
                                _ => r is Err && chunk_kept_from(*old(self), *final(self), 2),
                            }
                        },
                        _ => r is Err && chunk_kept_from(*old(self), *final(self), 1),
                    }
                },
                _ => r is Err && *final(self) == *old(self),
            },
    {
        let mut packet = packet;
        let chunk_x = packet.decode_int()?;
        self.chunk_x = chunk_x;
        let chunk_z = packet.decode_int()?;
        self.chunk_z = chunk_z;
        let full_chunk = packet.decode_bool()?;
        self.full_chunk = full_chunk;
        let primary_bit_mask = packet.decode_varint()?;
        self.primary_bit_mask = primary_bit_mask;
        let heightmaps = packet.decode_nbt()?;
        self.heightmaps = heightmaps;
        if full_chunk {
            let n = packet.decode_varint()?;
            self.biomes_length = Some(n);
            let list = decode_varint_list(&mut packet, n)?;
            self.biomes = Some(list);
        }
        let size = packet.decode_varint()?;
        self.size = size;
        if size < 0 {
            return Err(());
        }
        let mut raw_chunk_data = RawPacket::from(packet.read(size as usize)?);
        self.read_sections(&mut raw_chunk_data, primary_bit_mask)?;
        let number_of_block_entities = packet.decode_varint()?;
        self.number_of_block_entities = number_of_block_entities;
        self.read_block_entities(&mut packet, number_of_block_entities)?;
        Ok(())
    }

    pub fn packet_editing(&self) -> (r: bool)
        ensures
            r,
    {
        true
    }

    /// Writes the chunk out with the given bytes for its heightmaps and for
    /// each of its block entities: the fields as read, the biomes of a full
    /// chunk, the announced sections with their blocks packed again into 64
    /// longs per bit of block width (as palette positions when there is a
    /// palette), the block entity count, then the block entity bytes.  The
    /// packet is read back as a check; it is refused when that fails, which
    /// cannot happen for a chunk that can be reread when every compound
    /// given reads back whole.
    pub fn assemble_chunk(&self, heightmaps: Vec<u8>, block_entities: Vec<Vec<u8>>) -> (r: Result<
        Vec<(Packet, Direction)>,
        (),
    >)
        requires
            chunk_writable(*self),
        ensures
            r is Ok <==> chunk_step(
                chunk_out(*self, heightmaps@, concat_bytes(byte_lists(block_entities@))),
            ) is Done,
            r matches Ok(v) ==> sent(v@) == seq![
                (
                    (
                        pid_of(Fid::ChunkData),
                        chunk_out(*self, heightmaps@, concat_bytes(byte_lists(block_entities@))),
                    ),
                    Direction::Clientbound,
                ),
            ],
            chunk_rereadable(*self) && nbt_whole(heightmaps@) && block_entities@.len()
                == self.block_entities@.len() && (forall|i: int|
                0 <= i < block_entities@.len() ==> nbt_whole(#[trigger] block_entities@[i]@))
                ==> r is Ok,
    {
        let ghost out = chunk_out(*self, heightmaps@, concat_bytes(byte_lists(block_entities@)));
        let mut raw = RawPacket::new();
        raw.encode_int(self.chunk_x);
        raw.encode_int(self.chunk_z);
        raw.encode_bool(self.full_chunk);
        raw.encode_varint(self.primary_bit_mask);
        raw.push_slice(heightmaps.as_slice());
        if self.full_chunk {
            match (&self.biomes_length, &self.biomes) {
                (Some(n), Some(list)) => {
                    raw.encode_varint(*n);
                    encode_varints(&mut raw, list);
                },
                _ => {},
            }
        }
        let mut sections = RawPacket::new();
        encode_sections(&mut sections, &self.data, self.primary_bit_mask);
        sections.prepend_length();
        raw.push_vec(sections.get_vec());
        raw.encode_varint(self.number_of_block_entities);
        let ghost before_e = raw@;
        let mut i: usize = 0;
        while i < block_entities.len()
            invariant
                i <= block_entities@.len(),
                raw@ == before_e + concat_bytes(byte_lists(block_entities@.take(i as int))),
            decreases block_entities@.len() - i,
        {
            let ghost before = raw@;
            raw.push_slice(block_entities[i].as_slice());
            proof {
                let l = byte_lists(block_entities@.take(i + 1));
                assert(l.drop_last() =~= byte_lists(block_entities@.take(i as int)));
                assert(l.last() == block_entities@[i as int]@);
                assert(raw@ =~= before_e + concat_bytes(l));
            }
            i = i + 1;
        }
        assert(block_entities@.take(i as int) =~= block_entities@);
        assert(raw@ =~= out);
        proof {
            if chunk_rereadable(*self) && nbt_whole(heightmaps@) && block_entities@.len()
                == self.block_entities@.len() && (forall|i: int|
                0 <= i < block_entities@.len() ==> nbt_whole(#[trigger] block_entities@[i]@)) {
                let pieces = byte_lists(block_entities@);
                assert forall|i: int| 0 <= i < pieces.len() implies nbt_whole(#[trigger] pieces[i]) by {
                    assert(pieces[i] == block_entities@[i]@);
                }
                law_chunk_roundtrip(*self, heightmaps@, pieces);
            }
        }
        let mut check = Self::default();
        match check.parse_packet(RawPacket::from(raw.get_vec())) {
            Ok(()) => {},
            Err(()) => {
                return Err(());
            },
        }
        let v = one(Packet::from(raw, fid_to_pid(Fid::ChunkData)), Direction::Clientbound);
        Ok(v)
    }

    /// Writes the chunk back out with the NBT writer's bytes for its
    /// heightmaps and each of its block entities, in order (see
    /// `assemble_chunk`).  Which bytes the writer gives is left unsaid: it
    /// walks each compound in the order of a `HashMap` that each process
    /// seeds, so the contract knows them only as writer outputs, and the
    /// packet is promised when they read back whole.
    pub fn edit_packet(&self) -> (r: Result<Vec<(Packet, Direction)>, ()>)
        requires
            chunk_writable(*self),
        ensures
            exists|h: Seq<u8>, pieces: Seq<Seq<u8>>|
                {
                    &&& nbt_written(h)
                    &&& pieces.len() == self.block_entities@.len()
                    &&& forall|i: int| 0 <= i < pieces.len() ==> nbt_written(#[trigger] pieces[i])
                    &&& (r is Ok <==> chunk_step(
                        #[trigger] chunk_out(*self, h, concat_bytes(pieces)),
                    ) is Done)
                    &&& (r matches Ok(v) ==> sent(v@) == seq![
                        ((pid_of(Fid::ChunkData), chunk_out(*self, h, concat_bytes(pieces))), Direction::Clientbound),
                    ])
                    &&& (chunk_rereadable(*self) && nbt_whole(h) && (forall|i: int|
                        0 <= i < pieces.len() ==> nbt_whole(#[trigger] pieces[i])) ==> r is Ok)
                },
    {
        let heightmaps = write_nbt_blob(&self.heightmaps);
        let mut entities: Vec<Vec<u8>> = Vec::new();
        let mut i: usize = 0;
        while i < self.block_entities.len()
            invariant
                i <= self.block_entities@.len(),
                entities@.len() == i,
                forall|j: int| 0 <= j < i ==> nbt_written(#[trigger] entities@[j]@),
            decreases self.block_entities@.len() - i,
        {
            let bytes = write_nbt_blob(&self.block_entities[i]);
            entities.push(bytes);
            i = i + 1;
        }
        let ghost h = heightmaps@;
        let ghost pieces = byte_lists(entities@);
        assert forall|j: int| 0 <= j < pieces.len() implies nbt_written(#[trigger] pieces[j]) by {
            assert(pieces[j] == entities@[j]@);
        }
        let ghost ents = entities@;
        let r = self.assemble_chunk(heightmaps, entities);
        assert(nbt_written(h) && pieces.len() == self.block_entities@.len());
        assert(chunk_out(*self, h, concat_bytes(pieces)) == chunk_out(*self, h, concat_bytes(byte_lists(ents))));
        assert((chunk_rereadable(*self) && nbt_whole(h) && (forall|i: int|
            0 <= i < pieces.len() ==> nbt_whole(#[trigger] pieces[i]))) ==> r is Ok) by {
            if chunk_rereadable(*self) && nbt_whole(h) && (forall|i: int|
                0 <= i < pieces.len() ==> nbt_whole(#[trigger] pieces[i])) {
                assert forall|i: int| 0 <= i < ents.len() implies nbt_whole(#[trigger] ents[i]@) by {
                    assert(pieces[i] == ents[i]@);
                }
            }
        }
        r
    }
}

/* Reading a whole chunk back */

/// A VarInt takes one to five bytes.
proof fn lemma_varint_len(v: i32)
    ensures
        1 <= varint_bytes(v).len() <= 5,
{
    lemma_varint_bits_encode(v as u32, Seq::empty());
}

/// VarInts written one after the other take at most five bytes each.
proof fn lemma_varints_len(l: Seq<i32>)
    ensures
        varints_out(l).len() <= 5 * l.len(),
    decreases l.len(),
{
    if l.len() > 0 {
        lemma_varints_len(l.drop_last());
        lemma_varint_len(l.last());
    }
}

/// `m` longs take eight bytes each.
proof fn lemma_longs_len(v: SectionView, m: int)
    requires
        m >= 0,
    ensures
        longs_out(v, m).len() == 8 * m,
    decreases m,
{
    if m > 0 {
        lemma_longs_len(v, m - 1);
    }
}

/// A packable section takes at most 5400 bytes.
proof fn lemma_section_len(v: SectionView)
    requires
        section_packable(v),
    ensures
        section_out(v).len() <= 5400,
{
    let p = v.2.unwrap();
    lemma_small_width(v.1);
    lemma_varints_len(p);
    lemma_varint_len(p.len() as i32);
    lemma_varint_len(long_count(v.1) as i32);
    lemma_longs_len(v, long_count(v.1));
}

/// The first `k` sections, all packable, take at most 5400 bytes each.
proof fn lemma_sections_len(d: Seq<Option<SectionView>>, mask: i32, k: int)
    requires
        0 <= k <= 16,
        sections_packable(d, mask, k),
    ensures
        sections_out(d, mask, k).len() <= 5400 * k,
    decreases k,
{
    if k > 0 {
        assert(sections_packable(d, mask, k - 1));
        lemma_sections_len(d, mask, k - 1);
        if section_present(mask, (k - 1) as i32) {
            lemma_section_len(d[k - 1].unwrap());
        }
    }
}

/// A chunk that reads back as it was written: it can be written, every
/// section the mask announces is packable, a full chunk's biome count is
/// the length of its biome list, and the block entity count is the number
/// of block entities held.
pub open spec fn chunk_rereadable(c: ChunkData) -> bool {
    &&& chunk_writable(c)
    &&& sections_packable(sections_view(c.data@), c.primary_bit_mask, 16)
    &&& c.full_chunk ==> (c.biomes_length matches Some(n) && c.biomes matches Some(l) && n == l@.len())
    &&& c.number_of_block_entities == c.block_entities@.len()
}

/// A chunk as it reads back after being written: the same position, full
/// chunk flag, bit mask, biomes and block entity count, the size of the
/// section data as written, and the sections reread.
pub open spec fn chunk_reread(c: ChunkData) -> ChunkView {
    (
        c.chunk_x,
        c.chunk_z,
        c.full_chunk,
        c.primary_bit_mask,
        if c.full_chunk {
            Some((c.biomes_length.unwrap(), opt_seq(c.biomes).unwrap()))
        } else {
            None
        },
        sections_out(sections_view(c.data@), c.primary_bit_mask, 16).len() as i32,
        reread_sections(sections_view(c.data@), c.primary_bit_mask, 16),
        c.number_of_block_entities,
    )
}

/// A chunk written by `edit_packet` reads back with `parse_packet` as the
/// same chunk, whenever it can be reread and the heightmap and block entity
/// bytes the NBT writer gave each read back whole as one compound.
#[verifier::spinoff_prover]
#[verifier::rlimit(100)]
pub proof fn law_chunk_roundtrip(c: ChunkData, h: Seq<u8>, pieces: Seq<Seq<u8>>)
    requires
        chunk_rereadable(c),
        nbt_whole(h),
        pieces.len() == c.block_entities@.len(),
        forall|i: int| 0 <= i < pieces.len() ==> nbt_whole(#[trigger] pieces[i]),
    ensures
        chunk_step(chunk_out(c, h, concat_bytes(pieces))) == Step::Done(chunk_reread(c), Seq::<u8>::empty()),
{
    let sv = sections_view(c.data@);
    let mask = c.primary_bit_mask;
    let sec = sections_out(sv, mask, 16);
    let size = sec.len() as i32;
    let n = c.number_of_block_entities;
    let e = concat_bytes(pieces);
    let bio = if c.full_chunk {
        varint_bytes(c.biomes_length.unwrap()) + varints_out(opt_seq(c.biomes).unwrap())
    } else {
        Seq::empty()
    };
    let t9 = varint_bytes(n) + e;
    let t8 = sec + t9;
    let t7 = varint_bytes(size) + t8;
    let t6 = bio + t7;
    let t5 = h + t6;
    let t4 = varint_bytes(mask) + t5;
    let b = if c.full_chunk { 1u8 } else { 0u8 };
    let t3 = seq![b] + t4;
    let t2 = u32_be(c.chunk_z as u32) + t3;
    let out = chunk_out(c, h, e);
    assert(out =~= u32_be(c.chunk_x as u32) + t2);
    law_int_roundtrip(c.chunk_x, t2);
    law_int_roundtrip(c.chunk_z, t3);
    law_bool_roundtrip(c.full_chunk, t4);
    lemma_varint_roundtrip(mask, t5);
    assert(nbt_step(h + t6) == Step::Done((), t6));
    let bv: Option<(i32, Seq<i32>)> = if c.full_chunk {
        Some((c.biomes_length.unwrap(), opt_seq(c.biomes).unwrap()))
    } else {
        None
    };
    if c.full_chunk {
        let l = opt_seq(c.biomes).unwrap();
        let m = c.biomes_length.unwrap();
        assert(t6 =~= varint_bytes(m) + (varints_out(l) + t7));
        lemma_varint_roundtrip(m, varints_out(l) + t7);
        lemma_varints_roundtrip(l, t7);
        assert(m as int == l.len());
        assert(biomes_step(t6, true) == Step::Done(bv, t7));
    } else {
        assert(t6 =~= t7);
    }
    assert(biomes_step(t6, c.full_chunk) == Step::Done(bv, t7));
    lemma_chunk_body_roundtrip(c, pieces);
    assert(t7 =~= varint_bytes(size) + (sec + (varint_bytes(n) + e)));
}

/// The part of a written chunk after its biomes reads back as the rest of
/// the chunk.
proof fn lemma_chunk_body_roundtrip(c: ChunkData, pieces: Seq<Seq<u8>>)
    requires
        chunk_rereadable(c),
        pieces.len() == c.block_entities@.len(),
        forall|i: int| 0 <= i < pieces.len() ==> nbt_whole(#[trigger] pieces[i]),
    ensures
        ({
            let sec = sections_out(sections_view(c.data@), c.primary_bit_mask, 16);
            let bv: Option<(i32, Seq<i32>)> = if c.full_chunk {
                Some((c.biomes_length.unwrap(), opt_seq(c.biomes).unwrap()))
            } else {
                None
            };
            chunk_body_step(
                varint_bytes(sec.len() as i32) + (sec + (varint_bytes(c.number_of_block_entities)
                    + concat_bytes(pieces))),
                c.chunk_x,
                c.chunk_z,
                c.full_chunk,
                c.primary_bit_mask,
                bv,
            ) == Step::Done(chunk_reread(c), Seq::<u8>::empty())
        }),
{
    let sv = sections_view(c.data@);
    let mask = c.primary_bit_mask;
    let sec = sections_out(sv, mask, 16);
    lemma_sections_len(sv, mask, 16);
    let size = sec.len() as i32;
    assert(size as int == sec.len());
    let n = c.number_of_block_entities;
    let e = concat_bytes(pieces);
    let t9 = varint_bytes(n) + e;
    let t8 = sec + t9;
    lemma_varint_roundtrip(size, t8);
    assert(t8.take(sec.len() as int) =~= sec);
    assert(t8.skip(sec.len() as int) =~= t9);
    assert(section_bytes_step(t8, size) == Step::Done(sec, t9));
    law_sections_roundtrip(sv, mask, 16, Seq::empty());
    assert(sec + Seq::<u8>::empty() =~= sec);
    assert(sections_step(sec, mask, 16) == Step::Done(reread_sections(sv, mask, 16), Seq::<u8>::empty()));
    lemma_varint_roundtrip(n, e);
    lemma_nbt_list_whole(pieces, Seq::empty());
    assert(e + Seq::<u8>::empty() =~= e);
    assert(nbt_list_step(e, n as int) == Step::Done(pieces.len(), Seq::<u8>::empty()));
}

/* Reading back what was written */

/// VarInts written one after the other read back as the same list.
proof fn lemma_varints_roundtrip(l: Seq<i32>, rest: Seq<u8>)
    ensures
        varint_list_step(varints_out(l) + rest, l.len() as int) == Step::Done(l, rest),
    decreases l.len(),
{
    if l.len() > 0 {
        let init = l.drop_last();
        let tail = varint_bytes(l.last()) + rest;
        assert(varints_out(l) + rest =~= varints_out(init) + tail);
        lemma_varints_roundtrip(init, tail);
        lemma_varint_roundtrip(l.last(), rest);
        assert(init.push(l.last()) =~= l);
        let sq = varints_out(l) + rest;
        let n = l.len() as int;
        assert(varint_list_step(sq, n - 1) == Step::Done(init, tail));
        assert(varint_step(tail) == Step::Done(l.last(), rest));
        assert(varint_list_step(sq, n) == and_then(
            varint_list_step(sq, n - 1),
            |vs: Seq<i32>, r: Seq<u8>|
                and_then(varint_step(r), |v: i32, r2: Seq<u8>| Step::Done(vs.push(v), r2)),
        ));
        assert(varint_list_step(sq, n) == Step::Done(init.push(l.last()), rest));
    } else {
        assert(varints_out(l) + rest =~= rest);
        assert(varint_list_step(varints_out(l) + rest, 0) == Step::Done(Seq::<i32>::empty(), rest));
        assert(l =~= Seq::<i32>::empty());
    }
}

/// OR-ing a value in at bit `s` leaves a field that ends at or below `s`
/// as it was.
proof fn lemma_or_field_below(acc: u64, w: u64, s: u64, t: u64, b: u8)
    by (bit_vector)
    requires
        1 <= b <= 8,
        w < (1u64 << b),
        s < 64,
        t + b <= s,
    ensures
        ((acc | (w << s)) >> t) & (((1u64 << b) - 1) as u64) == (acc >> t) & (((1u64 << b) - 1) as u64),
{
}

/// OR-ing a `b`-bit value in at bit `s` above everything else puts it in
/// the field at `s`, and nothing lies above that field.
proof fn lemma_or_field_top(acc: u64, w: u64, s: u64, b: u8)
    by (bit_vector)
    requires
        1 <= b <= 8,
        w < (1u64 << b),
        s < 64,
        s + b <= 64,
        acc >> s == 0,
    ensures
        ((acc | (w << s)) >> s) & (((1u64 << b) - 1) as u64) == w,
        s + b < 64 ==> (acc | (w << s)) >> ((s + b) as u64) == 0,
{
}

/// Whether every block id in `n` fields from `base` packs into a field of
/// the section's width.
pub open spec fn fields_fit(v: SectionView, base: int, n: int) -> bool {
    forall|i: int|
        0 <= i < n ==> 0 <= #[trigger] written_id(id_at(v.4, base + i), v.2) < (1u64 << v.1)
}

/// Each field of a packed long holds the value packed into it.
proof fn lemma_pack_fields(v: SectionView, base: int, n: int)
    requires
        4 <= v.1 <= 8,
        0 <= n <= fields_per_long(v.1),
        fields_fit(v, base, n),
    ensures
        forall|i: int|
            0 <= i < n ==> #[trigger] packed_field(pack_fields(v, base, n), i, v.1) == written_id(
                id_at(v.4, base + i),
                v.2,
            ) as u64,
        n < fields_per_long(v.1) ==> pack_fields(v, base, n) >> ((v.1 * n) as u64) == 0,
    decreases n,
{
    let bits = v.1;
    if n == 0 {
        assert(pack_fields(v, base, 0) == 0);
        assert((0u64 >> ((bits * 0) as u64)) == 0) by (bit_vector);
    } else {
        assert(fields_fit(v, base, n - 1));
        lemma_pack_fields(v, base, n - 1);
        let acc = pack_fields(v, base, n - 1);
        let wid = written_id(id_at(v.4, base + n - 1), v.2);
        assert(0 <= wid < (1u64 << bits));
        let w = (wid as i64) as u64;
        assert(w == wid);
        let s = (bits * (n - 1)) as u64;
        lemma_fields_fit_any(n - 1, bits as int);
        assert(bits * (n - 1) + bits <= 64);
        assert(pack_fields(v, base, n) == acc | field_bits(wid, n - 1, bits));
        assert(field_bits(wid, n - 1, bits) == w << s);
        assert(acc >> s == 0) by {
            assert(n - 1 < fields_per_long(bits));
        }
        lemma_or_field_top(acc, w, s, bits);
        assert forall|i: int| 0 <= i < n implies #[trigger] packed_field(
            pack_fields(v, base, n),
            i,
            bits,
        ) == written_id(id_at(v.4, base + i), v.2) as u64 by {
            if i < n - 1 {
                let t = (i * bits) as u64;
                assert(i * bits + bits <= bits * (n - 1)) by (nonlinear_arith)
                    requires
                        0 <= i < n - 1,
                        bits >= 1,
                ;
                lemma_or_field_below(acc, w, s, t, bits);
                assert(packed_field(acc, i, bits) == written_id(id_at(v.4, base + i), v.2) as u64);
            } else {
                assert(i * bits == bits * (n - 1)) by (nonlinear_arith)
                    requires
                        i == n - 1,
                ;
            }
        }
        if n < fields_per_long(bits) {
            lemma_fields_fit_any(n, bits as int);
            assert(bits * n == bits * (n - 1) + bits) by (nonlinear_arith);
        }
    }
}

/// The first position of a value in a list that holds it is in range and
/// holds the value.
proof fn lemma_first_index(p: Seq<i32>, id: i32)
    requires
        p.contains(id),
    ensures
        0 <= first_index(p, id) < p.len(),
        p[first_index(p, id)] == id,
{
    let k = choose|k: int| 0 <= k < p.len() && p[k] == id;
    lemma_least_index(p, id, k);
}

proof fn lemma_least_index(p: Seq<i32>, id: i32, k: int)
    requires
        0 <= k < p.len(),
        p[k] == id,
    ensures
        exists|j: int| 0 <= j < p.len() && p[j] == id && forall|m: int| 0 <= m < j ==> p[m] != id,
    decreases k,
{
    if exists|m: int| 0 <= m < k && p[m] == id {
        let m = choose|m: int| 0 <= m < k && p[m] == id;
        lemma_least_index(p, id, m);
    } else {
        assert(forall|m: int| 0 <= m < k ==> p[m] != id);
    }
}

/// The block ids that a section's longs carry: its ids, cut or padded with
/// 0 to `64 / bits` fields in each of the `64 * bits` longs.
pub open spec fn padded_ids(v: SectionView) -> Seq<i32> {
    Seq::new((long_count(v.1) * fields_per_long(v.1)) as nat, |i: int| id_at(v.4, i))
}

/// A section whose blocks can be packed and read back: 4 to 8 bits per
/// block, and a palette with at most `2^bits` entries that holds every
/// block id going into the longs.
pub open spec fn section_packable(v: SectionView) -> bool {
    &&& 4 <= v.1 <= 8
    &&& v.2 matches Some(p) && p.len() <= (1u64 << v.1)
    &&& section_writable(v)
}

/// A field of at most 8 bits holds at most 256 values.
proof fn lemma_small_width(bits: u8)
    by (bit_vector)
    requires
        bits <= 8,
    ensures
        (1u64 << bits) <= 256,
{
}

/// What is packed for a block id of a packable section is the id's first
/// position in the palette, and it fits in a field.
proof fn lemma_written_id_fits(v: SectionView, idx: int)
    requires
        section_packable(v),
        0 <= idx < long_count(v.1) * fields_per_long(v.1),
    ensures
        ({
            let p = v.2.unwrap();
            let id = id_at(v.4, idx);
            let fi = first_index(p, id);
            &&& 0 <= fi < p.len()
            &&& p[fi] == id
            &&& fi < 256
            &&& written_id(id, v.2) == fi
            &&& fi < (1u64 << v.1)
        }),
{
    let bits = v.1;
    let p = v.2.unwrap();
    let id = id_at(v.4, idx);
    lemma_small_width(bits);
    assert(pal_has(v.2, id));
    lemma_first_index(p, id);
}

/// Long `k` of a packable section unpacks to the block ids packed into it.
proof fn lemma_long_blocks_roundtrip(v: SectionView, k: int)
    requires
        section_packable(v),
        0 <= k < long_count(v.1),
    ensures
        long_blocks(pack_fields(v, k * fields_per_long(v.1), fields_per_long(v.1)), v.1, v.2)
            =~= padded_ids(v).subrange(
            k * fields_per_long(v.1),
            k * fields_per_long(v.1) + fields_per_long(v.1),
        ),
{
    let bits = v.1;
    let per = fields_per_long(bits);
    let p = v.2.unwrap();
    let base = k * per;
    assert(per == 64u8 / bits);
    assert(base + per <= long_count(bits) * per) by (nonlinear_arith)
        requires
            base == k * per,
            0 <= k < long_count(bits),
            per >= 0,
    ;
    assert(0 <= base) by (nonlinear_arith)
        requires
            base == k * per,
            0 <= k,
            per >= 0,
    ;
    assert forall|i: int| 0 <= i < per implies 0 <= #[trigger] written_id(id_at(v.4, base + i), v.2)
        < (1u64 << bits) by {
        lemma_written_id_fits(v, base + i);
    }
    assert(fields_fit(v, base, per));
    lemma_pack_fields(v, base, per);
    let long = pack_fields(v, base, per);
    let got = long_blocks(long, bits, v.2);
    let want = padded_ids(v).subrange(base, base + per);
    assert forall|i: int| 0 <= i < per implies got[i] == want[i] by {
        let id = id_at(v.4, base + i);
        let fi = first_index(p, id);
        lemma_written_id_fits(v, base + i);
        assert(packed_field(long, i, bits) == written_id(id, v.2) as u64);
        assert(written_id(id, v.2) == fi as i32);
        assert(packed_field(long, i, bits) == fi);
    }
}

/// The longs of a packable section read back as its padded block ids.
proof fn lemma_longs_roundtrip(v: SectionView, m: int, rest: Seq<u8>)
    requires
        section_packable(v),
        0 <= m <= long_count(v.1),
    ensures
        longs_step(longs_out(v, m) + rest, m, v.1, v.2) == Step::Done(
            padded_ids(v).take(m * fields_per_long(v.1)),
            rest,
        ),
    decreases m,
{
    let bits = v.1;
    let per = fields_per_long(bits);
    let padded = padded_ids(v);
    if m > 0 {
        let long = pack_fields(v, (m - 1) * per, per);
        let tail = u64_be(long) + rest;
        let sq = longs_out(v, m) + rest;
        assert(sq =~= longs_out(v, m - 1) + tail);
        lemma_longs_roundtrip(v, m - 1, tail);
        law_double_roundtrip(long, rest);
        lemma_long_blocks_roundtrip(v, m - 1);
        assert((m - 1) * per + per == m * per) by (nonlinear_arith);
        assert(m * per <= long_count(bits) * per) by (nonlinear_arith)
            requires
                m <= long_count(bits),
                per >= 0,
        ;
        assert(0 <= (m - 1) * per) by (nonlinear_arith)
            requires
                m >= 1,
                per >= 0,
        ;
        assert(padded.take((m - 1) * per) + padded.subrange((m - 1) * per, m * per) =~= padded.take(
            m * per,
        ));
        assert(longs_step(sq, m - 1, bits, v.2) == Step::Done(padded.take((m - 1) * per), tail));
        assert(ulong_step(tail) == Step::Done(long, rest));
        assert(longs_step(sq, m, bits, v.2) == and_then(
            longs_step(sq, m - 1, bits, v.2),
            |ids: Seq<i32>, r: Seq<u8>|
                and_then(
                    ulong_step(r),
                    |l: u64, r2: Seq<u8>| Step::Done(ids + long_blocks(l, bits, v.2), r2),
                ),
        ));
        assert(longs_step(sq, m, bits, v.2) == Step::Done(
            padded.take((m - 1) * per) + long_blocks(long, bits, v.2),
            rest,
        ));
    } else {
        assert(longs_out(v, m) + rest =~= rest);
        assert(padded.take(0) =~= Seq::<i32>::empty());
    }
}

/// A section written by `encode_section` reads back with the section
/// reader as the same section, its block ids cut or padded with 0 to the
/// `64 * bits` longs it was written with, whenever its bits per block are
/// 4 to 8 and its palette has at most `2^bits` entries and holds every
/// block id that goes into the longs.
pub proof fn law_section_roundtrip(v: SectionView, rest: Seq<u8>)
    requires
        section_packable(v),
    ensures
        section_step(section_out(v) + rest) == Step::Done(
            (v.0, v.1, v.2, long_count(v.1) as i32, padded_ids(v)),
            rest,
        ),
{
    let bits = v.1;
    let p = v.2.unwrap();
    let n = long_count(bits) as i32;
    assert(n as int == long_count(bits));
    assert(p.len() <= 256) by {
        lemma_small_width(bits);
    }
    let r5 = rest;
    let r4 = longs_out(v, long_count(bits)) + r5;
    let r3 = varint_bytes(n) + r4;
    let r2 = varint_bytes(p.len() as i32) + (varints_out(p) + r3);
    let r1 = seq![bits] + r2;
    let sq = section_out(v) + rest;
    assert(sq =~= u16_be(v.0 as u16) + r1);
    law_short_roundtrip(v.0, r1);
    law_ubyte_roundtrip(bits, r2);
    assert(kept_bits(bits) == bits);
    lemma_varint_roundtrip(p.len() as i32, varints_out(p) + r3);
    lemma_varints_roundtrip(p, r3);
    assert(palette_step(r2, bits) == Step::Done(Some(p), r3));
    lemma_varint_roundtrip(n, r4);
    lemma_longs_roundtrip(v, long_count(bits), r5);
    assert(padded_ids(v).take(long_count(bits) * fields_per_long(bits)) =~= padded_ids(v));
}

/// A section as it reads back after being written: the same block count,
/// bits and palette, `64 * bits` longs, and the padded block ids.
pub open spec fn reread(v: SectionView) -> SectionView {
    (v.0, v.1, v.2, long_count(v.1) as i32, padded_ids(v))
}

/// The first `k` sections as they read back after being written: the
/// announced ones reread, the others absent.
pub open spec fn reread_sections(d: Seq<Option<SectionView>>, mask: i32, k: int) -> Seq<
    Option<SectionView>,
> {
    Seq::new(
        k as nat,
        |y: int|
            if section_present(mask, y as i32) {
                match d[y] {
                    Some(v) => Some(reread(v)),
                    None => None,
                }
            } else {
                None
            },
    )
}

/// Every section the mask announces among the first `k` is there and
/// packable.
pub open spec fn sections_packable(d: Seq<Option<SectionView>>, mask: i32, k: int) -> bool {
    &&& d.len() >= k
    &&& forall|y: int|
        0 <= y < k && section_present(mask, y as i32) ==> (#[trigger] d[y] matches Some(v)
            && section_packable(v))
}

/// The section data that `edit_packet` writes (the bytes its size counts)
/// reads back with the section reader as the announced sections, each
/// reread, and absent ones as `None`, whenever every announced section is
/// packable.
pub proof fn law_sections_roundtrip(d: Seq<Option<SectionView>>, mask: i32, k: int, rest: Seq<u8>)
    requires
        0 <= k <= 16,
        sections_packable(d, mask, k),
    ensures
        sections_step(sections_out(d, mask, k) + rest, mask, k) == Step::Done(
            reread_sections(d, mask, k),
            rest,
        ),
    decreases k,
{
    if k > 0 {
        let y = k - 1;
        let piece = if section_present(mask, y as i32) {
            match d[y] {
                Some(v) => section_out(v),
                None => Seq::empty(),
            }
        } else {
            Seq::empty()
        };
        let tail = piece + rest;
        let sq = sections_out(d, mask, k) + rest;
        assert(sq =~= sections_out(d, mask, y) + tail);
        assert(sections_packable(d, mask, y));
        law_sections_roundtrip(d, mask, y, tail);
        assert(reread_sections(d, mask, y).push(reread_sections(d, mask, k)[y]) =~= reread_sections(
            d,
            mask,
            k,
        ));
        if section_present(mask, y as i32) {
            let v = d[y].unwrap();
            law_section_roundtrip(v, rest);
            assert(sections_step(sq, mask, k) == Step::Done(
                reread_sections(d, mask, y).push(Some(reread(v))),
                rest,
            ));
        } else {
            assert(tail =~= rest);
            assert(sections_step(sq, mask, k) == Step::Done(
                reread_sections(d, mask, y).push(None),
                rest,
            ));
        }
    } else {
        assert(sections_out(d, mask, k) + rest =~= rest);
        assert(reread_sections(d, mask, k) =~= Seq::<Option<SectionView>>::empty());
    }
}


/// The bits per block that a section is read with: up to 4 are taken as 4,
/// 5 to 8 as they are, and more than 8 as 255, the direct format without a
/// palette.
pub proof fn law_kept_bits(b: u8)
    ensures
        b <= 4 ==> kept_bits(b) == 4,
        4 < b <= 8 ==> kept_bits(b) == b,
        b > 8 ==> kept_bits(b) == 255,
{
}

} // verus!
