//! What reading gives back of writing: for every field type, the reader
//! applied to what the writer appended hands back the written value and
//! leaves whatever followed it untouched.
use vstd::prelude::*;
use crate::wire::{
    bool_step, byte_step, ubyte_step, short_step, ushort_step, int_step, uint_step, long_step,
    ulong_step, uuid_step, varint_step, varlong_step, string_step, position_step, u16_be, u32_be,
    u64_be, u128_be, varint_bytes, varlong_bytes, string_bytes, position_packed, be_u64, Step,
    lemma_u16_roundtrip, lemma_u32_roundtrip, lemma_u64_roundtrip, lemma_u128_roundtrip,
    lemma_varint_roundtrip, lemma_varlong_roundtrip, lemma_string_roundtrip,
};
use vstd::utf8::encode_utf8;

verus! {

/// A boolean written by `encode_bool` reads back with `decode_bool`.
pub proof fn law_bool_roundtrip(v: bool, rest: Seq<u8>)
    ensures
        bool_step(seq![if v { 1u8 } else { 0u8 }] + rest) == Step::Done(v, rest),
{
    assert((seq![if v { 1u8 } else { 0u8 }] + rest).skip(1) =~= rest);
}

/// A signed byte written by `encode_byte` reads back with `decode_byte`.
pub proof fn law_byte_roundtrip(v: i8, rest: Seq<u8>)
    ensures
        byte_step(seq![v as u8] + rest) == Step::Done(v, rest),
{
    assert((seq![v as u8] + rest).skip(1) =~= rest);
    assert((v as u8) as i8 == v) by (bit_vector);
}

/// An unsigned byte written by `encode_ubyte` reads back with `decode_ubyte`
/// (and with `decode_angle`).
pub proof fn law_ubyte_roundtrip(v: u8, rest: Seq<u8>)
    ensures
        ubyte_step(seq![v] + rest) == Step::Done(v, rest),
{
    assert((seq![v] + rest).skip(1) =~= rest);
}

/// A short written by `encode_short` reads back with `decode_short`.
pub proof fn law_short_roundtrip(v: i16, rest: Seq<u8>)
    ensures
        short_step(u16_be(v as u16) + rest) == Step::Done(v, rest),
{
    lemma_u16_roundtrip(v as u16, rest);
    assert((v as u16) as i16 == v) by (bit_vector);
}

/// An unsigned short written by `encode_ushort` reads back with `decode_ushort`.
pub proof fn law_ushort_roundtrip(v: u16, rest: Seq<u8>)
    ensures
        ushort_step(u16_be(v) + rest) == Step::Done(v, rest),
{
    lemma_u16_roundtrip(v, rest);
}

/// An int written by `encode_int` reads back with `decode_int`.
pub proof fn law_int_roundtrip(v: i32, rest: Seq<u8>)
    ensures
        int_step(u32_be(v as u32) + rest) == Step::Done(v, rest),
{
    lemma_u32_roundtrip(v as u32, rest);
    assert((v as u32) as i32 == v) by (bit_vector);
}

/// A float written by `encode_float` reads back with `decode_float`, bit for bit.
pub proof fn law_float_roundtrip(bits: u32, rest: Seq<u8>)
    ensures
        uint_step(u32_be(bits) + rest) == Step::Done(bits, rest),
{
    lemma_u32_roundtrip(bits, rest);
}

/// A long written by `encode_long` reads back with `decode_long`.
pub proof fn law_long_roundtrip(v: i64, rest: Seq<u8>)
    ensures
        long_step(u64_be(v as u64) + rest) == Step::Done(v, rest),
{
    lemma_u64_roundtrip(v as u64, rest);
    assert((v as u64) as i64 == v) by (bit_vector);
}

/// A double written by `encode_double` reads back with `decode_double`, bit for bit.
pub proof fn law_double_roundtrip(bits: u64, rest: Seq<u8>)
    ensures
        ulong_step(u64_be(bits) + rest) == Step::Done(bits, rest),
{
    lemma_u64_roundtrip(bits, rest);
}

/// A UUID written by `encode_uuid` reads back with `decode_uuid`.
pub proof fn law_uuid_roundtrip(v: u128, rest: Seq<u8>)
    ensures
        uuid_step(u128_be(v) + rest) == Step::Done(v, rest),
{
    lemma_u128_roundtrip(v, rest);
}

/// Every `i32` written by `encode_varint` reads back with `decode_varint`.
pub proof fn law_varint_roundtrip(v: i32, rest: Seq<u8>)
    ensures
        varint_step(varint_bytes(v) + rest) == Step::Done(v, rest),
{
    lemma_varint_roundtrip(v, rest);
}

/// Every `i64` written by `encode_varlong` reads back with `decode_varlong`.
pub proof fn law_varlong_roundtrip(v: i64, rest: Seq<u8>)
    ensures
        varlong_step(varlong_bytes(v) + rest) == Step::Done(v, rest),
{
    lemma_varlong_roundtrip(v, rest);
}

/// A string written by `encode_string` reads back with `decode_string`,
/// provided its UTF-8 form is at most `i32::MAX` bytes long (beyond that
/// the written count wraps).
pub proof fn law_string_roundtrip(s: Seq<char>, rest: Seq<u8>)
    requires
        encode_utf8(s).len() <= i32::MAX,
    ensures
        string_step(string_bytes(s) + rest) == Step::Done(s, rest),
{
    lemma_string_roundtrip(s, rest);
}

/// A position written by `encode_position` reads back with
/// `decode_position` when the reader leaves its coordinates alone: x and z
/// between -2^25 and 26, y between 0 and 8.
pub proof fn law_position_roundtrip(x: i32, y: i32, z: i32, rest: Seq<u8>)
    requires
        -0x2000000 <= x < 27,
        0 <= y < 9,
        -0x2000000 <= z < 27,
    ensures
        position_step(u64_be(position_packed(x, y, z)) + rest) == Step::Done(
            (x as i64, y as i64, z as i64),
            rest,
        ),
{
    let p = position_packed(x, y, z);
    lemma_u64_roundtrip(p, rest);
    assert(be_u64(u64_be(p) + rest) == p);
    let val = p as i64;
    assert((val >> 38i64) == x as i64 && (val & 0xFFFi64) == y as i64 && ((((val as u64)
        << 26u64) as i64) >> 38i64) == z as i64) by (bit_vector)
        requires
            -0x2000000 <= x < 27,
            0 <= y < 9,
            -0x2000000 <= z < 27,
            val == ((((x as u64) & 0x3FFFFFFu64) << 38u64) | (((z as u64) & 0x3FFFFFFu64) << 12u64)
                | ((y as u64) & 0xFFFu64)) as i64,
    ;
}

} // verus!
