//! The byte-level model of the Minecraft wire format: what each field
//! type looks like on the wire, and what a reader makes of a byte
//! sequence.  Every reader is modelled as a step from the remaining
//! input to a value and the input that is left.
use vstd::prelude::*;
use vstd::utf8::{decode_utf8, encode_utf8, valid_utf8};

verus! {

/// The result of reading one field from the front of a byte sequence.
pub enum Step<T> {
    /// A value was read; the second component is the input that is left.
    Done(T, Seq<u8>),
    /// The reader gave up; the component is the input that is left.
    Fail(Seq<u8>),
    /// The reader panics on this input.
    Crash,
}

/// The `Result` that a reader hands back for the given step.
pub open spec fn step_res<T>(st: Step<T>) -> Result<T, ()> {
    match st {
        Step::Done(v, _) => Ok(v),
        _ => Err(()),
    }
}

/// The input left over after the given step.
pub open spec fn step_rest<T>(st: Step<T>) -> Seq<u8> {
    match st {
        Step::Done(_, r) => r,
        Step::Fail(r) => r,
        Step::Crash => Seq::empty(),
    }
}

/// Reading one field, then going on with the value read and the input left.
pub open spec fn and_then<A, B>(st: Step<A>, f: spec_fn(A, Seq<u8>) -> Step<B>) -> Step<B> {
    match st {
        Step::Done(a, r) => f(a, r),
        Step::Fail(r) => Step::Fail(r),
        Step::Crash => Step::Crash,
    }
}

/// Taking `n` raw bytes from the front.
pub open spec fn take_step(s: Seq<u8>, n: nat) -> Step<Seq<u8>> {
    if s.len() < n {
        Step::Fail(s)
    } else {
        Step::Done(s.take(n as int), s.skip(n as int))
    }
}

/* Fixed-width big-endian integers */

pub open spec fn be_u16(s: Seq<u8>) -> u16 {
    ((s[0] as u16) << 8u16) | (s[1] as u16)
}

pub open spec fn be_u32(s: Seq<u8>) -> u32 {
    ((s[0] as u32) << 24u32) | ((s[1] as u32) << 16u32) | ((s[2] as u32) << 8u32) | (s[3] as u32)
}

pub open spec fn be_u64(s: Seq<u8>) -> u64 {
    ((be_u32(s) as u64) << 32u64) | (be_u32(s.skip(4)) as u64)
}

pub open spec fn be_u128(s: Seq<u8>) -> u128 {
    ((be_u64(s) as u128) << 64u128) | (be_u64(s.skip(8)) as u128)
}

pub open spec fn u16_be(v: u16) -> Seq<u8> {
    seq![(v >> 8u16) as u8, v as u8]
}

pub open spec fn u32_be(v: u32) -> Seq<u8> {
    seq![(v >> 24u32) as u8, (v >> 16u32) as u8, (v >> 8u32) as u8, v as u8]
}

pub open spec fn u64_be(v: u64) -> Seq<u8> {
    u32_be((v >> 32u64) as u32) + u32_be(v as u32)
}

pub open spec fn u128_be(v: u128) -> Seq<u8> {
    u64_be((v >> 64u128) as u64) + u64_be(v as u64)
}

/* Readers of fixed-width fields */

pub open spec fn bool_step(s: Seq<u8>) -> Step<bool> {
    if s.len() < 1 {
        Step::Fail(s)
    } else if s[0] == 0 {
        Step::Done(false, s.skip(1))
    } else if s[0] == 1 {
        Step::Done(true, s.skip(1))
    } else {
        Step::Fail(s.skip(1))
    }
}

pub open spec fn ubyte_step(s: Seq<u8>) -> Step<u8> {
    if s.len() < 1 {
        Step::Fail(s)
    } else {
        Step::Done(s[0], s.skip(1))
    }
}

pub open spec fn byte_step(s: Seq<u8>) -> Step<i8> {
    if s.len() < 1 {
        Step::Fail(s)
    } else {
        Step::Done(s[0] as i8, s.skip(1))
    }
}

pub open spec fn ushort_step(s: Seq<u8>) -> Step<u16> {
    if s.len() < 2 {
        Step::Fail(s)
    } else {
        Step::Done(be_u16(s), s.skip(2))
    }
}

pub open spec fn short_step(s: Seq<u8>) -> Step<i16> {
    if s.len() < 2 {
        Step::Fail(s)
    } else {
        Step::Done(be_u16(s) as i16, s.skip(2))
    }
}

pub open spec fn uint_step(s: Seq<u8>) -> Step<u32> {
    if s.len() < 4 {
        Step::Fail(s)
    } else {
        Step::Done(be_u32(s), s.skip(4))
    }
}

pub open spec fn int_step(s: Seq<u8>) -> Step<i32> {
    if s.len() < 4 {
        Step::Fail(s)
    } else {
        Step::Done(be_u32(s) as i32, s.skip(4))
    }
}

pub open spec fn ulong_step(s: Seq<u8>) -> Step<u64> {
    if s.len() < 8 {
        Step::Fail(s)
    } else {
        Step::Done(be_u64(s), s.skip(8))
    }
}

pub open spec fn long_step(s: Seq<u8>) -> Step<i64> {
    if s.len() < 8 {
        Step::Fail(s)
    } else {
        Step::Done(be_u64(s) as i64, s.skip(8))
    }
}

pub open spec fn uuid_step(s: Seq<u8>) -> Step<u128> {
    if s.len() < 16 {
        Step::Fail(s)
    } else {
        Step::Done(be_u128(s), s.skip(16))
    }
}

/* VarInt and VarLong */

/// A byte whose high bit is clear ends a VarInt or VarLong.
pub open spec fn is_last_group(b: u8) -> bool {
    b < 0x80
}

/// Scanning from index `i`, the number of bytes of a variable-length
/// integer that may use at most `max` bytes: `Some(k)` when its last
/// byte is the `k`-th, `None` when no ending byte comes within the
/// first `max` bytes of the input.
pub open spec fn var_end(s: Seq<u8>, i: nat, max: nat) -> Option<nat>
    decreases max - i,
{
    if i >= max || i >= s.len() {
        None
    } else if is_last_group(s[i as int]) {
        Some(i + 1)
    } else {
        var_end(s, i + 1, max)
    }
}

/// The 32-bit pattern built from the low seven bits of the first `n`
/// bytes, least significant group first; bits beyond 32 are dropped.
pub open spec fn varint_bits(s: Seq<u8>, n: nat) -> u32
    decreases n,
{
    if n == 0 {
        0
    } else {
        varint_bits(s, (n - 1) as nat) | (((s[n - 1] & 0x7f) as u32) << ((7 * (n - 1)) as u32))
    }
}

/// The 64-bit pattern built from the low seven bits of the first `n`
/// bytes, least significant group first; bits beyond 64 are dropped.
pub open spec fn varlong_bits(s: Seq<u8>, n: nat) -> u64
    decreases n,
{
    if n == 0 {
        0
    } else {
        varlong_bits(s, (n - 1) as nat) | (((s[n - 1] & 0x7f) as u64) << ((7 * (n - 1)) as u64))
    }
}

/// The number of bytes a reader of at most `max` groups has consumed when it
/// gives up: all of the input, or `max + 1` bytes when there are more.
pub open spec fn var_give_up(s: Seq<u8>, max: nat) -> Seq<u8> {
    if s.len() <= max {
        Seq::empty()
    } else {
        s.skip(max + 1int)
    }
}

/// Reading a VarInt: at most five bytes.
pub open spec fn varint_step(s: Seq<u8>) -> Step<i32> {
    match var_end(s, 0, 5) {
        Some(k) => Step::Done(varint_bits(s, k) as i32, s.skip(k as int)),
        None => Step::Fail(var_give_up(s, 5)),
    }
}

/// Reading a VarLong: at most ten bytes.
pub open spec fn varlong_step(s: Seq<u8>) -> Step<i64> {
    match var_end(s, 0, 10) {
        Some(k) => Step::Done(varlong_bits(s, k) as i64, s.skip(k as int)),
        None => Step::Fail(var_give_up(s, 10)),
    }
}

/// The VarInt encoding of a 32-bit pattern: seven bits at a time, least
/// significant first, the high bit set on every byte but the last.
pub open spec fn var_encode_u32(x: u32) -> Seq<u8>
    decreases x,
{
    let lo = (x & 0x7f) as u8;
    let hi = x >> 7u32;
    if hi == 0 {
        seq![lo]
    } else {
        proof {
            assert(hi != 0 ==> hi < x) by (bit_vector)
                requires
                    hi == x >> 7u32,
            ;
        }
        seq![lo | 0x80] + var_encode_u32(hi)
    }
}

/// The VarLong encoding of a 64-bit pattern.
pub open spec fn var_encode_u64(x: u64) -> Seq<u8>
    decreases x,
{
    let lo = (x & 0x7f) as u8;
    let hi = x >> 7u64;
    if hi == 0 {
        seq![lo]
    } else {
        proof {
            assert(hi != 0 ==> hi < x) by (bit_vector)
                requires
                    hi == x >> 7u64,
            ;
        }
        seq![lo | 0x80] + var_encode_u64(hi)
    }
}

/// The wire form of a VarInt.
pub open spec fn varint_bytes(v: i32) -> Seq<u8> {
    var_encode_u32(v as u32)
}

/// The wire form of a VarLong.
pub open spec fn varlong_bytes(v: i64) -> Seq<u8> {
    var_encode_u64(v as u64)
}


/* Facts about the variable-length encodings */

/// Opening one more byte at the front shifts the end index by one.
pub proof fn lemma_var_end_shift(s: Seq<u8>, j: nat, m: nat)
    requires
        s.len() > 0,
    ensures
        var_end(s, j + 1, m + 1) == (match var_end(s.drop_first(), j, m) {
            Some(k) => Some(k + 1),
            None => None::<nat>,
        }),
    decreases m - j,
{
    if j >= m || j >= s.drop_first().len() {
    } else {
        assert(s[j + 1int] == s.drop_first()[j as int]);
        if !is_last_group(s[j + 1int]) {
            lemma_var_end_shift(s, j + 1, m);
        }
    }
}

/// Reading the first group apart from the others.
pub proof fn lemma_varint_bits_front(s: Seq<u8>, n: nat)
    requires
        n + 1 <= 5,
        s.len() >= n + 1,
    ensures
        varint_bits(s, n + 1) == (((s[0] & 0x7f) as u32) | (varint_bits(s.drop_first(), n) << 7u32)),
    decreases n,
{
    let c = (s[0] & 0x7f) as u32;
    if n == 0 {
        assert(varint_bits(s, 1) == varint_bits(s, 0) | (c << 0u32));
        assert((0u32 | (c << 0u32)) == (c | (0u32 << 7u32))) by (bit_vector);
    } else {
        let t = s.drop_first();
        lemma_varint_bits_front(s, (n - 1) as nat);
        let a = varint_bits(t, (n - 1) as nat);
        let d = (s[n as int] & 0x7f) as u32;
        assert(t[n - 1] == s[n as int]);
        let k = (7 * (n - 1)) as u32;
        assert(k <= 21);
        assert(((7 * n) as u32) == k + 7);
        assert(((c | (a << 7u32)) | (d << (k + 7))) == (c | ((a | (d << k)) << 7u32))) by (bit_vector)
            requires
                k <= 21,
        ;
    }
}

/// Reading the first group apart from the others.
pub proof fn lemma_varlong_bits_front(s: Seq<u8>, n: nat)
    requires
        n + 1 <= 10,
        s.len() >= n + 1,
    ensures
        varlong_bits(s, n + 1) == (((s[0] & 0x7f) as u64) | (varlong_bits(s.drop_first(), n) << 7u64)),
    decreases n,
{
    let c = (s[0] & 0x7f) as u64;
    if n == 0 {
        assert(varlong_bits(s, 1) == varlong_bits(s, 0) | (c << 0u64));
        assert((0u64 | (c << 0u64)) == (c | (0u64 << 7u64))) by (bit_vector);
    } else {
        let t = s.drop_first();
        lemma_varlong_bits_front(s, (n - 1) as nat);
        let a = varlong_bits(t, (n - 1) as nat);
        let d = (s[n as int] & 0x7f) as u64;
        assert(t[n - 1] == s[n as int]);
        let k = (7 * (n - 1)) as u64;
        assert(k <= 56);
        assert(((7 * n) as u64) == k + 7);
        assert(((c | (a << 7u64)) | (d << (k + 7))) == (c | ((a | (d << k)) << 7u64))) by (bit_vector)
            requires
                k <= 56,
        ;
    }
}

/// The end of the VarInt of a pattern below `2^(7k)` (any pattern when
/// `k` is five) lies within its first `k` bytes.
pub proof fn lemma_var_end_encode_u32(x: u32, rest: Seq<u8>, k: nat)
    requires
        1 <= k <= 5,
        k == 5 || x >> ((7 * k) as u32) == 0,
    ensures
        1 <= var_encode_u32(x).len() <= k,
        var_end(var_encode_u32(x) + rest, 0, k) == Some(var_encode_u32(x).len()),
    decreases x,
{
    let e = var_encode_u32(x);
    let s = e + rest;
    let lo = (x & 0x7f) as u8;
    let hi = x >> 7u32;
    if hi == 0 {
        assert(e == seq![lo]);
        assert(s[0] == lo);
        assert(lo < 0x80) by (bit_vector)
            requires
                lo == (x & 0x7f) as u8,
        ;
    } else {
        assert(hi != 0 ==> hi < x) by (bit_vector)
            requires
                hi == x >> 7u32,
        ;
        if k == 1 {
            assert(x >> 7u32 == 0);
            assert(false);
        }
        let sh1 = (7 * (k - 1)) as u32;
        if k == 5 {
            assert((x >> 7u32) >> 28u32 == 0) by (bit_vector);
            assert(sh1 == 28);
        } else {
            let sh = (7 * k) as u32;
            assert(sh1 + 7 == sh);
            assert(sh <= 28);
            assert(x >> sh == 0 && sh1 + 7 == sh && sh <= 28 ==> (x >> 7u32) >> sh1 == 0) by (bit_vector);
        }
        lemma_var_end_encode_u32(hi, rest, (k - 1) as nat);
        let eh = var_encode_u32(hi);
        assert(e == seq![lo | 0x80] + eh);
        assert(s.drop_first() =~= eh + rest);
        assert(s[0] == lo | 0x80);
        assert((lo | 0x80) >= 0x80) by (bit_vector);
        assert(var_end(s, 0, k) == var_end(s, 1, k));
        lemma_var_end_shift(s, 0, (k - 1) as nat);
    }
}

/// Reading back the groups of a VarInt gives the pattern that was
/// written, whatever follows it.
pub proof fn lemma_varint_bits_encode(x: u32, rest: Seq<u8>)
    ensures
        1 <= var_encode_u32(x).len() <= 5,
        varint_bits(var_encode_u32(x) + rest, var_encode_u32(x).len()) == x,
    decreases x,
{
    lemma_var_end_encode_u32(x, rest, 5);
    let lo = (x & 0x7f) as u8;
    let hi = x >> 7u32;
    let e = var_encode_u32(x);
    let s = e + rest;
    if hi == 0 {
        assert(e == seq![lo]);
        assert(s[0] == lo);
        assert(varint_bits(s, 1) == varint_bits(s, 0) | (((s[0] & 0x7f) as u32) << 0u32));
        assert((0u32 | ((((x & 0x7f) as u8 & 0x7f) as u32) << 0u32)) == x) by (bit_vector)
            requires
                x >> 7u32 == 0,
        ;
    } else {
        assert(hi != 0 ==> hi < x) by (bit_vector)
            requires
                hi == x >> 7u32,
        ;
        lemma_varint_bits_encode(hi, rest);
        let eh = var_encode_u32(hi);
        assert(e == seq![lo | 0x80] + eh);
        assert(s.drop_first() =~= eh + rest);
        assert(s[0] == lo | 0x80);
        lemma_varint_bits_front(s, eh.len());
        assert((((lo | 0x80) & 0x7f) as u32 | (hi << 7u32)) == x) by (bit_vector)
            requires
                lo == (x & 0x7f) as u8,
                hi == x >> 7u32,
        ;
    }
}

/// Reading a VarInt back gives the value that was written, and leaves
/// what followed it.
pub proof fn lemma_varint_roundtrip(v: i32, rest: Seq<u8>)
    ensures
        varint_step(varint_bytes(v) + rest) == Step::Done(v, rest),
{
    let x = v as u32;
    let e = var_encode_u32(x);
    lemma_var_end_encode_u32(x, rest, 5);
    lemma_varint_bits_encode(x, rest);
    assert((e + rest).skip(e.len() as int) =~= rest);
    assert((v as u32) as i32 == v) by (bit_vector);
}

/// The end of the VarLong of a pattern below `2^(7k)` (any pattern when
/// `k` is ten) lies within its first `k` bytes.
pub proof fn lemma_var_end_encode_u64(x: u64, rest: Seq<u8>, k: nat)
    requires
        1 <= k <= 10,
        k == 10 || x >> ((7 * k) as u64) == 0,
    ensures
        1 <= var_encode_u64(x).len() <= k,
        var_end(var_encode_u64(x) + rest, 0, k) == Some(var_encode_u64(x).len()),
    decreases x,
{
    let e = var_encode_u64(x);
    let s = e + rest;
    let lo = (x & 0x7f) as u8;
    let hi = x >> 7u64;
    if hi == 0 {
        assert(e == seq![lo]);
        assert(s[0] == lo);
        assert(lo < 0x80) by (bit_vector)
            requires
                lo == (x & 0x7f) as u8,
        ;
    } else {
        assert(hi != 0 ==> hi < x) by (bit_vector)
            requires
                hi == x >> 7u64,
        ;
        if k == 1 {
            assert(x >> 7u64 == 0);
            assert(false);
        }
        let sh1 = (7 * (k - 1)) as u64;
        if k == 10 {
            assert((x >> 7u64) >> 63u64 == 0) by (bit_vector);
            assert(sh1 == 63);
        } else {
            let sh = (7 * k) as u64;
            assert(sh1 + 7 == sh);
            assert(sh <= 63);
            assert(x >> sh == 0 && sh1 + 7 == sh && sh <= 63 ==> (x >> 7u64) >> sh1 == 0) by (bit_vector);
        }
        lemma_var_end_encode_u64(hi, rest, (k - 1) as nat);
        let eh = var_encode_u64(hi);
        assert(e == seq![lo | 0x80] + eh);
        assert(s.drop_first() =~= eh + rest);
        assert(s[0] == lo | 0x80);
        assert((lo | 0x80) >= 0x80) by (bit_vector);
        assert(var_end(s, 0, k) == var_end(s, 1, k));
        lemma_var_end_shift(s, 0, (k - 1) as nat);
    }
}

/// Reading back the groups of a VarLong gives the pattern that was
/// written, whatever follows it.
pub proof fn lemma_varlong_bits_encode(x: u64, rest: Seq<u8>)
    ensures
        1 <= var_encode_u64(x).len() <= 10,
        varlong_bits(var_encode_u64(x) + rest, var_encode_u64(x).len()) == x,
    decreases x,
{
    lemma_var_end_encode_u64(x, rest, 10);
    let lo = (x & 0x7f) as u8;
    let hi = x >> 7u64;
    let e = var_encode_u64(x);
    let s = e + rest;
    if hi == 0 {
        assert(e == seq![lo]);
        assert(s[0] == lo);
        assert(varlong_bits(s, 1) == varlong_bits(s, 0) | (((s[0] & 0x7f) as u64) << 0u64));
        assert((0u64 | ((((x & 0x7f) as u8 & 0x7f) as u64) << 0u64)) == x) by (bit_vector)
            requires
                x >> 7u64 == 0,
        ;
    } else {
        assert(hi != 0 ==> hi < x) by (bit_vector)
            requires
                hi == x >> 7u64,
        ;
        lemma_varlong_bits_encode(hi, rest);
        let eh = var_encode_u64(hi);
        assert(e == seq![lo | 0x80] + eh);
        assert(s.drop_first() =~= eh + rest);
        assert(s[0] == lo | 0x80);
        lemma_varlong_bits_front(s, eh.len());
        assert((((lo | 0x80) & 0x7f) as u64 | (hi << 7u64)) == x) by (bit_vector)
            requires
                lo == (x & 0x7f) as u8,
                hi == x >> 7u64,
        ;
    }
}

/// Reading a VarLong back gives the value that was written, and leaves
/// what followed it.
pub proof fn lemma_varlong_roundtrip(v: i64, rest: Seq<u8>)
    ensures
        varlong_step(varlong_bytes(v) + rest) == Step::Done(v, rest),
{
    let x = v as u64;
    let e = var_encode_u64(x);
    lemma_var_end_encode_u64(x, rest, 10);
    lemma_varlong_bits_encode(x, rest);
    assert((e + rest).skip(e.len() as int) =~= rest);
    assert((v as u64) as i64 == v) by (bit_vector);
}


/* Counted lists */

/// Reading `n` VarInts one after the other (none when `n` is not positive).
pub open spec fn varint_list_step(s: Seq<u8>, n: int) -> Step<Seq<i32>>
    decreases n,
{
    if n <= 0 {
        Step::Done(Seq::empty(), s)
    } else {
        and_then(
            varint_list_step(s, n - 1),
            |vs: Seq<i32>, r: Seq<u8>|
                and_then(varint_step(r), |v: i32, r2: Seq<u8>| Step::Done(vs.push(v), r2)),
        )
    }
}

/// Reading `n` strings one after the other (none when `n` is not positive).
pub open spec fn string_list_step(s: Seq<u8>, n: int) -> Step<Seq<Seq<char>>>
    decreases n,
{
    if n <= 0 {
        Step::Done(Seq::empty(), s)
    } else {
        and_then(
            string_list_step(s, n - 1),
            |vs: Seq<Seq<char>>, r: Seq<u8>|
                and_then(string_step(r), |v: Seq<char>, r2: Seq<u8>| Step::Done(vs.push(v), r2)),
        )
    }
}

/* Strings and positions */

/// Reading a string: a VarInt byte count, then that many bytes of UTF-8.
/// A negative count, or bytes that are not UTF-8, are refused.
pub open spec fn string_step(s: Seq<u8>) -> Step<Seq<char>> {
    match varint_step(s) {
        Step::Done(n, r) => if n < 0 {
            Step::Fail(r)
        } else if r.len() < n {
            Step::Fail(r)
        } else if !valid_utf8(r.take(n as int)) {
            Step::Fail(r.skip(n as int))
        } else {
            Step::Done(decode_utf8(r.take(n as int)), r.skip(n as int))
        },
        Step::Fail(r) => Step::Fail(r),
        Step::Crash => Step::Crash,
    }
}

/// The wire form of a string: its UTF-8 byte count as a VarInt (the count
/// taken modulo 2^32), then the UTF-8 bytes.
pub open spec fn string_bytes(s: Seq<char>) -> Seq<u8> {
    var_encode_u32(encode_utf8(s).len() as u32) + encode_utf8(s)
}

/// The three coordinates that the position reader makes of a packed
/// 64-bit position; each is shifted down when it reaches the bound the
/// reader compares it with (27 for x and z, 9 for y).
pub open spec fn position_xyz(val: i64) -> (i64, i64, i64) {
    let x = val >> 38i64;
    let y = val & 0xFFFi64;
    let z = (((val as u64) << 26u64) as i64) >> 38i64;
    (
        if x >= 27 { (x - 24) as i64 } else { x },
        if y >= 9 { (y - 14) as i64 } else { y },
        if z >= 27 { (z - 24) as i64 } else { z },
    )
}

pub open spec fn position_step(s: Seq<u8>) -> Step<(i64, i64, i64)> {
    if s.len() < 8 {
        Step::Fail(s)
    } else {
        Step::Done(position_xyz(be_u64(s) as i64), s.skip(8))
    }
}

/// The packed 64-bit form of a position: x in the top 26 bits, z in the
/// next 26, y in the low 12.
pub open spec fn position_packed(x: i32, y: i32, z: i32) -> u64 {
    (((x as u64) & 0x3FFFFFFu64) << 38u64) | (((z as u64) & 0x3FFFFFFu64) << 12u64) | ((y as u64)
        & 0xFFFu64)
}

/* Reading back what was written */

pub proof fn lemma_u16_roundtrip(v: u16, rest: Seq<u8>)
    ensures
        be_u16(u16_be(v) + rest) == v,
        (u16_be(v) + rest).skip(2) == rest,
{
    let s = u16_be(v) + rest;
    assert(s[0] == (v >> 8u16) as u8 && s[1] == v as u8);
    assert((((((v >> 8u16) as u8) as u16) << 8u16) | ((v as u8) as u16)) == v) by (bit_vector);
    assert(s.skip(2) =~= rest);
}

pub proof fn lemma_u32_roundtrip(v: u32, rest: Seq<u8>)
    ensures
        be_u32(u32_be(v) + rest) == v,
        (u32_be(v) + rest).skip(4) == rest,
{
    let s = u32_be(v) + rest;
    assert(s[0] == (v >> 24u32) as u8 && s[1] == (v >> 16u32) as u8 && s[2] == (v >> 8u32) as u8
        && s[3] == v as u8);
    assert((((((v >> 24u32) as u8) as u32) << 24u32) | ((((v >> 16u32) as u8) as u32) << 16u32)
        | ((((v >> 8u32) as u8) as u32) << 8u32) | ((v as u8) as u32)) == v) by (bit_vector);
    assert(s.skip(4) =~= rest);
}

pub proof fn lemma_u64_roundtrip(v: u64, rest: Seq<u8>)
    ensures
        be_u64(u64_be(v) + rest) == v,
        (u64_be(v) + rest).skip(8) == rest,
{
    let hi = (v >> 32u64) as u32;
    let lo = v as u32;
    let s = u64_be(v) + rest;
    assert(s =~= u32_be(hi) + (u32_be(lo) + rest));
    lemma_u32_roundtrip(hi, u32_be(lo) + rest);
    lemma_u32_roundtrip(lo, rest);
    assert(s.skip(4) =~= u32_be(lo) + rest);
    assert((((hi as u64) << 32u64) | (lo as u64)) == v) by (bit_vector)
        requires
            hi == (v >> 32u64) as u32,
            lo == v as u32,
    ;
    assert(s.skip(8) =~= rest);
}

pub proof fn lemma_u128_roundtrip(v: u128, rest: Seq<u8>)
    ensures
        be_u128(u128_be(v) + rest) == v,
        (u128_be(v) + rest).skip(16) == rest,
{
    let hi = (v >> 64u128) as u64;
    let lo = v as u64;
    let s = u128_be(v) + rest;
    assert(s =~= u64_be(hi) + (u64_be(lo) + rest));
    lemma_u64_roundtrip(hi, u64_be(lo) + rest);
    lemma_u64_roundtrip(lo, rest);
    assert(s.skip(8) =~= u64_be(lo) + rest);
    assert((((hi as u128) << 64u128) | (lo as u128)) == v) by (bit_vector)
        requires
            hi == (v >> 64u128) as u64,
            lo == v as u64,
    ;
    assert(s.skip(16) =~= rest);
}

/// Reading a string back gives the string that was written, and leaves
/// what followed it, whenever its UTF-8 form fits the VarInt count.
pub proof fn lemma_string_roundtrip(s: Seq<char>, rest: Seq<u8>)
    requires
        encode_utf8(s).len() <= i32::MAX,
    ensures
        string_step(string_bytes(s) + rest) == Step::Done(s, rest),
{
    let b = encode_utf8(s);
    let n = b.len();
    let e = var_encode_u32(n as u32);
    assert(e == varint_bytes(n as i32));
    assert(string_bytes(s) + rest =~= varint_bytes(n as i32) + (b + rest));
    lemma_varint_roundtrip(n as i32, b + rest);
    assert((b + rest).take(n as int) =~= b);
    assert((b + rest).skip(n as int) =~= rest);
    vstd::utf8::encode_utf8_valid_utf8(s);
    vstd::utf8::encode_utf8_decode_utf8(s);
}

} // verus!
