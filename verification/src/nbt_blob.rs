//! NBT compounds (`nbt::Blob`) as they travel through packets: read from
//! the front of a byte sequence and written back out.
use vstd::prelude::*;
use crate::wire::{be_u16, be_u32, Step};
use crate::raw_packet::{be_u16_at, be_u32_at};

verus! {

#[verifier::external_type_specification]
#[verifier::external_body]
pub struct ExNbtBlob(nbt::Blob);

/// How many bytes `nbt::Blob::from_reader` takes from the front of the
/// input when it reads a blob from it; `None` when it refuses the input.
pub uninterp spec fn nbt_read_len(bytes: Seq<u8>) -> Option<nat>;

/// What every output of the NBT writer has: at least three bytes, the
/// compound tag byte 10 first.
pub open spec fn nbt_written(b: Seq<u8>) -> bool {
    b.len() >= 3 && b[0] == 10u8
}

/// Byte sequences one after the other.
pub open spec fn concat_bytes(pieces: Seq<Seq<u8>>) -> Seq<u8>
    decreases pieces.len(),
{
    if pieces.len() == 0 {
        Seq::empty()
    } else {
        concat_bytes(pieces.drop_last()) + pieces.last()
    }
}

/* Screening NBT input before it is read */

/// The deepest nesting of lists and compounds that is read.
pub const NBT_MAX_DEPTH: u32 = 512;

/// The unsigned 16-bit length at index `i`.
pub open spec fn u16_at(s: Seq<u8>, i: int) -> int {
    be_u16(s.skip(i)) as int
}

/// The signed 32-bit length at index `i`.
pub open spec fn i32_at(s: Seq<u8>, i: int) -> int {
    (be_u32(s.skip(i)) as i32) as int
}

/// Where `k` bytes from index `i` end, when they are there.
pub open spec fn fixed_end(s: Seq<u8>, i: int, k: int) -> Option<int> {
    if 0 <= i && 0 <= k && i + k <= s.len() {
        Some(i + k)
    } else {
        None
    }
}

/// Where an array of `w`-byte items at `i` ends: a signed 32-bit count that
/// is neither negative nor more than the bytes left, then the items.
pub open spec fn array_end(s: Seq<u8>, i: int, w: int) -> Option<int> {
    if i < 0 || i + 4 > s.len() {
        None
    } else {
        let n = i32_at(s, i);
        if n < 0 || n > s.len() - (i + 4) {
            None
        } else {
            fixed_end(s, i + 4, n * w)
        }
    }
}

/// Where the payload of a tag that starts at `i` ends, when every length
/// in it is neither negative nor more than the bytes left, every tag is
/// known, and lists and compounds nest at most `depth` deep.
pub open spec fn payload_end(s: Seq<u8>, i: int, tag: u8, depth: nat) -> Option<int>
    decreases depth, 0int, 0int,
{
    if i < 0 || i > s.len() {
        None
    } else if tag == 1 {
        fixed_end(s, i, 1)
    } else if tag == 2 {
        fixed_end(s, i, 2)
    } else if tag == 3 || tag == 5 {
        fixed_end(s, i, 4)
    } else if tag == 4 || tag == 6 {
        fixed_end(s, i, 8)
    } else if tag == 7 {
        array_end(s, i, 1)
    } else if tag == 11 {
        array_end(s, i, 4)
    } else if tag == 12 {
        array_end(s, i, 8)
    } else if tag == 8 {
        if i + 2 > s.len() {
            None
        } else {
            fixed_end(s, i + 2, u16_at(s, i))
        }
    } else if tag == 9 {
        if depth == 0 || i + 5 > s.len() {
            None
        } else {
            let n = i32_at(s, i + 1);
            if n < 0 || n > s.len() - (i + 5) {
                None
            } else {
                list_end(s, i + 5, s[i], n, (depth - 1) as nat)
            }
        }
    } else if tag == 10 {
        if depth == 0 {
            None
        } else {
            compound_end(s, i, (depth - 1) as nat)
        }
    } else {
        None
    }
}

/// Where `n` payloads of one tag, one after the other from `i`, end.
pub open spec fn list_end(s: Seq<u8>, i: int, tag: u8, n: int, depth: nat) -> Option<int>
    decreases depth, 1int, n,
{
    if n <= 0 {
        Some(i)
    } else {
        match payload_end(s, i, tag, depth) {
            Some(j) => list_end(s, j, tag, n - 1, depth),
            None => None,
        }
    }
}

/// Where the entries of a compound from `i` end: each a tag byte, a name
/// and a payload, up to an end tag byte 0.
pub open spec fn compound_end(s: Seq<u8>, i: int, depth: nat) -> Option<int>
    decreases depth, 1int, s.len() - i,
{
    if i < 0 || i >= s.len() {
        None
    } else if s[i] == 0 {
        Some(i + 1)
    } else if i + 3 > s.len() {
        None
    } else {
        let name_end = i + 3 + u16_at(s, i + 1);
        if name_end > s.len() {
            None
        } else {
            match payload_end(s, name_end, s[i], depth) {
                Some(j) => if j <= i || j > s.len() {
                    None
                } else {
                    compound_end(s, j, depth)
                },
                None => None,
            }
        }
    }
}

/// Input that `nbt::Blob::from_reader` can be given: a compound tag byte
/// and a title, then a compound whose lengths are neither negative nor
/// more than the bytes left and whose nesting is at most 512 deep.
pub open spec fn nbt_screened(s: Seq<u8>) -> bool {
    &&& s.len() >= 3
    &&& s[0] == 10u8
    &&& 3 + u16_at(s, 1) <= s.len()
    &&& compound_end(s, 3 + u16_at(s, 1), (NBT_MAX_DEPTH - 1) as nat) is Some
}

fn fixed_end_exec(b: &Vec<u8>, i: usize, k: usize) -> (r: Option<usize>)
    requires
        i <= b@.len(),
    ensures
        match r {
            Some(j) => fixed_end(b@, i as int, k as int) == Some(j as int),
            None => fixed_end(b@, i as int, k as int) is None,
        },
{
    if k <= b.len() - i {
        Some(i + k)
    } else {
        None
    }
}

fn array_end_exec(b: &Vec<u8>, i: usize, w: usize) -> (r: Option<usize>)
    requires
        i <= b@.len(),
        1 <= w <= 8,
    ensures
        match r {
            Some(j) => array_end(b@, i as int, w as int) == Some(j as int),
            None => array_end(b@, i as int, w as int) is None,
        },
{
    if b.len() - i < 4 {
        return None;
    }
    let n = be_u32_at(b, i) as i32;
    assert(n as int == i32_at(b@, i as int));
    let left = b.len() - (i + 4);
    if n < 0 || n as usize > left {
        return None;
    }
    let n = n as usize;
    if n > left / w {
        assert(n * w > left) by (nonlinear_arith)
            requires
                n > left / w,
                w >= 1,
        ;
        return None;
    }
    assert(n * w <= left) by (nonlinear_arith)
        requires
            n <= left / w,
            w >= 1,
    ;
    fixed_end_exec(b, i + 4, n * w)
}

fn payload_end_exec(b: &Vec<u8>, i: usize, tag: u8, depth: u32) -> (r: Option<usize>)
    requires
        i <= b@.len(),
    ensures
        match r {
            Some(j) => payload_end(b@, i as int, tag, depth as nat) == Some(j as int),
            None => payload_end(b@, i as int, tag, depth as nat) is None,
        },
    decreases depth, 0int, 0int,
{
    if tag == 1 {
        fixed_end_exec(b, i, 1)
    } else if tag == 2 {
        fixed_end_exec(b, i, 2)
    } else if tag == 3 || tag == 5 {
        fixed_end_exec(b, i, 4)
    } else if tag == 4 || tag == 6 {
        fixed_end_exec(b, i, 8)
    } else if tag == 7 {
        array_end_exec(b, i, 1)
    } else if tag == 11 {
        array_end_exec(b, i, 4)
    } else if tag == 12 {
        array_end_exec(b, i, 8)
    } else if tag == 8 {
        if b.len() - i < 2 {
            None
        } else {
            let k = be_u16_at(b, i);
            fixed_end_exec(b, i + 2, k as usize)
        }
    } else if tag == 9 {
        if depth == 0 || b.len() - i < 5 {
            None
        } else {
            let n = be_u32_at(b, i + 1) as i32;
            assert(n as int == i32_at(b@, i + 1));
            if n < 0 || n as usize > b.len() - (i + 5) {
                None
            } else {
                list_end_exec(b, i + 5, b[i], n as u32, depth - 1)
            }
        }
    } else if tag == 10 {
        if depth == 0 {
            None
        } else {
            compound_end_exec(b, i, depth - 1)
        }
    } else {
        None
    }
}

fn list_end_exec(b: &Vec<u8>, i: usize, tag: u8, n: u32, depth: u32) -> (r: Option<usize>)
    requires
        i <= b@.len(),
    ensures
        match r {
            Some(j) => list_end(b@, i as int, tag, n as int, depth as nat) == Some(j as int),
            None => list_end(b@, i as int, tag, n as int, depth as nat) is None,
        },
    decreases depth, 1int, n,
{
    if n == 0 {
        Some(i)
    } else {
        match payload_end_exec(b, i, tag, depth) {
            Some(j) => {
                proof {
                    lemma_payload_end_in_range(b@, i as int, tag, depth as nat);
                }
                list_end_exec(b, j, tag, n - 1, depth)
            },
            None => None,
        }
    }
}

fn compound_end_exec(b: &Vec<u8>, i: usize, depth: u32) -> (r: Option<usize>)
    requires
        i <= b@.len(),
    ensures
        match r {
            Some(j) => compound_end(b@, i as int, depth as nat) == Some(j as int),
            None => compound_end(b@, i as int, depth as nat) is None,
        },
    decreases depth, 1int, b@.len() - i,
{
    if i >= b.len() {
        None
    } else if b[i] == 0 {
        Some(i + 1)
    } else if b.len() - i < 3 {
        None
    } else {
        let k = be_u16_at(b, i + 1) as usize;
        if k > b.len() - (i + 3) {
            None
        } else {
            let name_end = i + 3 + k;
            match payload_end_exec(b, name_end, b[i], depth) {
                Some(j) => if j <= i || j > b.len() {
                    None
                } else {
                    compound_end_exec(b, j, depth)
                },
                None => None,
            }
        }
    }
}

/// Where a payload ends lies within the input.
proof fn lemma_payload_end_in_range(s: Seq<u8>, i: int, tag: u8, depth: nat)
    requires
        0 <= i <= s.len(),
    ensures
        payload_end(s, i, tag, depth) matches Some(j) ==> i <= j <= s.len(),
    decreases depth, 0int, 0int,
{
    if tag == 9 && depth > 0 && i + 5 <= s.len() {
        let n = i32_at(s, i + 1);
        if 0 <= n <= s.len() - (i + 5) {
            lemma_list_end_in_range(s, i + 5, s[i], n, (depth - 1) as nat);
        }
    } else if tag == 10 && depth > 0 {
        lemma_compound_end_in_range(s, i, (depth - 1) as nat);
    }
}

proof fn lemma_list_end_in_range(s: Seq<u8>, i: int, tag: u8, n: int, depth: nat)
    requires
        0 <= i <= s.len(),
    ensures
        list_end(s, i, tag, n, depth) matches Some(j) ==> i <= j <= s.len(),
    decreases depth, 1int, n,
{
    if n > 0 {
        lemma_payload_end_in_range(s, i, tag, depth);
        if let Some(j) = payload_end(s, i, tag, depth) {
            lemma_list_end_in_range(s, j, tag, n - 1, depth);
        }
    }
}

proof fn lemma_compound_end_in_range(s: Seq<u8>, i: int, depth: nat)
    requires
        0 <= i,
    ensures
        compound_end(s, i, depth) matches Some(j) ==> i < j <= s.len(),
    decreases depth, 1int, s.len() - i,
{
    if 0 <= i < s.len() && s[i] != 0 && i + 3 <= s.len() {
        let name_end = i + 3 + u16_at(s, i + 1);
        if name_end <= s.len() {
            if let Some(j) = payload_end(s, name_end, s[i], depth) {
                if i < j <= s.len() {
                    lemma_compound_end_in_range(s, j, depth);
                }
            }
        }
    }
}

/// Whether the input can be given to the NBT reader.
pub fn nbt_screen(b: &Vec<u8>) -> (r: bool)
    ensures
        r == nbt_screened(b@),
{
    if b.len() < 3 || b[0] != 10 {
        return false;
    }
    let k = be_u16_at(b, 1) as usize;
    if k > b.len() - 3 {
        return false;
    }
    compound_end_exec(b, 3 + k, NBT_MAX_DEPTH - 1).is_some()
}

/// Where the compound at the front of screened input ends, as the screen
/// finds it.
#[verifier::opaque]
pub open spec fn nbt_extent(s: Seq<u8>) -> int {
    match compound_end(s, 3 + u16_at(s, 1), (NBT_MAX_DEPTH - 1) as nat) {
        Some(j) => j,
        None => s.len() as int,
    }
}

/// Reading one NBT compound from the front of the input: input the screen
/// turns away is refused without being read; what the reader accepts
/// leaves the bytes after the compound.
pub open spec fn nbt_step(s: Seq<u8>) -> Step<()> {
    if !nbt_screened(s) {
        Step::Fail(s)
    } else {
        match nbt_read_len(s) {
            Some(_) => Step::Done((), s.skip(nbt_extent(s))),
            None => Step::Fail(s),
        }
    }
}

/// Reading `n` NBT compounds one after the other (none when `n` is not
/// positive); the value is the number read.
pub open spec fn nbt_list_step(s: Seq<u8>, n: int) -> Step<nat>
    decreases n,
{
    if n <= 0 {
        Step::Done(0, s)
    } else {
        match nbt_list_step(s, n - 1) {
            Step::Done(k, r) => match nbt_step(r) {
                Step::Done(_, r2) => Step::Done(k + 1, r2),
                Step::Fail(r2) => Step::Fail(r2),
                Step::Crash => Step::Crash,
            },
            Step::Fail(r) => Step::Fail(r),
            Step::Crash => Step::Crash,
        }
    }
}

/// Reads one blob from the front of `bytes` with `nbt::Blob::from_reader`
/// over a cursor, and hands back the blob with the cursor's position after
/// the read.  The contract claims that this count is `nbt_read_len` of the
/// input, that `None` comes exactly when the reader refuses the input, and
/// that a blob read ends where the screen finds the compound to end: the
/// reader takes the tag byte, the title and the compound's entries up to
/// its end tag, and nothing after.  It is given only screened input: there
/// every list and array length it reserves room for is neither negative
/// nor more than the bytes left, and its recursion ends within 512 levels,
/// so it returns.
#[verifier::external_body]
pub(crate) fn read_nbt_blob(bytes: &[u8]) -> (r: Option<(nbt::Blob, usize)>)
    requires
        nbt_screened(bytes@),
    ensures
        match r {
            Some((_, n)) => nbt_read_len(bytes@) == Some(n as nat) && n <= bytes@.len()
                && n as int == nbt_extent(bytes@),
            None => nbt_read_len(bytes@) is None,
        },
{
    let mut cursor = std::io::Cursor::new(bytes);
    match nbt::Blob::from_reader(&mut cursor) {
        Ok(blob) => Some((blob, cursor.position() as usize)),
        Err(_) => None,
    }
}

/// The binary form of a blob, as `nbt::Blob::to_writer` writes it into a
/// vector.  The contract claims only what every output of the writer has:
/// the compound tag byte 10 first, then the two bytes of the title's
/// length.  The rest is not stated: the writer walks the blob's entries in
/// the order of a `HashMap` that each process seeds, and it stops part way
/// (its error is dropped here) at a list that mixes value types.
#[verifier::external_body]
pub(crate) fn write_nbt_blob(blob: &nbt::Blob) -> (r: Vec<u8>)
    ensures
        r@.len() >= 3,
        r@[0] == 10u8,
{
    let mut out: Vec<u8> = Vec::new();
    let _ = blob.to_writer(&mut out);
    out
}

/// An empty blob with an empty name, from `nbt::Blob::new`.
#[verifier::external_body]
pub(crate) fn new_blob() -> (r: nbt::Blob) {
    nbt::Blob::new()
}

/// Bytes that the NBT reader takes as one whole compound, whatever follows
/// them: it reads exactly these bytes and leaves the rest.
pub open spec fn nbt_whole(b: Seq<u8>) -> bool {
    forall|rest: Seq<u8>| #[trigger] nbt_step(b + rest) == Step::Done((), rest)
}

/// Compounds that each read whole, written one after the other, read back
/// as that many compounds, leaving what follows them.
pub proof fn lemma_nbt_list_whole(pieces: Seq<Seq<u8>>, rest: Seq<u8>)
    requires
        forall|i: int| 0 <= i < pieces.len() ==> nbt_whole(#[trigger] pieces[i]),
    ensures
        nbt_list_step(concat_bytes(pieces) + rest, pieces.len() as int) == Step::Done(
            pieces.len(),
            rest,
        ),
    decreases pieces.len(),
{
    if pieces.len() > 0 {
        let init = pieces.drop_last();
        let last = pieces.last();
        let tail = last + rest;
        assert(concat_bytes(pieces) + rest =~= concat_bytes(init) + tail);
        assert forall|i: int| 0 <= i < init.len() implies nbt_whole(#[trigger] init[i]) by {
            assert(init[i] == pieces[i]);
        }
        lemma_nbt_list_whole(init, tail);
        assert(nbt_whole(pieces[pieces.len() - 1]));
        assert(nbt_step(last + rest) == Step::Done((), rest));
    } else {
        assert(concat_bytes(pieces) + rest =~= rest);
    }
}

/// Once reading the first `i` compounds fails, reading more fails too.
pub proof fn lemma_nbt_list_fail_stays(s: Seq<u8>, i: int, n: int)
    requires
        0 < i <= n,
        nbt_list_step(s, i) is Fail,
    ensures
        nbt_list_step(s, n) is Fail,
    decreases n - i,
{
    if i < n {
        lemma_nbt_list_fail_stays(s, i, n - 1);
    }
}


/// What the payload of each NBT tag takes, from index `i`: a byte 1 byte,
/// a short 2, an int and a float 4, a long and a double 8; a string a
/// two-byte length and that many bytes; a byte, int or long array a signed
/// 32-bit count that is not negative and that many items of 1, 4 or 8
/// bytes.  The payload is screened exactly when those bytes are there.
/// The end tag 0 and tags above 12 have no payload of their own.
pub proof fn law_nbt_payload_sizes(s: Seq<u8>, i: int, depth: nat)
    requires
        0 <= i <= s.len(),
    ensures
        payload_end(s, i, 1, depth) == (if i + 1 <= s.len() { Some(i + 1) } else { None }),
        payload_end(s, i, 2, depth) == (if i + 2 <= s.len() { Some(i + 2) } else { None }),
        payload_end(s, i, 3, depth) == (if i + 4 <= s.len() { Some(i + 4) } else { None }),
        payload_end(s, i, 4, depth) == (if i + 8 <= s.len() { Some(i + 8) } else { None }),
        payload_end(s, i, 5, depth) == (if i + 4 <= s.len() { Some(i + 4) } else { None }),
        payload_end(s, i, 6, depth) == (if i + 8 <= s.len() { Some(i + 8) } else { None }),
        payload_end(s, i, 8, depth) == (if i + 2 <= s.len() && i + 2 + u16_at(s, i) <= s.len() {
            Some(i + 2 + u16_at(s, i))
        } else {
            None
        }),
        payload_end(s, i, 7, depth) == (if i + 4 <= s.len() && 0 <= i32_at(s, i) && i + 4 + i32_at(s, i)
            <= s.len() {
            Some(i + 4 + i32_at(s, i))
        } else {
            None
        }),
        payload_end(s, i, 11, depth) == (if i + 4 <= s.len() && 0 <= i32_at(s, i) && i + 4 + 4
            * i32_at(s, i) <= s.len() {
            Some(i + 4 + 4 * i32_at(s, i))
        } else {
            None
        }),
        payload_end(s, i, 12, depth) == (if i + 4 <= s.len() && 0 <= i32_at(s, i) && i + 4 + 8
            * i32_at(s, i) <= s.len() {
            Some(i + 4 + 8 * i32_at(s, i))
        } else {
            None
        }),
        forall|tag: u8| (tag == 0 || tag > 12) ==> (#[trigger] payload_end(s, i, tag, depth)) is None,
{
}


/// A compound with one named entry is screened, and the screen finds it to
/// end at its end tag: a compound tag byte 10 and a title, then the entry
/// (a tag byte other than 0, a two-byte name length and the name, and a
/// payload that the screen takes whole), then the end tag 0 as the last
/// byte.
pub proof fn law_nbt_one_entry_screened(s: Seq<u8>, j: int)
    requires
        s.len() >= 3,
        s[0] == 10u8,
        3 + u16_at(s, 1) + 3 <= s.len(),
        ({
            let e = 3 + u16_at(s, 1);
            let name_end = e + 3 + u16_at(s, e + 1);
            &&& s[e] != 0u8
            &&& name_end <= s.len()
            &&& payload_end(s, name_end, s[e], (NBT_MAX_DEPTH - 1) as nat) == Some(j)
        }),
        3 + u16_at(s, 1) < j,
        j + 1 == s.len(),
        s[j] == 0u8,
    ensures
        nbt_screened(s),
        nbt_extent(s) == s.len(),
{
    reveal(nbt_extent);
    let e = 3 + u16_at(s, 1);
    let d = (NBT_MAX_DEPTH - 1) as nat;
    assert(compound_end(s, j, d) == Some(j + 1));
    assert(compound_end(s, e, d) == compound_end(s, j, d));
}

} // verus!
