//! Conversions between text and bytes that the standard library makes and
//! vstd does not specify.
use vstd::prelude::*;
use vstd::utf8::{decode_utf8, valid_utf8};

verus! {

/// `String::from_utf8`: succeeds exactly when the bytes are well-formed
/// UTF-8, and then holds the characters they encode.
#[verifier::external_body]
pub(crate) fn string_from_utf8(bytes: Vec<u8>) -> (r: Option<String>)
    ensures
        r is Some <==> valid_utf8(bytes@),
        r matches Some(s) ==> s@ == decode_utf8(bytes@),
{
    String::from_utf8(bytes).ok()
}

/// `String::push`: appends one character.
#[verifier::external_body]
pub(crate) fn string_push(s: &mut String, c: char)
    ensures
        final(s)@ == old(s)@.push(c),
{
    s.push(c)
}

/// The characters of a string, in order.
pub fn chars_of(s: &str) -> (r: Vec<char>)
    ensures
        r@ == s@,
{
    let mut r: Vec<char> = Vec::new();
    for c in it: s.chars()
        invariant
            it.seq() == s@,
            r@ == s@.take(it.index()),
    {
        r.push(c);
        assert(s@.take(it.index() + 1) =~= s@.take(it.index()).push(c));
    }
    assert(s@.take(s@.len() as int) =~= s@);
    r
}

/// The string made of the characters `cs[from..]`.
pub fn string_from_chars(cs: &Vec<char>, from: usize) -> (r: String)
    requires
        from <= cs@.len(),
    ensures
        r@ == cs@.skip(from as int),
{
    let mut r = String::new();
    let mut i = from;
    while i < cs.len()
        invariant
            from <= i <= cs@.len(),
            r@ == cs@.subrange(from as int, i as int),
        decreases cs@.len() - i,
    {
        string_push(&mut r, cs[i]);
        i = i + 1;
        assert(r@ =~= cs@.subrange(from as int, i as int));
    }
    assert(cs@.subrange(from as int, i as int) =~= cs@.skip(from as int));
    r
}

/// Whether the characters `cs` begin with those of `p`.
pub fn starts_with(cs: &Vec<char>, p: &str) -> (r: bool)
    ensures
        r == p@.is_prefix_of(cs@),
{
    let pc = chars_of(p);
    if pc.len() > cs.len() {
        return false;
    }
    let mut i: usize = 0;
    while i < pc.len()
        invariant
            pc@ == p@,
            pc@.len() <= cs@.len(),
            i <= pc@.len(),
            forall|k: int| 0 <= k < i ==> pc@[k] == cs@[k],
        decreases pc@.len() - i,
    {
        if pc[i] != cs[i] {
            return false;
        }
        i = i + 1;
    }
    assert(p@ =~= cs@.take(p@.len() as int));
    true
}

/// Whether `p` occurs in `cs` at position `i`.
pub open spec fn occurs_at(cs: Seq<char>, p: Seq<char>, i: int) -> bool {
    0 <= i && i + p.len() <= cs.len() && cs.subrange(i, i + p.len()) == p
}

/// Whether the characters of `p` occur somewhere in `cs`.
pub fn contains(cs: &Vec<char>, p: &str) -> (r: bool)
    ensures
        r == exists|i: int| occurs_at(cs@, p@, i),
{
    let pc = chars_of(p);
    if pc.len() > cs.len() {
        assert forall|i: int| !occurs_at(cs@, p@, i) by {}
        return false;
    }
    let mut i: usize = 0;
    while i <= cs.len() - pc.len()
        invariant
            pc@ == p@,
            pc@.len() <= cs@.len(),
            forall|k: int| 0 <= k < i ==> !occurs_at(cs@, p@, k),
        decreases cs@.len() - i,
    {
        let mut j: usize = 0;
        let mut same = true;
        while j < pc.len()
            invariant
                pc@ == p@,
                i + pc.len() <= cs.len(),
                j <= pc@.len(),
                same == forall|k: int| 0 <= k < j ==> pc@[k] == cs@[i + k],
            decreases pc@.len() - j,
        {
            if pc[j] != cs[i + j] {
                same = false;
            }
            j = j + 1;
        }
        if same {
            assert(cs@.subrange(i as int, i + p@.len()) =~= p@);
            assert(occurs_at(cs@, p@, i as int));
            return true;
        }
        assert(!occurs_at(cs@, p@, i as int)) by {
            if occurs_at(cs@, p@, i as int) {
                let k = choose|k: int| 0 <= k < pc@.len() && pc@[k] != cs@[i + k];
                assert(cs@.subrange(i as int, i + p@.len())[k] == cs@[i + k]);
            }
        }
        i = i + 1;
    }
    assert forall|k: int| !occurs_at(cs@, p@, k) by {
        if 0 <= k < i {
        } else if occurs_at(cs@, p@, k) {
            assert(k + p@.len() <= cs@.len());
        }
    }
    false
}

} // verus!
