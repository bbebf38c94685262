//! Text forms of numbers and lists, as Rust's `{}`, `{:x}` and `{:?}`
//! write them.
use vstd::prelude::*;
use crate::text::string_push;

verus! {

/// The digit character of a value below 16 (lower-case for 10 to 15).
pub open spec fn digit_char(d: int) -> char {
    "0123456789abcdef"@[d]
}

/// The digits of `n` in the given base, most significant first, with no
/// leading zeros ("0" for zero).
pub open spec fn digits(n: nat, base: nat) -> Seq<char>
    recommends
        base >= 2,
    decreases n,
    when base >= 2
{
    if n < base {
        seq![digit_char(n as int)]
    } else {
        proof {
            vstd::arithmetic::div_mod::lemma_div_decreases(n as int, base as int);
        }
        digits(n / base, base).push(digit_char((n % base) as int))
    }
}

/// The decimal form of an integer, with a leading `-` when negative.
pub open spec fn decimal(n: int) -> Seq<char> {
    if n < 0 {
        seq!['-'] + digits((-n) as nat, 10)
    } else {
        digits(n as nat, 10)
    }
}

/// The lower-case hexadecimal form of a natural number.
pub open spec fn hex(n: nat) -> Seq<char> {
    digits(n, 16)
}

/// Bytes as lower-case hexadecimal, two digits per byte, high half first.
pub open spec fn hex_bytes(b: Seq<u8>) -> Seq<char>
    decreases b.len(),
{
    if b.len() == 0 {
        Seq::empty()
    } else {
        hex_bytes(b.drop_last()) + seq![digit_char((b.last() / 16) as int), digit_char((b.last() % 16) as int)]
    }
}

/// Every character is ASCII.
pub open spec fn is_ascii_text(s: Seq<char>) -> bool {
    forall|i: int| 0 <= i < s.len() ==> (#[trigger] s[i] as u32) < 128
}

/// Hexadecimal text is ASCII, two characters per byte.
pub proof fn lemma_hex_bytes_ascii(b: Seq<u8>)
    ensures
        is_ascii_text(hex_bytes(b)),
        hex_bytes(b).len() == 2 * b.len(),
    decreases b.len(),
{
    reveal_strlit("0123456789abcdef");
    if b.len() > 0 {
        lemma_hex_bytes_ascii(b.drop_last());
        let h = hex_bytes(b);
        let p = hex_bytes(b.drop_last());
        assert forall|i: int| 0 <= i < h.len() implies (#[trigger] h[i] as u32) < 128 by {
            if i < p.len() {
                assert(h[i] == p[i]);
            }
        }
    }
}

/// Each byte of `data` as two lower-case hexadecimal digits, from
/// `hex::encode`.  The contract claims exactly that.
#[verifier::external_body]
pub(crate) fn hex_encode(data: &[u8]) -> (r: String)
    ensures
        r@ == hex_bytes(data@),
{
    hex::encode(data)
}

/// `true` or `false`.
pub open spec fn bool_text(b: bool) -> Seq<char> {
    if b {
        "true"@
    } else {
        "false"@
    }
}

fn digit_char_of(d: u128) -> (r: char)
    requires
        d < 16,
    ensures
        r == digit_char(d as int),
{
    proof {
        reveal_strlit("0123456789abcdef");
    }
    "0123456789abcdef".get_char(d as usize)
}

/// Appends the digits of `n` in `base`.
fn push_digits(s: &mut String, n: u128, base: u128)
    requires
        2 <= base <= 16,
    ensures
        final(s)@ == old(s)@ + digits(n as nat, base as nat),
    decreases n,
{
    if n >= base {
        proof {
            vstd::arithmetic::div_mod::lemma_div_decreases(n as int, base as int);
        }
        push_digits(s, n / base, base);
    }
    string_push(s, digit_char_of(n % base));
    proof {
        if n >= base {
            assert(digits(n as nat, base as nat) == digits((n / base) as nat, base as nat).push(
                digit_char((n % base) as int),
            ));
        } else {
            vstd::arithmetic::div_mod::lemma_small_mod(n as nat, base as nat);
            assert(digits(n as nat, base as nat) == seq![digit_char(n as int)]);
        }
    }
    assert(final(s)@ =~= old(s)@ + digits(n as nat, base as nat));
}

/// The decimal form of an integer.
pub fn decimal_string(v: i128) -> (r: String)
    requires
        v > i128::MIN,
    ensures
        r@ == decimal(v as int),
{
    let mut s = String::new();
    if v < 0 {
        string_push(&mut s, '-');
        push_digits(&mut s, (-v) as u128, 10);
    } else {
        push_digits(&mut s, v as u128, 10);
    }
    s
}

/// The decimal form of an unsigned 128-bit integer.
pub fn unsigned_string(v: u128) -> (r: String)
    ensures
        r@ == digits(v as nat, 10),
{
    let mut s = String::new();
    push_digits(&mut s, v, 10);
    s
}

/// The lower-case hexadecimal form of an unsigned 128-bit integer.
pub fn hex_string(v: u128) -> (r: String)
    ensures
        r@ == hex(v as nat),
{
    let mut s = String::new();
    push_digits(&mut s, v, 16);
    s
}

/// `true` or `false`.
pub fn bool_string(b: bool) -> (r: String)
    ensures
        r@ == bool_text(b),
{
    if b {
        String::from_str("true")
    } else {
        String::from_str("false")
    }
}

/// Appends `" "` and then `piece`.
pub fn push_field(s: &mut String, piece: &str)
    ensures
        final(s)@ == old(s)@ + " "@ + piece@,
{
    s.append(" ");
    s.append(piece);
}

/// The `{:?}` form of a list of numbers: `[1, 2, 3]`.
pub open spec fn list_text(v: Seq<i32>) -> Seq<char>
    decreases v.len(),
{
    "["@ + list_items(v) + "]"@
}

/// The numbers of a list joined by ", ".
pub open spec fn list_items(v: Seq<i32>) -> Seq<char>
    decreases v.len(),
{
    if v.len() == 0 {
        Seq::empty()
    } else if v.len() == 1 {
        decimal(v[0] as int)
    } else {
        list_items(v.drop_last()) + ", "@ + decimal(v.last() as int)
    }
}

/// The `{:?}` form of a list of numbers.
pub fn list_string(v: &Vec<i32>) -> (r: String)
    ensures
        r@ == list_text(v@),
{
    let mut s = String::from_str("[");
    let mut i: usize = 0;
    while i < v.len()
        invariant
            i <= v@.len(),
            s@ == "["@ + list_items(v@.take(i as int)),
        decreases v@.len() - i,
    {
        if i > 0 {
            s.append(", ");
        }
        s.append(decimal_string(v[i] as i128).as_str());
        i = i + 1;
        assert(v@.take(i as int).drop_last() =~= v@.take((i - 1) as int));
        assert(v@.take(i as int).last() == v@[i - 1]);
    }
    assert(v@.take(i as int) =~= v@);
    s.append("]");
    s
}

/// The `{:?}` form of an optional number: `Some(5)` or `None`.
pub open spec fn option_text(o: Option<i32>) -> Seq<char> {
    match o {
        Some(v) => "Some("@ + decimal(v as int) + ")"@,
        None => "None"@,
    }
}

/// The `{:?}` form of an optional number.
pub fn option_string(o: Option<i32>) -> (r: String)
    ensures
        r@ == option_text(o),
{
    match o {
        Some(v) => {
            let mut s = String::from_str("Some(");
            s.append(decimal_string(v as i128).as_str());
            s.append(")");
            s
        },
        None => String::from_str("None"),
    }
}

} // verus!
