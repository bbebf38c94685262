//! Helpers for printing and for talking to the player.
use vstd::prelude::*;
use vstd::utf8::{decode_utf8, encode_utf8, is_char_boundary};
use vstd::string::StringSliceAdditionalSpecFns;
use crate::packet::Packet;
use crate::protocol::v754::{fid_to_pid, pid_of, Fid};
use crate::raw_packet::RawPacket;
use crate::text::string_push;
use crate::wire::{string_bytes, u128_be};
use crate::fmt::{hex_bytes, hex_encode, is_ascii_text, lemma_hex_bytes_ascii};
use rand::Rng;

verus! {

/// The byte index at which `make_string_fixed_length` cuts the front part
/// of a string that is longer than `length` bytes, and the length of each
/// kept part.
pub open spec fn fixed_length_part(length: usize) -> int {
    (length - 3) / 2
}

/// What `make_string_fixed_length` needs of its input: when the string is
/// longer than `length` bytes, `length` leaves room for the "..." and both
/// cuts fall on character boundaries.
pub open spec fn fixed_length_cuts_ok(s: Seq<char>, length: usize) -> bool {
    let b = encode_utf8(s);
    b.len() > length ==> {
        &&& length >= 3
        &&& is_char_boundary(b, fixed_length_part(length))
        &&& is_char_boundary(b, b.len() - fixed_length_part(length))
    }
}

/// A string cut to `length` as `make_string_fixed_length` cuts an ASCII
/// string: unchanged when it is short enough, else its first and last
/// `(length - 3) / 2` characters joined by "...", so that it is at most
/// `length` long.
pub open spec fn fixed_text(s: Seq<char>, length: usize) -> Seq<char> {
    if s.len() <= length {
        s
    } else {
        s.take(fixed_length_part(length)) + "..."@ + s.skip(s.len() - fixed_length_part(length))
    }
}

/// ASCII text is its own UTF-8 encoding, one byte per character.
pub proof fn lemma_ascii_encoding(s: Seq<char>)
    requires
        is_ascii_text(s),
    ensures
        encode_utf8(s).len() == s.len(),
        forall|i: int| 0 <= i < s.len() ==> (#[trigger] encode_utf8(s)[i]) as u32 == s[i] as u32,
    decreases s.len(),
{
    if s.len() > 0 {
        let rest = s.drop_first();
        assert(is_ascii_text(rest)) by {
            assert forall|i: int| 0 <= i < rest.len() implies (#[trigger] rest[i] as u32) < 128 by {
                assert(rest[i] == s[i + 1]);
            }
        }
        lemma_ascii_encoding(rest);
        let c = s[0] as u32;
        assert((s[0] as u32) < 128);
        assert((c & 0x7F) as u8 == c as u8) by (bit_vector)
            requires
                c < 128,
        ;
        assert(vstd::utf8::encode_scalar(c) == seq![c as u8]);
        assert forall|i: int| 0 <= i < s.len() implies (#[trigger] encode_utf8(s)[i]) as u32
            == s[i] as u32 by {
            if i > 0 {
                assert(encode_utf8(s)[i] == encode_utf8(rest)[i - 1]);
                assert(rest[i - 1] == s[i]);
            }
        }
    }
}

/// An ASCII byte is no UTF-8 continuation byte.
proof fn lemma_ascii_not_continuation(x: u8)
    by (bit_vector)
    ensures
        x < 128 ==> (x & 0xC0) != 0x80,
{
}

/// An ASCII string meets what `make_string_fixed_length` needs for any
/// length of at least 3, and its cut is `fixed_text`.
pub proof fn lemma_fixed_length_ascii(s: Seq<char>, length: usize)
    requires
        is_ascii_text(s),
        length >= 3,
    ensures
        fixed_length_cuts_ok(s, length),
        ({
            let b = encode_utf8(s);
            let part = fixed_length_part(length);
            if b.len() <= length {
                s == fixed_text(s, length)
            } else {
                decode_utf8(b.take(part)) + "..."@ + decode_utf8(b.skip(b.len() - part)) == fixed_text(s, length)
            }
        }),
{
    broadcast use vstd::utf8::group_utf8_lib;
    lemma_ascii_encoding(s);
    let b = encode_utf8(s);
    let part = fixed_length_part(length);
    if b.len() > length {
        let k1 = part;
        let k2 = b.len() - part;
        assert(!vstd::utf8::is_continuation_byte(b[k1])) by {
            let x = b[k1];
            assert(x as u32 == s[k1] as u32);
            assert(x < 128);
            lemma_ascii_not_continuation(x);
        }
        if k2 < b.len() {
            assert(!vstd::utf8::is_continuation_byte(b[k2])) by {
                let x = b[k2];
                assert(x as u32 == s[k2] as u32);
                assert(x < 128);
                lemma_ascii_not_continuation(x);
            }
        }
        let h = s.take(k1);
        let t = s.skip(k2);
        assert(is_ascii_text(h)) by {
            assert forall|i: int| 0 <= i < h.len() implies (#[trigger] h[i] as u32) < 128 by {
                assert(h[i] == s[i]);
            }
        }
        assert(is_ascii_text(t)) by {
            assert forall|i: int| 0 <= i < t.len() implies (#[trigger] t[i] as u32) < 128 by {
                assert(t[i] == s[i + k2]);
            }
        }
        lemma_ascii_encoding(h);
        lemma_ascii_encoding(t);
        assert(encode_utf8(h) =~= b.take(k1));
        assert(encode_utf8(t) =~= b.skip(k2));
    }
}

/// Shortens a string longer than `length` bytes to its first and last
/// `(length - 3) / 2` bytes joined by "...", at most `length` bytes in all:
/// with a length of 15, `alongstringlikethis` becomes `alongs...kethis`.
pub fn make_string_fixed_length(string: String, length: usize) -> (r: String)
    requires
        fixed_length_cuts_ok(string@, length),
    ensures
        ({
            let b = encode_utf8(string@);
            let part = fixed_length_part(length);
            if b.len() <= length {
                r@ == string@
            } else {
                r@ == decode_utf8(b.take(part)) + "..."@ + decode_utf8(b.skip(b.len() - part))
            }
        }),
{
    broadcast use vstd::utf8::group_utf8_lib;
    let n = string.as_str().as_bytes().len();
    if n <= length {
        string
    } else {
        let part_size = (length - 3) / 2;
        let ghost b = encode_utf8(string@);
        let s = string.as_str();
        assert(s.spec_bytes() == b);
        assert(n == b.len());
        assert(part_size == fixed_length_part(length));
        assert(is_char_boundary(b, (n - part_size) as int));
        let (head, _) = s.split_at(part_size);
        let (_, tail) = s.split_at(n - part_size);
        let mut r = String::from_str(head);
        r.append("...");
        r.append(tail);
        proof {
            assert(head.spec_bytes() =~= b.take(part_size as int));
            assert(tail.spec_bytes() =~= b.skip(n - part_size));
            assert(decode_utf8(encode_utf8(head@)) == head@);
            assert(decode_utf8(encode_utf8(tail@)) == tail@);
        }
        r
    }
}

/// Bytes as hexadecimal, cut to `length` for a log line.
pub fn hex_field(data: &Vec<u8>, length: usize) -> (r: String)
    requires
        length >= 3,
    ensures
        r@ == fixed_text(hex_bytes(data@), length),
{
    let h = hex_encode(data.as_slice());
    proof {
        lemma_hex_bytes_ascii(data@);
        lemma_fixed_length_ascii(h@, length);
    }
    make_string_fixed_length(h, length)
}

/// The JSON text of a chat message that the proxy shows the player.
pub open spec fn message_json(text: Seq<char>) -> Seq<char> {
    "{\"extra\":[{\"color\":\"red\",\"text\":\"proxy\"},{\"text\":\"> "@ + text
        + "\"}],\"text\":\"\"}"@
}

/// The id and body of the chat message that shows `text` to the player:
/// the JSON text, position 1 (system message), and a zero sender.
pub open spec fn message_packet(text: Seq<char>) -> (i32, Seq<u8>) {
    (
        pid_of(Fid::ChatMessageClientbound),
        string_bytes(message_json(text)) + seq![1u8] + u128_be(0),
    )
}

/// A clientbound chat message that shows `text` to the player as a system
/// message from the proxy.  It is always built.
pub fn generate_message_packet(text: &str) -> (r: Result<Packet, ()>)
    ensures
        r matches Ok(p) && p@ == message_packet(text@),
{
    let mut raw_packet = RawPacket::new();
    let mut json = String::from_str("{\"extra\":[{\"color\":\"red\",\"text\":\"proxy\"},{\"text\":\"> ");
    json.append(text);
    json.append("\"}],\"text\":\"\"}");
    raw_packet.encode_string(json);
    raw_packet.encode_byte(1);
    raw_packet.encode_uuid(0);
    Ok(Packet::from(raw_packet, fid_to_pid(Fid::ChatMessageClientbound)))
}

/// The colour codes that `rainbowfy` cycles through.
pub open spec fn rainbow_code(i: int) -> char {
    "c6eab5"@[i % 6]
}

/// The rainbow form of the first `n` characters: each character but a
/// space gets `&` and the colour code of its position put in front.
pub open spec fn rainbow(s: Seq<char>) -> Seq<char>
    decreases s.len(),
{
    if s.len() == 0 {
        Seq::empty()
    } else {
        let i = s.len() - 1;
        let c = s[i];
        rainbow(s.drop_last()) + if c == ' ' {
            seq![c]
        } else {
            seq!['&', rainbow_code(i), c]
        }
    }
}

/// Colours every character but spaces with the colour codes c, 6, e, a, b, 5
/// in turn, counting spaces too.
pub fn rainbowfy(message: String) -> (r: String)
    ensures
        r@ == rainbow(message@),
{
    let mut return_message = String::new();
    let rainbow_characters = "c6eab5";
    proof {
        reveal_strlit("c6eab5");
    }
    // the position modulo the length of the colour list
    let mut k: usize = 0;
    for cha in it: message.chars()
        invariant
            it.seq() == message@,
            k < 6,
            k == it.index() % 6,
            rainbow_characters@ == "c6eab5"@,
            rainbow_characters@.len() == 6,
            return_message@ == rainbow(message@.take(it.index())),
    {
        let ghost i = it.index();
        assert(cha == message@[i]);
        if cha == ' ' {
            string_push(&mut return_message, cha);
        } else {
            string_push(&mut return_message, '&');
            string_push(&mut return_message, rainbow_characters.get_char(k));
            string_push(&mut return_message, cha);
        }
        assert(message@.take(i + 1).drop_last() =~= message@.take(i));
        k = if k == 5 {
            0
        } else {
            k + 1
        };
    }
    assert(message@.take(message@.len() as int) =~= message@);
    return_message
}

/// Whether a byte is an ASCII letter or digit.
pub open spec fn is_alphanumeric(b: u8) -> bool {
    (0x30 <= b <= 0x39) || (0x41 <= b <= 0x5a) || (0x61 <= b <= 0x7a)
}

/// `rand::thread_rng().sample(Alphanumeric)`: one byte drawn uniformly from
/// the ASCII letters and digits.  Only its range is stated.
#[verifier::external_body]
fn random_alphanumeric() -> (r: u8)
    ensures
        is_alphanumeric(r),
{
    rand::thread_rng().sample(rand::distributions::Alphanumeric)
}

/// The connection id made of 30 drawn letters and digits, each byte the
/// character with that code.
pub fn connection_id_from(bytes: &Vec<u8>) -> (r: String)
    requires
        bytes@.len() == 30,
        forall|i: int| 0 <= i < 30 ==> is_alphanumeric(#[trigger] bytes@[i]),
    ensures
        r@ == bytes@.map_values(|b: u8| b as char),
{
    let mut id = String::new();
    let mut k: usize = 0;
    while k < 30
        invariant
            k <= 30,
            bytes@.len() == 30,
            id@ == bytes@.take(k as int).map_values(|b: u8| b as char),
        decreases 30 - k,
    {
        string_push(&mut id, bytes[k] as char);
        k = k + 1;
        assert(bytes@.take(k as int).map_values(|b: u8| b as char) =~= bytes@.take((k - 1) as int).map_values(
            |b: u8| b as char,
        ).push(bytes@[k - 1] as char));
    }
    assert(bytes@.take(30) =~= bytes@);
    id
}

/// A random id of 30 ASCII letters and digits, each drawn on its own.
pub fn generate_connection_id() -> (r: String)
    ensures
        exists|d: Seq<u8>|
            d.len() == 30 && (forall|i: int| 0 <= i < 30 ==> is_alphanumeric(#[trigger] d[i]))
                && r@ == d.map_values(|b: u8| b as char),
{
    let mut drawn: Vec<u8> = Vec::new();
    let mut k: usize = 0;
    while k < 30
        invariant
            k <= 30,
            drawn@.len() == k,
            forall|i: int| 0 <= i < k ==> is_alphanumeric(#[trigger] drawn@[i]),
        decreases 30 - k,
    {
        drawn.push(random_alphanumeric());
        k = k + 1;
    }
    let r = connection_id_from(&drawn);
    assert(drawn@.len() == 30 && (forall|i: int| 0 <= i < 30 ==> is_alphanumeric(#[trigger] drawn@[i]))
        && r@ == drawn@.map_values(|b: u8| b as char));
    r
}

} // verus!
