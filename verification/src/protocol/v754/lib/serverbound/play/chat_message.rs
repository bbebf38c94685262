use vstd::prelude::*;
use crate::packet::{sent, Packet};
use crate::raw_packet::RawPacket;
use crate::text::{chars_of, contains, occurs_at, starts_with, string_from_chars};
use crate::types::{Direction, SharedState};
use crate::replies::{notice, notice_packet, one};
use crate::utils::{rainbow, rainbowfy};
use crate::wire::{and_then, string_bytes, string_step, varint_bytes, Step};

verus! {

/// A chat message typed by the player.
#[derive(Clone)]
pub struct ChatMessageServerbound {
    pub message: String,
}

/// The fields of the packet, in the order they are read.
pub open spec fn chat_message_serverbound_step(s: Seq<u8>) -> Step<Seq<char>> {
    and_then(string_step(s), |message: Seq<char>, r1: Seq<u8>|
    Step::Done(message, r1))
}

/// A chat message sent on to the server with the given text.
pub open spec fn say(text: Seq<char>) -> ((i32, Seq<u8>), Direction) {
    ((0x03, string_bytes(text)), Direction::Serverbound)
}

/// The client settings sent for `.o`: locale en_us, view distance 15, chat
/// enabled, colours on, the skin parts (65 with "off" in the command, 127
/// otherwise), right main hand.
pub open spec fn settings(off: bool) -> ((i32, Seq<u8>), Direction) {
    (
        (
            0x05,
            string_bytes("en_us"@) + seq![15u8] + varint_bytes(0) + seq![1u8] + seq![
                if off {
                    65u8
                } else {
                    127u8
                },
            ] + varint_bytes(1),
        ),
        Direction::Serverbound,
    )
}

/// What the proxy sends for a chat message.  A message not starting with
/// `.` goes on to the server unchanged; `.test` is answered; `.say`,
/// `.rb`, `.rby` and `.rbm` (each followed by a space) send the rest of
/// the message, the last three in rainbow colours and the last two after
/// `/y ` and `/me `; `.o ` sends client settings; any other command is
/// answered with "Command not found!".
pub open spec fn command_reply(m: Seq<char>) -> Seq<((i32, Seq<u8>), Direction)> {
    if "."@.is_prefix_of(m) {
        if m == ".test"@ {
            seq![notice("Test packet received!"@)]
        } else if ".say "@.is_prefix_of(m) {
            seq![say(m.skip(5))]
        } else if ".rb "@.is_prefix_of(m) {
            seq![say(rainbow(m.skip(4)))]
        } else if ".rby "@.is_prefix_of(m) {
            seq![say("/y "@ + rainbow(m.skip(5)))]
        } else if ".rbm "@.is_prefix_of(m) {
            seq![say("/me "@ + rainbow(m.skip(5)))]
        } else if ".o "@.is_prefix_of(m) {
            seq![settings(exists|i: int| occurs_at(m, "off"@, i))]
        } else {
            seq![notice("Command not found!"@)]
        }
    } else {
        seq![say(m)]
    }
}

/// A chat message to the server with the given text.
pub fn say_packet(text: String) -> (r: Vec<(Packet, Direction)>)
    ensures
        sent(r@) == seq![say(text@)],
{
    let mut raw_packet = RawPacket::new();
    raw_packet.encode_string(text);
    one(Packet::from(raw_packet, 0x03), Direction::Serverbound)
}

impl ChatMessageServerbound {
    pub fn empty() -> (r: Self)
        ensures
            r.message@ == Seq::<char>::empty(),
    {
        Self { message: String::new() }
    }

    /// Reads the message; on failure it keeps its value.
    pub fn parse_packet(&mut self, packet: RawPacket) -> (r: Result<(), ()>)
        ensures
            match chat_message_serverbound_step(packet@) {
                Step::Done(v, _) => r is Ok && final(self).message@ == v,
                _ => r is Err && *final(self) == *old(self),
            },
    {
        let mut packet = packet;
        let message = packet.decode_string()?;
        self.message = message;
        Ok(())
    }

    pub fn get_printable(&self) -> (r: String)
        ensures
            r@ == self.message@,
    {
        self.message.clone()
    }

    pub fn packet_editing(&self) -> (r: bool)
        ensures
            r,
    {
        true
    }

    /// Answers proxy commands and passes other messages on; the state is
    /// handed back unchanged.
    pub fn edit_packet(&self, status: SharedState) -> (r: Result<
        (Vec<(Packet, Direction)>, SharedState),
        (),
    >)
        ensures
            r matches Ok((v, st)) && sent(v@) == command_reply(self.message@) && st == status,
    {
        proof {
            reveal_strlit(".");
            reveal_strlit(".test");
            reveal_strlit(".say ");
            reveal_strlit(".rb ");
            reveal_strlit(".rby ");
            reveal_strlit(".rbm ");
            reveal_strlit(".o ");
        }
        let message = chars_of(self.message.as_str());
        let return_packet_vec = if starts_with(&message, ".") {
            if message.len() == 5 && starts_with(&message, ".test") {
                assert(message@ =~= ".test"@);
                notice_packet("Test packet received!")
            } else if starts_with(&message, ".say ") {
                assert(message@ != ".test"@);
                say_packet(string_from_chars(&message, 5))
            } else if starts_with(&message, ".rb ") {
                assert(message@ != ".test"@);
                say_packet(rainbowfy(string_from_chars(&message, 4)))
            } else if starts_with(&message, ".rby ") {
                assert(message@ != ".test"@);
                let mut text = String::from_str("/y ");
                text.append(rainbowfy(string_from_chars(&message, 5)).as_str());
                say_packet(text)
            } else if starts_with(&message, ".rbm ") {
                assert(message@ != ".test"@);
                let mut text = String::from_str("/me ");
                text.append(rainbowfy(string_from_chars(&message, 5)).as_str());
                say_packet(text)
            } else if starts_with(&message, ".o ") {
                assert(message@ != ".test"@);
                let mut raw_packet = RawPacket::new();
                raw_packet.encode_string(String::from_str("en_us"));
                raw_packet.encode_byte(15);
                raw_packet.encode_varint(0);
                raw_packet.encode_bool(true);
                if contains(&message, "off") {
                    raw_packet.encode_ubyte(65);
                } else {
                    raw_packet.encode_ubyte(127);
                }
                raw_packet.encode_varint(1);
                assert(raw_packet@ =~= settings(exists|i: int| occurs_at(message@, "off"@, i)).0.1);
                one(Packet::from(raw_packet, 0x05), Direction::Serverbound)
            } else {
                assert(message@ != ".test"@) by {
                    if message@ == ".test"@ {
                        assert(message@.len() == 5);
                    }
                }
                notice_packet("Command not found!")
            }
        } else {
            say_packet(self.message.clone())
        };
        Ok((return_packet_vec, status))
    }
}

} // verus!
