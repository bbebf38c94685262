use vstd::prelude::*;
use crate::raw_packet::RawPacket;
use crate::wire::{Step, and_then, string_step};
use crate::packet::{sent, Packet};
use crate::protocol::v754::lib::serverbound::play::chat_message::{say, say_packet, settings};
use crate::replies::{notice, notice_packet, one};
use crate::text::{chars_of, contains, occurs_at, starts_with, string_from_chars};
use crate::types::{Direction, SharedState};

verus! {

/// A chat message typed by the player.
#[derive(Clone)]
pub struct ChatMessageServerbound {
    pub message: String,
}

/// The fields of the packet, in the order they are read.
pub open spec fn chat_message_serverbound_step(s: Seq<u8>) -> Step<Seq<char>> {
    and_then(string_step(s), |message: Seq<char>, r1: Seq<u8>|
    Step::Done(message, r1))
}

impl ChatMessageServerbound {
    pub fn empty() -> (r: Self)
        ensures
            r.message@ == Seq::<char>::empty(),
    {
        Self { message: String::new() }
    }

    /// Reads the fields from the packet body; on failure the fields keep
    /// their values.
    pub fn parse_packet(&mut self, packet: RawPacket) -> (r: Result<(), ()>)
        ensures
            match chat_message_serverbound_step(packet@) {
                Step::Done(v, _) => {
                    &&& r is Ok
                    &&& final(self).message@ == v
                },
                _ => r is Err && *final(self) == *old(self),
            },
    {
        let mut packet = packet;
        let message = packet.decode_string()?;
        self.message = message;
        Ok(())
    }

    pub fn get_printable(&self) -> (r: String)
        ensures
            r@ == self.message@,
    {
        self.message.clone()
    }

    pub fn packet_editing(&self) -> (r: bool)
        ensures
            r,
    {
        true
    }

    /// Answers proxy commands and passes other messages on; the state is
    /// handed back unchanged.
    pub fn edit_packet(&self, status: SharedState) -> (r: Result<
        (Vec<(Packet, Direction)>, SharedState),
        (),
    >)
        ensures
            r matches Ok((v, st)) && sent(v@) == short_command_reply(self.message@) && st == status,
    {
        proof {
            reveal_strlit(".");
            reveal_strlit(".test");
            reveal_strlit(".say ");
            reveal_strlit(".o ");
        }
        let message = chars_of(self.message.as_str());
        let return_packet_vec = if starts_with(&message, ".") {
            if message.len() == 5 && starts_with(&message, ".test") {
                assert(message@ =~= ".test"@);
                notice_packet("Test packet received!")
            } else if starts_with(&message, ".say ") {
                assert(message@ != ".test"@);
                say_packet(string_from_chars(&message, 5))
            } else if starts_with(&message, ".o ") {
                assert(message@ != ".test"@);
                let mut raw_packet = RawPacket::new();
                raw_packet.encode_string(String::from_str("en_us"));
                raw_packet.encode_byte(15);
                raw_packet.encode_varint(0);
                raw_packet.encode_bool(true);
                if contains(&message, "off") {
                    raw_packet.encode_ubyte(65);
                } else {
                    raw_packet.encode_ubyte(127);
                }
                raw_packet.encode_varint(1);
                assert(raw_packet@ =~= settings(exists|i: int| occurs_at(message@, "off"@, i)).0.1);
                one(Packet::from(raw_packet, 0x05), Direction::Serverbound)
            } else {
                assert(message@ != ".test"@) by {
                    if message@ == ".test"@ {
                        assert(message@.len() == 5);
                    }
                }
                notice_packet("Command not found!")
            }
        } else {
            say_packet(self.message.clone())
        };
        Ok((return_packet_vec, status))
    }
}


/// What the proxy sends for a chat message: a message not starting with
/// `.` goes on to the server unchanged; `.test` is answered; `.say `
/// sends the rest of the message; `.o ` sends client settings; any other
/// command is answered with "Command not found!".
pub open spec fn short_command_reply(m: Seq<char>) -> Seq<((i32, Seq<u8>), Direction)> {
    if "."@.is_prefix_of(m) {
        if m == ".test"@ {
            seq![notice("Test packet received!"@)]
        } else if ".say "@.is_prefix_of(m) {
            seq![say(m.skip(5))]
        } else if ".o "@.is_prefix_of(m) {
            seq![settings(exists|i: int| occurs_at(m, "off"@, i))]
        } else {
            seq![notice("Command not found!"@)]
        }
    } else {
        seq![say(m)]
    }
}

} // verus!
