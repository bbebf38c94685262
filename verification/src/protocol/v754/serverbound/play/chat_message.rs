use vstd::prelude::*;
use crate::replies::{first_answer, first_some};
use crate::raw_packet::RawPacket;
use crate::wire::{Step, and_then, string_step};
use crate::packet::{sent, Packet};
use crate::protocol::v754::{fid_to_pid, pid_of, Fid};
use crate::replies::one;
use crate::types::Direction;
use crate::wire::string_bytes;

verus! {

/// A chat message typed by the player.
#[derive(Clone)]
pub struct ChatMessageServerbound {
    pub message: String,
}

/// The fields of the packet, in the order they are read.
pub open spec fn chat_message_serverbound_step(s: Seq<u8>) -> Step<Seq<char>> {
    and_then(string_step(s), |message: Seq<char>, r1: Seq<u8>|
    Step::Done(message, r1))
}

impl ChatMessageServerbound {
    pub fn empty() -> (r: Self)
        ensures
            r.message@ == Seq::<char>::empty(),
    {
        Self { message: String::new() }
    }

    /// Reads the fields from the packet body; on failure the fields keep
    /// their values.
    pub fn parse_packet(&mut self, packet: RawPacket) -> (r: Result<(), ()>)
        ensures
            match chat_message_serverbound_step(packet@) {
                Step::Done(v, _) => {
                    &&& r is Ok
                    &&& final(self).message@ == v
                },
                _ => r is Err && *final(self) == *old(self),
            },
    {
        let mut packet = packet;
        let message = packet.decode_string()?;
        self.message = message;
        Ok(())
    }

    pub fn get_printable(&self) -> (r: String)
        ensures
            r@ == self.message@,
    {
        self.message.clone()
    }

    pub fn packet_editing(&self) -> (r: bool)
        ensures
            r,
    {
        true
    }

    /// Sends what the first plugin that answered asked for (the plugins'
    /// answers are given in plugin order), or the message unchanged when none did.
    pub fn edit_packet(&self, plugin_answers: Vec<Option<Vec<(Packet, Direction)>>>) -> (r: Result<
        Vec<(Packet, Direction)>,
        (),
    >)
        ensures
            r matches Ok(v) && sent(v@) == match first_some(plugin_answers@) {
                Some(pv) => sent(pv@),
                None => seq![
                    (
                        (pid_of(Fid::ChatMessageServerbound), string_bytes(self.message@)),
                        Direction::Serverbound,
                    ),
                ],
            },
    {
        let plugin_reply = first_answer(plugin_answers);
        match plugin_reply {
            Some(v) => Ok(v),
            None => {
                let mut raw_packet = RawPacket::new();
                raw_packet.encode_string(self.message.clone());
                Ok(
                    one(
                        Packet::from(raw_packet, fid_to_pid(Fid::ChatMessageServerbound)),
                        Direction::Serverbound,
                    ),
                )
            },
        }
    }
}


} // verus!
