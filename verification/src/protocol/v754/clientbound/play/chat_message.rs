use vstd::prelude::*;
use crate::laws::{law_byte_roundtrip, law_string_roundtrip, law_uuid_roundtrip};
use crate::utils::{message_json, message_packet};
use crate::wire::u128_be;
use vstd::utf8::encode_utf8;
use crate::fmt::{digits, unsigned_string};
use crate::raw_packet::RawPacket;
use crate::wire::{Step, and_then, byte_step, string_step, uuid_step};
use crate::packet::{sent, Packet};
use crate::protocol::v754::{fid_to_pid, pid_of, Fid};
use crate::replies::one;
use crate::types::Direction;
use crate::wire::{position_packed, string_bytes, u32_be, u64_be, varint_bytes};

verus! {

/// A chat message from the server.
#[derive(Clone)]
pub struct ChatMessageClientbound {
    pub data: String,
    pub position: ChatMessagePosition,
    pub sender: u128,
}

/// The fields of the packet, in the order they are read.
pub open spec fn chat_message_clientbound_step(s: Seq<u8>) -> Step<(Seq<char>, ChatMessagePosition, u128)> {
    and_then(string_step(s), |data: Seq<char>, r1: Seq<u8>|
    and_then(chat_message_position_step(r1), |position: ChatMessagePosition, r2: Seq<u8>|
    and_then(uuid_step(r2), |sender: u128, r3: Seq<u8>|
    Step::Done((data, position, sender), r3))))
}

impl ChatMessageClientbound {
    /// The fields as the log line shows them.
    pub fn get_printable(&self) -> (r: String)
        ensures
            r@ == self.data@ + " "@ + self.position.name() + " "@ + digits(self.sender as nat, 10),
    {
        let mut s = self.data.clone();
        s.append(" ");
        s.append(self.position.name_string().as_str());
        s.append(" ");
        s.append(unsigned_string(self.sender).as_str());
        s
    }

    pub fn default() -> (r: Self)
        ensures
            r.data@ == Seq::<char>::empty(),
            r.position == ChatMessagePosition::Chat,
            r.sender == 0,
    {
        Self { data: String::new(), position: ChatMessagePosition::Chat, sender: 0 }
    }

    /// Reads the fields from the packet body one after the other; on
    /// failure the fields read before keep their new values.
    pub fn parse_packet(&mut self, packet: RawPacket) -> (r: Result<(), ()>)
        ensures
            match string_step(packet@) {
                Step::Done(data, r1) => {
                    &&& final(self).data@ == data
                    &&& (
                    match chat_message_position_step(r1) {
                        Step::Done(position, r2) => {
                            &&& final(self).position == position
                            &&& (
                            match uuid_step(r2) {
                                Step::Done(sender, r3) => {
                                    &&& final(self).sender == sender
                                    &&& (
                                    r is Ok
                                    )
                                },
                                _ => r is Err && final(self).sender == old(self).sender,
                            }
                            )
                        },
                        _ => r is Err && final(self).position == old(self).position && final(self).sender == old(self).sender,
                    }
                    )
                },
                _ => r is Err && *final(self) == *old(self),
            },
    {
        let mut packet = packet;
        let data = packet.decode_chat()?;
        self.data = data;
        let position = match chat_message_position_from(packet.decode_byte()?) {
            Some(e) => e,
            None => return Err(()),
        };
        self.position = position;
        let sender = packet.decode_uuid()?;
        self.sender = sender;
        Ok(())
    }

    pub fn packet_editing(&self) -> (r: bool)
        ensures
            r,
    {
        true
    }

    /// Reacts to the two trigger messages.
    pub fn edit_packet(&self) -> (r: Result<Vec<(Packet, Direction)>, ()>)
        ensures
            r matches Ok(v) && sent(v@) == chat_reaction(self.data@),
    {
        let buy = String::from_str("{\"text\":\"§d[§5§lF§d][§5FearRP §d-\\u003e §5zegevlier§d]§r now\"}");
        if self.data == buy {
            let mut raw_packet = RawPacket::new();
            raw_packet.encode_string(String::from_str("/buy"));
            return Ok(one(Packet::from(raw_packet, 0x03), Direction::Serverbound));
        }
        let place = String::from_str("{\"text\":\"§d[§5§lF§d][§5FearRP §d-\\u003e §5zegevlier§d]§r hi\"}");
        if self.data == place {
            let mut raw_packet = RawPacket::new();
            raw_packet.encode_varint(0);
            raw_packet.encode_position((1820, 50, 1068));
            raw_packet.encode_varint(4);
            raw_packet.encode_float(0x0000_0000);
            raw_packet.encode_float(0x3f16_ffb2);
            raw_packet.encode_float(0x3f03_df97);
            raw_packet.encode_bool(false);
            assert(raw_packet@ =~= chat_reaction(self.data@)[0].0.1);
            return Ok(
                one(
                    Packet::from(raw_packet, fid_to_pid(Fid::PlayerBlockPlace)),
                    Direction::Serverbound,
                ),
            );
        }
        Ok(Vec::new())
    }
}

/// Where a chat message is shown.
#[derive(Clone, Copy, Debug, PartialEq, Eq, Structural)]
pub enum ChatMessagePosition {
    Chat,
    SystemMessage,
    GameInfo,
}

impl ChatMessagePosition {
    /// The variant's name, as the `{:?}` form shows it.
    pub open spec fn name(self) -> Seq<char> {
        match self {
            ChatMessagePosition::Chat => "Chat"@,
            ChatMessagePosition::SystemMessage => "SystemMessage"@,
            ChatMessagePosition::GameInfo => "GameInfo"@,
        }
    }

    /// The variant's name.
    pub fn name_string(&self) -> (r: String)
        ensures
            r@ == self.name(),
    {
        match self {
            ChatMessagePosition::Chat => String::from_str("Chat"),
            ChatMessagePosition::SystemMessage => String::from_str("SystemMessage"),
            ChatMessagePosition::GameInfo => String::from_str("GameInfo"),
        }
    }
}

/// The `ChatMessagePosition` a number stands for.
pub open spec fn chat_message_position_of(n: i8) -> Option<ChatMessagePosition> {
    if n == 0 {
        Some(ChatMessagePosition::Chat)
    } else if n == 1 {
        Some(ChatMessagePosition::SystemMessage)
    } else if n == 2 {
        Some(ChatMessagePosition::GameInfo)
    } else {
        None
    }
}

/// Reading a `ChatMessagePosition`: any other number is refused.
pub open spec fn chat_message_position_step(s: Seq<u8>) -> Step<ChatMessagePosition> {
    and_then(
        byte_step(s),
        |n: i8, r: Seq<u8>|
            match chat_message_position_of(n) {
                Some(e) => Step::Done(e, r),
                None => Step::Fail(r),
            },
    )
}

fn chat_message_position_from(n: i8) -> (r: Option<ChatMessagePosition>)
    ensures
        r == chat_message_position_of(n),
{
    match n {
        0 => Some(ChatMessagePosition::Chat),
        1 => Some(ChatMessagePosition::SystemMessage),
        2 => Some(ChatMessagePosition::GameInfo),
        _ => None,
    }
}

/// The chat message on which the proxy buys.
pub open spec fn buy_trigger() -> Seq<char> {
    "{\"text\":\"§d[§5§lF§d][§5FearRP §d-\\u003e §5zegevlier§d]§r now\"}"@
}

/// The chat message on which the proxy places a block.
pub open spec fn place_trigger() -> Seq<char> {
    "{\"text\":\"§d[§5§lF§d][§5FearRP §d-\\u003e §5zegevlier§d]§r hi\"}"@
}

/// What the proxy sends for a chat message from the server: `/buy` for
/// the first trigger, a block placement at (1820, 50, 1068) for the second,
/// nothing otherwise.
pub open spec fn chat_reaction(data: Seq<char>) -> Seq<((i32, Seq<u8>), Direction)> {
    if data == buy_trigger() {
        seq![((0x03, string_bytes("/buy"@)), Direction::Serverbound)]
    } else if data == place_trigger() {
        seq![
            (
                (
                    pid_of(Fid::PlayerBlockPlace),
                    varint_bytes(0) + u64_be(position_packed(1820, 50, 1068)) + varint_bytes(4)
                        + u32_be(0) + u32_be(0x3f16ffb2) + u32_be(0x3f03df97) + seq![0u8],
                ),
                Direction::Serverbound,
            ),
        ]
    } else {
        seq![]
    }
}

/// A chat message that `generate_message_packet` builds reads back with
/// `parse_packet` as a system message from sender 0 whose text is the JSON
/// text around the message, whenever that JSON text takes at most
/// `i32::MAX` bytes of UTF-8.
pub proof fn law_generated_message_reads_back(text: Seq<char>)
    requires
        encode_utf8(message_json(text)).len() <= i32::MAX,
    ensures
        message_packet(text).0 == pid_of(Fid::ChatMessageClientbound),
        chat_message_clientbound_step(message_packet(text).1) == Step::Done(
            (message_json(text), ChatMessagePosition::SystemMessage, 0u128),
            Seq::<u8>::empty(),
        ),
{
    let empty = Seq::<u8>::empty();
    let r2 = u128_be(0) + empty;
    let r1 = seq![1u8] + r2;
    assert(message_packet(text).1 =~= string_bytes(message_json(text)) + r1);
    law_string_roundtrip(message_json(text), r1);
    law_byte_roundtrip(1i8, r2);
    assert(seq![1i8 as u8] =~= seq![1u8]);
    law_uuid_roundtrip(0, empty);
    assert(chat_message_position_step(r1) == Step::Done(ChatMessagePosition::SystemMessage, r2));
}


/// Where a chat message is shown, as the protocol numbers it: 0 the chat
/// box, 1 a system message, 2 the game info line above the hotbar; no
/// other number is a position.
pub proof fn law_chat_position_numbers(n: i8)
    ensures
        chat_message_position_of(n) == Some(ChatMessagePosition::Chat) <==> n == 0,
        chat_message_position_of(n) == Some(ChatMessagePosition::SystemMessage) <==> n == 1,
        chat_message_position_of(n) == Some(ChatMessagePosition::GameInfo) <==> n == 2,
        chat_message_position_of(n) is None <==> !(0 <= n <= 2),
{
}

} // verus!
