use vstd::prelude::*;
use crate::fmt::{bool_string, bool_text, decimal, decimal_string};
use crate::raw_packet::RawPacket;
use crate::wire::{Step, and_then, bool_step, byte_step, string_step, ubyte_step, varint_step};

verus! {

/// The client tells its settings.
#[derive(Clone)]
pub struct ClientSettings {
    pub locale: String,
    pub view_distance: i8,
    pub chat_mode: ChatMode,
    pub chat_colors: bool,
    pub displayed_skin_parts: u8,
    pub main_hand: Hand,
}

/// The fields of the packet, in the order they are read.
pub open spec fn client_settings_step(s: Seq<u8>) -> Step<(Seq<char>, i8, ChatMode, bool, u8, Hand)> {
    and_then(string_step(s), |locale: Seq<char>, r1: Seq<u8>|
    and_then(byte_step(r1), |view_distance: i8, r2: Seq<u8>|
    and_then(chat_mode_step(r2), |chat_mode: ChatMode, r3: Seq<u8>|
    and_then(bool_step(r3), |chat_colors: bool, r4: Seq<u8>|
    and_then(ubyte_step(r4), |displayed_skin_parts: u8, r5: Seq<u8>|
    and_then(hand_step(r5), |main_hand: Hand, r6: Seq<u8>|
    Step::Done((locale, view_distance, chat_mode, chat_colors, displayed_skin_parts, main_hand), r6)))))))
}

impl ClientSettings {
    /// The fields as the log line shows them.
    pub fn get_printable(&self) -> (r: String)
        ensures
            r@ == self.locale@ + " "@ + decimal(self.view_distance as int) + " "@ + self.chat_mode.name() + " "@ + bool_text(self.chat_colors) + " "@ + decimal(self.displayed_skin_parts as int) + " "@ + self.main_hand.name(),
    {
        let mut s = self.locale.clone();
        s.append(" ");
        s.append(decimal_string(self.view_distance as i128).as_str());
        s.append(" ");
        s.append(self.chat_mode.name_string().as_str());
        s.append(" ");
        s.append(bool_string(self.chat_colors).as_str());
        s.append(" ");
        s.append(decimal_string(self.displayed_skin_parts as i128).as_str());
        s.append(" ");
        s.append(self.main_hand.name_string().as_str());
        s
    }

    pub fn empty() -> (r: Self)
        ensures
            r.locale@ == Seq::<char>::empty(),
            r.view_distance == 0,
            r.chat_mode == ChatMode::Enabled,
            r.chat_colors == false,
            r.displayed_skin_parts == 0,
            r.main_hand == Hand::Right,
    {
        Self { locale: String::new(), view_distance: 0, chat_mode: ChatMode::Enabled, chat_colors: false, displayed_skin_parts: 0, main_hand: Hand::Right }
    }

    /// Reads the fields from the packet body one after the other; on
    /// failure the fields read before keep their new values.
    pub fn parse_packet(&mut self, packet: RawPacket) -> (r: Result<(), ()>)
        ensures
            r is Ok <==> client_settings_step(packet@) is Done,
            match string_step(packet@) {
                Step::Done(locale, r1) => {
                    &&& final(self).locale@ == locale
                    &&& (
                    match byte_step(r1) {
                        Step::Done(view_distance, r2) => {
                            &&& final(self).view_distance == view_distance
                            &&& (
                            match chat_mode_step(r2) {
                                Step::Done(chat_mode, r3) => {
                                    &&& final(self).chat_mode == chat_mode
                                    &&& (
                                    match bool_step(r3) {
                                        Step::Done(chat_colors, r4) => {
                                            &&& final(self).chat_colors == chat_colors
                                            &&& (
                                            match ubyte_step(r4) {
                                                Step::Done(displayed_skin_parts, r5) => {
                                                    &&& final(self).displayed_skin_parts == displayed_skin_parts
                                                    &&& (
                                                    match hand_step(r5) {
                                                        Step::Done(main_hand, r6) => {
                                                            &&& final(self).main_hand == main_hand
                                                            &&& (
                                                            r is Ok
                                                            )
                                                        },
                                                        _ => r is Err && final(self).main_hand == old(self).main_hand,
                                                    }
                                                    )
                                                },
                                                _ => r is Err && final(self).displayed_skin_parts == old(self).displayed_skin_parts && final(self).main_hand == old(self).main_hand,
                                            }
                                            )
                                        },
                                        _ => r is Err && final(self).chat_colors == old(self).chat_colors && final(self).displayed_skin_parts == old(self).displayed_skin_parts && final(self).main_hand == old(self).main_hand,
                                    }
                                    )
                                },
                                _ => r is Err && final(self).chat_mode == old(self).chat_mode && final(self).chat_colors == old(self).chat_colors && final(self).displayed_skin_parts == old(self).displayed_skin_parts && final(self).main_hand == old(self).main_hand,
                            }
                            )
                        },
                        _ => r is Err && final(self).view_distance == old(self).view_distance && final(self).chat_mode == old(self).chat_mode && final(self).chat_colors == old(self).chat_colors && final(self).displayed_skin_parts == old(self).displayed_skin_parts && final(self).main_hand == old(self).main_hand,
                    }
                    )
                },
                _ => r is Err && *final(self) == *old(self),
            },
    {
        let mut packet = packet;
        let locale = packet.decode_string()?;
        self.locale = locale;
        let view_distance = packet.decode_byte()?;
        self.view_distance = view_distance;
        let chat_mode = match chat_mode_from(packet.decode_varint()?) {
            Some(e) => e,
            None => return Err(()),
        };
        self.chat_mode = chat_mode;
        let chat_colors = packet.decode_bool()?;
        self.chat_colors = chat_colors;
        let displayed_skin_parts = packet.decode_ubyte()?;
        self.displayed_skin_parts = displayed_skin_parts;
        let main_hand = match hand_from(packet.decode_varint()?) {
            Some(e) => e,
            None => return Err(()),
        };
        self.main_hand = main_hand;
        Ok(())
    }
}

/// Which chat messages the client wants.
#[derive(Clone, Copy, Debug, PartialEq, Eq, Structural)]
pub enum ChatMode {
    Enabled,
    CommandsOnly,
    Hidden,
}

impl ChatMode {
    /// The variant's name, as the `{:?}` form shows it.
    pub open spec fn name(self) -> Seq<char> {
        match self {
            ChatMode::Enabled => "Enabled"@,
            ChatMode::CommandsOnly => "CommandsOnly"@,
            ChatMode::Hidden => "Hidden"@,
        }
    }

    /// The variant's name.
    pub fn name_string(&self) -> (r: String)
        ensures
            r@ == self.name(),
    {
        match self {
            ChatMode::Enabled => String::from_str("Enabled"),
            ChatMode::CommandsOnly => String::from_str("CommandsOnly"),
            ChatMode::Hidden => String::from_str("Hidden"),
        }
    }
}

/// The `ChatMode` a number stands for.
pub open spec fn chat_mode_of(n: i32) -> Option<ChatMode> {
    if n == 0 {
        Some(ChatMode::Enabled)
    } else if n == 1 {
        Some(ChatMode::CommandsOnly)
    } else if n == 2 {
        Some(ChatMode::Hidden)
    } else {
        None
    }
}

/// Reading a `ChatMode`: any other number is refused.
pub open spec fn chat_mode_step(s: Seq<u8>) -> Step<ChatMode> {
    and_then(
        varint_step(s),
        |n: i32, r: Seq<u8>|
            match chat_mode_of(n) {
                Some(e) => Step::Done(e, r),
                None => Step::Fail(r),
            },
    )
}

fn chat_mode_from(n: i32) -> (r: Option<ChatMode>)
    ensures
        r == chat_mode_of(n),
{
    match n {
        0 => Some(ChatMode::Enabled),
        1 => Some(ChatMode::CommandsOnly),
        2 => Some(ChatMode::Hidden),
        _ => None,
    }
}

/// The player's main hand.
#[derive(Clone, Copy, Debug, PartialEq, Eq, Structural)]
pub enum Hand {
    Left,
    Right,
}

impl Hand {
    /// The variant's name, as the `{:?}` form shows it.
    pub open spec fn name(self) -> Seq<char> {
        match self {
            Hand::Left => "Left"@,
            Hand::Right => "Right"@,
        }
    }

    /// The variant's name.
    pub fn name_string(&self) -> (r: String)
        ensures
            r@ == self.name(),
    {
        match self {
            Hand::Left => String::from_str("Left"),
            Hand::Right => String::from_str("Right"),
        }
    }
}

/// The `Hand` a number stands for.
pub open spec fn hand_of(n: i32) -> Option<Hand> {
    if n == 0 {
        Some(Hand::Left)
    } else if n == 1 {
        Some(Hand::Right)
    } else {
        None
    }
}

/// Reading a `Hand`: any other number is refused.
pub open spec fn hand_step(s: Seq<u8>) -> Step<Hand> {
    and_then(
        varint_step(s),
        |n: i32, r: Seq<u8>|
            match hand_of(n) {
                Some(e) => Step::Done(e, r),
                None => Step::Fail(r),
            },
    )
}

fn hand_from(n: i32) -> (r: Option<Hand>)
    ensures
        r == hand_of(n),
{
    match n {
        0 => Some(Hand::Left),
        1 => Some(Hand::Right),
        _ => None,
    }
}


/// The main hand of Client Settings on the wire: 0 is the left hand and 1
/// the right hand; no other number names a hand.
pub proof fn law_main_hand_numbers(n: i32)
    ensures
        hand_of(n) == Some(Hand::Left) <==> n == 0,
        hand_of(n) == Some(Hand::Right) <==> n == 1,
        hand_of(n) is None <==> n != 0 && n != 1,
{
}

/// The chat mode of Client Settings on the wire: 0 is chat enabled, 1
/// commands only and 2 chat hidden; no other number names a mode.
pub proof fn law_chat_mode_numbers(n: i32)
    ensures
        chat_mode_of(n) == Some(ChatMode::Enabled) <==> n == 0,
        chat_mode_of(n) == Some(ChatMode::CommandsOnly) <==> n == 1,
        chat_mode_of(n) == Some(ChatMode::Hidden) <==> n == 2,
        chat_mode_of(n) is None <==> !(0 <= n <= 2),
{
}

} // verus!
