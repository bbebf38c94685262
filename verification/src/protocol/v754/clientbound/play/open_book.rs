use vstd::prelude::*;
use crate::fmt::{decimal, decimal_string};
use crate::raw_packet::RawPacket;
use crate::wire::{Step, and_then, varint_step};
use crate::packet::{sent, Packet};
use crate::replies::{notice, notice_packet};
use crate::types::{Direction, SharedState};

verus! {

/// The server opens a book in the player's hand.
#[derive(Clone)]
pub struct OpenBook {
    pub hand: i32,
}

/// The fields of the packet, in the order they are read.
pub open spec fn open_book_step(s: Seq<u8>) -> Step<i32> {
    and_then(varint_step(s), |hand: i32, r1: Seq<u8>|
    Step::Done(hand, r1))
}

impl OpenBook {
    /// The fields as the log line shows them.
    pub fn get_printable(&self) -> (r: String)
        ensures
            r@ == decimal(self.hand as int),
    {
        let mut s = decimal_string(self.hand as i128);
        s
    }

    pub fn empty() -> (r: Self)
        ensures
            r.hand == 0,
    {
        Self { hand: 0 }
    }

    /// Reads the fields from the packet body; on failure the fields keep
    /// their values.
    pub fn parse_packet(&mut self, packet: RawPacket) -> (r: Result<(), ()>)
        ensures
            match open_book_step(packet@) {
                Step::Done(v, _) => {
                    &&& r is Ok
                    &&& final(self).hand == v
                },
                _ => r is Err && *final(self) == *old(self),
            },
    {
        let mut packet = packet;
        let hand = packet.decode_varint()?;
        self.hand = hand;
        Ok(())
    }

    pub fn packet_editing(&self) -> (r: bool)
        ensures
            !r,
    {
        false
    }

    /// Tells the player the book is not opened; the state is handed back
    /// unchanged.
    pub fn edit_packet(&self, status: SharedState) -> (r: Result<
        (Vec<(Packet, Direction)>, SharedState),
        (),
    >)
        ensures
            r matches Ok((v, st)) && st == status && sent(v@) == seq![
                notice("Not opening book!"@),
            ],
    {
        Ok((notice_packet("Not opening book!"), status))
    }
}


} // verus!
