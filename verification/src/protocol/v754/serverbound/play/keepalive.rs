use vstd::prelude::*;
use crate::fmt::{decimal, decimal_string};
use crate::raw_packet::RawPacket;
use crate::wire::{Step, and_then, long_step};
use crate::packet::{sent, Packet};
use crate::replies::one;
use crate::types::Direction;
use crate::wire::u32_be;

verus! {

/// A keep-alive from the client.
#[derive(Clone)]
pub struct KeepAliveSb {
    pub keep_alive_id: i64,
}

/// The fields of the packet, in the order they are read.
pub open spec fn keep_alive_sb_step(s: Seq<u8>) -> Step<i64> {
    and_then(long_step(s), |keep_alive_id: i64, r1: Seq<u8>|
    Step::Done(keep_alive_id, r1))
}

impl KeepAliveSb {
    /// The fields as the log line shows them.
    pub fn get_printable(&self) -> (r: String)
        ensures
            r@ == decimal(self.keep_alive_id as int),
    {
        let mut s = decimal_string(self.keep_alive_id as i128);
        s
    }

    pub fn default() -> (r: Self)
        ensures
            r.keep_alive_id == 0,
    {
        Self { keep_alive_id: 0 }
    }

    /// Reads the fields from the packet body; on failure the fields keep
    /// their values.
    pub fn parse_packet(&mut self, packet: RawPacket) -> (r: Result<(), ()>)
        ensures
            match keep_alive_sb_step(packet@) {
                Step::Done(v, _) => {
                    &&& r is Ok
                    &&& final(self).keep_alive_id == v
                },
                _ => r is Err && *final(self) == *old(self),
            },
    {
        let mut packet = packet;
        let keep_alive_id = packet.decode_long()?;
        self.keep_alive_id = keep_alive_id;
        Ok(())
    }

    pub fn packet_editing(&self) -> (r: bool)
        ensures
            !r,
    {
        false
    }

    /// Sends the client packet 0x1D with the byte 7 and the float 7.0
    /// (bit pattern 0x40e00000).
    pub fn edit_packet(&self) -> (r: Result<Vec<(Packet, Direction)>, ()>)
        ensures
            r matches Ok(v) && sent(v@) == seq![
                ((0x1Di32, seq![7u8] + u32_be(0x40e0_0000)), Direction::Clientbound),
            ],
    {
        let mut raw_packet = RawPacket::new();
        raw_packet.encode_ubyte(7);
        raw_packet.encode_float(0x40e0_0000);
        assert(raw_packet@ =~= seq![7u8] + u32_be(0x40e0_0000));
        Ok(one(Packet::from(raw_packet, 0x1D), Direction::Clientbound))
    }
}


} // verus!
