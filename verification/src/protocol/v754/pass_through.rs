//! Packets whose fields the library does not hold.
use vstd::prelude::*;
use crate::packet::{sent, Packet};
use crate::protocol::v754::{fid_to_pid, pid_of, Fid};
use crate::raw_packet::RawPacket;
use crate::replies::one;
use crate::types::Direction;

verus! {

/// A packet of a kind whose fields the library does not hold: its body is
/// kept as it came, to be passed on unchanged.
pub struct PassThrough {
    pub kind: Fid,
    pub body: Vec<u8>,
}

impl PassThrough {
    /// A packet of the given kind with an empty body.
    pub fn empty(kind: Fid) -> (r: Self)
        ensures
            r.kind == kind,
            r.body@ == Seq::<u8>::empty(),
    {
        PassThrough { kind, body: Vec::new() }
    }

    /// Keeps the whole body; reading it always succeeds.
    pub fn parse_packet(&mut self, packet: RawPacket) -> (r: Result<(), ()>)
        ensures
            r is Ok,
            final(self).kind == old(self).kind,
            final(self).body@ == packet@,
    {
        self.body = packet.get_vec();
        Ok(())
    }

    /// The body as it is shown in a log line: not at all.
    pub fn get_printable(&self) -> (r: String)
        ensures
            r@ == Seq::<char>::empty(),
    {
        String::new()
    }

    /// Such a packet is never edited.
    pub fn packet_editing(&self) -> (r: bool)
        ensures
            !r,
    {
        false
    }

    /// The packet as it came, sent on in the given direction.
    pub fn edit_packet(&self, direction: Direction) -> (r: Result<Vec<(Packet, Direction)>, ()>)
        ensures
            r matches Ok(v) && sent(v@) == seq![((pid_of(self.kind), self.body@), direction)],
    {
        let raw = RawPacket::from(self.body.clone());
        Ok(one(Packet::from(raw, fid_to_pid(self.kind)), direction))
    }
}

} // verus!
