//! A packet body together with its packet id.
use vstd::prelude::*;
use crate::raw_packet::RawPacket;
use crate::types::Direction;

verus! {

/// A packet ready to be sent: its id and its body.
pub struct Packet {
    pub pid: i32,
    pub data: RawPacket,
}

impl View for Packet {
    type V = (i32, Seq<u8>);

    open spec fn view(&self) -> (i32, Seq<u8>) {
        (self.pid, self.data@)
    }
}

impl Packet {
    pub fn from(data: RawPacket, pid: i32) -> (r: Packet)
        ensures
            r@ == (pid, data@),
    {
        Packet { pid, data }
    }
}

/// What a list of outgoing packets sends: each packet's id and body, and
/// its direction.
pub open spec fn sent(list: Seq<(Packet, Direction)>) -> Seq<((i32, Seq<u8>), Direction)> {
    list.map_values(|e: (Packet, Direction)| (e.0@, e.1))
}

} // verus!
