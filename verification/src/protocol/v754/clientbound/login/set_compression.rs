use vstd::prelude::*;
use crate::fmt::{decimal, decimal_string};
use crate::raw_packet::RawPacket;
use crate::wire::{Step, and_then, varint_step};
use crate::types::SharedState;

verus! {

/// The server sets the size from which packets are compressed.
#[derive(Clone)]
pub struct SetCompression {
    pub threshold: i32,
}

/// The fields of the packet, in the order they are read.
pub open spec fn set_compression_step(s: Seq<u8>) -> Step<i32> {
    and_then(varint_step(s), |threshold: i32, r1: Seq<u8>|
    Step::Done(threshold, r1))
}

impl SetCompression {
    /// The fields as the log line shows them.
    pub fn get_printable(&self) -> (r: String)
        ensures
            r@ == decimal(self.threshold as int),
    {
        let mut s = decimal_string(self.threshold as i128);
        s
    }

    pub fn empty() -> (r: Self)
        ensures
            r.threshold == 0,
    {
        Self { threshold: 0 }
    }

    /// Reads the fields from the packet body; on failure the fields keep
    /// their values.
    pub fn parse_packet(&mut self, packet: RawPacket) -> (r: Result<(), ()>)
        ensures
            match set_compression_step(packet@) {
                Step::Done(v, _) => {
                    &&& r is Ok
                    &&& final(self).threshold == v
                },
                _ => r is Err && *final(self) == *old(self),
            },
    {
        let mut packet = packet;
        let threshold = packet.decode_varint()?;
        self.threshold = threshold;
        Ok(())
    }

    pub fn status_updating(&self) -> (r: bool)
        ensures
            r,
    {
        true
    }

    /// Packets from the threshold's size on are compressed from now on (the
    /// threshold taken as an unsigned number).
    pub fn update_status(&self, status: &mut SharedState) -> (r: Result<(), ()>)
        ensures
            r is Ok,
            *final(status) == (SharedState { compress: self.threshold as u32, ..*old(status) }),
    {
        status.compress = self.threshold as u32;
        Ok(())
    }
}


} // verus!
