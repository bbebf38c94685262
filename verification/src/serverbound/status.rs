pub mod status_request;

use vstd::prelude::*;
use crate::fmt::{decimal, decimal_string};
use crate::raw_packet::RawPacket;
use crate::wire::{Step, and_then, long_step};

verus! {

/// The client asks for the server's status; the packet has no fields.
#[derive(Clone)]
pub struct StatusRequest {}

impl StatusRequest {
    /// The fields as the log line shows them.
    pub fn get_printable(&self) -> (r: String)
        ensures
            r@ == Seq::<char>::empty(),
    {
        String::new()
    }

    pub fn empty() -> (r: Self) {
        Self {}
    }

    /// There is nothing to read: always succeeds.
    pub fn parse_packet(&mut self, packet: RawPacket) -> (r: Result<(), ()>)
        ensures
            r is Ok,
    {
        Ok(())
    }
}


/// The client pings the server during a status request.
#[derive(Clone)]
pub struct StatusPing {
    pub payload: i64,
}

/// The fields of the packet, in the order they are read.
pub open spec fn status_ping_step(s: Seq<u8>) -> Step<i64> {
    and_then(long_step(s), |payload: i64, r1: Seq<u8>|
    Step::Done(payload, r1))
}

impl StatusPing {
    /// The fields as the log line shows them.
    pub fn get_printable(&self) -> (r: String)
        ensures
            r@ == decimal(self.payload as int),
    {
        let mut s = decimal_string(self.payload as i128);
        s
    }

    pub fn empty() -> (r: Self)
        ensures
            r.payload == 0,
    {
        Self { payload: 0 }
    }

    /// Reads the fields from the packet body; on failure the fields keep
    /// their values.
    pub fn parse_packet(&mut self, packet: RawPacket) -> (r: Result<(), ()>)
        ensures
            match status_ping_step(packet@) {
                Step::Done(v, _) => {
                    &&& r is Ok
                    &&& final(self).payload == v
                },
                _ => r is Err && *final(self) == *old(self),
            },
    {
        let mut packet = packet;
        let payload = packet.decode_long()?;
        self.payload = payload;
        Ok(())
    }
}


} // verus!
