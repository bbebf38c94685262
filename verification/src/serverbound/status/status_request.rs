use vstd::prelude::*;
use crate::raw_packet::RawPacket;

verus! {

/// The client asks for the server's status; the packet has no fields.
#[derive(Clone)]
pub struct StatusRequest {}

impl StatusRequest {
    /// The fields as the log line shows them.
    pub fn get_printable(&self) -> (r: String)
        ensures
            r@ == Seq::<char>::empty(),
    {
        String::new()
    }

    pub fn empty() -> (r: Self) {
        Self {}
    }

    /// There is nothing to read: always succeeds.
    pub fn parse_packet(&mut self, packet: RawPacket) -> (r: Result<(), ()>)
        ensures
            r is Ok,
    {
        Ok(())
    }
}

} // verus!
