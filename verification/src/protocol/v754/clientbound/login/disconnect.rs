use vstd::prelude::*;
use crate::raw_packet::RawPacket;
use crate::wire::{Step, and_then, string_step};
use crate::types::{SharedState, State};

verus! {

/// The server ends the connection during login, giving a reason.
#[derive(Clone)]
pub struct Disconnect {
    pub reason: String,
}

/// The fields of the packet, in the order they are read.
pub open spec fn disconnect_step(s: Seq<u8>) -> Step<Seq<char>> {
    and_then(string_step(s), |reason: Seq<char>, r1: Seq<u8>|
    Step::Done(reason, r1))
}

impl Disconnect {
    pub fn empty() -> (r: Self)
        ensures
            r.reason@ == Seq::<char>::empty(),
    {
        Self { reason: String::new() }
    }

    /// Reads the fields from the packet body; on failure the fields keep
    /// their values.
    pub fn parse_packet(&mut self, packet: RawPacket) -> (r: Result<(), ()>)
        ensures
            match disconnect_step(packet@) {
                Step::Done(v, _) => {
                    &&& r is Ok
                    &&& final(self).reason@ == v
                },
                _ => r is Err && *final(self) == *old(self),
            },
    {
        let mut packet = packet;
        let reason = packet.decode_string()?;
        self.reason = reason;
        Ok(())
    }

    /// The connection goes back to handshaking.
    pub fn update_status(&self, status: &mut SharedState) -> (r: Result<(), ()>)
        ensures
            r is Ok,
            *final(status) == (SharedState { state: State::Handshaking, ..*old(status) }),
    {
        status.state = State::Handshaking;
        Ok(())
    }

    pub fn get_printable(&self) -> (r: String)
        ensures
            r@ == self.reason@,
    {
        self.reason.clone()
    }
}


} // verus!
