use vstd::prelude::*;
use crate::fmt::{decimal, decimal_string};
use crate::raw_packet::RawPacket;
use crate::wire::{Step, and_then, long_step};
use crate::packet::{sent, Packet};
use crate::protocol::v754::{fid_to_pid, pid_of, Fid};
use crate::replies::{one, push_packet};
use crate::types::Direction;
use crate::wire::u64_be;

verus! {

/// A keep-alive from the server.
#[derive(Clone)]
pub struct KeepAliveCb {
    pub keep_alive_id: i64,
}

/// The fields of the packet, in the order they are read.
pub open spec fn keep_alive_cb_step(s: Seq<u8>) -> Step<i64> {
    and_then(long_step(s), |keep_alive_id: i64, r1: Seq<u8>|
    Step::Done(keep_alive_id, r1))
}

impl KeepAliveCb {
    /// The fields as the log line shows them.
    pub fn get_printable(&self) -> (r: String)
        ensures
            r@ == decimal(self.keep_alive_id as int),
    {
        let mut s = decimal_string(self.keep_alive_id as i128);
        s
    }

    pub fn default() -> (r: Self)
        ensures
            r.keep_alive_id == 0,
    {
        Self { keep_alive_id: 0 }
    }

    /// Reads the fields from the packet body; on failure the fields keep
    /// their values.
    pub fn parse_packet(&mut self, packet: RawPacket) -> (r: Result<(), ()>)
        ensures
            match keep_alive_cb_step(packet@) {
                Step::Done(v, _) => {
                    &&& r is Ok
                    &&& final(self).keep_alive_id == v
                },
                _ => r is Err && *final(self) == *old(self),
            },
    {
        let mut packet = packet;
        let keep_alive_id = packet.decode_long()?;
        self.keep_alive_id = keep_alive_id;
        Ok(())
    }

    pub fn packet_editing(&self) -> (r: bool)
        ensures
            !r,
    {
        false
    }

    /// Answers the keep-alive to the server and passes it on to the client.
    pub fn edit_packet(&self) -> (r: Result<Vec<(Packet, Direction)>, ()>)
        ensures
            r matches Ok(v) && sent(v@) == keep_alive_echo(self.keep_alive_id),
    {
        let mut to_server = RawPacket::new();
        to_server.encode_long(self.keep_alive_id);
        let mut to_client = RawPacket::new();
        to_client.encode_long(self.keep_alive_id);
        let mut v = one(Packet::from(to_server, fid_to_pid(Fid::KeepAliveSb)), Direction::Serverbound);
        push_packet(&mut v, Packet::from(to_client, fid_to_pid(Fid::KeepAliveCb)), Direction::Clientbound);
        assert(sent(v@) =~= keep_alive_echo(self.keep_alive_id));
        Ok(v)
    }
}


/// The keep-alive answered to the server and passed on to the client.
pub open spec fn keep_alive_echo(id: i64) -> Seq<((i32, Seq<u8>), Direction)> {
    seq![
        ((pid_of(Fid::KeepAliveSb), u64_be(id as u64)), Direction::Serverbound),
        ((pid_of(Fid::KeepAliveCb), u64_be(id as u64)), Direction::Clientbound),
    ]
}

} // verus!
