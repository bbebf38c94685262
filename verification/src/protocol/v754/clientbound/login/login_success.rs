use vstd::prelude::*;
use crate::fmt::{digits, unsigned_string};
use crate::raw_packet::RawPacket;
use crate::wire::{Step, and_then, string_step, uuid_step};
use crate::types::{SharedState, State};

verus! {

/// The server accepts the login.
#[derive(Clone)]
pub struct LoginSuccess {
    pub uuid: u128,
    pub username: String,
}

/// The fields of the packet, in the order they are read.
pub open spec fn login_success_step(s: Seq<u8>) -> Step<(u128, Seq<char>)> {
    and_then(uuid_step(s), |uuid: u128, r1: Seq<u8>|
    and_then(string_step(r1), |username: Seq<char>, r2: Seq<u8>|
    Step::Done((uuid, username), r2)))
}

impl LoginSuccess {
    /// The fields as the log line shows them.
    pub fn get_printable(&self) -> (r: String)
        ensures
            r@ == digits(self.uuid as nat, 10) + " "@ + self.username@,
    {
        let mut s = unsigned_string(self.uuid);
        s.append(" ");
        s.append(self.username.as_str());
        s
    }

    pub fn default() -> (r: Self)
        ensures
            r.uuid == 0,
            r.username@ == Seq::<char>::empty(),
    {
        Self { uuid: 0, username: String::new() }
    }

    /// Reads the fields from the packet body one after the other; on
    /// failure the fields read before keep their new values.
    pub fn parse_packet(&mut self, packet: RawPacket) -> (r: Result<(), ()>)
        ensures
            match uuid_step(packet@) {
                Step::Done(uuid, r1) => {
                    &&& final(self).uuid == uuid
                    &&& (
                    match string_step(r1) {
                        Step::Done(username, r2) => {
                            &&& final(self).username@ == username
                            &&& (
                            r is Ok
                            )
                        },
                        _ => r is Err && final(self).username == old(self).username,
                    }
                    )
                },
                _ => r is Err && *final(self) == *old(self),
            },
    {
        let mut packet = packet;
        let uuid = packet.decode_uuid()?;
        self.uuid = uuid;
        let username = packet.decode_string()?;
        self.username = username;
        Ok(())
    }

    /// The connection goes on to play.
    pub fn update_status(&self, status: &mut SharedState) -> (r: Result<(), ()>)
        ensures
            r is Ok,
            *final(status) == (SharedState { state: State::Play, ..*old(status) }),
    {
        status.state = State::Play;
        Ok(())
    }
}


} // verus!
