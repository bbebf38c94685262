use vstd::prelude::*;
use crate::fmt::{decimal, decimal_string};
use crate::raw_packet::RawPacket;
use crate::wire::{Step, and_then, string_step, ushort_step, varint_step};
use crate::types::State;
use crate::packet::Packet;
use crate::laws::{law_string_roundtrip, law_ushort_roundtrip};
use crate::wire::lemma_varint_roundtrip;
use vstd::utf8::encode_utf8;
use crate::protocol::v754::{fid_to_pid, pid_of, Fid};
use crate::types::SharedState;
use crate::wire::{string_bytes, u16_be, varint_bytes};

verus! {

/// The first packet of a connection: protocol version, server address and port, and the state to go to.
#[derive(Clone)]
pub struct Handshake {
    pub protocol_version: i32,
    pub server_address: String,
    pub server_port: u16,
    pub next_state: State,
}

/// The fields of the packet, in the order they are read.
pub open spec fn handshake_step(s: Seq<u8>) -> Step<(i32, Seq<char>, u16, State)> {
    and_then(varint_step(s), |protocol_version: i32, r1: Seq<u8>|
    and_then(string_step(r1), |server_address: Seq<char>, r2: Seq<u8>|
    and_then(ushort_step(r2), |server_port: u16, r3: Seq<u8>|
    and_then(next_state_step(r3), |next_state: State, r4: Seq<u8>|
    Step::Done((protocol_version, server_address, server_port, next_state), r4)))))
}

impl Handshake {
    /// The fields as the log line shows them.
    pub fn get_printable(&self) -> (r: String)
        ensures
            r@ == decimal(self.protocol_version as int) + " "@ + self.server_address@ + ":"@ + decimal(self.server_port as int) + " "@ + self.next_state.name(),
    {
        let mut s = decimal_string(self.protocol_version as i128);
        s.append(" ");
        s.append(self.server_address.as_str());
        s.append(":");
        s.append(decimal_string(self.server_port as i128).as_str());
        s.append(" ");
        s.append(self.next_state.name_string().as_str());
        s
    }

    pub fn default() -> (r: Self)
        ensures
            r.protocol_version == 0,
            r.server_address@ == Seq::<char>::empty(),
            r.server_port == 0,
            r.next_state == State::Handshaking,
    {
        Self { protocol_version: 0, server_address: String::new(), server_port: 0, next_state: State::Handshaking }
    }

    /// Reads the fields from the packet body one after the other; on
    /// failure the fields read before keep their new values.
    pub fn parse_packet(&mut self, packet: RawPacket) -> (r: Result<(), ()>)
        ensures
            match varint_step(packet@) {
                Step::Done(protocol_version, r1) => {
                    &&& final(self).protocol_version == protocol_version
                    &&& (
                    match string_step(r1) {
                        Step::Done(server_address, r2) => {
                            &&& final(self).server_address@ == server_address
                            &&& (
                            match ushort_step(r2) {
                                Step::Done(server_port, r3) => {
                                    &&& final(self).server_port == server_port
                                    &&& (
                                    match next_state_step(r3) {
                                        Step::Done(next_state, r4) => {
                                            &&& final(self).next_state == next_state
                                            &&& (
                                            r is Ok
                                            )
                                        },
                                        _ => r is Err && final(self).next_state == old(self).next_state,
                                    }
                                    )
                                },
                                _ => r is Err && final(self).server_port == old(self).server_port && final(self).next_state == old(self).next_state,
                            }
                            )
                        },
                        _ => r is Err && final(self).server_address == old(self).server_address && final(self).server_port == old(self).server_port && final(self).next_state == old(self).next_state,
                    }
                    )
                },
                _ => r is Err && *final(self) == *old(self),
            },
    {
        let mut packet = packet;
        let protocol_version = packet.decode_varint()?;
        self.protocol_version = protocol_version;
        let server_address = packet.decode_string()?;
        self.server_address = server_address;
        let server_port = packet.decode_ushort()?;
        self.server_port = server_port;
        let next_state = match next_state_from(packet.decode_varint()?) {
            Some(e) => e,
            None => return Err(()),
        };
        self.next_state = next_state;
        Ok(())
    }

    /// The handshake as a packet; only a next state of Status or Login can
    /// be written.
    pub fn encode_packet(&self) -> (r: Result<Packet, ()>)
        ensures
            match next_state_number(self.next_state) {
                Some(n) => r matches Ok(p) && p@ == (
                    pid_of(Fid::Handshake),
                    varint_bytes(self.protocol_version) + string_bytes(self.server_address@)
                        + u16_be(self.server_port) + varint_bytes(n),
                ),
                None => r is Err,
            },
    {
        let mut raw_packet = RawPacket::new();
        raw_packet.encode_varint(self.protocol_version);
        raw_packet.encode_string(self.server_address.clone());
        raw_packet.encode_ushort(self.server_port);
        raw_packet.encode_varint(
            match self.next_state {
                State::Status => 1,
                State::Login => 2,
                _ => return Err(()),
            },
        );
        Ok(Packet::from(raw_packet, fid_to_pid(Fid::Handshake)))
    }

    /// The connection goes on to the state the handshake asks for.
    pub fn update_status(&self, status: &mut SharedState) -> (r: Result<(), ()>)
        ensures
            r is Ok,
            *final(status) == (SharedState { state: self.next_state, ..*old(status) }),
    {
        status.state = self.next_state;
        Ok(())
    }
}

/// The state a handshake asks for.
pub open spec fn next_state_of(n: i32) -> Option<State> {
    if n == 1 {
        Some(State::Status)
    } else if n == 2 {
        Some(State::Login)
    } else {
        None
    }
}

/// Reading the next state of a handshake: any other number is refused.
pub open spec fn next_state_step(s: Seq<u8>) -> Step<State> {
    and_then(
        varint_step(s),
        |n: i32, r: Seq<u8>|
            match next_state_of(n) {
                Some(e) => Step::Done(e, r),
                None => Step::Fail(r),
            },
    )
}

fn next_state_from(n: i32) -> (r: Option<State>)
    ensures
        r == next_state_of(n),
{
    match n {
        1 => Some(State::Status),
        2 => Some(State::Login),
        _ => None,
    }
}

/// The number of the state a handshake asks for.
pub open spec fn next_state_number(s: State) -> Option<i32> {
    match s {
        State::Status => Some(1),
        State::Login => Some(2),
        _ => None,
    }
}

/// A handshake that `encode_packet` writes reads back with `parse_packet`
/// as the same handshake, whenever it can be written (its next state is
/// Status or Login) and its address takes at most `i32::MAX` bytes of UTF-8.
pub proof fn law_handshake_roundtrip(h: Handshake)
    requires
        next_state_number(h.next_state) is Some,
        encode_utf8(h.server_address@).len() <= i32::MAX,
    ensures
        handshake_step(
            varint_bytes(h.protocol_version) + string_bytes(h.server_address@) + u16_be(h.server_port)
                + varint_bytes(next_state_number(h.next_state).unwrap()),
        ) == Step::Done(
            (h.protocol_version, h.server_address@, h.server_port, h.next_state),
            Seq::<u8>::empty(),
        ),
{
    let n = next_state_number(h.next_state).unwrap();
    let empty = Seq::<u8>::empty();
    let r3 = varint_bytes(n) + empty;
    let r2 = u16_be(h.server_port) + r3;
    let r1 = string_bytes(h.server_address@) + r2;
    assert(varint_bytes(h.protocol_version) + string_bytes(h.server_address@) + u16_be(h.server_port)
        + varint_bytes(n) =~= varint_bytes(h.protocol_version) + r1);
    lemma_varint_roundtrip(h.protocol_version, r1);
    law_string_roundtrip(h.server_address@, r2);
    law_ushort_roundtrip(h.server_port, r3);
    lemma_varint_roundtrip(n, empty);
    assert(next_state_of(n) == Some(h.next_state));
    assert(next_state_step(r3) == Step::Done(h.next_state, empty));
}


/// The next state a handshake asks for, as its protocol number: 1 asks
/// for the status (a server-list ping) and 2 for a login; no other number
/// names a state, and a handshake can only ask for those two.
pub proof fn law_next_state_numbers(n: i32, s: State)
    ensures
        next_state_of(n) == Some(State::Status) <==> n == 1,
        next_state_of(n) == Some(State::Login) <==> n == 2,
        next_state_of(n) is None <==> n != 1 && n != 2,
        next_state_number(s) == Some(1i32) <==> s == State::Status,
        next_state_number(s) == Some(2i32) <==> s == State::Login,
        next_state_number(s) is None <==> s == State::Handshaking || s == State::Play,
{
}

} // verus!
