use vstd::prelude::*;
use crate::laws::{law_float_roundtrip, law_ubyte_roundtrip};
use crate::raw_packet::RawPacket;
use crate::wire::{Step, and_then, ubyte_step, uint_step};
use crate::packet::{sent, Packet};
use crate::protocol::v754::{fid_to_pid, pid_of, Fid};
use crate::replies::one;
use crate::types::Direction;
use crate::wire::u32_be;

verus! {

/// The client steers its vehicle; floats are held as their bit patterns.
#[derive(Clone)]
pub struct SteerVehicle {
    pub sideways: u32,
    pub forward: u32,
    pub flags: u8,
}

/// The fields of the packet, in the order they are read.
pub open spec fn steer_vehicle_step(s: Seq<u8>) -> Step<(u32, u32, u8)> {
    and_then(uint_step(s), |sideways: u32, r1: Seq<u8>|
    and_then(uint_step(r1), |forward: u32, r2: Seq<u8>|
    and_then(ubyte_step(r2), |flags: u8, r3: Seq<u8>|
    Step::Done((sideways, forward, flags), r3))))
}

impl SteerVehicle {
    pub fn empty() -> (r: Self)
        ensures
            r.sideways == 0,
            r.forward == 0,
            r.flags == 0,
    {
        Self { sideways: 0, forward: 0, flags: 0 }
    }

    /// Reads the fields from the packet body one after the other; on
    /// failure the fields read before keep their new values.
    pub fn parse_packet(&mut self, packet: RawPacket) -> (r: Result<(), ()>)
        ensures
            match uint_step(packet@) {
                Step::Done(sideways, r1) => {
                    &&& final(self).sideways == sideways
                    &&& (
                    match uint_step(r1) {
                        Step::Done(forward, r2) => {
                            &&& final(self).forward == forward
                            &&& (
                            match ubyte_step(r2) {
                                Step::Done(flags, r3) => {
                                    &&& final(self).flags == flags
                                    &&& (
                                    r is Ok
                                    )
                                },
                                _ => r is Err && final(self).flags == old(self).flags,
                            }
                            )
                        },
                        _ => r is Err && final(self).forward == old(self).forward && final(self).flags == old(self).flags,
                    }
                    )
                },
                _ => r is Err && *final(self) == *old(self),
            },
    {
        let mut packet = packet;
        let sideways = packet.decode_float()?;
        self.sideways = sideways;
        let forward = packet.decode_float()?;
        self.forward = forward;
        let flags = packet.decode_ubyte()?;
        self.flags = flags;
        Ok(())
    }

    pub fn packet_editing(&self) -> (r: bool)
        ensures
            !r,
    {
        false
    }

    /// Sends the steering on unchanged.
    pub fn edit_packet(&self) -> (r: Result<Vec<(Packet, Direction)>, ()>)
        ensures
            r matches Ok(v) && sent(v@) == seq![
                (
                    (
                        pid_of(Fid::SteerVehicle),
                        u32_be(self.sideways) + u32_be(self.forward) + seq![self.flags],
                    ),
                    Direction::Serverbound,
                ),
            ],
    {
        let mut raw_packet = RawPacket::new();
        raw_packet.encode_float(self.sideways);
        raw_packet.encode_float(self.forward);
        raw_packet.encode_ubyte(self.flags);
        assert(raw_packet@ =~= u32_be(self.sideways) + u32_be(self.forward) + seq![self.flags]);
        Ok(one(Packet::from(raw_packet, fid_to_pid(Fid::SteerVehicle)), Direction::Serverbound))
    }
}


/// Steering that `edit_packet` passes on unchanged reads back as the same
/// steering.
pub proof fn law_steer_vehicle_resend(v: SteerVehicle)
    ensures
        steer_vehicle_step(u32_be(v.sideways) + u32_be(v.forward) + seq![v.flags]) == Step::Done(
            (v.sideways, v.forward, v.flags),
            Seq::<u8>::empty(),
        ),
{
    let empty = Seq::<u8>::empty();
    let r2 = seq![v.flags] + empty;
    let r1 = u32_be(v.forward) + r2;
    assert(u32_be(v.sideways) + u32_be(v.forward) + seq![v.flags] =~= u32_be(v.sideways) + r1);
    law_float_roundtrip(v.sideways, r1);
    law_float_roundtrip(v.forward, r2);
    law_ubyte_roundtrip(v.flags, empty);
}

} // verus!
