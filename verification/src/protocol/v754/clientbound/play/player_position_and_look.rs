use vstd::prelude::*;
use crate::raw_packet::RawPacket;
use crate::wire::{Step, and_then, bool_step, byte_step, uint_step, ulong_step, varint_step};
use crate::packet::{sent, Packet};
use crate::replies::one;
use crate::types::Direction;
use crate::wire::{u32_be, u64_be, varint_bytes};

verus! {

/// The server moves the player; doubles and floats are held as their bit patterns.
#[derive(Clone)]
pub struct PlayerPositionAndLook {
    pub x: u64,
    pub y: u64,
    pub z: u64,
    pub yaw: u32,
    pub pitch: u32,
    pub flags: i8,
    pub teleport_id: i32,
    pub dismount_vehicle: bool,
}

/// The fields of the packet, in the order they are read.
pub open spec fn player_position_and_look_step(s: Seq<u8>) -> Step<(u64, u64, u64, u32, u32, i8, i32, bool)> {
    and_then(ulong_step(s), |x: u64, r1: Seq<u8>|
    and_then(ulong_step(r1), |y: u64, r2: Seq<u8>|
    and_then(ulong_step(r2), |z: u64, r3: Seq<u8>|
    and_then(uint_step(r3), |yaw: u32, r4: Seq<u8>|
    and_then(uint_step(r4), |pitch: u32, r5: Seq<u8>|
    and_then(byte_step(r5), |flags: i8, r6: Seq<u8>|
    and_then(varint_step(r6), |teleport_id: i32, r7: Seq<u8>|
    and_then(bool_step(r7), |dismount_vehicle: bool, r8: Seq<u8>|
    Step::Done((x, y, z, yaw, pitch, flags, teleport_id, dismount_vehicle), r8)))))))))
}

impl PlayerPositionAndLook {
    pub fn empty() -> (r: Self)
        ensures
            r.x == 0,
            r.y == 0,
            r.z == 0,
            r.yaw == 0,
            r.pitch == 0,
            r.flags == 0,
            r.teleport_id == 0,
            r.dismount_vehicle == false,
    {
        Self { x: 0, y: 0, z: 0, yaw: 0, pitch: 0, flags: 0, teleport_id: 0, dismount_vehicle: false }
    }

    /// Reads the fields from the packet body one after the other; on
    /// failure the fields read before keep their new values.
    pub fn parse_packet(&mut self, packet: RawPacket) -> (r: Result<(), ()>)
        ensures
            r is Ok <==> player_position_and_look_step(packet@) is Done,
            match ulong_step(packet@) {
                Step::Done(x, r1) => {
                    &&& final(self).x == x
                    &&& (
                    match ulong_step(r1) {
                        Step::Done(y, r2) => {
                            &&& final(self).y == y
                            &&& (
                            match ulong_step(r2) {
                                Step::Done(z, r3) => {
                                    &&& final(self).z == z
                                    &&& (
                                    match uint_step(r3) {
                                        Step::Done(yaw, r4) => {
                                            &&& final(self).yaw == yaw
                                            &&& (
                                            match uint_step(r4) {
                                                Step::Done(pitch, r5) => {
                                                    &&& final(self).pitch == pitch
                                                    &&& (
                                                    match byte_step(r5) {
                                                        Step::Done(flags, r6) => {
                                                            &&& final(self).flags == flags
                                                            &&& (
                                                            match varint_step(r6) {
                                                                Step::Done(teleport_id, r7) => {
                                                                    &&& final(self).teleport_id == teleport_id
                                                                    &&& (
                                                                    match bool_step(r7) {
                                                                        Step::Done(dismount_vehicle, r8) => {
                                                                            &&& final(self).dismount_vehicle == dismount_vehicle
                                                                            &&& (
                                                                            r is Ok
                                                                            )
                                                                        },
                                                                        _ => r is Err && final(self).dismount_vehicle == old(self).dismount_vehicle,
                                                                    }
                                                                    )
                                                                },
                                                                _ => r is Err && final(self).teleport_id == old(self).teleport_id && final(self).dismount_vehicle == old(self).dismount_vehicle,
                                                            }
                                                            )
                                                        },
                                                        _ => r is Err && final(self).flags == old(self).flags && final(self).teleport_id == old(self).teleport_id && final(self).dismount_vehicle == old(self).dismount_vehicle,
                                                    }
                                                    )
                                                },
                                                _ => r is Err && final(self).pitch == old(self).pitch && final(self).flags == old(self).flags && final(self).teleport_id == old(self).teleport_id && final(self).dismount_vehicle == old(self).dismount_vehicle,
                                            }
                                            )
                                        },
                                        _ => r is Err && final(self).yaw == old(self).yaw && final(self).pitch == old(self).pitch && final(self).flags == old(self).flags && final(self).teleport_id == old(self).teleport_id && final(self).dismount_vehicle == old(self).dismount_vehicle,
                                    }
                                    )
                                },
                                _ => r is Err && final(self).z == old(self).z && final(self).yaw == old(self).yaw && final(self).pitch == old(self).pitch && final(self).flags == old(self).flags && final(self).teleport_id == old(self).teleport_id && final(self).dismount_vehicle == old(self).dismount_vehicle,
                            }
                            )
                        },
                        _ => r is Err && final(self).y == old(self).y && final(self).z == old(self).z && final(self).yaw == old(self).yaw && final(self).pitch == old(self).pitch && final(self).flags == old(self).flags && final(self).teleport_id == old(self).teleport_id && final(self).dismount_vehicle == old(self).dismount_vehicle,
                    }
                    )
                },
                _ => r is Err && *final(self) == *old(self),
            },
    {
        let mut packet = packet;
        let x = packet.decode_double()?;
        self.x = x;
        let y = packet.decode_double()?;
        self.y = y;
        let z = packet.decode_double()?;
        self.z = z;
        let yaw = packet.decode_float()?;
        self.yaw = yaw;
        let pitch = packet.decode_float()?;
        self.pitch = pitch;
        let flags = packet.decode_byte()?;
        self.flags = flags;
        let teleport_id = packet.decode_varint()?;
        self.teleport_id = teleport_id;
        let dismount_vehicle = packet.decode_bool()?;
        self.dismount_vehicle = dismount_vehicle;
        Ok(())
    }

    pub fn packet_editing(&self) -> (r: bool)
        ensures
            r,
    {
        true
    }

    /// Sends the position on with the dismount flag cleared.
    pub fn edit_packet(&self) -> (r: Result<Vec<(Packet, Direction)>, ()>)
        ensures
            r matches Ok(v) && sent(v@) == position_and_look_resend(*self),
    {
        let mut raw_packet = RawPacket::new();
        raw_packet.encode_double(self.x);
        raw_packet.encode_double(self.y);
        raw_packet.encode_double(self.z);
        raw_packet.encode_float(self.yaw);
        raw_packet.encode_float(self.pitch);
        raw_packet.encode_byte(self.flags);
        raw_packet.encode_varint(self.teleport_id);
        raw_packet.encode_bool(false);
        assert(raw_packet@ =~= position_and_look_resend(*self)[0].0.1);
        Ok(one(Packet::from(raw_packet, 0x38), Direction::Serverbound))
    }
}


/// The packet id under which the position is sent on: the kind table has
/// no entry for this packet (its line there is commented out with 0x38).
pub open spec fn position_and_look_pid() -> i32 {
    0x38
}

/// The position sent on with the dismount flag cleared.
pub open spec fn position_and_look_resend(p: PlayerPositionAndLook) -> Seq<
    ((i32, Seq<u8>), Direction),
> {
    seq![
        (
            (
                position_and_look_pid(),
                u64_be(p.x) + u64_be(p.y) + u64_be(p.z) + u32_be(p.yaw) + u32_be(p.pitch) + seq![
                    p.flags as u8,
                ] + varint_bytes(p.teleport_id) + seq![0u8],
            ),
            Direction::Serverbound,
        ),
    ]
}

} // verus!
