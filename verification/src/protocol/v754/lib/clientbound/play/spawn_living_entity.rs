use vstd::prelude::*;
use crate::raw_packet::RawPacket;
use crate::wire::{Step, and_then, short_step, ubyte_step, ulong_step, uuid_step, varint_step};

verus! {

/// The server spawns a living entity; coordinates are doubles held as their bit patterns.
#[derive(Clone)]
pub struct SpawnLivingEntity {
    pub entity_id: i32,
    pub object_uuid: u128,
    pub entity_type: i32,
    pub x: u64,
    pub y: u64,
    pub z: u64,
    pub yaw: u8,
    pub pitch: u8,
    pub head_pitch: u8,
    pub velocity_x: i16,
    pub velocity_y: i16,
    pub velocity_z: i16,
}

/// The fields of the packet, in the order they are read.
pub open spec fn spawn_living_entity_step(s: Seq<u8>) -> Step<(i32, u128, i32, u64, u64, u64, u8, u8, u8, i16, i16, i16)> {
    and_then(varint_step(s), |entity_id: i32, r1: Seq<u8>|
    and_then(uuid_step(r1), |object_uuid: u128, r2: Seq<u8>|
    and_then(varint_step(r2), |entity_type: i32, r3: Seq<u8>|
    and_then(ulong_step(r3), |x: u64, r4: Seq<u8>|
    and_then(ulong_step(r4), |y: u64, r5: Seq<u8>|
    and_then(ulong_step(r5), |z: u64, r6: Seq<u8>|
    and_then(ubyte_step(r6), |yaw: u8, r7: Seq<u8>|
    and_then(ubyte_step(r7), |pitch: u8, r8: Seq<u8>|
    and_then(ubyte_step(r8), |head_pitch: u8, r9: Seq<u8>|
    and_then(short_step(r9), |velocity_x: i16, r10: Seq<u8>|
    and_then(short_step(r10), |velocity_y: i16, r11: Seq<u8>|
    and_then(short_step(r11), |velocity_z: i16, r12: Seq<u8>|
    Step::Done((entity_id, object_uuid, entity_type, x, y, z, yaw, pitch, head_pitch, velocity_x, velocity_y, velocity_z), r12)))))))))))))
}

impl SpawnLivingEntity {
    pub fn empty() -> (r: Self)
        ensures
            r.entity_id == 0,
            r.object_uuid == 0,
            r.entity_type == 0,
            r.x == 0,
            r.y == 0,
            r.z == 0,
            r.yaw == 0,
            r.pitch == 0,
            r.head_pitch == 0,
            r.velocity_x == 0,
            r.velocity_y == 0,
            r.velocity_z == 0,
    {
        Self { entity_id: 0, object_uuid: 0, entity_type: 0, x: 0, y: 0, z: 0, yaw: 0, pitch: 0, head_pitch: 0, velocity_x: 0, velocity_y: 0, velocity_z: 0 }
    }

    /// Reads the fields from the packet body one after the other; on
    /// failure the fields read before keep their new values.
    pub fn parse_packet(&mut self, packet: RawPacket) -> (r: Result<(), ()>)
        ensures
            r is Ok <==> spawn_living_entity_step(packet@) is Done,
            match varint_step(packet@) {
                Step::Done(entity_id, r1) => {
                    &&& final(self).entity_id == entity_id
                    &&& (
                    match uuid_step(r1) {
                        Step::Done(object_uuid, r2) => {
                            &&& final(self).object_uuid == object_uuid
                            &&& (
                            match varint_step(r2) {
                                Step::Done(entity_type, r3) => {
                                    &&& final(self).entity_type == entity_type
                                    &&& (
                                    match ulong_step(r3) {
                                        Step::Done(x, r4) => {
                                            &&& final(self).x == x
                                            &&& (
                                            match ulong_step(r4) {
                                                Step::Done(y, r5) => {
                                                    &&& final(self).y == y
                                                    &&& (
                                                    match ulong_step(r5) {
                                                        Step::Done(z, r6) => {
                                                            &&& final(self).z == z
                                                            &&& (
                                                            match ubyte_step(r6) {
                                                                Step::Done(yaw, r7) => {
                                                                    &&& final(self).yaw == yaw
                                                                    &&& (
                                                                    match ubyte_step(r7) {
                                                                        Step::Done(pitch, r8) => {
                                                                            &&& final(self).pitch == pitch
                                                                            &&& (
                                                                            match ubyte_step(r8) {
                                                                                Step::Done(head_pitch, r9) => {
                                                                                    &&& final(self).head_pitch == head_pitch
                                                                                    &&& (
                                                                                    match short_step(r9) {
                                                                                        Step::Done(velocity_x, r10) => {
                                                                                            &&& final(self).velocity_x == velocity_x
                                                                                            &&& (
                                                                                            match short_step(r10) {
                                                                                                Step::Done(velocity_y, r11) => {
                                                                                                    &&& final(self).velocity_y == velocity_y
                                                                                                    &&& (
                                                                                                    match short_step(r11) {
                                                                                                        Step::Done(velocity_z, r12) => {
                                                                                                            &&& final(self).velocity_z == velocity_z
                                                                                                            &&& (
                                                                                                            r is Ok
                                                                                                            )
                                                                                                        },
                                                                                                        _ => r is Err && final(self).velocity_z == old(self).velocity_z,
                                                                                                    }
                                                                                                    )
                                                                                                },
                                                                                                _ => r is Err && final(self).velocity_y == old(self).velocity_y && final(self).velocity_z == old(self).velocity_z,
                                                                                            }
                                                                                            )
                                                                                        },
                                                                                        _ => r is Err && final(self).velocity_x == old(self).velocity_x && final(self).velocity_y == old(self).velocity_y && final(self).velocity_z == old(self).velocity_z,
                                                                                    }
                                                                                    )
                                                                                },
                                                                                _ => r is Err && final(self).head_pitch == old(self).head_pitch && final(self).velocity_x == old(self).velocity_x && final(self).velocity_y == old(self).velocity_y && final(self).velocity_z == old(self).velocity_z,
                                                                            }
                                                                            )
                                                                        },
                                                                        _ => r is Err && final(self).pitch == old(self).pitch && final(self).head_pitch == old(self).head_pitch && final(self).velocity_x == old(self).velocity_x && final(self).velocity_y == old(self).velocity_y && final(self).velocity_z == old(self).velocity_z,
                                                                    }
                                                                    )
                                                                },
                                                                _ => r is Err && final(self).yaw == old(self).yaw && final(self).pitch == old(self).pitch && final(self).head_pitch == old(self).head_pitch && final(self).velocity_x == old(self).velocity_x && final(self).velocity_y == old(self).velocity_y && final(self).velocity_z == old(self).velocity_z,
                                                            }
                                                            )
                                                        },
                                                        _ => r is Err && final(self).z == old(self).z && final(self).yaw == old(self).yaw && final(self).pitch == old(self).pitch && final(self).head_pitch == old(self).head_pitch && final(self).velocity_x == old(self).velocity_x && final(self).velocity_y == old(self).velocity_y && final(self).velocity_z == old(self).velocity_z,
                                                    }
                                                    )
                                                },
                                                _ => r is Err && final(self).y == old(self).y && final(self).z == old(self).z && final(self).yaw == old(self).yaw && final(self).pitch == old(self).pitch && final(self).head_pitch == old(self).head_pitch && final(self).velocity_x == old(self).velocity_x && final(self).velocity_y == old(self).velocity_y && final(self).velocity_z == old(self).velocity_z,
                                            }
                                            )
                                        },
                                        _ => r is Err && final(self).x == old(self).x && final(self).y == old(self).y && final(self).z == old(self).z && final(self).yaw == old(self).yaw && final(self).pitch == old(self).pitch && final(self).head_pitch == old(self).head_pitch && final(self).velocity_x == old(self).velocity_x && final(self).velocity_y == old(self).velocity_y && final(self).velocity_z == old(self).velocity_z,
                                    }
                                    )
                                },
                                _ => r is Err && final(self).entity_type == old(self).entity_type && final(self).x == old(self).x && final(self).y == old(self).y && final(self).z == old(self).z && final(self).yaw == old(self).yaw && final(self).pitch == old(self).pitch && final(self).head_pitch == old(self).head_pitch && final(self).velocity_x == old(self).velocity_x && final(self).velocity_y == old(self).velocity_y && final(self).velocity_z == old(self).velocity_z,
                            }
                            )
                        },
                        _ => r is Err && final(self).object_uuid == old(self).object_uuid && final(self).entity_type == old(self).entity_type && final(self).x == old(self).x && final(self).y == old(self).y && final(self).z == old(self).z && final(self).yaw == old(self).yaw && final(self).pitch == old(self).pitch && final(self).head_pitch == old(self).head_pitch && final(self).velocity_x == old(self).velocity_x && final(self).velocity_y == old(self).velocity_y && final(self).velocity_z == old(self).velocity_z,
                    }
                    )
                },
                _ => r is Err && *final(self) == *old(self),
            },
    {
        let mut packet = packet;
        let entity_id = packet.decode_varint()?;
        self.entity_id = entity_id;
        let object_uuid = packet.decode_uuid()?;
        self.object_uuid = object_uuid;
        let entity_type = packet.decode_varint()?;
        self.entity_type = entity_type;
        let x = packet.decode_double()?;
        self.x = x;
        let y = packet.decode_double()?;
        self.y = y;
        let z = packet.decode_double()?;
        self.z = z;
        let yaw = packet.decode_angle()?;
        self.yaw = yaw;
        let pitch = packet.decode_angle()?;
        self.pitch = pitch;
        let head_pitch = packet.decode_angle()?;
        self.head_pitch = head_pitch;
        let velocity_x = packet.decode_short()?;
        self.velocity_x = velocity_x;
        let velocity_y = packet.decode_short()?;
        self.velocity_y = velocity_y;
        let velocity_z = packet.decode_short()?;
        self.velocity_z = velocity_z;
        Ok(())
    }
}


} // verus!
