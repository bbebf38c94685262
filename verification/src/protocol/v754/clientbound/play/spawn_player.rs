use vstd::prelude::*;
use crate::raw_packet::RawPacket;
use crate::wire::{Step, and_then, ubyte_step, ulong_step, uuid_step, varint_step};

verus! {

/// The server spawns a player; coordinates are doubles held as their bit patterns.
#[derive(Clone)]
pub struct SpawnPlayer {
    pub entity_id: i32,
    pub player_uuid: u128,
    pub x: u64,
    pub y: u64,
    pub z: u64,
    pub yaw: u8,
    pub pitch: u8,
}

/// The fields of the packet, in the order they are read.
pub open spec fn spawn_player_step(s: Seq<u8>) -> Step<(i32, u128, u64, u64, u64, u8, u8)> {
    and_then(varint_step(s), |entity_id: i32, r1: Seq<u8>|
    and_then(uuid_step(r1), |player_uuid: u128, r2: Seq<u8>|
    and_then(ulong_step(r2), |x: u64, r3: Seq<u8>|
    and_then(ulong_step(r3), |y: u64, r4: Seq<u8>|
    and_then(ulong_step(r4), |z: u64, r5: Seq<u8>|
    and_then(ubyte_step(r5), |yaw: u8, r6: Seq<u8>|
    and_then(ubyte_step(r6), |pitch: u8, r7: Seq<u8>|
    Step::Done((entity_id, player_uuid, x, y, z, yaw, pitch), r7))))))))
}

impl SpawnPlayer {
    pub fn default() -> (r: Self)
        ensures
            r.entity_id == 0,
            r.player_uuid == 0,
            r.x == 0,
            r.y == 0,
            r.z == 0,
            r.yaw == 0,
            r.pitch == 0,
    {
        Self { entity_id: 0, player_uuid: 0, x: 0, y: 0, z: 0, yaw: 0, pitch: 0 }
    }

    /// Reads the fields from the packet body one after the other; on
    /// failure the fields read before keep their new values.
    pub fn parse_packet(&mut self, packet: RawPacket) -> (r: Result<(), ()>)
        ensures
            r is Ok <==> spawn_player_step(packet@) is Done,
            match varint_step(packet@) {
                Step::Done(entity_id, r1) => {
                    &&& final(self).entity_id == entity_id
                    &&& (
                    match uuid_step(r1) {
                        Step::Done(player_uuid, r2) => {
                            &&& final(self).player_uuid == player_uuid
                            &&& (
                            match ulong_step(r2) {
                                Step::Done(x, r3) => {
                                    &&& final(self).x == x
                                    &&& (
                                    match ulong_step(r3) {
                                        Step::Done(y, r4) => {
                                            &&& final(self).y == y
                                            &&& (
                                            match ulong_step(r4) {
                                                Step::Done(z, r5) => {
                                                    &&& final(self).z == z
                                                    &&& (
                                                    match ubyte_step(r5) {
                                                        Step::Done(yaw, r6) => {
                                                            &&& final(self).yaw == yaw
                                                            &&& (
                                                            match ubyte_step(r6) {
                                                                Step::Done(pitch, r7) => {
                                                                    &&& final(self).pitch == pitch
                                                                    &&& (
                                                                    r is Ok
                                                                    )
                                                                },
                                                                _ => r is Err && final(self).pitch == old(self).pitch,
                                                            }
                                                            )
                                                        },
                                                        _ => r is Err && final(self).yaw == old(self).yaw && final(self).pitch == old(self).pitch,
                                                    }
                                                    )
                                                },
                                                _ => r is Err && final(self).z == old(self).z && final(self).yaw == old(self).yaw && final(self).pitch == old(self).pitch,
                                            }
                                            )
                                        },
                                        _ => r is Err && final(self).y == old(self).y && final(self).z == old(self).z && final(self).yaw == old(self).yaw && final(self).pitch == old(self).pitch,
                                    }
                                    )
                                },
                                _ => r is Err && final(self).x == old(self).x && final(self).y == old(self).y && final(self).z == old(self).z && final(self).yaw == old(self).yaw && final(self).pitch == old(self).pitch,
                            }
                            )
                        },
                        _ => r is Err && final(self).player_uuid == old(self).player_uuid && final(self).x == old(self).x && final(self).y == old(self).y && final(self).z == old(self).z && final(self).yaw == old(self).yaw && final(self).pitch == old(self).pitch,
                    }
                    )
                },
                _ => r is Err && *final(self) == *old(self),
            },
    {
        let mut packet = packet;
        let entity_id = packet.decode_varint()?;
        self.entity_id = entity_id;
        let player_uuid = packet.decode_uuid()?;
        self.player_uuid = player_uuid;
        let x = packet.decode_double()?;
        self.x = x;
        let y = packet.decode_double()?;
        self.y = y;
        let z = packet.decode_double()?;
        self.z = z;
        let yaw = packet.decode_angle()?;
        self.yaw = yaw;
        let pitch = packet.decode_angle()?;
        self.pitch = pitch;
        Ok(())
    }
}


} // verus!
