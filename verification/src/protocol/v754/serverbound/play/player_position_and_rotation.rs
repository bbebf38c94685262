use vstd::prelude::*;
use crate::raw_packet::RawPacket;
use crate::wire::{Step, and_then, bool_step, uint_step, ulong_step};

verus! {

/// The client moves and turns; doubles and floats are held as their bit patterns.
#[derive(Clone)]
pub struct PlayerPositionRotation {
    pub x: u64,
    pub feet_y: u64,
    pub z: u64,
    pub yaw: u32,
    pub pitch: u32,
    pub on_ground: bool,
}

/// The fields of the packet, in the order they are read.
pub open spec fn player_position_rotation_step(s: Seq<u8>) -> Step<(u64, u64, u64, u32, u32, bool)> {
    and_then(ulong_step(s), |x: u64, r1: Seq<u8>|
    and_then(ulong_step(r1), |feet_y: u64, r2: Seq<u8>|
    and_then(ulong_step(r2), |z: u64, r3: Seq<u8>|
    and_then(uint_step(r3), |yaw: u32, r4: Seq<u8>|
    and_then(uint_step(r4), |pitch: u32, r5: Seq<u8>|
    and_then(bool_step(r5), |on_ground: bool, r6: Seq<u8>|
    Step::Done((x, feet_y, z, yaw, pitch, on_ground), r6)))))))
}

impl PlayerPositionRotation {
    pub fn empty() -> (r: Self)
        ensures
            r.x == 0,
            r.feet_y == 0,
            r.z == 0,
            r.yaw == 0,
            r.pitch == 0,
            r.on_ground == false,
    {
        Self { x: 0, feet_y: 0, z: 0, yaw: 0, pitch: 0, on_ground: false }
    }

    /// Reads the fields from the packet body one after the other; on
    /// failure the fields read before keep their new values.
    pub fn parse_packet(&mut self, packet: RawPacket) -> (r: Result<(), ()>)
        ensures
            r is Ok <==> player_position_rotation_step(packet@) is Done,
            match ulong_step(packet@) {
                Step::Done(x, r1) => {
                    &&& final(self).x == x
                    &&& (
                    match ulong_step(r1) {
                        Step::Done(feet_y, r2) => {
                            &&& final(self).feet_y == feet_y
                            &&& (
                            match ulong_step(r2) {
                                Step::Done(z, r3) => {
                                    &&& final(self).z == z
                                    &&& (
                                    match uint_step(r3) {
                                        Step::Done(yaw, r4) => {
                                            &&& final(self).yaw == yaw
                                            &&& (
                                            match uint_step(r4) {
                                                Step::Done(pitch, r5) => {
                                                    &&& final(self).pitch == pitch
                                                    &&& (
                                                    match bool_step(r5) {
                                                        Step::Done(on_ground, r6) => {
                                                            &&& final(self).on_ground == on_ground
                                                            &&& (
                                                            r is Ok
                                                            )
                                                        },
                                                        _ => r is Err && final(self).on_ground == old(self).on_ground,
                                                    }
                                                    )
                                                },
                                                _ => r is Err && final(self).pitch == old(self).pitch && final(self).on_ground == old(self).on_ground,
                                            }
                                            )
                                        },
                                        _ => r is Err && final(self).yaw == old(self).yaw && final(self).pitch == old(self).pitch && final(self).on_ground == old(self).on_ground,
                                    }
                                    )
                                },
                                _ => r is Err && final(self).z == old(self).z && final(self).yaw == old(self).yaw && final(self).pitch == old(self).pitch && final(self).on_ground == old(self).on_ground,
                            }
                            )
                        },
                        _ => r is Err && final(self).feet_y == old(self).feet_y && final(self).z == old(self).z && final(self).yaw == old(self).yaw && final(self).pitch == old(self).pitch && final(self).on_ground == old(self).on_ground,
                    }
                    )
                },
                _ => r is Err && *final(self) == *old(self),
            },
    {
        let mut packet = packet;
        let x = packet.decode_double()?;
        self.x = x;
        let feet_y = packet.decode_double()?;
        self.feet_y = feet_y;
        let z = packet.decode_double()?;
        self.z = z;
        let yaw = packet.decode_float()?;
        self.yaw = yaw;
        let pitch = packet.decode_float()?;
        self.pitch = pitch;
        let on_ground = packet.decode_bool()?;
        self.on_ground = on_ground;
        Ok(())
    }
}


} // verus!
