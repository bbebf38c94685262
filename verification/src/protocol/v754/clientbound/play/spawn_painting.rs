use vstd::prelude::*;
use crate::fmt::{decimal, decimal_string, digits, unsigned_string};
use crate::raw_packet::RawPacket;
use crate::wire::{Step, and_then, position_step, ubyte_step, uuid_step, varint_step};

verus! {

/// The server spawns a painting.
#[derive(Clone)]
pub struct SpawnPainting {
    pub entity_id: i32,
    pub object_uuid: u128,
    pub motive: i32,
    pub x: i64,
    pub y: i64,
    pub z: i64,
    pub direction: FacingDirection,
}

/// The fields of the packet, in the order they are read.
pub open spec fn spawn_painting_step(s: Seq<u8>) -> Step<(i32, u128, i32, (i64, i64, i64), FacingDirection)> {
    and_then(varint_step(s), |entity_id: i32, r1: Seq<u8>|
    and_then(uuid_step(r1), |object_uuid: u128, r2: Seq<u8>|
    and_then(varint_step(r2), |motive: i32, r3: Seq<u8>|
    and_then(position_step(r3), |position: (i64, i64, i64), r4: Seq<u8>|
    and_then(facing_direction_step(r4), |direction: FacingDirection, r5: Seq<u8>|
    Step::Done((entity_id, object_uuid, motive, position, direction), r5))))))
}

impl SpawnPainting {
    /// The fields as the log line shows them.
    pub fn get_printable(&self) -> (r: String)
        ensures
            r@ == decimal(self.entity_id as int) + " "@ + digits(self.object_uuid as nat, 10) + " "@ + decimal(self.motive as int) + " "@ + decimal(self.x as int) + " "@ + decimal(self.y as int) + " "@ + decimal(self.z as int) + " "@ + self.direction.name(),
    {
        let mut s = decimal_string(self.entity_id as i128);
        s.append(" ");
        s.append(unsigned_string(self.object_uuid).as_str());
        s.append(" ");
        s.append(decimal_string(self.motive as i128).as_str());
        s.append(" ");
        s.append(decimal_string(self.x as i128).as_str());
        s.append(" ");
        s.append(decimal_string(self.y as i128).as_str());
        s.append(" ");
        s.append(decimal_string(self.z as i128).as_str());
        s.append(" ");
        s.append(self.direction.name_string().as_str());
        s
    }

    pub fn empty() -> (r: Self)
        ensures
            r.entity_id == 0,
            r.object_uuid == 0,
            r.motive == 0,
            r.x == 0,
            r.y == 0,
            r.z == 0,
            r.direction == FacingDirection::North,
    {
        Self { entity_id: 0, object_uuid: 0, motive: 0, x: 0, y: 0, z: 0, direction: FacingDirection::North }
    }

    /// Reads the fields from the packet body one after the other; on
    /// failure the fields read before keep their new values.
    pub fn parse_packet(&mut self, packet: RawPacket) -> (r: Result<(), ()>)
        ensures
            r is Ok <==> spawn_painting_step(packet@) is Done,
            match varint_step(packet@) {
                Step::Done(entity_id, r1) => {
                    &&& final(self).entity_id == entity_id
                    &&& (
                    match uuid_step(r1) {
                        Step::Done(object_uuid, r2) => {
                            &&& final(self).object_uuid == object_uuid
                            &&& (
                            match varint_step(r2) {
                                Step::Done(motive, r3) => {
                                    &&& final(self).motive == motive
                                    &&& (
                                    match position_step(r3) {
                                        Step::Done(position, r4) => {
                                            &&& final(self).x == position.0
                                            &&& final(self).y == position.1
                                            &&& final(self).z == position.2
                                            &&& (
                                            match facing_direction_step(r4) {
                                                Step::Done(direction, r5) => {
                                                    &&& final(self).direction == direction
                                                    &&& (
                                                    r is Ok
                                                    )
                                                },
                                                _ => r is Err && final(self).direction == old(self).direction,
                                            }
                                            )
                                        },
                                        _ => r is Err && final(self).x == old(self).x && final(self).y == old(self).y && final(self).z == old(self).z && final(self).direction == old(self).direction,
                                    }
                                    )
                                },
                                _ => r is Err && final(self).motive == old(self).motive && final(self).x == old(self).x && final(self).y == old(self).y && final(self).z == old(self).z && final(self).direction == old(self).direction,
                            }
                            )
                        },
                        _ => r is Err && final(self).object_uuid == old(self).object_uuid && final(self).motive == old(self).motive && final(self).x == old(self).x && final(self).y == old(self).y && final(self).z == old(self).z && final(self).direction == old(self).direction,
                    }
                    )
                },
                _ => r is Err && *final(self) == *old(self),
            },
    {
        let mut packet = packet;
        let entity_id = packet.decode_varint()?;
        self.entity_id = entity_id;
        let object_uuid = packet.decode_uuid()?;
        self.object_uuid = object_uuid;
        let motive = packet.decode_varint()?;
        self.motive = motive;
        let position = packet.decode_position()?;
        self.x = position.0;
        self.y = position.1;
        self.z = position.2;
        let direction = match facing_direction_from(packet.decode_angle()?) {
            Some(e) => e,
            None => return Err(()),
        };
        self.direction = direction;
        Ok(())
    }
}

/// The direction a painting faces.
#[derive(Clone, Copy, Debug, PartialEq, Eq, Structural)]
pub enum FacingDirection {
    North,
    South,
    East,
    West,
}

impl FacingDirection {
    /// The variant's name, as the `{:?}` form shows it.
    pub open spec fn name(self) -> Seq<char> {
        match self {
            FacingDirection::North => "North"@,
            FacingDirection::South => "South"@,
            FacingDirection::East => "East"@,
            FacingDirection::West => "West"@,
        }
    }

    /// The variant's name.
    pub fn name_string(&self) -> (r: String)
        ensures
            r@ == self.name(),
    {
        match self {
            FacingDirection::North => String::from_str("North"),
            FacingDirection::South => String::from_str("South"),
            FacingDirection::East => String::from_str("East"),
            FacingDirection::West => String::from_str("West"),
        }
    }
}

/// The `FacingDirection` a number stands for.
pub open spec fn facing_direction_of(n: u8) -> Option<FacingDirection> {
    if n == 0 {
        Some(FacingDirection::South)
    } else if n == 1 {
        Some(FacingDirection::West)
    } else if n == 2 {
        Some(FacingDirection::North)
    } else if n == 3 {
        Some(FacingDirection::East)
    } else {
        None
    }
}

/// Reading a `FacingDirection`: any other number is refused.
pub open spec fn facing_direction_step(s: Seq<u8>) -> Step<FacingDirection> {
    and_then(
        ubyte_step(s),
        |n: u8, r: Seq<u8>|
            match facing_direction_of(n) {
                Some(e) => Step::Done(e, r),
                None => Step::Fail(r),
            },
    )
}

fn facing_direction_from(n: u8) -> (r: Option<FacingDirection>)
    ensures
        r == facing_direction_of(n),
{
    match n {
        0 => Some(FacingDirection::South),
        1 => Some(FacingDirection::West),
        2 => Some(FacingDirection::North),
        3 => Some(FacingDirection::East),
        _ => None,
    }
}


/// The direction a painting faces, as the protocol numbers it: 0 south,
/// 1 west, 2 north, 3 east; no other number is a direction.
pub proof fn law_facing_direction_numbers(n: u8)
    ensures
        facing_direction_of(n) == Some(FacingDirection::South) <==> n == 0,
        facing_direction_of(n) == Some(FacingDirection::West) <==> n == 1,
        facing_direction_of(n) == Some(FacingDirection::North) <==> n == 2,
        facing_direction_of(n) == Some(FacingDirection::East) <==> n == 3,
        facing_direction_of(n) is None <==> n > 3,
{
}

} // verus!
