use vstd::prelude::*;
use crate::raw_packet::RawPacket;
use crate::wire::{Step, and_then, bool_step, position_step, uint_step, varint_step};
use crate::packet::{sent, Packet};
use crate::protocol::v754::{fid_to_pid, pid_of, Fid};
use crate::replies::one;
use crate::types::Direction;
use crate::wire::{position_packed, u32_be, u64_be, varint_bytes};

verus! {

/// The client places a block; the cursor floats are held as their bit patterns.
pub struct PlayerBlockPlace {
    pub hand: i32,
    pub location: (i32, i32, i32),
    pub face: i32,
    pub cursor_pos_x: u32,
    pub cursor_pos_y: u32,
    pub cursor_pos_z: u32,
    pub inside_block: bool,
}

/// The fields of the packet, in the order they are read.
pub open spec fn player_block_place_step(s: Seq<u8>) -> Step<(i32, (i64, i64, i64), i32, u32, u32, u32, bool)> {
    and_then(varint_step(s), |hand: i32, r1: Seq<u8>|
    and_then(position_step(r1), |location: (i64, i64, i64), r2: Seq<u8>|
    and_then(varint_step(r2), |face: i32, r3: Seq<u8>|
    and_then(uint_step(r3), |cursor_pos_x: u32, r4: Seq<u8>|
    and_then(uint_step(r4), |cursor_pos_y: u32, r5: Seq<u8>|
    and_then(uint_step(r5), |cursor_pos_z: u32, r6: Seq<u8>|
    and_then(bool_step(r6), |inside_block: bool, r7: Seq<u8>|
    Step::Done((hand, location, face, cursor_pos_x, cursor_pos_y, cursor_pos_z, inside_block), r7))))))))
}

impl PlayerBlockPlace {
    pub fn default() -> (r: Self)
        ensures
            r.hand == 0,
            r.location == (0i32, 0i32, 0i32),
            r.face == 0,
            r.cursor_pos_x == 0,
            r.cursor_pos_y == 0,
            r.cursor_pos_z == 0,
            r.inside_block == false,
    {
        Self { hand: 0, location: (0, 0, 0), face: 0, cursor_pos_x: 0, cursor_pos_y: 0, cursor_pos_z: 0, inside_block: false }
    }

    /// Reads the fields from the packet body one after the other; on
    /// failure the fields read before keep their new values.
    pub fn parse_packet(&mut self, packet: RawPacket) -> (r: Result<(), ()>)
        ensures
            r is Ok <==> player_block_place_step(packet@) is Done,
            match varint_step(packet@) {
                Step::Done(hand, r1) => {
                    &&& final(self).hand == hand
                    &&& (
                    match position_step(r1) {
                        Step::Done(location, r2) => {
                            &&& final(self).location == (location.0 as i32, location.1 as i32, location.2 as i32)
                            &&& (
                            match varint_step(r2) {
                                Step::Done(face, r3) => {
                                    &&& final(self).face == face
                                    &&& (
                                    match uint_step(r3) {
                                        Step::Done(cursor_pos_x, r4) => {
                                            &&& final(self).cursor_pos_x == cursor_pos_x
                                            &&& (
                                            match uint_step(r4) {
                                                Step::Done(cursor_pos_y, r5) => {
                                                    &&& final(self).cursor_pos_y == cursor_pos_y
                                                    &&& (
                                                    match uint_step(r5) {
                                                        Step::Done(cursor_pos_z, r6) => {
                                                            &&& final(self).cursor_pos_z == cursor_pos_z
                                                            &&& (
                                                            match bool_step(r6) {
                                                                Step::Done(inside_block, r7) => {
                                                                    &&& final(self).inside_block == inside_block
                                                                    &&& (
                                                                    r is Ok
                                                                    )
                                                                },
                                                                _ => r is Err && final(self).inside_block == old(self).inside_block,
                                                            }
                                                            )
                                                        },
                                                        _ => r is Err && final(self).cursor_pos_z == old(self).cursor_pos_z && final(self).inside_block == old(self).inside_block,
                                                    }
                                                    )
                                                },
                                                _ => r is Err && final(self).cursor_pos_y == old(self).cursor_pos_y && final(self).cursor_pos_z == old(self).cursor_pos_z && final(self).inside_block == old(self).inside_block,
                                            }
                                            )
                                        },
                                        _ => r is Err && final(self).cursor_pos_x == old(self).cursor_pos_x && final(self).cursor_pos_y == old(self).cursor_pos_y && final(self).cursor_pos_z == old(self).cursor_pos_z && final(self).inside_block == old(self).inside_block,
                                    }
                                    )
                                },
                                _ => r is Err && final(self).face == old(self).face && final(self).cursor_pos_x == old(self).cursor_pos_x && final(self).cursor_pos_y == old(self).cursor_pos_y && final(self).cursor_pos_z == old(self).cursor_pos_z && final(self).inside_block == old(self).inside_block,
                            }
                            )
                        },
                        _ => r is Err && final(self).location == old(self).location && final(self).face == old(self).face && final(self).cursor_pos_x == old(self).cursor_pos_x && final(self).cursor_pos_y == old(self).cursor_pos_y && final(self).cursor_pos_z == old(self).cursor_pos_z && final(self).inside_block == old(self).inside_block,
                    }
                    )
                },
                _ => r is Err && *final(self) == *old(self),
            },
    {
        let mut packet = packet;
        let hand = packet.decode_varint()?;
        self.hand = hand;
        let location = packet.decode_position()?;
        self.location = (location.0 as i32, location.1 as i32, location.2 as i32);
        let face = packet.decode_varint()?;
        self.face = face;
        let cursor_pos_x = packet.decode_float()?;
        self.cursor_pos_x = cursor_pos_x;
        let cursor_pos_y = packet.decode_float()?;
        self.cursor_pos_y = cursor_pos_y;
        let cursor_pos_z = packet.decode_float()?;
        self.cursor_pos_z = cursor_pos_z;
        let inside_block = packet.decode_bool()?;
        self.inside_block = inside_block;
        Ok(())
    }

    pub fn packet_editing(&self) -> (r: bool)
        ensures
            r,
    {
        true
    }

    /// Sends the block placement on unchanged.
    pub fn edit_packet(&self) -> (r: Result<Vec<(Packet, Direction)>, ()>)
        ensures
            r matches Ok(v) && sent(v@) == block_place_resend(*self),
    {
        let mut raw_packet = RawPacket::new();
        raw_packet.encode_varint(self.hand);
        raw_packet.encode_position(self.location);
        raw_packet.encode_varint(self.face);
        raw_packet.encode_float(self.cursor_pos_x);
        raw_packet.encode_float(self.cursor_pos_y);
        raw_packet.encode_float(self.cursor_pos_z);
        raw_packet.encode_bool(self.inside_block);
        assert(raw_packet@ =~= block_place_resend(*self)[0].0.1);
        Ok(
            one(
                Packet::from(raw_packet, fid_to_pid(Fid::PlayerBlockPlace)),
                Direction::Serverbound,
            ),
        )
    }
}


/// The block placement sent on unchanged.
pub open spec fn block_place_resend(p: PlayerBlockPlace) -> Seq<((i32, Seq<u8>), Direction)> {
    seq![
        (
            (
                pid_of(Fid::PlayerBlockPlace),
                varint_bytes(p.hand) + u64_be(position_packed(p.location.0, p.location.1, p.location.2))
                    + varint_bytes(p.face) + u32_be(p.cursor_pos_x) + u32_be(p.cursor_pos_y) + u32_be(
                    p.cursor_pos_z,
                ) + seq![if p.inside_block { 1u8 } else { 0u8 }],
            ),
            Direction::Serverbound,
        ),
    ]
}

} // verus!
