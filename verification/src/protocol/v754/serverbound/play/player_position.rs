use vstd::prelude::*;
use crate::replies::{first_answer, first_some};
use crate::raw_packet::RawPacket;
use crate::wire::{Step, and_then, bool_step, ulong_step};
use crate::packet::{sent, Packet};
use crate::protocol::v754::{fid_to_pid, pid_of, Fid};
use crate::replies::push_packet;
use crate::types::Direction;
use crate::wire::u64_be;

verus! {

/// The client moves; doubles are held as their bit patterns.
#[derive(Clone)]
pub struct PlayerPosition {
    pub x: u64,
    pub feet_y: u64,
    pub z: u64,
    pub on_ground: bool,
}

/// The fields of the packet, in the order they are read.
pub open spec fn player_position_step(s: Seq<u8>) -> Step<(u64, u64, u64, bool)> {
    and_then(ulong_step(s), |x: u64, r1: Seq<u8>|
    and_then(ulong_step(r1), |feet_y: u64, r2: Seq<u8>|
    and_then(ulong_step(r2), |z: u64, r3: Seq<u8>|
    and_then(bool_step(r3), |on_ground: bool, r4: Seq<u8>|
    Step::Done((x, feet_y, z, on_ground), r4)))))
}

impl PlayerPosition {
    pub fn default() -> (r: Self)
        ensures
            r.x == 0,
            r.feet_y == 0,
            r.z == 0,
            r.on_ground == false,
    {
        Self { x: 0, feet_y: 0, z: 0, on_ground: false }
    }

    /// Reads the fields from the packet body one after the other; on
    /// failure the fields read before keep their new values.
    pub fn parse_packet(&mut self, packet: RawPacket) -> (r: Result<(), ()>)
        ensures
            r is Ok <==> player_position_step(packet@) is Done,
            match ulong_step(packet@) {
                Step::Done(x, r1) => {
                    &&& final(self).x == x
                    &&& (
                    match ulong_step(r1) {
                        Step::Done(feet_y, r2) => {
                            &&& final(self).feet_y == feet_y
                            &&& (
                            match ulong_step(r2) {
                                Step::Done(z, r3) => {
                                    &&& final(self).z == z
                                    &&& (
                                    match bool_step(r3) {
                                        Step::Done(on_ground, r4) => {
                                            &&& final(self).on_ground == on_ground
                                            &&& (
                                            r is Ok
                                            )
                                        },
                                        _ => r is Err && final(self).on_ground == old(self).on_ground,
                                    }
                                    )
                                },
                                _ => r is Err && final(self).z == old(self).z && final(self).on_ground == old(self).on_ground,
                            }
                            )
                        },
                        _ => r is Err && final(self).feet_y == old(self).feet_y && final(self).z == old(self).z && final(self).on_ground == old(self).on_ground,
                    }
                    )
                },
                _ => r is Err && *final(self) == *old(self),
            },
    {
        let mut packet = packet;
        let x = packet.decode_double()?;
        self.x = x;
        let feet_y = packet.decode_double()?;
        self.feet_y = feet_y;
        let z = packet.decode_double()?;
        self.z = z;
        let on_ground = packet.decode_bool()?;
        self.on_ground = on_ground;
        Ok(())
    }

    pub fn packet_editing(&self) -> (r: bool)
        ensures
            r,
    {
        true
    }

    /// Given the plugins' answers in plugin order, takes the first answer
    /// given (if any) and sends that answer followed by the move, or
    /// nothing when the answer is missing or empty.
    pub fn edit_packet(&self, plugin_answers: Vec<Option<Vec<(Packet, Direction)>>>) -> (r: Result<
        Vec<(Packet, Direction)>,
        (),
    >)
        ensures
            r matches Ok(v) && sent(v@) == player_position_reaction(
                *self,
                match first_some(plugin_answers@) {
                    Some(pv) => sent(pv@),
                    None => Seq::empty(),
                },
            ),
    {
        let plugin_reply = first_answer(plugin_answers);
        let mut return_vec: Vec<(Packet, Direction)> = match plugin_reply {
            Some(v) => v,
            None => Vec::new(),
        };
        assert(sent(return_vec@).len() == return_vec@.len());
        if return_vec.len() != 0 {
            let mut raw_packet = RawPacket::new();
            raw_packet.encode_double(self.x);
            raw_packet.encode_double(self.feet_y);
            raw_packet.encode_double(self.z);
            raw_packet.encode_bool(self.on_ground);
            let ghost bytes = raw_packet@;
            push_packet(
                &mut return_vec,
                Packet::from(raw_packet, fid_to_pid(Fid::PlayerPosition)),
                Direction::Serverbound,
            );
            assert(bytes =~= u64_be(self.x) + u64_be(self.feet_y) + u64_be(self.z) + seq![
                if self.on_ground {
                    1u8
                } else {
                    0u8
                },
            ]);
        }
        Ok(return_vec)
    }
}


/// What the proxy sends for a move: nothing unless a plugin answered with
/// packets, and then those packets followed by the move unchanged.
pub open spec fn player_position_reaction(
    p: PlayerPosition,
    plugin: Seq<((i32, Seq<u8>), Direction)>,
) -> Seq<((i32, Seq<u8>), Direction)> {
    if plugin.len() == 0 {
        plugin
    } else {
        plugin.push(
            (
                (
                    pid_of(Fid::PlayerPosition),
                    u64_be(p.x) + u64_be(p.feet_y) + u64_be(p.z) + seq![
                        if p.on_ground {
                            1u8
                        } else {
                            0u8
                        },
                    ],
                ),
                Direction::Serverbound,
            ),
        )
    }
}

} // verus!
