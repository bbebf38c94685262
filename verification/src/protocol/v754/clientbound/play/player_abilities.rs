use vstd::prelude::*;
use crate::replies::{first_answer, first_some};
use crate::laws::{law_float_roundtrip, law_ubyte_roundtrip};
use crate::raw_packet::RawPacket;
use crate::wire::{Step, and_then, ubyte_step, uint_step};
use crate::packet::{sent, Packet};
use crate::protocol::v754::{fid_to_pid, pid_of, Fid};
use crate::replies::one;
use crate::types::{Direction, SharedState};
use crate::wire::u32_be;

verus! {

/// The server sets the player's abilities; the two floats are held as their bit patterns.
#[derive(Clone)]
pub struct PlayerAbilities {
    pub flags: u8,
    pub flying_speed: u32,
    pub fov_modifier: u32,
}

/// The fields of the packet, in the order they are read.
pub open spec fn player_abilities_step(s: Seq<u8>) -> Step<(u8, u32, u32)> {
    and_then(ubyte_step(s), |flags: u8, r1: Seq<u8>|
    and_then(uint_step(r1), |flying_speed: u32, r2: Seq<u8>|
    and_then(uint_step(r2), |fov_modifier: u32, r3: Seq<u8>|
    Step::Done((flags, flying_speed, fov_modifier), r3))))
}

impl PlayerAbilities {
    pub fn empty() -> (r: Self)
        ensures
            r.flags == 0,
            r.flying_speed == 0,
            r.fov_modifier == 0,
    {
        Self { flags: 0, flying_speed: 0, fov_modifier: 0 }
    }

    /// Reads the fields from the packet body one after the other; on
    /// failure the fields read before keep their new values.
    pub fn parse_packet(&mut self, packet: RawPacket) -> (r: Result<(), ()>)
        ensures
            match ubyte_step(packet@) {
                Step::Done(flags, r1) => {
                    &&& final(self).flags == flags
                    &&& (
                    match uint_step(r1) {
                        Step::Done(flying_speed, r2) => {
                            &&& final(self).flying_speed == flying_speed
                            &&& (
                            match uint_step(r2) {
                                Step::Done(fov_modifier, r3) => {
                                    &&& final(self).fov_modifier == fov_modifier
                                    &&& (
                                    r is Ok
                                    )
                                },
                                _ => r is Err && final(self).fov_modifier == old(self).fov_modifier,
                            }
                            )
                        },
                        _ => r is Err && final(self).flying_speed == old(self).flying_speed && final(self).fov_modifier == old(self).fov_modifier,
                    }
                    )
                },
                _ => r is Err && *final(self) == *old(self),
            },
    {
        let mut packet = packet;
        let flags = packet.decode_ubyte()?;
        self.flags = flags;
        let flying_speed = packet.decode_float()?;
        self.flying_speed = flying_speed;
        let fov_modifier = packet.decode_float()?;
        self.fov_modifier = fov_modifier;
        Ok(())
    }

    pub fn packet_editing(&self) -> (r: bool)
        ensures
            r,
    {
        true
    }

    /// Sends what the first plugin that answered asked for (the plugins' answers
    /// are given in plugin order), or the abilities unchanged when none did; the state
    /// is handed back unchanged.
    pub fn edit_packet(
        &self,
        status: SharedState,
        plugin_answers: Vec<Option<Vec<(Packet, Direction)>>>,
    ) -> (r: Result<(Vec<(Packet, Direction)>, SharedState), ()>)
        ensures
            r matches Ok((v, st)) && st == status && sent(v@) == match first_some(plugin_answers@) {
                Some(pv) => sent(pv@),
                None => player_abilities_resend(*self),
            },
    {
        let plugin_reply = first_answer(plugin_answers);
        match plugin_reply {
            Some(v) => Ok((v, status)),
            None => {
                let mut raw_packet = RawPacket::new();
                raw_packet.encode_ubyte(self.flags);
                raw_packet.encode_float(self.flying_speed);
                raw_packet.encode_float(self.fov_modifier);
                assert(raw_packet@ =~= player_abilities_resend(*self)[0].0.1);
                Ok(
                    (
                        one(
                            Packet::from(raw_packet, fid_to_pid(Fid::PlayerAbilities)),
                            Direction::Clientbound,
                        ),
                        status,
                    ),
                )
            },
        }
    }
}


/// The abilities sent on unchanged.
pub open spec fn player_abilities_resend(a: PlayerAbilities) -> Seq<((i32, Seq<u8>), Direction)> {
    seq![
        (
            (
                pid_of(Fid::PlayerAbilities),
                seq![a.flags] + u32_be(a.flying_speed) + u32_be(a.fov_modifier),
            ),
            Direction::Clientbound,
        ),
    ]
}

/// Abilities that `edit_packet` passes on unchanged read back as the same
/// abilities.
pub proof fn law_player_abilities_resend(a: PlayerAbilities)
    ensures
        player_abilities_step(player_abilities_resend(a)[0].0.1) == Step::Done(
            (a.flags, a.flying_speed, a.fov_modifier),
            Seq::<u8>::empty(),
        ),
{
    let empty = Seq::<u8>::empty();
    let r2 = u32_be(a.fov_modifier) + empty;
    let r1 = u32_be(a.flying_speed) + r2;
    assert(player_abilities_resend(a)[0].0.1 =~= seq![a.flags] + r1);
    law_ubyte_roundtrip(a.flags, r1);
    law_float_roundtrip(a.flying_speed, r2);
    law_float_roundtrip(a.fov_modifier, empty);
}

} // verus!
