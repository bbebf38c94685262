use vstd::prelude::*;
use crate::replies::{first_answer, first_some};
use crate::laws::law_ubyte_roundtrip;
use crate::wire::lemma_varint_roundtrip;
use crate::fmt::{decimal, decimal_string};
use crate::raw_packet::RawPacket;
use crate::wire::{Step, and_then, ubyte_step, varint_step};
use crate::packet::{sent, Packet};
use crate::protocol::v754::{fid_to_pid, pid_of, Fid};
use crate::replies::one;
use crate::types::{Direction, SharedState};
use crate::wire::varint_bytes;

verus! {

/// The server applies a potion effect to an entity.
#[derive(Clone)]
pub struct EntityEffect {
    pub entity_id: i32,
    pub effect_id: u8,
    pub amplifier: u8,
    pub duration: i32,
    pub flags: u8,
}

/// The fields of the packet, in the order they are read.
pub open spec fn entity_effect_step(s: Seq<u8>) -> Step<(i32, u8, u8, i32, u8)> {
    and_then(varint_step(s), |entity_id: i32, r1: Seq<u8>|
    and_then(ubyte_step(r1), |effect_id: u8, r2: Seq<u8>|
    and_then(ubyte_step(r2), |amplifier: u8, r3: Seq<u8>|
    and_then(varint_step(r3), |duration: i32, r4: Seq<u8>|
    and_then(ubyte_step(r4), |flags: u8, r5: Seq<u8>|
    Step::Done((entity_id, effect_id, amplifier, duration, flags), r5))))))
}

impl EntityEffect {
    /// The fields as the log line shows them.
    pub fn get_printable(&self) -> (r: String)
        ensures
            r@ == decimal(self.entity_id as int) + " "@ + decimal(self.effect_id as int) + " "@ + decimal(self.amplifier as int) + " "@ + decimal(self.duration as int) + " "@ + decimal(self.flags as int),
    {
        let mut s = decimal_string(self.entity_id as i128);
        s.append(" ");
        s.append(decimal_string(self.effect_id as i128).as_str());
        s.append(" ");
        s.append(decimal_string(self.amplifier as i128).as_str());
        s.append(" ");
        s.append(decimal_string(self.duration as i128).as_str());
        s.append(" ");
        s.append(decimal_string(self.flags as i128).as_str());
        s
    }

    pub fn empty() -> (r: Self)
        ensures
            r.entity_id == 0,
            r.effect_id == 0,
            r.amplifier == 0,
            r.duration == 0,
            r.flags == 0,
    {
        Self { entity_id: 0, effect_id: 0, amplifier: 0, duration: 0, flags: 0 }
    }

    /// Reads the fields from the packet body one after the other; on
    /// failure the fields read before keep their new values.
    pub fn parse_packet(&mut self, packet: RawPacket) -> (r: Result<(), ()>)
        ensures
            match varint_step(packet@) {
                Step::Done(entity_id, r1) => {
                    &&& final(self).entity_id == entity_id
                    &&& (
                    match ubyte_step(r1) {
                        Step::Done(effect_id, r2) => {
                            &&& final(self).effect_id == effect_id
                            &&& (
                            match ubyte_step(r2) {
                                Step::Done(amplifier, r3) => {
                                    &&& final(self).amplifier == amplifier
                                    &&& (
                                    match varint_step(r3) {
                                        Step::Done(duration, r4) => {
                                            &&& final(self).duration == duration
                                            &&& (
                                            match ubyte_step(r4) {
                                                Step::Done(flags, r5) => {
                                                    &&& final(self).flags == flags
                                                    &&& (
                                                    r is Ok
                                                    )
                                                },
                                                _ => r is Err && final(self).flags == old(self).flags,
                                            }
                                            )
                                        },
                                        _ => r is Err && final(self).duration == old(self).duration && final(self).flags == old(self).flags,
                                    }
                                    )
                                },
                                _ => r is Err && final(self).amplifier == old(self).amplifier && final(self).duration == old(self).duration && final(self).flags == old(self).flags,
                            }
                            )
                        },
                        _ => r is Err && final(self).effect_id == old(self).effect_id && final(self).amplifier == old(self).amplifier && final(self).duration == old(self).duration && final(self).flags == old(self).flags,
                    }
                    )
                },
                _ => r is Err && *final(self) == *old(self),
            },
    {
        let mut packet = packet;
        let entity_id = packet.decode_varint()?;
        self.entity_id = entity_id;
        let effect_id = packet.decode_ubyte()?;
        self.effect_id = effect_id;
        let amplifier = packet.decode_ubyte()?;
        self.amplifier = amplifier;
        let duration = packet.decode_varint()?;
        self.duration = duration;
        let flags = packet.decode_ubyte()?;
        self.flags = flags;
        Ok(())
    }

    pub fn packet_editing(&self) -> (r: bool)
        ensures
            r,
    {
        true
    }

    /// Sends what the first plugin that answered asked for (the plugins' answers
    /// are given in plugin order), or the effect unchanged when none did; the state is
    /// handed back unchanged.
    pub fn edit_packet(
        &self,
        status: SharedState,
        plugin_answers: Vec<Option<Vec<(Packet, Direction)>>>,
    ) -> (r: Result<(Vec<(Packet, Direction)>, SharedState), ()>)
        ensures
            r matches Ok((v, st)) && st == status && sent(v@) == match first_some(plugin_answers@) {
                Some(pv) => sent(pv@),
                None => entity_effect_resend(*self),
            },
    {
        let plugin_reply = first_answer(plugin_answers);
        match plugin_reply {
            Some(v) => Ok((v, status)),
            None => {
                let mut raw_packet = RawPacket::new();
                raw_packet.encode_varint(self.entity_id);
                raw_packet.encode_ubyte(self.effect_id);
                raw_packet.encode_ubyte(self.amplifier);
                raw_packet.encode_varint(self.duration);
                raw_packet.encode_ubyte(self.flags);
                assert(raw_packet@ =~= entity_effect_resend(*self)[0].0.1);
                Ok(
                    (
                        one(
                            Packet::from(raw_packet, fid_to_pid(Fid::EntityEffect)),
                            Direction::Clientbound,
                        ),
                        status,
                    ),
                )
            },
        }
    }
}


/// The effect sent on unchanged.
pub open spec fn entity_effect_resend(e: EntityEffect) -> Seq<((i32, Seq<u8>), Direction)> {
    seq![
        (
            (
                pid_of(Fid::EntityEffect),
                varint_bytes(e.entity_id) + seq![e.effect_id] + seq![e.amplifier] + varint_bytes(
                    e.duration,
                ) + seq![e.flags],
            ),
            Direction::Clientbound,
        ),
    ]
}

/// An effect that `edit_packet` passes on unchanged reads back as the same
/// effect.
pub proof fn law_entity_effect_resend(e: EntityEffect)
    ensures
        entity_effect_step(entity_effect_resend(e)[0].0.1) == Step::Done(
            (e.entity_id, e.effect_id, e.amplifier, e.duration, e.flags),
            Seq::<u8>::empty(),
        ),
{
    let empty = Seq::<u8>::empty();
    let r4 = seq![e.flags] + empty;
    let r3 = varint_bytes(e.duration) + r4;
    let r2 = seq![e.amplifier] + r3;
    let r1 = seq![e.effect_id] + r2;
    assert(entity_effect_resend(e)[0].0.1 =~= varint_bytes(e.entity_id) + r1);
    lemma_varint_roundtrip(e.entity_id, r1);
    law_ubyte_roundtrip(e.effect_id, r2);
    law_ubyte_roundtrip(e.amplifier, r3);
    lemma_varint_roundtrip(e.duration, r4);
    law_ubyte_roundtrip(e.flags, empty);
}

} // verus!
