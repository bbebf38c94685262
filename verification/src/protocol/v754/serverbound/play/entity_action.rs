use vstd::prelude::*;
use crate::fmt::{decimal, decimal_string};
use crate::raw_packet::RawPacket;
use crate::wire::{Step, and_then, varint_step};
use crate::packet::{sent, Packet};
use crate::protocol::v754::{fid_to_pid, pid_of, Fid};
use crate::replies::one;
use crate::types::Direction;
use crate::wire::{lemma_varint_roundtrip, varint_bytes};

verus! {

/// The client tells what its entity does.
#[derive(Clone)]
pub struct EntityAction {
    pub entity_id: i32,
    pub action_id: Action,
    pub jump_boost: i32,
}

/// The fields of the packet, in the order they are read.
pub open spec fn entity_action_step(s: Seq<u8>) -> Step<(i32, Action, i32)> {
    and_then(varint_step(s), |entity_id: i32, r1: Seq<u8>|
    and_then(action_step(r1), |action_id: Action, r2: Seq<u8>|
    and_then(varint_step(r2), |jump_boost: i32, r3: Seq<u8>|
    Step::Done((entity_id, action_id, jump_boost), r3))))
}

impl EntityAction {
    /// The fields as the log line shows them.
    pub fn get_printable(&self) -> (r: String)
        ensures
            r@ == decimal(self.entity_id as int) + " "@ + self.action_id.name() + " "@ + decimal(self.jump_boost as int),
    {
        let mut s = decimal_string(self.entity_id as i128);
        s.append(" ");
        s.append(self.action_id.name_string().as_str());
        s.append(" ");
        s.append(decimal_string(self.jump_boost as i128).as_str());
        s
    }

    pub fn empty() -> (r: Self)
        ensures
            r.entity_id == 0,
            r.action_id == Action::StartSneaking,
            r.jump_boost == 0,
    {
        Self { entity_id: 0, action_id: Action::StartSneaking, jump_boost: 0 }
    }

    /// Reads the fields from the packet body one after the other; on
    /// failure the fields read before keep their new values.
    pub fn parse_packet(&mut self, packet: RawPacket) -> (r: Result<(), ()>)
        requires
            !(entity_action_step(packet@) is Crash),
        ensures
            match varint_step(packet@) {
                Step::Done(entity_id, r1) => {
                    &&& final(self).entity_id == entity_id
                    &&& (
                    match action_step(r1) {
                        Step::Done(action_id, r2) => {
                            &&& final(self).action_id == action_id
                            &&& (
                            match varint_step(r2) {
                                Step::Done(jump_boost, r3) => {
                                    &&& final(self).jump_boost == jump_boost
                                    &&& (
                                    r is Ok
                                    )
                                },
                                _ => r is Err && final(self).jump_boost == old(self).jump_boost,
                            }
                            )
                        },
                        _ => r is Err && final(self).action_id == old(self).action_id && final(self).jump_boost == old(self).jump_boost,
                    }
                    )
                },
                _ => r is Err && *final(self) == *old(self),
            },
    {
        let mut packet = packet;
        let entity_id = packet.decode_varint()?;
        self.entity_id = entity_id;
        let action_id = match action_from(packet.decode_varint()?) {
            Some(e) => e,
            None => return Err(()),
        };
        self.action_id = action_id;
        let jump_boost = packet.decode_varint()?;
        self.jump_boost = jump_boost;
        Ok(())
    }

    pub fn packet_editing(&self) -> (r: bool)
        ensures
            !r,
    {
        false
    }

    /// Sends the action on with the jump boost set to full (100 * 100).
    pub fn edit_packet(&self) -> (r: Result<Vec<(Packet, Direction)>, ()>)
        ensures
            r matches Ok(v) && sent(v@) == entity_action_resend(*self),
    {
        let mut raw_packet = RawPacket::new();
        raw_packet.encode_varint(self.entity_id);
        raw_packet.encode_varint(
            match self.action_id {
                Action::StartSneaking => 0,
                Action::StopSneaking => 1,
                Action::LeaveBed => 2,
                Action::StartSprinting => 3,
                Action::StopSprinting => 4,
                Action::StartJumpWithHorse => 5,
                Action::StopJumpWithHorse => 6,
                Action::OpenHorseInventory => 7,
                Action::StartFlyingWithElytra => 8,
            },
        );
        raw_packet.encode_varint(100 * 100);
        assert(raw_packet@ =~= entity_action_resend(*self)[0].0.1);
        Ok(one(Packet::from(raw_packet, fid_to_pid(Fid::EntityAction)), Direction::Serverbound))
    }
}

/// The action a player entity takes.
#[derive(Clone, Copy, Debug, PartialEq, Eq, Structural)]
pub enum Action {
    StartSneaking,
    StopSneaking,
    LeaveBed,
    StartSprinting,
    StopSprinting,
    StartJumpWithHorse,
    StopJumpWithHorse,
    OpenHorseInventory,
    StartFlyingWithElytra,
}

impl Action {
    /// The variant's name, as the `{:?}` form shows it.
    pub open spec fn name(self) -> Seq<char> {
        match self {
            Action::StartSneaking => "StartSneaking"@,
            Action::StopSneaking => "StopSneaking"@,
            Action::LeaveBed => "LeaveBed"@,
            Action::StartSprinting => "StartSprinting"@,
            Action::StopSprinting => "StopSprinting"@,
            Action::StartJumpWithHorse => "StartJumpWithHorse"@,
            Action::StopJumpWithHorse => "StopJumpWithHorse"@,
            Action::OpenHorseInventory => "OpenHorseInventory"@,
            Action::StartFlyingWithElytra => "StartFlyingWithElytra"@,
        }
    }

    /// The variant's name.
    pub fn name_string(&self) -> (r: String)
        ensures
            r@ == self.name(),
    {
        match self {
            Action::StartSneaking => String::from_str("StartSneaking"),
            Action::StopSneaking => String::from_str("StopSneaking"),
            Action::LeaveBed => String::from_str("LeaveBed"),
            Action::StartSprinting => String::from_str("StartSprinting"),
            Action::StopSprinting => String::from_str("StopSprinting"),
            Action::StartJumpWithHorse => String::from_str("StartJumpWithHorse"),
            Action::StopJumpWithHorse => String::from_str("StopJumpWithHorse"),
            Action::OpenHorseInventory => String::from_str("OpenHorseInventory"),
            Action::StartFlyingWithElytra => String::from_str("StartFlyingWithElytra"),
        }
    }
}

/// The `Action` a number stands for.
pub open spec fn action_of(n: i32) -> Option<Action> {
    if n == 0 {
        Some(Action::StartSneaking)
    } else if n == 1 {
        Some(Action::StopSneaking)
    } else if n == 2 {
        Some(Action::LeaveBed)
    } else if n == 3 {
        Some(Action::StartSprinting)
    } else if n == 4 {
        Some(Action::StopSprinting)
    } else if n == 5 {
        Some(Action::StartJumpWithHorse)
    } else if n == 6 {
        Some(Action::StopJumpWithHorse)
    } else if n == 7 {
        Some(Action::OpenHorseInventory)
    } else if n == 8 {
        Some(Action::StartFlyingWithElytra)
    } else {
        None
    }
}

/// Reading a `Action`: the reader panics on any other number.
pub open spec fn action_step(s: Seq<u8>) -> Step<Action> {
    and_then(
        varint_step(s),
        |n: i32, r: Seq<u8>|
            match action_of(n) {
                Some(e) => Step::Done(e, r),
                None => Step::Crash,
            },
    )
}

fn action_from(n: i32) -> (r: Option<Action>)
    ensures
        r == action_of(n),
{
    match n {
        0 => Some(Action::StartSneaking),
        1 => Some(Action::StopSneaking),
        2 => Some(Action::LeaveBed),
        3 => Some(Action::StartSprinting),
        4 => Some(Action::StopSprinting),
        5 => Some(Action::StartJumpWithHorse),
        6 => Some(Action::StopJumpWithHorse),
        7 => Some(Action::OpenHorseInventory),
        8 => Some(Action::StartFlyingWithElytra),
        _ => None,
    }
}

/// The number of an action on the wire.
pub open spec fn action_number(a: Action) -> i32 {
    match a {
        Action::StartSneaking => 0,
        Action::StopSneaking => 1,
        Action::LeaveBed => 2,
        Action::StartSprinting => 3,
        Action::StopSprinting => 4,
        Action::StartJumpWithHorse => 5,
        Action::StopJumpWithHorse => 6,
        Action::OpenHorseInventory => 7,
        Action::StartFlyingWithElytra => 8,
    }
}

/// The action sent on with the jump boost set to 10000.
pub open spec fn entity_action_resend(e: EntityAction) -> Seq<((i32, Seq<u8>), Direction)> {
    seq![
        (
            (
                pid_of(Fid::EntityAction),
                varint_bytes(e.entity_id) + varint_bytes(action_number(e.action_id))
                    + varint_bytes(10000),
            ),
            Direction::Serverbound,
        ),
    ]
}

/// An entity action that `edit_packet` sends on reads back as the same
/// entity and action, with the jump boost raised to 10000.
pub proof fn law_entity_action_resend(e: EntityAction)
    ensures
        entity_action_step(entity_action_resend(e)[0].0.1) == Step::Done(
            (e.entity_id, e.action_id, 10000i32),
            Seq::<u8>::empty(),
        ),
{
    let empty = Seq::<u8>::empty();
    let r2 = varint_bytes(10000) + empty;
    let r1 = varint_bytes(action_number(e.action_id)) + r2;
    assert(entity_action_resend(e)[0].0.1 =~= varint_bytes(e.entity_id) + r1);
    lemma_varint_roundtrip(e.entity_id, r1);
    lemma_varint_roundtrip(action_number(e.action_id), r2);
    lemma_varint_roundtrip(10000, empty);
    assert(action_of(action_number(e.action_id)) == Some(e.action_id));
    assert(action_step(r1) == Step::Done(e.action_id, r2));
}


/// The actions of Entity Action as the protocol numbers them: 0 start
/// sneaking, 1 stop sneaking, 2 leave bed, 3 start sprinting, 4 stop
/// sprinting, 5 start a horse jump, 6 stop a horse jump, 7 open the horse
/// inventory, 8 start flying with an elytra; no other number is an action.
/// Writing an action gives its number.
pub proof fn law_action_numbers(n: i32, a: Action)
    ensures
        action_of(n) == Some(Action::StartSneaking) <==> n == 0,
        action_of(n) == Some(Action::StopSneaking) <==> n == 1,
        action_of(n) == Some(Action::LeaveBed) <==> n == 2,
        action_of(n) == Some(Action::StartSprinting) <==> n == 3,
        action_of(n) == Some(Action::StopSprinting) <==> n == 4,
        action_of(n) == Some(Action::StartJumpWithHorse) <==> n == 5,
        action_of(n) == Some(Action::StopJumpWithHorse) <==> n == 6,
        action_of(n) == Some(Action::OpenHorseInventory) <==> n == 7,
        action_of(n) == Some(Action::StartFlyingWithElytra) <==> n == 8,
        action_of(n) is None <==> !(0 <= n <= 8),
        action_of(action_number(a)) == Some(a),
{
}

} // verus!
