use vstd::prelude::*;
use crate::raw_packet::RawPacket;
use crate::wire::{Step, and_then, uint_step, varint_step};
use crate::packet::{sent, Packet};
use crate::protocol::v754::{fid_to_pid, pid_of, Fid};
use crate::replies::{notice, notice_packet, push_packet};
use crate::types::{Direction, SharedState};
use crate::wire::string_bytes;

verus! {

/// The server sets the player's health and food; floats are held as their bit patterns.
#[derive(Clone)]
pub struct UpdateHealth {
    pub health: u32,
    pub food: i32,
    pub food_saturation: u32,
}

/// The fields of the packet, in the order they are read.
pub open spec fn update_health_step(s: Seq<u8>) -> Step<(u32, i32, u32)> {
    and_then(uint_step(s), |health: u32, r1: Seq<u8>|
    and_then(varint_step(r1), |food: i32, r2: Seq<u8>|
    and_then(uint_step(r2), |food_saturation: u32, r3: Seq<u8>|
    Step::Done((health, food, food_saturation), r3))))
}

impl UpdateHealth {
    pub fn empty() -> (r: Self)
        ensures
            r.health == 0,
            r.food == 0,
            r.food_saturation == 0,
    {
        Self { health: 0, food: 0, food_saturation: 0 }
    }

    /// Reads the fields from the packet body one after the other; on
    /// failure the fields read before keep their new values.
    pub fn parse_packet(&mut self, packet: RawPacket) -> (r: Result<(), ()>)
        ensures
            r is Ok <==> update_health_step(packet@) is Done,
            match uint_step(packet@) {
                Step::Done(health, r1) => {
                    &&& final(self).health == health
                    &&& (
                    match varint_step(r1) {
                        Step::Done(food, r2) => {
                            &&& final(self).food == food
                            &&& (
                            match uint_step(r2) {
                                Step::Done(food_saturation, r3) => {
                                    &&& final(self).food_saturation == food_saturation
                                    &&& (
                                    r is Ok
                                    )
                                },
                                _ => r is Err && final(self).food_saturation == old(self).food_saturation,
                            }
                            )
                        },
                        _ => r is Err && final(self).food == old(self).food && final(self).food_saturation == old(self).food_saturation,
                    }
                    )
                },
                _ => r is Err && *final(self) == *old(self),
            },
    {
        let mut packet = packet;
        let health = packet.decode_float()?;
        self.health = health;
        let food = packet.decode_varint()?;
        self.food = food;
        let food_saturation = packet.decode_float()?;
        self.food_saturation = food_saturation;
        Ok(())
    }

    pub fn packet_editing(&self) -> (r: bool)
        ensures
            r,
    {
        true
    }

    /// Eats when the food level is 7; the state is handed back unchanged.
    pub fn edit_packet(&self, status: SharedState) -> (r: Result<
        (Vec<(Packet, Direction)>, SharedState),
        (),
    >)
        ensures
            r matches Ok((v, st)) && st == status && sent(v@) == update_health_reaction(self.food),
    {
        let mut return_packet_vec: Vec<(Packet, Direction)> = Vec::new();
        if self.food == 7 {
            return_packet_vec = notice_packet("Sent /eat command");
            let mut eat_command = RawPacket::new();
            eat_command.encode_string(String::from_str("/eat"));
            push_packet(
                &mut return_packet_vec,
                Packet::from(eat_command, fid_to_pid(Fid::ChatMessageServerbound)),
                Direction::Serverbound,
            );
        }
        assert(sent(return_packet_vec@) =~= update_health_reaction(self.food));
        Ok((return_packet_vec, status))
    }
}


/// What the proxy sends for a health update: at food level 7 it tells the
/// player and sends `/eat`; otherwise nothing.
pub open spec fn update_health_reaction(food: i32) -> Seq<((i32, Seq<u8>), Direction)> {
    if food == 7 {
        seq![
            notice("Sent /eat command"@),
            ((pid_of(Fid::ChatMessageServerbound), string_bytes("/eat"@)), Direction::Serverbound),
        ]
    } else {
        seq![]
    }
}

} // verus!
