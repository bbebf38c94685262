use vstd::prelude::*;
use crate::fmt::{decimal, decimal_string, option_string, option_text};
use crate::raw_packet::RawPacket;
use crate::wire::{and_then, byte_step, string_step, varint_step, Step};

verus! {

/// The server sets or removes a score.
#[derive(Clone)]
pub struct UpdateScore {
    pub entity_name: String,
    pub action: i8,
    pub objective_name: String,
    pub value: Option<i32>,
}

/// The fields of the packet: entity name, action, objective name, and a
/// VarInt value unless the action is 1 (remove).
pub open spec fn update_score_step(s: Seq<u8>) -> Step<(Seq<char>, i8, Seq<char>, Option<i32>)> {
    and_then(string_step(s), |entity_name: Seq<char>, r1: Seq<u8>|
    and_then(byte_step(r1), |action: i8, r2: Seq<u8>|
    and_then(string_step(r2), |objective_name: Seq<char>, r3: Seq<u8>|
        if action != 1 {
            and_then(varint_step(r3), |value: i32, r4: Seq<u8>|
            Step::Done((entity_name, action, objective_name, Some(value)), r4))
        } else {
            Step::Done((entity_name, action, objective_name, None), r3)
        })))
}

impl UpdateScore {
    /// The fields as the log line shows them.
    pub fn get_printable(&self) -> (r: String)
        ensures
            r@ == self.entity_name@ + " "@ + decimal(self.action as int) + " "@ + self.objective_name@ + " "@ + option_text(self.value),
    {
        let mut s = self.entity_name.clone();
        s.append(" ");
        s.append(decimal_string(self.action as i128).as_str());
        s.append(" ");
        s.append(self.objective_name.as_str());
        s.append(" ");
        s.append(option_string(self.value).as_str());
        s
    }

    pub fn empty() -> (r: Self)
        ensures
            r.entity_name@ == Seq::<char>::empty(),
            r.action == 0,
            r.objective_name@ == Seq::<char>::empty(),
            r.value == None::<i32>,
    {
        Self { entity_name: String::new(), action: 0, objective_name: String::new(), value: None }
    }

    /// Reads the fields one after the other; the value is only replaced
    /// when the packet carries one.  On failure the fields read before keep
    /// their new values.
    pub fn parse_packet(&mut self, packet: RawPacket) -> (r: Result<(), ()>)
        ensures
            r is Ok <==> update_score_step(packet@) is Done,
            match string_step(packet@) {
                Step::Done(entity_name, r1) => {
                    &&& final(self).entity_name@ == entity_name
                    &&& match byte_step(r1) {
                        Step::Done(action, r2) => {
                            &&& final(self).action == action
                            &&& match string_step(r2) {
                                Step::Done(objective_name, r3) => {
                                    &&& final(self).objective_name@ == objective_name
                                    &&& if action != 1 {
                                        match varint_step(r3) {
                                            Step::Done(value, _) => r is Ok && final(self).value == Some(value),
                                            _ => r is Err && final(self).value == old(self).value,
                                        }
                                    } else {
                                        r is Ok && final(self).value == old(self).value
                                    }
                                },
                                _ => r is Err && final(self).objective_name == old(self).objective_name
                                    && final(self).value == old(self).value,
                            }
                        },
                        _ => r is Err && final(self).action == old(self).action
                            && final(self).objective_name == old(self).objective_name
                            && final(self).value == old(self).value,
                    }
                },
                _ => r is Err && *final(self) == *old(self),
            },
    {
        let mut packet = packet;
        let entity_name = packet.decode_string()?;
        self.entity_name = entity_name;
        let action = packet.decode_byte()?;
        self.action = action;
        let objective_name = packet.decode_string()?;
        self.objective_name = objective_name;
        if action != 1 {
            let value = packet.decode_varint()?;
            self.value = Some(value);
        }
        Ok(())
    }
}

} // verus!
