use vstd::prelude::*;
use crate::fmt::{decimal, decimal_string, list_string, list_text};
use crate::raw_packet::{lemma_varint_list_fail_stays, RawPacket};
use crate::wire::{and_then, varint_list_step, varint_step, Step};
use crate::packet::{sent, Packet};
use crate::protocol::v754::{fid_to_pid, pid_of, Fid};
use crate::replies::{notice, notice_packet, one};
use crate::types::Direction;
use crate::wire::varint_bytes;

verus! {

/// The server sets the passengers of a vehicle.
#[derive(Clone)]
pub struct SetPassenger {
    pub entity_id: i32,
    pub passenger_count: i32,
    pub passengers: Vec<i32>,
}

/// The fields of the packet: vehicle id, passenger count, then that many
/// passenger ids.
pub open spec fn set_passenger_step(s: Seq<u8>) -> Step<(i32, i32, Seq<i32>)> {
    and_then(varint_step(s), |entity_id: i32, r1: Seq<u8>|
    and_then(varint_step(r1), |passenger_count: i32, r2: Seq<u8>|
    and_then(varint_list_step(r2, passenger_count as int), |passengers: Seq<i32>, r3: Seq<u8>|
    Step::Done((entity_id, passenger_count, passengers), r3))))
}

impl SetPassenger {
    /// The fields as the log line shows them.
    pub fn get_printable(&self) -> (r: String)
        ensures
            r@ == decimal(self.entity_id as int) + " "@ + decimal(self.passenger_count as int) + " "@ + list_text(self.passengers@),
    {
        let mut s = decimal_string(self.entity_id as i128);
        s.append(" ");
        s.append(decimal_string(self.passenger_count as i128).as_str());
        s.append(" ");
        s.append(list_string(&self.passengers).as_str());
        s
    }

    pub fn empty() -> (r: Self)
        ensures
            r.entity_id == 0,
            r.passenger_count == 0,
            r.passengers@ == Seq::<i32>::empty(),
    {
        Self { entity_id: 0, passenger_count: 0, passengers: Vec::new() }
    }

    /// Reads the fields one after the other, adding each passenger id after
    /// those already held as it is read; on failure what was read before
    /// stays.
    #[verifier::loop_isolation(false)]
    pub fn parse_packet(&mut self, packet: RawPacket) -> (r: Result<(), ()>)
        ensures
            r is Ok <==> set_passenger_step(packet@) is Done,
            match varint_step(packet@) {
                Step::Done(entity_id, r1) => {
                    &&& final(self).entity_id == entity_id
                    &&& match varint_step(r1) {
                        Step::Done(count, r2) => {
                            &&& final(self).passenger_count == count
                            &&& match varint_list_step(r2, count as int) {
                                Step::Done(ids, _) => r is Ok && final(self).passengers@
                                    == old(self).passengers@ + ids,
                                _ => r is Err && exists|k: int|
                                    0 <= k < count && (#[trigger] varint_list_step(r2, k) matches Step::Done(ids, rest)
                                        && varint_step(rest) is Fail
                                        && final(self).passengers@ == old(self).passengers@ + ids),
                            }
                        },
                        _ => r is Err && final(self).passenger_count == old(self).passenger_count
                            && final(self).passengers == old(self).passengers,
                    }
                },
                _ => r is Err && *final(self) == *old(self),
            },
    {
        let mut packet = packet;
        let entity_id = packet.decode_varint()?;
        self.entity_id = entity_id;
        let passenger_count = packet.decode_varint()?;
        self.passenger_count = passenger_count;
        let ghost start = packet@;
        let ghost before = self.passengers@;
        let mut i: i32 = 0;
        assert(self.passengers@.skip(before.len() as int) =~= Seq::<i32>::empty());
        while i < passenger_count
            invariant
                0 <= i,
                passenger_count > 0 ==> i <= passenger_count,
                passenger_count <= 0 ==> i == 0,
                self.entity_id == entity_id,
                self.passenger_count == passenger_count,
                before.len() <= self.passengers@.len(),
                self.passengers@ == before + self.passengers@.skip(before.len() as int),
                varint_list_step(start, i as int) == Step::Done(
                    self.passengers@.skip(before.len() as int),
                    packet@,
                ),
            decreases passenger_count - i,
        {
            let ghost here = packet@;
            let v = match packet.decode_varint() {
                Ok(v) => v,
                Err(()) => {
                    assert(varint_step(here) is Fail);
                    assert(varint_list_step(start, i as int) matches Step::Done(ids, rest)
                        && varint_step(rest) is Fail
                        && self.passengers@ == old(self).passengers@ + ids);
                    assert(varint_list_step(start, i + 1) is Fail);
                    proof {
                        lemma_varint_list_fail_stays(start, i + 1, passenger_count as int);
                    }
                    return Err(());
                },
            };
            let ghost prev = self.passengers@.skip(before.len() as int);
            self.passengers.push(v);
            assert(self.passengers@.skip(before.len() as int) =~= prev.push(v));
            i = i + 1;
        }
        assert(varint_list_step(start, passenger_count as int) == varint_list_step(start, i as int));
        Ok(())
    }

    pub fn packet_editing(&self) -> (r: bool)
        ensures
            !r,
    {
        false
    }

    /// Passes a passenger change on, or tells the player instead when the
    /// vehicle is left without passengers.
    pub fn edit_packet(&self) -> (r: Result<Vec<(Packet, Direction)>, ()>)
        ensures
            r matches Ok(v) && sent(v@) == set_passenger_reaction(*self),
    {
        if self.passenger_count != 0 {
            let mut raw_packet = RawPacket::new();
            raw_packet.encode_varint(self.entity_id);
            raw_packet.encode_varint(self.passenger_count);
            let ghost start = raw_packet@;
            let mut i: usize = 0;
            while i < self.passengers.len()
                invariant
                    i <= self.passengers@.len(),
                    raw_packet@ == start + varints_bytes(self.passengers@.take(i as int)),
                decreases self.passengers@.len() - i,
            {
                raw_packet.encode_varint(self.passengers[i]);
                i = i + 1;
                assert(self.passengers@.take(i as int).drop_last() =~= self.passengers@.take(
                    (i - 1) as int,
                ));
            }
            assert(self.passengers@.take(i as int) =~= self.passengers@);
            Ok(one(Packet::from(raw_packet, fid_to_pid(Fid::SetPassenger)), Direction::Clientbound))
        } else {
            Ok(notice_packet("Horse tried to kick you off!"))
        }
    }
}

/// The VarInt forms of a list of ids, one after the other.
pub open spec fn varints_bytes(ids: Seq<i32>) -> Seq<u8>
    decreases ids.len(),
{
    if ids.len() == 0 {
        Seq::empty()
    } else {
        varints_bytes(ids.drop_last()) + varint_bytes(ids.last())
    }
}

/// What the proxy sends for a passenger change: the change unchanged when
/// there are passengers, otherwise (the player is thrown off) a notice
/// instead.
pub open spec fn set_passenger_reaction(p: SetPassenger) -> Seq<((i32, Seq<u8>), Direction)> {
    if p.passenger_count != 0 {
        seq![
            (
                (
                    pid_of(Fid::SetPassenger),
                    varint_bytes(p.entity_id) + varint_bytes(p.passenger_count) + varints_bytes(
                        p.passengers@,
                    ),
                ),
                Direction::Clientbound,
            ),
        ]
    } else {
        seq![notice("Horse tried to kick you off!"@)]
    }
}

} // verus!
