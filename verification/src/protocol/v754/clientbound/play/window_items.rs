use vstd::prelude::*;
use crate::raw_packet::RawPacket;
use crate::wire::{and_then, short_step, ubyte_step, u16_be, Step};
use crate::packet::{sent, Packet};
use crate::protocol::v754::{fid_to_pid, pid_of, Fid};
use crate::replies::one;
use crate::types::{Direction, Slot};

verus! {

/// The contents of a window's slots.
pub struct WindowItems {
    pub window_id: u8,
    pub count: i16,
    pub slot_data: Vec<Slot>,
}

/// The fields of the packet: the window id and the slot count.  Slots
/// themselves cannot be read yet: a positive count makes the reader panic.
pub open spec fn window_items_step(s: Seq<u8>) -> Step<(u8, i16)> {
    and_then(ubyte_step(s), |window_id: u8, r1: Seq<u8>|
    and_then(short_step(r1), |count: i16, r2: Seq<u8>|
    if count > 0 {
        Step::Crash
    } else {
        Step::Done((window_id, count), r2)
    }))
}

impl WindowItems {
    pub fn empty() -> (r: Self)
        ensures
            r.window_id == 0,
            r.count == 0,
            r.slot_data@.len() == 0,
    {
        Self { window_id: 0, count: 0, slot_data: Vec::new() }
    }

    /// Reads the window id, then the slot count (and no slots); on failure
    /// the fields read before keep their new values.
    pub fn parse_packet(&mut self, packet: RawPacket) -> (r: Result<(), ()>)
        requires
            !(window_items_step(packet@) is Crash),
        ensures
            match ubyte_step(packet@) {
                Step::Done(window_id, r1) => {
                    &&& final(self).window_id == window_id
                    &&& match short_step(r1) {
                        Step::Done(count, _) => {
                            &&& r is Ok
                            &&& final(self).count == count
                            &&& final(self).slot_data@.len() == 0
                        },
                        _ => r is Err && final(self).count == old(self).count
                            && final(self).slot_data == old(self).slot_data,
                    }
                },
                _ => r is Err && *final(self) == *old(self),
            },
    {
        let mut packet = packet;
        let window_id = packet.decode_ubyte()?;
        self.window_id = window_id;
        let count = packet.decode_short()?;
        self.count = count;
        self.slot_data = Vec::new();
        Ok(())
    }

    pub fn packet_editing(&self) -> (r: bool)
        ensures
            r,
    {
        true
    }

    /// Writes the packet back out unchanged.  Slots cannot be written yet,
    /// so the window must hold none.
    pub fn edit_packet(&self) -> (r: Result<Vec<(Packet, Direction)>, ()>)
        requires
            self.slot_data@.len() == 0,
        ensures
            r matches Ok(v) && sent(v@) == seq![
                ((pid_of(Fid::WindowItems), seq![self.window_id] + u16_be(self.count as u16)), Direction::Clientbound),
            ],
    {
        let mut raw = RawPacket::new();
        raw.encode_ubyte(self.window_id);
        raw.encode_short(self.count);
        assert(raw@ =~= seq![self.window_id] + u16_be(self.count as u16));
        Ok(one(Packet::from(raw, fid_to_pid(Fid::WindowItems)), Direction::Clientbound))
    }
}

} // verus!
