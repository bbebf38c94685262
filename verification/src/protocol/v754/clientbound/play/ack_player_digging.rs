use vstd::prelude::*;
use crate::fmt::{bool_string, bool_text, decimal, decimal_string};
use crate::raw_packet::RawPacket;
use crate::wire::{Step, and_then, bool_step, position_step, varint_step};

verus! {

/// The server acknowledges a player digging action.
#[derive(Clone)]
pub struct AckPlayerDigging {
    pub x: i64,
    pub y: i64,
    pub z: i64,
    pub block: i32,
    pub status: DiggingStatus,
    pub successful: bool,
}

/// The fields of the packet, in the order they are read.
pub open spec fn ack_player_digging_step(s: Seq<u8>) -> Step<((i64, i64, i64), i32, DiggingStatus, bool)> {
    and_then(position_step(s), |position: (i64, i64, i64), r1: Seq<u8>|
    and_then(varint_step(r1), |block: i32, r2: Seq<u8>|
    and_then(digging_status_step(r2), |status: DiggingStatus, r3: Seq<u8>|
    and_then(bool_step(r3), |successful: bool, r4: Seq<u8>|
    Step::Done((position, block, status, successful), r4)))))
}

impl AckPlayerDigging {
    /// The fields as the log line shows them.
    pub fn get_printable(&self) -> (r: String)
        ensures
            r@ == decimal(self.x as int) + " "@ + decimal(self.y as int) + " "@ + decimal(self.z as int) + " "@ + decimal(self.block as int) + " "@ + self.status.name() + " "@ + bool_text(self.successful),
    {
        let mut s = decimal_string(self.x as i128);
        s.append(" ");
        s.append(decimal_string(self.y as i128).as_str());
        s.append(" ");
        s.append(decimal_string(self.z as i128).as_str());
        s.append(" ");
        s.append(decimal_string(self.block as i128).as_str());
        s.append(" ");
        s.append(self.status.name_string().as_str());
        s.append(" ");
        s.append(bool_string(self.successful).as_str());
        s
    }

    pub fn empty() -> (r: Self)
        ensures
            r.x == 0,
            r.y == 0,
            r.z == 0,
            r.block == 0,
            r.status == DiggingStatus::Started,
            r.successful == false,
    {
        Self { x: 0, y: 0, z: 0, block: 0, status: DiggingStatus::Started, successful: false }
    }

    /// Reads the fields from the packet body one after the other; on
    /// failure the fields read before keep their new values.
    pub fn parse_packet(&mut self, packet: RawPacket) -> (r: Result<(), ()>)
        ensures
            r is Ok <==> ack_player_digging_step(packet@) is Done,
            match position_step(packet@) {
                Step::Done(position, r1) => {
                    &&& final(self).x == position.0
                    &&& final(self).y == position.1
                    &&& final(self).z == position.2
                    &&& (
                    match varint_step(r1) {
                        Step::Done(block, r2) => {
                            &&& final(self).block == block
                            &&& (
                            match digging_status_step(r2) {
                                Step::Done(status, r3) => {
                                    &&& final(self).status == status
                                    &&& (
                                    match bool_step(r3) {
                                        Step::Done(successful, r4) => {
                                            &&& final(self).successful == successful
                                            &&& (
                                            r is Ok
                                            )
                                        },
                                        _ => r is Err && final(self).successful == old(self).successful,
                                    }
                                    )
                                },
                                _ => r is Err && final(self).status == old(self).status && final(self).successful == old(self).successful,
                            }
                            )
                        },
                        _ => r is Err && final(self).block == old(self).block && final(self).status == old(self).status && final(self).successful == old(self).successful,
                    }
                    )
                },
                _ => r is Err && *final(self) == *old(self),
            },
    {
        let mut packet = packet;
        let position = packet.decode_position()?;
        self.x = position.0;
        self.y = position.1;
        self.z = position.2;
        let block = packet.decode_varint()?;
        self.block = block;
        let status = match digging_status_from(packet.decode_varint()?) {
            Some(e) => e,
            None => return Err(()),
        };
        self.status = status;
        let successful = packet.decode_bool()?;
        self.successful = successful;
        Ok(())
    }
}

/// How far a digging action got.
#[derive(Clone, Copy, Debug, PartialEq, Eq, Structural)]
pub enum DiggingStatus {
    Started,
    Cancelled,
    Finished,
}

impl DiggingStatus {
    /// The variant's name, as the `{:?}` form shows it.
    pub open spec fn name(self) -> Seq<char> {
        match self {
            DiggingStatus::Started => "Started"@,
            DiggingStatus::Cancelled => "Cancelled"@,
            DiggingStatus::Finished => "Finished"@,
        }
    }

    /// The variant's name.
    pub fn name_string(&self) -> (r: String)
        ensures
            r@ == self.name(),
    {
        match self {
            DiggingStatus::Started => String::from_str("Started"),
            DiggingStatus::Cancelled => String::from_str("Cancelled"),
            DiggingStatus::Finished => String::from_str("Finished"),
        }
    }
}

/// The `DiggingStatus` a number stands for.
pub open spec fn digging_status_of(n: i32) -> Option<DiggingStatus> {
    if n == 0 {
        Some(DiggingStatus::Started)
    } else if n == 1 {
        Some(DiggingStatus::Cancelled)
    } else if n == 2 {
        Some(DiggingStatus::Finished)
    } else {
        None
    }
}

/// Reading a `DiggingStatus`: any other number is refused.
pub open spec fn digging_status_step(s: Seq<u8>) -> Step<DiggingStatus> {
    and_then(
        varint_step(s),
        |n: i32, r: Seq<u8>|
            match digging_status_of(n) {
                Some(e) => Step::Done(e, r),
                None => Step::Fail(r),
            },
    )
}

fn digging_status_from(n: i32) -> (r: Option<DiggingStatus>)
    ensures
        r == digging_status_of(n),
{
    match n {
        0 => Some(DiggingStatus::Started),
        1 => Some(DiggingStatus::Cancelled),
        2 => Some(DiggingStatus::Finished),
        _ => None,
    }
}


/// How far digging got, as the protocol numbers it: 0 started, 1
/// cancelled, 2 finished; no other number is a status.
pub proof fn law_digging_status_numbers(n: i32)
    ensures
        digging_status_of(n) == Some(DiggingStatus::Started) <==> n == 0,
        digging_status_of(n) == Some(DiggingStatus::Cancelled) <==> n == 1,
        digging_status_of(n) == Some(DiggingStatus::Finished) <==> n == 2,
        digging_status_of(n) is None <==> !(0 <= n <= 2),
{
}

} // verus!
