use vstd::prelude::*;
use crate::raw_packet::RawPacket;
use crate::wire::{Step, and_then, byte_step, string_step};

verus! {

/// The server shows a scoreboard at a position.
#[derive(Clone)]
pub struct DisplayScoreboard {
    pub position: ScoreboardPosition,
    pub name: String,
}

/// The fields of the packet, in the order they are read.
pub open spec fn display_scoreboard_step(s: Seq<u8>) -> Step<(Seq<char>, ScoreboardPosition)> {
    and_then(string_step(s), |name: Seq<char>, r1: Seq<u8>|
    and_then(scoreboard_position_step(r1), |position: ScoreboardPosition, r2: Seq<u8>|
    Step::Done((name, position), r2)))
}

impl DisplayScoreboard {
    /// The fields as the log line shows them.
    pub fn get_printable(&self) -> (r: String)
        ensures
            r@ == self.position.name() + " "@ + self.name@,
    {
        let mut s = self.position.name_string();
        s.append(" ");
        s.append(self.name.as_str());
        s
    }

    pub fn empty() -> (r: Self)
        ensures
            r.position == ScoreboardPosition::List,
            r.name@ == Seq::<char>::empty(),
    {
        Self { position: ScoreboardPosition::List, name: String::new() }
    }

    /// Reads the fields from the packet body one after the other; on
    /// failure the fields read before keep their new values.
    pub fn parse_packet(&mut self, packet: RawPacket) -> (r: Result<(), ()>)
        ensures
            r is Ok <==> display_scoreboard_step(packet@) is Done,
            match string_step(packet@) {
                Step::Done(name, r1) => {
                    &&& final(self).name@ == name
                    &&& (
                    match scoreboard_position_step(r1) {
                        Step::Done(position, r2) => {
                            &&& final(self).position == position
                            &&& (
                            r is Ok
                            )
                        },
                        _ => r is Err && final(self).position == old(self).position,
                    }
                    )
                },
                _ => r is Err && *final(self) == *old(self),
            },
    {
        let mut packet = packet;
        let name = packet.decode_string()?;
        self.name = name;
        let position = match scoreboard_position_from(packet.decode_byte()?) {
            Some(e) => e,
            None => return Err(()),
        };
        self.position = position;
        Ok(())
    }
}

/// Where a scoreboard is shown.
#[derive(Clone, Copy, Debug, PartialEq, Eq, Structural)]
pub enum ScoreboardPosition {
    List,
    Sidebar,
    BelowName,
    TeamSpecificSidebar,
}

impl ScoreboardPosition {
    /// The variant's name, as the `{:?}` form shows it.
    pub open spec fn name(self) -> Seq<char> {
        match self {
            ScoreboardPosition::List => "List"@,
            ScoreboardPosition::Sidebar => "Sidebar"@,
            ScoreboardPosition::BelowName => "BelowName"@,
            ScoreboardPosition::TeamSpecificSidebar => "TeamSpecificSidebar"@,
        }
    }

    /// The variant's name.
    pub fn name_string(&self) -> (r: String)
        ensures
            r@ == self.name(),
    {
        match self {
            ScoreboardPosition::List => String::from_str("List"),
            ScoreboardPosition::Sidebar => String::from_str("Sidebar"),
            ScoreboardPosition::BelowName => String::from_str("BelowName"),
            ScoreboardPosition::TeamSpecificSidebar => String::from_str("TeamSpecificSidebar"),
        }
    }
}

/// The `ScoreboardPosition` a number stands for.
pub open spec fn scoreboard_position_of(n: i8) -> Option<ScoreboardPosition> {
    if n == 0 {
        Some(ScoreboardPosition::List)
    } else if n == 1 {
        Some(ScoreboardPosition::Sidebar)
    } else if n == 2 {
        Some(ScoreboardPosition::BelowName)
    } else {
        Some(ScoreboardPosition::TeamSpecificSidebar)
    }
}

/// Reading a `ScoreboardPosition`: any other number means `TeamSpecificSidebar`.
pub open spec fn scoreboard_position_step(s: Seq<u8>) -> Step<ScoreboardPosition> {
    and_then(
        byte_step(s),
        |n: i8, r: Seq<u8>|
            match scoreboard_position_of(n) {
                Some(e) => Step::Done(e, r),
                None => Step::Fail(r),
            },
    )
}

fn scoreboard_position_from(n: i8) -> (r: Option<ScoreboardPosition>)
    ensures
        r == scoreboard_position_of(n),
{
    match n {
        0 => Some(ScoreboardPosition::List),
        1 => Some(ScoreboardPosition::Sidebar),
        2 => Some(ScoreboardPosition::BelowName),
        _ => Some(ScoreboardPosition::TeamSpecificSidebar),
    }
}


/// Where a scoreboard is shown, as the protocol numbers it: 0 the player
/// list, 1 the sidebar, 2 below the name, and every other number a team's
/// sidebar.
pub proof fn law_scoreboard_position_numbers(n: i8)
    ensures
        scoreboard_position_of(n) == Some(ScoreboardPosition::List) <==> n == 0,
        scoreboard_position_of(n) == Some(ScoreboardPosition::Sidebar) <==> n == 1,
        scoreboard_position_of(n) == Some(ScoreboardPosition::BelowName) <==> n == 2,
        scoreboard_position_of(n) == Some(ScoreboardPosition::TeamSpecificSidebar) <==> !(0 <= n <= 2),
{
}

} // verus!
