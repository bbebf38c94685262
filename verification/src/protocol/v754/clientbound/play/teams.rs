use vstd::prelude::*;
use crate::raw_packet::{lemma_string_list_fail_stays, RawPacket};
use crate::wire::{and_then, byte_step, string_list_step, string_step, varint_step, Step};

verus! {

/// What a Teams packet does to a team.
#[derive(Clone, Copy, Debug, Eq, PartialEq, Structural)]
pub enum TeamMode {
    Create,
    Remove,
    Update,
    AddEntities,
    RemoveEntities,
}

/// The server creates, removes or changes a team.
#[derive(Clone)]
pub struct Teams {
    pub team_name: String,
    pub mode: TeamMode,
    pub team_display_name: String,
    pub friendly_flags: i8,
    pub name_tag_visibility: String,
    pub collision_rule: String,
    pub team_color: i32,
    pub team_prefix: String,
    pub team_suffix: String,
    pub entity_count: i32,
    pub entities: Vec<String>,
}

/// The team's look: display name, friendly flags, name tag visibility,
/// collision rule, colour, prefix and suffix.
pub open spec fn team_info_step(s: Seq<u8>) -> Step<
    (Seq<char>, i8, Seq<char>, Seq<char>, i32, Seq<char>, Seq<char>),
> {
    and_then(string_step(s), |display_name: Seq<char>, r1: Seq<u8>|
    and_then(byte_step(r1), |flags: i8, r2: Seq<u8>|
    and_then(string_step(r2), |name_tag: Seq<char>, r3: Seq<u8>|
    and_then(string_step(r3), |collision: Seq<char>, r4: Seq<u8>|
    and_then(varint_step(r4), |color: i32, r5: Seq<u8>|
    and_then(string_step(r5), |prefix: Seq<char>, r6: Seq<u8>|
    and_then(string_step(r6), |suffix: Seq<char>, r7: Seq<u8>|
    Step::Done((display_name, flags, name_tag, collision, color, prefix, suffix), r7))))))))
}

/// A counted list of entity names.
pub open spec fn team_entities_step(s: Seq<u8>) -> Step<(i32, Seq<Seq<char>>)> {
    and_then(varint_step(s), |count: i32, r1: Seq<u8>|
    and_then(string_list_step(r1, count as int), |names: Seq<Seq<char>>, r2: Seq<u8>|
    Step::Done((count, names), r2)))
}

/// The fields of a Teams packet: the team name, the mode byte, then what
/// the mode carries (look and entities for 0, nothing for 1, the look for
/// 2, entities for 3 and 4); any other mode is refused.
pub open spec fn teams_step(s: Seq<u8>) -> Step<
    (
        Seq<char>,
        TeamMode,
        Option<(Seq<char>, i8, Seq<char>, Seq<char>, i32, Seq<char>, Seq<char>)>,
        Option<(i32, Seq<Seq<char>>)>,
    ),
> {
    and_then(string_step(s), |name: Seq<char>, r1: Seq<u8>|
    and_then(byte_step(r1), |mode: i8, r2: Seq<u8>|
        if mode == 0 {
            and_then(team_info_step(r2), |info: (Seq<char>, i8, Seq<char>, Seq<char>, i32, Seq<char>, Seq<char>), r3: Seq<u8>|
            and_then(team_entities_step(r3), |ents: (i32, Seq<Seq<char>>), r4: Seq<u8>|
            Step::Done((name, TeamMode::Create, Some(info), Some(ents)), r4)))
        } else if mode == 1 {
            Step::Done((name, TeamMode::Remove, None, None), r2)
        } else if mode == 2 {
            and_then(team_info_step(r2), |info: (Seq<char>, i8, Seq<char>, Seq<char>, i32, Seq<char>, Seq<char>), r3: Seq<u8>|
            Step::Done((name, TeamMode::Update, Some(info), None), r3))
        } else if mode == 3 {
            and_then(team_entities_step(r2), |ents: (i32, Seq<Seq<char>>), r3: Seq<u8>|
            Step::Done((name, TeamMode::AddEntities, None, Some(ents)), r3))
        } else if mode == 4 {
            and_then(team_entities_step(r2), |ents: (i32, Seq<Seq<char>>), r3: Seq<u8>|
            Step::Done((name, TeamMode::RemoveEntities, None, Some(ents)), r3))
        } else {
            Step::Fail(r2)
        }))
}

/// What reading the team's look from `s` does to the look fields: each
/// field read is taken over, and from the first failing read on the fields
/// keep their values.
pub open spec fn team_info_effect(before: Teams, after: Teams, s: Seq<u8>) -> bool {
    match string_step(s) {
        Step::Done(display_name, r1) => {
            &&& after.team_display_name@ == display_name
            &&& match byte_step(r1) {
                Step::Done(flags, r2) => {
                    &&& after.friendly_flags == flags
                    &&& match string_step(r2) {
                        Step::Done(name_tag, r3) => {
                            &&& after.name_tag_visibility@ == name_tag
                            &&& match string_step(r3) {
                                Step::Done(collision, r4) => {
                                    &&& after.collision_rule@ == collision
                                    &&& match varint_step(r4) {
                                        Step::Done(color, r5) => {
                                            &&& after.team_color == color
                                            &&& match string_step(r5) {
                                                Step::Done(prefix, r6) => {
                                                    &&& after.team_prefix@ == prefix
                                                    &&& match string_step(r6) {
                                                        Step::Done(suffix, _) => after.team_suffix@ == suffix,
                                                        _ => after.team_suffix == before.team_suffix,
                                                    }
                                                },
                                                _ => after.team_prefix == before.team_prefix
                                                    && after.team_suffix == before.team_suffix,
                                            }
                                        },
                                        _ => after.team_color == before.team_color
                                            && after.team_prefix == before.team_prefix
                                            && after.team_suffix == before.team_suffix,
                                    }
                                },
                                _ => after.collision_rule == before.collision_rule
                                    && after.team_color == before.team_color
                                    && after.team_prefix == before.team_prefix
                                    && after.team_suffix == before.team_suffix,
                            }
                        },
                        _ => after.name_tag_visibility == before.name_tag_visibility
                            && after.collision_rule == before.collision_rule
                            && after.team_color == before.team_color
                            && after.team_prefix == before.team_prefix
                            && after.team_suffix == before.team_suffix,
                    }
                },
                _ => after.friendly_flags == before.friendly_flags
                    && after.name_tag_visibility == before.name_tag_visibility
                    && after.collision_rule == before.collision_rule
                    && after.team_color == before.team_color
                    && after.team_prefix == before.team_prefix
                    && after.team_suffix == before.team_suffix,
            }
        },
        _ => team_info_kept(before, after),
    }
}

/// The look fields are those of `before`.
pub open spec fn team_info_kept(before: Teams, after: Teams) -> bool {
    &&& after.team_display_name == before.team_display_name
    &&& after.friendly_flags == before.friendly_flags
    &&& after.name_tag_visibility == before.name_tag_visibility
    &&& after.collision_rule == before.collision_rule
    &&& after.team_color == before.team_color
    &&& after.team_prefix == before.team_prefix
    &&& after.team_suffix == before.team_suffix
}

/// What reading a counted list of entity names from `s` does: the count is
/// taken over and each name read is added after those held, up to the
/// first failing read.
pub open spec fn team_entities_effect(before: Teams, after: Teams, s: Seq<u8>) -> bool {
    match varint_step(s) {
        Step::Done(count, r1) => {
            &&& after.entity_count == count
            &&& match string_list_step(r1, count as int) {
                Step::Done(names, _) => after.entities@.map_values(|x: String| x@)
                    == before.entities@.map_values(|x: String| x@) + names,
                _ => exists|k: int|
                    0 <= k < count && (#[trigger] string_list_step(r1, k) matches Step::Done(names, rest)
                        && !(string_step(rest) is Done)
                        && after.entities@.map_values(|x: String| x@)
                        == before.entities@.map_values(|x: String| x@) + names),
            }
        },
        _ => team_entities_kept(before, after),
    }
}

/// The entity fields are those of `before`.
pub open spec fn team_entities_kept(before: Teams, after: Teams) -> bool {
    &&& after.entity_count == before.entity_count
    &&& after.entities == before.entities
}

impl Teams {
    /// An update shows the team's name, prefix and suffix; any other mode
    /// shows nothing.
    pub fn get_printable(&self) -> (r: String)
        ensures
            r@ == if self.mode == TeamMode::Update {
                self.team_name@ + " "@ + self.team_prefix@ + " "@ + self.team_suffix@
            } else {
                Seq::<char>::empty()
            },
    {
        if self.mode == TeamMode::Update {
            let mut s = self.team_name.clone();
            s.append(" ");
            s.append(self.team_prefix.as_str());
            s.append(" ");
            s.append(self.team_suffix.as_str());
            s
        } else {
            String::new()
        }
    }

    pub fn empty() -> (r: Self)
        ensures
            r.team_name@ == Seq::<char>::empty(),
            r.mode == TeamMode::Create,
            r.team_display_name@ == Seq::<char>::empty(),
            r.friendly_flags == 0,
            r.name_tag_visibility@ == Seq::<char>::empty(),
            r.collision_rule@ == Seq::<char>::empty(),
            r.team_color == 0,
            r.team_prefix@ == Seq::<char>::empty(),
            r.team_suffix@ == Seq::<char>::empty(),
            r.entity_count == 0,
            r.entities@ == Seq::<String>::empty(),
    {
        Self {
            team_name: String::new(),
            mode: TeamMode::Create,
            team_display_name: String::new(),
            friendly_flags: 0,
            name_tag_visibility: String::new(),
            collision_rule: String::new(),
            team_color: 0,
            team_prefix: String::new(),
            team_suffix: String::new(),
            entity_count: 0,
            entities: Vec::new(),
        }
    }

    /// Reads the team's look, taking each field over as it is read.
    fn read_info(&mut self, packet: &mut RawPacket) -> (r: Result<(), ()>)
        ensures
            team_info_effect(*old(self), *final(self), old(packet)@),
            r is Ok <==> team_info_step(old(packet)@) is Done,
            team_info_step(old(packet)@) matches Step::Done(_, rest) ==> final(packet)@ == rest,
            team_entities_kept(*old(self), *final(self)),
            final(self).team_name == old(self).team_name,
            final(self).mode == old(self).mode,
    {
        let display_name = packet.decode_string()?;
        self.team_display_name = display_name;
        let flags = packet.decode_byte()?;
        self.friendly_flags = flags;
        let name_tag = packet.decode_string()?;
        self.name_tag_visibility = name_tag;
        let collision = packet.decode_string()?;
        self.collision_rule = collision;
        let color = packet.decode_varint()?;
        self.team_color = color;
        let prefix = packet.decode_string()?;
        self.team_prefix = prefix;
        let suffix = packet.decode_string()?;
        self.team_suffix = suffix;
        Ok(())
    }

    /// Reads a counted list of entity names, taking the count over and
    /// adding each name after those held as it is read.
    #[verifier::loop_isolation(false)]
    fn read_entities(&mut self, packet: &mut RawPacket) -> (r: Result<(), ()>)
        ensures
            team_entities_effect(*old(self), *final(self), old(packet)@),
            r is Ok <==> team_entities_step(old(packet)@) is Done,
            team_info_kept(*old(self), *final(self)),
            final(self).team_name == old(self).team_name,
            final(self).mode == old(self).mode,
    {
        let count = packet.decode_varint()?;
        self.entity_count = count;
        let ghost s = packet@;
        let ghost before = self.entities@;
        let mut i: i32 = 0;
        assert(self.entities@.skip(before.len() as int).map_values(|x: String| x@) =~= Seq::<Seq<char>>::empty());
        while i < count
            invariant
                0 <= i,
                count > 0 ==> i <= count,
                count <= 0 ==> i == 0,
                self.entity_count == count,
                team_info_kept(*old(self), *self),
                self.team_name == old(self).team_name,
                self.mode == old(self).mode,
                before == old(self).entities@,
                before.len() <= self.entities@.len(),
                self.entities@ == before + self.entities@.skip(before.len() as int),
                string_list_step(s, i as int) == Step::Done(
                    self.entities@.skip(before.len() as int).map_values(|x: String| x@),
                    packet@,
                ),
            decreases count - i,
        {
            let ghost here = packet@;
            let name = match packet.decode_string() {
                Ok(name) => name,
                Err(()) => {
                    assert(!(string_step(here) is Done));
                    assert((before + self.entities@.skip(before.len() as int)).map_values(|x: String| x@)
                        =~= before.map_values(|x: String| x@) + self.entities@.skip(before.len() as int).map_values(|x: String| x@));
                    assert(string_list_step(s, i as int) matches Step::Done(names, rest)
                        && !(string_step(rest) is Done)
                        && self.entities@.map_values(|x: String| x@) == old(self).entities@.map_values(|x: String| x@) + names);
                    assert(string_list_step(s, i + 1) is Fail);
                    proof {
                        lemma_string_list_fail_stays(s, i + 1, count as int);
                    }
                    return Err(());
                },
            };
            let ghost prev = self.entities@.skip(before.len() as int);
            self.entities.push(name);
            assert(self.entities@.skip(before.len() as int) =~= prev.push(name));
            assert(prev.push(name).map_values(|x: String| x@) =~= prev.map_values(|x: String| x@).push(name@));
            i = i + 1;
        }
        assert(string_list_step(s, count as int) == string_list_step(s, i as int));
        assert((before + self.entities@.skip(before.len() as int)).map_values(|x: String| x@)
            =~= before.map_values(|x: String| x@) + self.entities@.skip(before.len() as int).map_values(|x: String| x@));
        Ok(())
    }

    /// Reads the fields one after the other, as the mode byte asks: the
    /// look for modes 0 and 2, the entity count and names for 0, 3 and 4
    /// (the names are added after those held).  The mode is set once all
    /// its fields are read; on failure what was read before stays.
    pub fn parse_packet(&mut self, packet: RawPacket) -> (r: Result<(), ()>)
        ensures
            r is Ok <==> teams_step(packet@) is Done,
            match string_step(packet@) {
                Step::Done(name, r1) => {
                    &&& final(self).team_name@ == name
                    &&& match byte_step(r1) {
                        Step::Done(mode, r2) => if mode == 0 {
                            &&& team_info_effect(*old(self), *final(self), r2)
                            &&& match team_info_step(r2) {
                                Step::Done(_, r3) => {
                                    &&& team_entities_effect(*old(self), *final(self), r3)
                                    &&& (r is Ok <==> team_entities_step(r3) is Done)
                                    &&& final(self).mode == (if r is Ok { TeamMode::Create } else { old(self).mode })
                                },
                                _ => r is Err && team_entities_kept(*old(self), *final(self))
                                    && final(self).mode == old(self).mode,
                            }
                        } else if mode == 1 {
                            &&& r is Ok
                            &&& final(self).mode == TeamMode::Remove
                            &&& team_info_kept(*old(self), *final(self))
                            &&& team_entities_kept(*old(self), *final(self))
                        } else if mode == 2 {
                            &&& team_info_effect(*old(self), *final(self), r2)
                            &&& (r is Ok <==> team_info_step(r2) is Done)
                            &&& final(self).mode == (if r is Ok { TeamMode::Update } else { old(self).mode })
                            &&& team_entities_kept(*old(self), *final(self))
                        } else if mode == 3 || mode == 4 {
                            &&& team_entities_effect(*old(self), *final(self), r2)
                            &&& (r is Ok <==> team_entities_step(r2) is Done)
                            &&& final(self).mode == (if r is Err {
                                old(self).mode
                            } else if mode == 3 {
                                TeamMode::AddEntities
                            } else {
                                TeamMode::RemoveEntities
                            })
                            &&& team_info_kept(*old(self), *final(self))
                        } else {
                            &&& r is Err
                            &&& final(self).mode == old(self).mode
                            &&& team_info_kept(*old(self), *final(self))
                            &&& team_entities_kept(*old(self), *final(self))
                        },
                        _ => {
                            &&& r is Err
                            &&& final(self).mode == old(self).mode
                            &&& team_info_kept(*old(self), *final(self))
                            &&& team_entities_kept(*old(self), *final(self))
                        },
                    }
                },
                _ => r is Err && *final(self) == *old(self),
            },
    {
        let mut packet = packet;
        let team_name = packet.decode_string()?;
        self.team_name = team_name;
        let mode = packet.decode_byte()?;
        if mode == 0 {
            self.read_info(&mut packet)?;
            self.read_entities(&mut packet)?;
            self.mode = TeamMode::Create;
        } else if mode == 1 {
            self.mode = TeamMode::Remove;
        } else if mode == 2 {
            self.read_info(&mut packet)?;
            self.mode = TeamMode::Update;
        } else if mode == 3 || mode == 4 {
            self.read_entities(&mut packet)?;
            self.mode = if mode == 3 {
                TeamMode::AddEntities
            } else {
                TeamMode::RemoveEntities
            };
        } else {
            return Err(());
        }
        Ok(())
    }
}


/// The mode byte of a Teams packet, the byte after the team name: 0
/// creates the team, 1 removes it, 2 updates its look, 3 adds entities
/// and 4 removes entities; a packet with any other mode byte is refused.
pub proof fn law_team_mode_numbers(s: Seq<u8>)
    ensures
        match string_step(s) {
            Step::Done(_, r1) => r1.len() >= 1 ==> {
                let m = r1[0];
                &&& match teams_step(s) {
                    Step::Done(v, _) => {
                        &&& v.1 == TeamMode::Create <==> m == 0
                        &&& v.1 == TeamMode::Remove <==> m == 1
                        &&& v.1 == TeamMode::Update <==> m == 2
                        &&& v.1 == TeamMode::AddEntities <==> m == 3
                        &&& v.1 == TeamMode::RemoveEntities <==> m == 4
                    },
                    _ => true,
                }
                &&& m > 4 ==> !(teams_step(s) is Done)
            },
            _ => true,
        },
{
    if let Step::Done(_, r1) = string_step(s) {
        if r1.len() >= 1 {
            let m = r1[0];
            assert((m as i8 == 0) == (m == 0) && (m as i8 == 1) == (m == 1) && (m as i8 == 2) == (m == 2)
                && (m as i8 == 3) == (m == 3) && (m as i8 == 4) == (m == 4)) by (bit_vector);
        }
    }
}

} // verus!
