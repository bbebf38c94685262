use vstd::prelude::*;
use crate::raw_packet::RawPacket;
use crate::wire::{and_then, bool_step, string_step, varint_step, Step};

verus! {

/// One completion offered to the client.
#[derive(Clone, Debug)]
pub struct TabCompleteMatch {
    pub mat: String,
    pub has_tooltip: bool,
    pub tooltip: Option<String>,
}

impl View for TabCompleteMatch {
    type V = (Seq<char>, bool, Option<Seq<char>>);

    open spec fn view(&self) -> (Seq<char>, bool, Option<Seq<char>>) {
        (
            self.mat@,
            self.has_tooltip,
            match self.tooltip {
                Some(t) => Some(t@),
                None => None,
            },
        )
    }
}

/// The server answers a tab completion request.
#[derive(Clone)]
pub struct TabCompleteClientbound {
    pub id: i32,
    pub start: i32,
    pub length: i32,
    pub count: i32,
    pub matches: Vec<TabCompleteMatch>,
}

/// One completion: the text, whether a tooltip follows, and the tooltip.
pub open spec fn tab_match_step(s: Seq<u8>) -> Step<(Seq<char>, bool, Option<Seq<char>>)> {
    and_then(string_step(s), |mat: Seq<char>, r1: Seq<u8>|
    and_then(bool_step(r1), |has_tooltip: bool, r2: Seq<u8>|
        if has_tooltip {
            and_then(string_step(r2), |tooltip: Seq<char>, r3: Seq<u8>|
            Step::Done((mat, has_tooltip, Some(tooltip)), r3))
        } else {
            Step::Done((mat, has_tooltip, None), r2)
        }))
}

/// Reading `n` completions one after the other (none when `n` is not positive).
pub open spec fn tab_match_list_step(s: Seq<u8>, n: int) -> Step<
    Seq<(Seq<char>, bool, Option<Seq<char>>)>,
>
    decreases n,
{
    if n <= 0 {
        Step::Done(Seq::empty(), s)
    } else {
        and_then(
            tab_match_list_step(s, n - 1),
            |ms: Seq<(Seq<char>, bool, Option<Seq<char>>)>, r: Seq<u8>|
                and_then(
                    tab_match_step(r),
                    |m: (Seq<char>, bool, Option<Seq<char>>), r2: Seq<u8>| Step::Done(ms.push(m), r2),
                ),
        )
    }
}

/// The fields of the packet: id, start, length, count, then that many
/// completions.
pub open spec fn tab_complete_step(s: Seq<u8>) -> Step<
    (i32, i32, i32, i32, Seq<(Seq<char>, bool, Option<Seq<char>>)>),
> {
    and_then(varint_step(s), |id: i32, r1: Seq<u8>|
    and_then(varint_step(r1), |start: i32, r2: Seq<u8>|
    and_then(varint_step(r2), |length: i32, r3: Seq<u8>|
    and_then(varint_step(r3), |count: i32, r4: Seq<u8>|
    and_then(tab_match_list_step(r4, count as int), |ms: Seq<(Seq<char>, bool, Option<Seq<char>>)>, r5: Seq<u8>|
    Step::Done((id, start, length, count, ms), r5))))))
}

/// Reads one completion.
fn decode_tab_match(packet: &mut RawPacket) -> (r: Result<TabCompleteMatch, ()>)
    ensures
        match tab_match_step(old(packet)@) {
            Step::Done(v, rest) => r matches Ok(m) && m@ == v && final(packet)@ == rest,
            _ => r is Err,
        },
{
    let mat = packet.decode_string()?;
    let has_tooltip = packet.decode_bool()?;
    let tooltip = if has_tooltip {
        Some(packet.decode_string()?)
    } else {
        None
    };
    Ok(TabCompleteMatch { mat, has_tooltip, tooltip })
}

/// Once reading the first `i` completions fails, reading more fails too.
proof fn lemma_tab_list_fail_stays(s: Seq<u8>, i: int, n: int)
    requires
        0 < i <= n,
        tab_match_list_step(s, i) is Fail,
    ensures
        tab_match_list_step(s, n) is Fail,
    decreases n - i,
{
    if i < n {
        lemma_tab_list_fail_stays(s, i, n - 1);
    }
}

impl TabCompleteClientbound {
    pub fn empty() -> (r: Self)
        ensures
            r.id == 0,
            r.start == 0,
            r.length == 0,
            r.count == 0,
            r.matches@ == Seq::<TabCompleteMatch>::empty(),
    {
        Self { id: 0, start: 0, length: 0, count: 0, matches: Vec::new() }
    }

    /// Reads the fields one after the other, adding each completion after
    /// those already held as it is read; on failure what was read before
    /// stays.
    #[verifier::loop_isolation(false)]
    pub fn parse_packet(&mut self, packet: RawPacket) -> (r: Result<(), ()>)
        ensures
            r is Ok <==> tab_complete_step(packet@) is Done,
            match varint_step(packet@) {
                Step::Done(id, r1) => {
                    &&& final(self).id == id
                    &&& match varint_step(r1) {
                        Step::Done(start, r2) => {
                            &&& final(self).start == start
                            &&& match varint_step(r2) {
                                Step::Done(length, r3) => {
                                    &&& final(self).length == length
                                    &&& match varint_step(r3) {
                                        Step::Done(count, r4) => {
                                            &&& final(self).count == count
                                            &&& match tab_match_list_step(r4, count as int) {
                                                Step::Done(ms, _) => r is Ok
                                                    && final(self).matches@.map_values(|m: TabCompleteMatch| m@)
                                                    == old(self).matches@.map_values(|m: TabCompleteMatch| m@) + ms,
                                                _ => r is Err && exists|k: int|
                                                    0 <= k < count && (#[trigger] tab_match_list_step(r4, k)
                                                        matches Step::Done(ms, rest)
                                                        && !(tab_match_step(rest) is Done)
                                                        && final(self).matches@.map_values(|m: TabCompleteMatch| m@)
                                                        == old(self).matches@.map_values(|m: TabCompleteMatch| m@) + ms),
                                            }
                                        },
                                        _ => r is Err && final(self).count == old(self).count
                                            && final(self).matches == old(self).matches,
                                    }
                                },
                                _ => r is Err && final(self).length == old(self).length
                                    && final(self).count == old(self).count
                                    && final(self).matches == old(self).matches,
                            }
                        },
                        _ => r is Err && final(self).start == old(self).start
                            && final(self).length == old(self).length
                            && final(self).count == old(self).count
                            && final(self).matches == old(self).matches,
                    }
                },
                _ => r is Err && *final(self) == *old(self),
            },
    {
        let mut packet = packet;
        let id = packet.decode_varint()?;
        self.id = id;
        let start = packet.decode_varint()?;
        self.start = start;
        let length = packet.decode_varint()?;
        self.length = length;
        let count = packet.decode_varint()?;
        self.count = count;
        let ghost s = packet@;
        let ghost before = self.matches@;
        let mut i: i32 = 0;
        assert(self.matches@.skip(before.len() as int).map_values(|m: TabCompleteMatch| m@) =~= Seq::<
            (Seq<char>, bool, Option<Seq<char>>),
        >::empty());
        while i < count
            invariant
                0 <= i,
                count > 0 ==> i <= count,
                count <= 0 ==> i == 0,
                self.id == id,
                self.start == start,
                self.length == length,
                self.count == count,
                before.len() <= self.matches@.len(),
                self.matches@ == before + self.matches@.skip(before.len() as int),
                tab_match_list_step(s, i as int) == Step::Done(
                    self.matches@.skip(before.len() as int).map_values(|m: TabCompleteMatch| m@),
                    packet@,
                ),
            decreases count - i,
        {
            let ghost here = packet@;
            let m = match decode_tab_match(&mut packet) {
                Ok(m) => m,
                Err(()) => {
                    assert(!(tab_match_step(here) is Done));
                    assert((before + self.matches@.skip(before.len() as int)).map_values(|m: TabCompleteMatch| m@)
                        =~= before.map_values(|m: TabCompleteMatch| m@) + self.matches@.skip(before.len() as int).map_values(|m: TabCompleteMatch| m@));
                    assert(tab_match_list_step(s, i as int) matches Step::Done(ms, rest)
                        && !(tab_match_step(rest) is Done)
                        && self.matches@.map_values(|m: TabCompleteMatch| m@) == old(self).matches@.map_values(|m: TabCompleteMatch| m@) + ms);
                    assert(tab_match_list_step(s, i + 1) is Fail);
                    proof {
                        lemma_tab_list_fail_stays(s, i + 1, count as int);
                    }
                    return Err(());
                },
            };
            let ghost prev = self.matches@.skip(before.len() as int);
            self.matches.push(m);
            assert(self.matches@.skip(before.len() as int) =~= prev.push(m));
            assert(prev.push(m).map_values(|m: TabCompleteMatch| m@) =~= prev.map_values(|m: TabCompleteMatch| m@).push(m@));
            i = i + 1;
        }
        assert(tab_match_list_step(s, count as int) == tab_match_list_step(s, i as int));
        assert((before + self.matches@.skip(before.len() as int)).map_values(|m: TabCompleteMatch| m@)
            =~= before.map_values(|m: TabCompleteMatch| m@) + self.matches@.skip(before.len() as int).map_values(|m: TabCompleteMatch| m@));
        Ok(())
    }
}

} // verus!
