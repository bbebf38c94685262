//! Building the lists of packets that the proxy sends in answer to one.
use vstd::prelude::*;
use crate::packet::{sent, Packet};
use crate::types::Direction;
use crate::utils::{generate_message_packet, message_packet};

verus! {

/// A notice from the proxy shown to the player.
pub open spec fn notice(text: Seq<char>) -> ((i32, Seq<u8>), Direction) {
    (message_packet(text), Direction::Clientbound)
}

/// A one-packet list.
pub fn one(packet: Packet, direction: Direction) -> (r: Vec<(Packet, Direction)>)
    ensures
        sent(r@) == seq![(packet@, direction)],
{
    let mut r = Vec::new();
    r.push((packet, direction));
    assert(sent(r@) =~= seq![(packet@, direction)]);
    r
}

/// A notice from the proxy to the player.
pub fn notice_packet(text: &str) -> (r: Vec<(Packet, Direction)>)
    ensures
        sent(r@) == seq![notice(text@)],
{
    match generate_message_packet(text) {
        Ok(p) => one(p, Direction::Clientbound),
        Err(()) => Vec::new(),
    }
}

/// Appends one packet to a list.
pub fn push_packet(list: &mut Vec<(Packet, Direction)>, packet: Packet, direction: Direction)
    ensures
        sent(final(list)@) == sent(old(list)@).push((packet@, direction)),
{
    list.push((packet, direction));
    assert(sent(list@) =~= sent(old(list)@).push((packet@, direction)));
}

/// The first answer given among answers in order, if any.
pub open spec fn first_some<T>(answers: Seq<Option<T>>) -> Option<T>
    decreases answers.len(),
{
    if answers.len() == 0 {
        None
    } else if answers[0] is Some {
        answers[0]
    } else {
        first_some(answers.drop_first())
    }
}

/// Answers before position `i` that are all missing do not count.
proof fn lemma_first_some_skip<T>(answers: Seq<Option<T>>, i: int)
    requires
        0 <= i <= answers.len(),
        forall|j: int| 0 <= j < i ==> answers[j] is None,
    ensures
        first_some(answers) == first_some(answers.skip(i)),
    decreases i,
{
    if i > 0 {
        let rest = answers.drop_first();
        assert forall|j: int| 0 <= j < i - 1 implies rest[j] is None by {
            assert(rest[j] == answers[j + 1]);
        }
        lemma_first_some_skip(rest, i - 1);
        assert(rest.skip(i - 1) =~= answers.skip(i));
    } else {
        assert(answers.skip(0) =~= answers);
    }
}

/// Whether some answer among `answers` is given.
pub open spec fn has_answer<T>(answers: Seq<Option<T>>) -> bool {
    exists|j: int| 0 <= j < answers.len() && (#[trigger] answers[j]) is Some
}

/// Which of `plugin_count` plugins to ask next about an event, given the
/// answers of those asked so far: plugins are asked in order, and asking
/// stops at the first that answers or once all have been asked.
pub open spec fn next_to_ask<T>(answers: Seq<Option<T>>, plugin_count: int) -> Option<int> {
    if answers.len() >= plugin_count || has_answer(answers) {
        None
    } else {
        Some(answers.len() as int)
    }
}

/// The index of the plugin to ask next about an event, or `None` once a
/// plugin has answered or all have been asked.
pub fn next_plugin_to_ask<T>(answers: &Vec<Option<T>>, plugin_count: usize) -> (r: Option<usize>)
    ensures
        match r {
            Some(i) => next_to_ask(answers@, plugin_count as int) == Some(i as int),
            None => next_to_ask(answers@, plugin_count as int) is None,
        },
{
    if answers.len() >= plugin_count {
        return None;
    }
    let mut i: usize = 0;
    while i < answers.len()
        invariant
            i <= answers@.len(),
            forall|j: int| 0 <= j < i ==> answers@[j] is None,
        decreases answers@.len() - i,
    {
        if answers[i].is_some() {
            assert(answers@[i as int] is Some);
            return None;
        }
        i = i + 1;
    }
    Some(answers.len())
}

/// Asking the plugins in order and stopping at the first that answers
/// gives the same answer as asking them all: once no plugin is left to ask
/// after the first `k`, the first answer among theirs is the first answer
/// among all.
pub proof fn law_asking_stops_at_first_answer<T>(all: Seq<Option<T>>, k: int)
    requires
        0 <= k <= all.len(),
        next_to_ask(all.take(k), all.len() as int) is None,
    ensures
        first_some(all.take(k)) == first_some(all),
    decreases all.len(),
{
    if all.len() == 0 {
        assert(all.take(k) =~= all);
    } else {
        if k == 0 {
            assert(!has_answer(all.take(0)));
        }
        assert(k >= 1);
        let head = all.take(k);
        assert(head[0] == all[0]);
        if all[0] is None {
            let rest = all.drop_first();
            assert(head.drop_first() =~= rest.take(k - 1));
            if has_answer(head) {
                let j = choose|j: int| 0 <= j < head.len() && (#[trigger] head[j]) is Some;
                assert(j >= 1);
                assert(rest.take(k - 1)[j - 1] == head[j]);
            }
            law_asking_stops_at_first_answer(rest, k - 1);
        }
    }
}

/// The answer the plugins give to an event, asked in plugin order: the
/// first plugin that answers decides, and without one there is none.
pub fn first_answer<T>(answers: Vec<Option<T>>) -> (r: Option<T>)
    ensures
        r == first_some(answers@),
{
    let mut list = answers;
    let ghost all = list@;
    let mut i: usize = 0;
    while i < list.len()
        invariant
            list@ == all,
            all == answers@,
            i <= all.len(),
            forall|j: int| 0 <= j < i ==> all[j] is None,
        decreases all.len() - i,
    {
        if list[i].is_some() {
            proof {
                lemma_first_some_skip(all, i as int);
                assert(all.skip(i as int)[0] == all[i as int]);
                assert(all.skip(i as int).len() > 0);
                assert(first_some(all.skip(i as int)) == all[i as int]);
            }
            return list.remove(i);
        }
        i = i + 1;
    }
    proof {
        lemma_first_some_skip(all, i as int);
    }
    None
}

} // verus!
