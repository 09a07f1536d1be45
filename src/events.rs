//! Inspection of the tail of a chain's event log.
use vstd::prelude::*;

use crate::chain::{same_account, ChainState, Event};

verus! {

/// The last `n` events of `s`, oldest first; all of them when there are
/// fewer than `n`.
pub open spec fn tail(s: Seq<Event>, n: nat) -> Seq<Event> {
    if n >= s.len() {
        s
    } else {
        s.subrange(s.len() - n, s.len() as int)
    }
}

/// Whether two events are the same.
pub fn same_event(a: &Event, b: &Event) -> (r: bool)
    ensures
        r == (*a == *b),
{
    match (a, b) {
        (
            Event::ReserveTransferred { asset: a1, from: f1, dest: d1, beneficiary: b1, amount: m1 },
            Event::ReserveTransferred { asset: a2, from: f2, dest: d2, beneficiary: b2, amount: m2 },
        ) => *a1 == *a2 && *d1 == *d2 && *m1 == *m2 && same_account(f1, f2) && same_account(b1, b2),
        (
            Event::Deposited { asset: a1, origin: o1, owner: w1, amount: m1 },
            Event::Deposited { asset: a2, origin: o2, owner: w2, amount: m2 },
        ) => *a1 == *a2 && *o1 == *o2 && *m1 == *m2 && same_account(w1, w2),
        _ => false,
    }
}

/// The last `n` events that `chain` recorded, oldest first.
pub fn last_events(chain: &ChainState, n: usize) -> (r: Vec<Event>)
    ensures
        r@ == tail(chain.events@, n as nat),
{
    let len = chain.events.len();
    let start: usize = if n >= len {
        0
    } else {
        len - n
    };
    let mut r: Vec<Event> = Vec::new();
    let mut i: usize = start;
    while i < len
        invariant
            len == chain.events@.len(),
            start <= i <= len,
            r@ == chain.events@.subrange(start as int, i as int),
        decreases len - i,
    {
        r.push(chain.events[i]);
        i = i + 1;
        assert(r@ =~= chain.events@.subrange(start as int, i as int));
    }
    assert(chain.events@.subrange(0, len as int) =~= chain.events@);
    r
}

/// Whether the last `e.len()` events that `chain` recorded are exactly `e`,
/// in order.
pub fn expect_events(chain: &ChainState, e: Vec<Event>) -> (r: bool)
    ensures
        r == (tail(chain.events@, e@.len()) == e@),
{
    let last = last_events(chain, e.len());
    if last.len() != e.len() {
        return false;
    }
    let mut i: usize = 0;
    while i < e.len()
        invariant
            last@.len() == e@.len(),
            last@ == tail(chain.events@, e@.len()),
            0 <= i <= e@.len(),
            forall|j: int| 0 <= j < i ==> last@[j] == e@[j],
        decreases e@.len() - i,
    {
        if !same_event(&last[i], &e[i]) {
            assert(last@[i as int] != e@[i as int]);
            return false;
        }
        i = i + 1;
    }
    assert(last@ =~= e@);
    true
}

/// Asking twice for the same tail of an unchanged log yields the same
/// events.
pub proof fn lemma_event_tail_idempotent(chain: ChainState, n: usize, first: Seq<Event>, second: Seq<Event>)
    requires
        first == tail(chain.events@, n as nat),
        second == tail(chain.events@, n as nat),
    ensures
        first == second,
        first.len() == if (n as nat) < chain.events@.len() { n as nat } else { chain.events@.len() },
{
}

} // verus!
