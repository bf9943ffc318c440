//! A snapshot of room state keyed by event type and state key.
use vstd::prelude::*;
use crate::events::{type_eq, EventType, Pdu};

verus! {

/// One entry of a state snapshot.
#[derive(Debug)]
pub struct StateEntry {
    pub event_type: EventType,
    pub state_key: String,
    pub event: Pdu,
}

/// Whether `e` stands under the key `(t, k)`.
pub open spec fn entry_has_key(e: StateEntry, t: EventType, k: Seq<char>) -> bool {
    type_eq(e.event_type, t) && e.state_key@ == k
}

/// The event of the first entry of `s` under `(t, k)`.
pub open spec fn lookup_entries(s: Seq<StateEntry>, t: EventType, k: Seq<char>) -> Option<Pdu>
    decreases s.len(),
{
    if s.len() == 0 {
        None
    } else if entry_has_key(s[0], t, k) {
        Some(s[0].event)
    } else {
        lookup_entries(s.drop_first(), t, k)
    }
}

proof fn lemma_lookup_skip(s: Seq<StateEntry>, t: EventType, k: Seq<char>, i: int)
    requires
        0 <= i <= s.len(),
        forall|j: int| 0 <= j < i ==> !entry_has_key(#[trigger] s[j], t, k),
    ensures
        lookup_entries(s, t, k) == lookup_entries(s.subrange(i, s.len() as int), t, k),
    decreases i,
{
    if i > 0 {
        assert(s.drop_first().subrange(i - 1, s.drop_first().len() as int) =~= s.subrange(
            i,
            s.len() as int,
        ));
        assert(!entry_has_key(s[0], t, k));
        lemma_lookup_skip(s.drop_first(), t, k, i - 1);
    } else {
        assert(s.subrange(0, s.len() as int) =~= s);
    }
}

/// A state snapshot: at most one event is seen under each `(type, state_key)`;
/// the entry added last wins.
#[derive(Debug)]
pub struct StateMap {
    entries: Vec<StateEntry>,
}

impl StateMap {
    /// The event stored under `(t, k)`, if any.
    pub open spec fn spec_get(&self, t: EventType, k: Seq<char>) -> Option<Pdu> {
        lookup_entries(self.spec_entries(), t, k)
    }

    pub closed spec fn spec_entries(&self) -> Seq<StateEntry> {
        self.entries@
    }

    /// An empty snapshot.
    pub fn new() -> (r: StateMap)
        ensures
            forall|t: EventType, k: Seq<char>| r.spec_get(t, k) is None,
    {
        let r = StateMap { entries: Vec::new() };
        assert forall|t: EventType, k: Seq<char>| r.spec_get(t, k) is None by {
            assert(r.spec_entries().len() == 0);
        }
        r
    }

    /// Stores `event` under `(event_type, state_key)`, in place of what was there.
    pub fn insert(&mut self, event_type: EventType, state_key: String, event: Pdu)
        ensures
            forall|t: EventType, k: Seq<char>|
                #![trigger final(self).spec_get(t, k)]
                final(self).spec_get(t, k) == if type_eq(event_type, t) && state_key@ == k {
                    Some(event)
                } else {
                    old(self).spec_get(t, k)
                },
    {
        let ghost old_entries = self.entries@;
        let ghost et = event_type;
        let ghost sk = state_key;
        let ghost ev = event;
        self.entries.insert(0, StateEntry { event_type, state_key, event });
        assert forall|t: EventType, k: Seq<char>|
            #![trigger self.spec_get(t, k)]
            self.spec_get(t, k) == if type_eq(et, t) && sk@ == k {
                Some(ev)
            } else {
                lookup_entries(old_entries, t, k)
            } by {
            assert(self.entries@.drop_first() =~= old_entries);
        }
    }

    /// The event stored under `(t, k)`, if any.
    pub fn get(&self, t: &EventType, k: &str) -> (r: Option<&Pdu>)
        ensures
            crate::events::deref_pdu(r) == self.spec_get(*t, k@),
    {
        let mut i: usize = 0;
        while i < self.entries.len()
            invariant
                i <= self.entries@.len(),
                forall|j: int| 0 <= j < i ==> !entry_has_key(#[trigger] self.entries@[j], *t, k@),
            decreases self.entries@.len() - i,
        {
            let e = &self.entries[i];
            if e.event_type.same_as(t) && crate::text::str_eq(e.state_key.as_str(), k) {
                proof {
                    lemma_lookup_skip(self.entries@, *t, k@, i as int);
                }
                return Some(&e.event);
            }
            i = i + 1;
        }
        proof {
            lemma_lookup_skip(self.entries@, *t, k@, i as int);
        }
        None
    }
}

} // verus!
