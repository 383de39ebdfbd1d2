//! The table that pairs each request in flight with the party waiting for its
//! response.
//!
//! An entry is made before the request is sent and leaves when the response
//! with its id arrives, or when the connection fails and every waiter is told
//! so. A waiter is whatever the caller uses to receive one response; the table
//! only keeps it.

use std::collections::HashMap;
use vstd::prelude::*;
use vstd::std_specs::iter::IteratorSpec;

verus! {

broadcast use vstd::std_specs::hash::group_hash_axioms;

/// The requests in flight: for each id, the waiter that its response goes to.
pub struct Correlator<W> {
    waiters: HashMap<u32, W>,
}

impl<W> View for Correlator<W> {
    type V = Map<u32, W>;

    /// The waiter registered under each id in flight.
    closed spec fn view(&self) -> Map<u32, W> {
        self.waiters@
    }
}

/// Whether `listing` names every entry of `table` exactly once, and nothing
/// else.
pub open spec fn lists<W>(listing: Seq<(u32, W)>, table: Map<u32, W>) -> bool {
    &&& listing.len() == table.len()
    &&& forall|i: int, j: int|
        0 <= i < j < listing.len() ==> (#[trigger] listing[i]).0 != (#[trigger] listing[j]).0
    &&& forall|i: int|
        0 <= i < listing.len() ==> table.contains_pair(
            (#[trigger] listing[i]).0,
            listing[i].1,
        )
    &&& forall|id: u32|
        table.contains_key(id) ==> exists|i: int|
            0 <= i < listing.len() && (#[trigger] listing[i]).0 == id
}

impl<W> Correlator<W> {
    /// A table with no request in flight.
    pub fn new() -> (table: Self)
        ensures
            table@ == Map::<u32, W>::empty(),
    {
        Correlator { waiters: HashMap::new() }
    }

    /// The number of requests in flight.
    pub fn len(&self) -> (n: usize)
        ensures
            n == self@.len(),
            self@.dom().finite(),
    {
        self.waiters.len()
    }

    /// Whether no request is in flight.
    pub fn is_empty(&self) -> (out: bool)
        ensures
            out == (self@ == Map::<u32, W>::empty()),
    {
        let out = self.waiters.is_empty();
        assert(self@.is_empty() ==> self@ =~= Map::<u32, W>::empty());
        out
    }

    /// Whether a request with this id is in flight.
    pub fn contains(&self, id: u32) -> (out: bool)
        ensures
            out == self@.contains_key(id),
    {
        self.waiters.contains_key(&id)
    }

    /// Enters `waiter` under `id`.
    ///
    /// An id that is still in flight is not taken again: the table stays as it
    /// is and the waiter comes back.
    pub fn register(&mut self, id: u32, waiter: W) -> (out: Result<(), W>)
        ensures
            match out {
                Ok(()) => !old(self)@.contains_key(id) && final(self)@ == old(self)@.insert(
                    id,
                    waiter,
                ),
                Err(back) => old(self)@.contains_key(id) && back == waiter && final(self)@ == old(
                    self,
                )@,
            },
    {
        if self.waiters.contains_key(&id) {
            Err(waiter)
        } else {
            let _ = self.waiters.insert(id, waiter);
            Ok(())
        }
    }

    /// Takes out the waiter registered under `id`, if there is one.
    ///
    /// Whatever the outcome, no entry for `id` is left.
    pub fn resolve(&mut self, id: u32) -> (out: Option<W>)
        ensures
            out == (if old(self)@.contains_key(id) {
                Some(old(self)@[id])
            } else {
                None::<W>
            }),
            final(self)@ == old(self)@.remove(id),
            !final(self)@.contains_key(id),
    {
        self.waiters.remove(&id)
    }

    /// The ids in flight, each once, in no particular order.
    pub fn ids(&self) -> (out: Vec<u32>)
        ensures
            out@.no_duplicates(),
            out@.to_set() == self@.dom(),
    {
        let mut out: Vec<u32> = Vec::new();
        let ghost all = vstd::std_specs::hash::spec_keys_iter(&self.waiters).remaining();
        for id in iter: self.waiters.keys()
            invariant
                iter.seq() == all,
                out@.len() == iter.index(),
                forall|j: int| 0 <= j < out@.len() ==> out@[j] == *iter.seq()[j],
        {
            out.push(*id);
        }
        assert(out@ =~= all.unref());
        out
    }

    /// Takes every waiter out of the table, each with its id, in no
    /// particular order.
    pub fn drain(&mut self) -> (out: Vec<(u32, W)>)
        ensures
            final(self)@ == Map::<u32, W>::empty(),
            lists(out@, old(self)@),
    {
        let ids = self.ids();
        let ghost before = self@;
        let mut out: Vec<(u32, W)> = Vec::new();
        let mut i: usize = 0;
        proof {
            ids@.unique_seq_to_set();
        }
        while i < ids.len()
            invariant
                i <= ids@.len(),
                ids@.no_duplicates(),
                ids@.to_set() == before.dom(),
                ids@.len() == before.len(),
                out@.len() == i,
                forall|j: int|
                    0 <= j < i ==> (#[trigger] out@[j]).0 == ids@[j] && out@[j].1 == before[ids@[j]],
                forall|id: u32|
                    self@.contains_key(id) <==> before.contains_key(id) && !ids@.take(
                        i as int,
                    ).contains(id),
                forall|id: u32| self@.contains_key(id) ==> self@[id] == before[id],
            decreases ids@.len() - i,
        {
            let id = ids[i];
            assert(ids@.to_set().contains(id));
            assert(!ids@.take(i as int).contains(id));
            let ghost held = self@;
            match self.waiters.remove(&id) {
                Some(waiter) => {
                    out.push((id, waiter));
                },
                None => {
                    assert(false);
                },
            }
            let ghost seen = ids@.take(i as int);
            let ghost grown = ids@.take(i + 1);
            assert(grown =~= seen.push(id));
            assert(self@ == held.remove(id));
            assert forall|other: u32|
                self@.contains_key(other) <==> before.contains_key(other) && !grown.contains(
                    other,
                ) by {
                assert(held.contains_key(other) <==> before.contains_key(other) && !seen.contains(
                    other,
                ));
                assert(grown[i as int] == id);
                if seen.contains(other) {
                    let k = choose|k: int| 0 <= k < seen.len() && seen[k] == other;
                    assert(grown[k] == other);
                }
                if grown.contains(other) && other != id {
                    let k = choose|k: int| 0 <= k < grown.len() && grown[k] == other;
                    assert(seen[k] == other);
                }
            }
            i += 1;
        }
        assert(ids@.take(i as int) =~= ids@);
        assert forall|id: u32| !self@.contains_key(id) by {
            if before.contains_key(id) {
                assert(ids@.to_set().contains(id));
            }
        }
        assert(self@ =~= Map::<u32, W>::empty());
        assert forall|id: u32| before.contains_key(id) implies exists|k: int|
            0 <= k < out@.len() && (#[trigger] out@[k]).0 == id by {
            assert(ids@.to_set().contains(id));
            let k = choose|k: int| 0 <= k < ids@.len() && ids@[k] == id;
            assert(out@[k].0 == id);
        }
        out
    }
}

} // verus!
