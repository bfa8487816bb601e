//! The set of the registered owners of references.
//!
//! A value that owns references and lives in a box or in a growable
//! container fits no stack slot. It is registered here by its address for
//! as long as it lives, and the collector traces what is registered once in
//! each pass. Whoever registers an address takes it out again: an address
//! that stays in keeps dead things alive, and one that leaves early lets
//! the collector miss live ones.

use crate::jsapi::{JSTracer, TraceEdge, TracerEntry};
use vstd::prelude::*;

verus! {

/// `s` without the last of its entries that is `x`; `s` itself where none
/// is.
pub open spec fn remove_most_recent(s: Seq<u64>, x: u64) -> Seq<u64>
    decreases s.len(),
{
    if s.len() == 0 {
        s
    } else if s.last() == x {
        s.drop_last()
    } else {
        remove_most_recent(s.drop_last(), x).push(s.last())
    }
}

/// The report that asks for the owner registered at `address` to be traced.
pub open spec fn traceable_edge(address: u64) -> TraceEdge {
    TraceEdge { entry: TracerEntry::Traceable, location: address, thing: 0 }
}

/// Where no entry is `x`, nothing is removed.
pub proof fn lemma_remove_absent(s: Seq<u64>, x: u64)
    requires
        !s.contains(x),
    ensures
        remove_most_recent(s, x) == s,
    decreases s.len(),
{
    if s.len() > 0 {
        assert(s[s.len() - 1] != x);
        assert forall|i: int| 0 <= i < s.drop_last().len() implies s.drop_last()[i] != x by {
            assert(s[i] == s.drop_last()[i]);
        }
        lemma_remove_absent(s.drop_last(), x);
        assert(s.drop_last().push(s.last()) == s);
    }
}

/// The entry removed is the one at the place of the last `x`.
pub proof fn lemma_remove_at(s: Seq<u64>, x: u64, i: int)
    requires
        0 <= i < s.len(),
        s[i] == x,
        forall|j: int| i < j < s.len() ==> s[j] != x,
    ensures
        remove_most_recent(s, x) == s.remove(i),
    decreases s.len(),
{
    if i == s.len() - 1 {
        assert(s.remove(i) == s.drop_last());
    } else {
        assert(s[s.len() - 1] != x);
        lemma_remove_at(s.drop_last(), x, i);
        assert(s.drop_last().remove(i).push(s.last()) == s.remove(i));
    }
}

/// An address that is registered and taken out again at once leaves the set
/// as it was.
pub proof fn lemma_remove_undoes_add(s: Seq<u64>, p: u64)
    ensures
        remove_most_recent(s.push(p), p) == s,
        remove_most_recent(s.push(p), p).len() == s.len(),
{
    assert(s.push(p).drop_last() == s);
}

/// Two different addresses that are registered one after the other and
/// taken out, the later first or the earlier first, leave the set as it
/// was. Of two registrations of one address, the later leaves first.
pub proof fn lemma_remove_pairs(s: Seq<u64>, p: u64, q: u64)
    ensures
        p != q ==> remove_most_recent(remove_most_recent(s.push(p).push(q), q), p) == s,
        p != q ==> remove_most_recent(remove_most_recent(s.push(p).push(q), p), q) == s,
        remove_most_recent(s.push(p).push(p), p) == s.push(p),
{
    let sp = s.push(p);
    let spq = sp.push(q);
    assert(spq.drop_last() == sp);
    assert(sp.drop_last() == s);
    assert(sp.push(p).drop_last() == sp);
    lemma_remove_undoes_add(s, p);
    if p != q {
        assert(spq.last() == q);
        assert(remove_most_recent(spq, p) == remove_most_recent(sp, p).push(q));
        assert(remove_most_recent(spq, p) == s.push(q));
        assert(s.push(q).drop_last() == s);
    }
}

/// Holds the addresses of the owners of references that are to be traced
/// as roots, in the order in which they were registered.
pub struct RootedTraceableSet {
    set: Vec<u64>,
}

impl View for RootedTraceableSet {
    type V = Seq<u64>;

    closed spec fn view(&self) -> Seq<u64> {
        self.set@
    }
}

impl RootedTraceableSet {
    /// A set in which nothing is registered.
    pub fn new() -> (set: RootedTraceableSet)
        ensures
            set@ == Seq::<u64>::empty(),
    {
        RootedTraceableSet { set: Vec::new() }
    }

    /// The number of registrations.
    pub fn len(&self) -> (n: usize)
        ensures
            n == self@.len(),
    {
        self.set.len()
    }

    /// Registers the owner at the address `traceable`.
    pub fn add(&mut self, traceable: u64)
        ensures
            final(self)@ == old(self)@.push(traceable),
    {
        self.set.push(traceable);
    }

    /// Takes the most recent registration of the address `traceable` out.
    /// Where the address is not registered, nothing changes.
    pub fn remove(&mut self, traceable: u64)
        ensures
            final(self)@ == remove_most_recent(old(self)@, traceable),
    {
        let ghost before = self.set@;
        let mut idx: usize = self.set.len();
        while idx > 0
            invariant
                self.set@ == before,
                before == old(self)@,
                idx <= self.set@.len(),
                forall|j: int| idx <= j < self.set@.len() ==> self.set@[j] != traceable,
            decreases idx,
        {
            idx = idx - 1;
            if self.set[idx] == traceable {
                proof {
                    lemma_remove_at(self.set@, traceable, idx as int);
                }
                self.set.remove(idx);
                return ;
            }
        }
        proof {
            lemma_remove_absent(self.set@, traceable);
        }
    }

    /// Asks `trc` for the tracing of each registered owner, in the order of
    /// the registrations.
    pub fn trace(&self, trc: &mut JSTracer)
        ensures
            final(trc)@ == old(trc)@ + self@.map_values(|a: u64| traceable_edge(a)),
    {
        let ghost before = trc@;
        let mut i: usize = 0;
        while i < self.set.len()
            invariant
                i <= self.set@.len(),
                trc@ == before + self.set@.take(i as int).map_values(|a: u64| traceable_edge(a)),
            decreases self.set@.len() - i,
        {
            trc.visit(
                TraceEdge { entry: TracerEntry::Traceable, location: self.set[i], thing: 0 },
            );
            proof {
                assert(self.set@.take(i + 1) == self.set@.take(i as int).push(self.set@[i as int]));
                assert(self.set@.take(i + 1).map_values(|a: u64| traceable_edge(a))
                    == self.set@.take(i as int).map_values(|a: u64| traceable_edge(a)).push(
                    traceable_edge(self.set@[i as int]),
                ));
            }
            i = i + 1;
        }
        proof {
            assert(self.set@.take(self.set@.len() as int) == self.set@);
        }
    }
}

/// Traces what is registered in `set`: what the collector calls once in
/// each pass.
pub fn trace_traceables(set: &RootedTraceableSet, trc: &mut JSTracer)
    ensures
        final(trc)@ == old(trc)@ + set@.map_values(|a: u64| traceable_edge(a)),
{
    set.trace(trc);
}

} // verus!
