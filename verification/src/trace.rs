//! Tracing: how a value reports to the collector's visitor each reference
//! into the engine's heap that it owns.

use crate::jsapi::{
    BigIntPtr, FunctionPtr, JSTracer, ObjectPtr, PropertyDescriptor, PropertyKey, ScriptPtr,
    StringPtr, SymbolPtr, TraceEdge, TracerEntry,
};
use crate::jsgc::{Heap, ValueArray};
use crate::jsval::JSVal;
use std::collections::VecDeque;
use std::rc::Rc;
use std::sync::Arc;
use vstd::prelude::*;

verus! {

/// Types that can be traced.
///
/// `edges` is what the value owns: one report for each reference, in the
/// order of the fields and elements that hold them. `trace` gives the
/// visitor exactly those reports. A type that owns a reference and does
/// not report it lets the collector free what is still in use.
pub trait Traceable {
    /// The reports of the references that the value owns. A type that says
    /// nothing owns none.
    open spec fn edges(&self) -> Seq<TraceEdge> {
        Seq::empty()
    }

    /// Reports to `trc` each reference that `self` owns.
    fn trace(&self, trc: &mut JSTracer)
        ensures
            final(trc)@ == old(trc)@ + self.edges(),
    ;
}

impl Traceable for Heap<FunctionPtr> {
    /// One report where the cell holds a reference, none where it holds
    /// null.
    open spec fn edges(&self) -> Seq<TraceEdge> {
        if self.value().addr == 0 {
            Seq::empty()
        } else {
            seq![
                TraceEdge {
                    entry: TracerEntry::Function,
                    location: self.location(),
                    thing: self.value().addr,
                },
            ]
        }
    }

    fn trace(&self, trc: &mut JSTracer) {
        if self.get().is_null() {
            return ;
        }
        trc.visit(
            TraceEdge {
                entry: TracerEntry::Function,
                location: self.get_unsafe(),
                thing: self.get().addr,
            },
        );
    }
}

impl Traceable for Heap<ObjectPtr> {
    /// One report where the cell holds a reference, none where it holds
    /// null.
    open spec fn edges(&self) -> Seq<TraceEdge> {
        if self.value().addr == 0 {
            Seq::empty()
        } else {
            seq![
                TraceEdge {
                    entry: TracerEntry::Object,
                    location: self.location(),
                    thing: self.value().addr,
                },
            ]
        }
    }

    fn trace(&self, trc: &mut JSTracer) {
        if self.get().is_null() {
            return ;
        }
        trc.visit(
            TraceEdge {
                entry: TracerEntry::Object,
                location: self.get_unsafe(),
                thing: self.get().addr,
            },
        );
    }
}

impl Traceable for Heap<SymbolPtr> {
    /// One report where the cell holds a reference, none where it holds
    /// null.
    open spec fn edges(&self) -> Seq<TraceEdge> {
        if self.value().addr == 0 {
            Seq::empty()
        } else {
            seq![
                TraceEdge {
                    entry: TracerEntry::Symbol,
                    location: self.location(),
                    thing: self.value().addr,
                },
            ]
        }
    }

    fn trace(&self, trc: &mut JSTracer) {
        if self.get().is_null() {
            return ;
        }
        trc.visit(
            TraceEdge {
                entry: TracerEntry::Symbol,
                location: self.get_unsafe(),
                thing: self.get().addr,
            },
        );
    }
}

impl Traceable for Heap<BigIntPtr> {
    /// One report where the cell holds a reference, none where it holds
    /// null.
    open spec fn edges(&self) -> Seq<TraceEdge> {
        if self.value().addr == 0 {
            Seq::empty()
        } else {
            seq![
                TraceEdge {
                    entry: TracerEntry::BigInt,
                    location: self.location(),
                    thing: self.value().addr,
                },
            ]
        }
    }

    fn trace(&self, trc: &mut JSTracer) {
        if self.get().is_null() {
            return ;
        }
        trc.visit(
            TraceEdge {
                entry: TracerEntry::BigInt,
                location: self.get_unsafe(),
                thing: self.get().addr,
            },
        );
    }
}

impl Traceable for Heap<ScriptPtr> {
    /// One report where the cell holds a reference, none where it holds
    /// null.
    open spec fn edges(&self) -> Seq<TraceEdge> {
        if self.value().addr == 0 {
            Seq::empty()
        } else {
            seq![
                TraceEdge {
                    entry: TracerEntry::Script,
                    location: self.location(),
                    thing: self.value().addr,
                },
            ]
        }
    }

    fn trace(&self, trc: &mut JSTracer) {
        if self.get().is_null() {
            return ;
        }
        trc.visit(
            TraceEdge {
                entry: TracerEntry::Script,
                location: self.get_unsafe(),
                thing: self.get().addr,
            },
        );
    }
}

impl Traceable for Heap<StringPtr> {
    /// One report where the cell holds a reference, none where it holds
    /// null.
    open spec fn edges(&self) -> Seq<TraceEdge> {
        if self.value().addr == 0 {
            Seq::empty()
        } else {
            seq![
                TraceEdge {
                    entry: TracerEntry::String,
                    location: self.location(),
                    thing: self.value().addr,
                },
            ]
        }
    }

    fn trace(&self, trc: &mut JSTracer) {
        if self.get().is_null() {
            return ;
        }
        trc.visit(
            TraceEdge {
                entry: TracerEntry::String,
                location: self.get_unsafe(),
                thing: self.get().addr,
            },
        );
    }
}

impl Traceable for Heap<JSVal> {
    /// One report, whatever the value is.
    open spec fn edges(&self) -> Seq<TraceEdge> {
        seq![
            TraceEdge {
                entry: TracerEntry::Value,
                location: self.location(),
                thing: self.value().asBits_,
            },
        ]
    }

    fn trace(&self, trc: &mut JSTracer) {
        trc.visit(
            TraceEdge {
                entry: TracerEntry::Value,
                location: self.get_unsafe(),
                thing: self.get().asBits_,
            },
        );
    }
}

impl Traceable for JSVal {
    /// One report of the value where it lies, whatever the value is.
    open spec fn edges(&self) -> Seq<TraceEdge> {
        seq![TraceEdge { entry: TracerEntry::ValueRoot, location: 0, thing: self.asBits_ }]
    }

    fn trace(&self, trc: &mut JSTracer) {
        trc.visit(TraceEdge { entry: TracerEntry::ValueRoot, location: 0, thing: self.asBits_ });
    }
}

impl Traceable for Heap<PropertyKey> {
    /// One report, whatever the key is.
    open spec fn edges(&self) -> Seq<TraceEdge> {
        seq![
            TraceEdge {
                entry: TracerEntry::Id,
                location: self.location(),
                thing: self.value().asBits_,
            },
        ]
    }

    fn trace(&self, trc: &mut JSTracer) {
        trc.visit(
            TraceEdge {
                entry: TracerEntry::Id,
                location: self.get_unsafe(),
                thing: self.get().asBits_,
            },
        );
    }
}

impl Traceable for PropertyDescriptor {
    /// One report of the descriptor where it lies; the word reported is
    /// that of its value.
    open spec fn edges(&self) -> Seq<TraceEdge> {
        seq![
            TraceEdge {
                entry: TracerEntry::PropertyDescriptor,
                location: 0,
                thing: self.value_.asBits_,
            },
        ]
    }

    fn trace(&self, trc: &mut JSTracer) {
        trc.visit(
            TraceEdge {
                entry: TracerEntry::PropertyDescriptor,
                location: 0,
                thing: self.value_.asBits_,
            },
        );
    }
}

impl<T: Traceable> Traceable for Rc<T> {
    open spec fn edges(&self) -> Seq<TraceEdge> {
        (**self).edges()
    }

    fn trace(&self, trc: &mut JSTracer) {
        let inner: &T = &**self;
        inner.trace(trc);
        assert(inner.edges() == self.edges());
    }
}

impl<T: Traceable> Traceable for Arc<T> {
    open spec fn edges(&self) -> Seq<TraceEdge> {
        (**self).edges()
    }

    fn trace(&self, trc: &mut JSTracer) {
        let inner: &T = &**self;
        inner.trace(trc);
        assert(inner.edges() == self.edges());
    }
}

impl<T: Traceable> Traceable for Box<T> {
    open spec fn edges(&self) -> Seq<TraceEdge> {
        (**self).edges()
    }

    fn trace(&self, trc: &mut JSTracer) {
        let inner: &T = &**self;
        inner.trace(trc);
        assert(inner.edges() == self.edges());
    }
}

impl<T: Traceable> Traceable for Option<T> {
    open spec fn edges(&self) -> Seq<TraceEdge> {
        match self {
            Some(t) => t.edges(),
            None => Seq::empty(),
        }
    }

    fn trace(&self, trc: &mut JSTracer) {
        match self {
            Some(t) => t.trace(trc),
            None => {},
        }
    }
}

impl<T: Traceable, E: Traceable> Traceable for Result<T, E> {
    open spec fn edges(&self) -> Seq<TraceEdge> {
        match self {
            Ok(t) => t.edges(),
            Err(e) => e.edges(),
        }
    }

    fn trace(&self, trc: &mut JSTracer) {
        match self {
            Ok(t) => t.trace(trc),
            Err(e) => e.trace(trc),
        }
    }
}

/// The reports of the items of a sequence, item after item.
pub open spec fn edges_of<T: Traceable>(items: Seq<T>) -> Seq<TraceEdge>
    decreases items.len(),
{
    if items.len() == 0 {
        Seq::empty()
    } else {
        edges_of(items.drop_last()) + items.last().edges()
    }
}

/// The reports of a sequence grow by those of the item that is added.
pub proof fn lemma_edges_of_push<T: Traceable>(items: Seq<T>, item: T)
    ensures
        edges_of(items.push(item)) == edges_of(items) + item.edges(),
{
    assert(items.push(item).drop_last() == items);
}

/// The number of reports of a sequence is that of its items, added up.
pub open spec fn edge_count_of<T: Traceable>(items: Seq<T>) -> nat
    decreases items.len(),
{
    if items.len() == 0 {
        0
    } else {
        edge_count_of(items.drop_last()) + items.last().edges().len()
    }
}

pub proof fn lemma_edge_count_of<T: Traceable>(items: Seq<T>)
    ensures
        edges_of(items).len() == edge_count_of(items),
    decreases items.len(),
{
    if items.len() > 0 {
        lemma_edge_count_of(items.drop_last());
    }
}

/// Reports the references of the items of a slice, item after item.
pub fn trace_slice<T: Traceable>(items: &[T], trc: &mut JSTracer)
    ensures
        final(trc)@ == old(trc)@ + edges_of(items@),
{
    let ghost before = trc@;
    let mut i: usize = 0;
    while i < items.len()
        invariant
            i <= items.len(),
            trc@ == before + edges_of(items@.take(i as int)),
        decreases items.len() - i,
    {
        items[i].trace(trc);
        proof {
            lemma_edges_of_push(items@.take(i as int), items@[i as int]);
            assert(items@.take(i as int).push(items@[i as int]) == items@.take(i + 1));
        }
        i = i + 1;
    }
    proof {
        assert(items@.take(items@.len() as int) == items@);
    }
}

impl<T: Traceable> Traceable for Vec<T> {
    open spec fn edges(&self) -> Seq<TraceEdge> {
        edges_of(self@)
    }

    fn trace(&self, trc: &mut JSTracer) {
        trace_slice(self.as_slice(), trc);
    }
}

impl<T: Traceable> Traceable for VecDeque<T> {
    open spec fn edges(&self) -> Seq<TraceEdge> {
        edges_of(self@)
    }

    fn trace(&self, trc: &mut JSTracer) {
        let ghost before = trc@;
        let mut i: usize = 0;
        while i < self.len()
            invariant
                i <= self@.len(),
                trc@ == before + edges_of(self@.take(i as int)),
            decreases self@.len() - i,
        {
            self[i].trace(trc);
            proof {
                lemma_edges_of_push(self@.take(i as int), self@[i as int]);
                assert(self@.take(i as int).push(self@[i as int]) == self@.take(i + 1));
            }
            i = i + 1;
        }
        proof {
            assert(self@.take(self@.len() as int) == self@);
        }
    }
}

impl<T: Traceable, const COUNT: usize> Traceable for [T; COUNT] {
    open spec fn edges(&self) -> Seq<TraceEdge> {
        edges_of(self@)
    }

    fn trace(&self, trc: &mut JSTracer) {
        trace_slice(self.as_slice(), trc);
    }
}

impl<const N: usize> Traceable for ValueArray<N> {
    /// One report for each value of the array, in their order.
    open spec fn edges(&self) -> Seq<TraceEdge> {
        edges_of(self@)
    }

    fn trace(&self, trc: &mut JSTracer) {
        trace_slice(self.elements().as_slice(), trc);
    }
}

impl Traceable for () {
    open spec fn edges(&self) -> Seq<TraceEdge> {
        Seq::empty()
    }

    fn trace(&self, trc: &mut JSTracer) {
    }
}

impl<A: Traceable> Traceable for (A,) {
    open spec fn edges(&self) -> Seq<TraceEdge> {
        self.0.edges()
    }

    fn trace(&self, trc: &mut JSTracer) {
        self.0.trace(trc);
    }
}

impl<A: Traceable, B: Traceable> Traceable for (A, B) {
    open spec fn edges(&self) -> Seq<TraceEdge> {
        self.0.edges() + self.1.edges()
    }

    fn trace(&self, trc: &mut JSTracer) {
        self.0.trace(trc);
        self.1.trace(trc);
    }
}

impl<A: Traceable, B: Traceable, C: Traceable> Traceable for (A, B, C) {
    open spec fn edges(&self) -> Seq<TraceEdge> {
        self.0.edges() + self.1.edges() + self.2.edges()
    }

    fn trace(&self, trc: &mut JSTracer) {
        self.0.trace(trc);
        self.1.trace(trc);
        self.2.trace(trc);
    }
}

impl<A: Traceable, B: Traceable, C: Traceable, D: Traceable> Traceable for (A, B, C, D) {
    open spec fn edges(&self) -> Seq<TraceEdge> {
        self.0.edges() + self.1.edges() + self.2.edges() + self.3.edges()
    }

    fn trace(&self, trc: &mut JSTracer) {
        self.0.trace(trc);
        self.1.trace(trc);
        self.2.trace(trc);
        self.3.trace(trc);
    }
}

impl<A: Traceable, B: Traceable, C: Traceable, D: Traceable, E: Traceable> Traceable for (A, B, C, D, E) {
    open spec fn edges(&self) -> Seq<TraceEdge> {
        self.0.edges() + self.1.edges() + self.2.edges() + self.3.edges() + self.4.edges()
    }

    fn trace(&self, trc: &mut JSTracer) {
        self.0.trace(trc);
        self.1.trace(trc);
        self.2.trace(trc);
        self.3.trace(trc);
        self.4.trace(trc);
    }
}

impl<A: Traceable, B: Traceable, C: Traceable, D: Traceable, E: Traceable, F: Traceable> Traceable for (A, B, C, D, E, F) {
    open spec fn edges(&self) -> Seq<TraceEdge> {
        self.0.edges() + self.1.edges() + self.2.edges() + self.3.edges() + self.4.edges() + self.5.edges()
    }

    fn trace(&self, trc: &mut JSTracer) {
        self.0.trace(trc);
        self.1.trace(trc);
        self.2.trace(trc);
        self.3.trace(trc);
        self.4.trace(trc);
        self.5.trace(trc);
    }
}

impl<A: Traceable, B: Traceable, C: Traceable, D: Traceable, E: Traceable, F: Traceable, G: Traceable> Traceable for (A, B, C, D, E, F, G) {
    open spec fn edges(&self) -> Seq<TraceEdge> {
        self.0.edges() + self.1.edges() + self.2.edges() + self.3.edges() + self.4.edges() + self.5.edges() + self.6.edges()
    }

    fn trace(&self, trc: &mut JSTracer) {
        self.0.trace(trc);
        self.1.trace(trc);
        self.2.trace(trc);
        self.3.trace(trc);
        self.4.trace(trc);
        self.5.trace(trc);
        self.6.trace(trc);
    }
}

impl<A: Traceable, B: Traceable, C: Traceable, D: Traceable, E: Traceable, F: Traceable, G: Traceable, H: Traceable> Traceable for (A, B, C, D, E, F, G, H) {
    open spec fn edges(&self) -> Seq<TraceEdge> {
        self.0.edges() + self.1.edges() + self.2.edges() + self.3.edges() + self.4.edges() + self.5.edges() + self.6.edges() + self.7.edges()
    }

    fn trace(&self, trc: &mut JSTracer) {
        self.0.trace(trc);
        self.1.trace(trc);
        self.2.trace(trc);
        self.3.trace(trc);
        self.4.trace(trc);
        self.5.trace(trc);
        self.6.trace(trc);
        self.7.trace(trc);
    }
}

impl<A: Traceable, B: Traceable, C: Traceable, D: Traceable, E: Traceable, F: Traceable, G: Traceable, H: Traceable, I: Traceable> Traceable for (A, B, C, D, E, F, G, H, I) {
    open spec fn edges(&self) -> Seq<TraceEdge> {
        self.0.edges() + self.1.edges() + self.2.edges() + self.3.edges() + self.4.edges() + self.5.edges() + self.6.edges() + self.7.edges() + self.8.edges()
    }

    fn trace(&self, trc: &mut JSTracer) {
        self.0.trace(trc);
        self.1.trace(trc);
        self.2.trace(trc);
        self.3.trace(trc);
        self.4.trace(trc);
        self.5.trace(trc);
        self.6.trace(trc);
        self.7.trace(trc);
        self.8.trace(trc);
    }
}

impl<A: Traceable, B: Traceable, C: Traceable, D: Traceable, E: Traceable, F: Traceable, G: Traceable, H: Traceable, I: Traceable, J: Traceable> Traceable for (A, B, C, D, E, F, G, H, I, J) {
    open spec fn edges(&self) -> Seq<TraceEdge> {
        self.0.edges() + self.1.edges() + self.2.edges() + self.3.edges() + self.4.edges() + self.5.edges() + self.6.edges() + self.7.edges() + self.8.edges() + self.9.edges()
    }

    fn trace(&self, trc: &mut JSTracer) {
        self.0.trace(trc);
        self.1.trace(trc);
        self.2.trace(trc);
        self.3.trace(trc);
        self.4.trace(trc);
        self.5.trace(trc);
        self.6.trace(trc);
        self.7.trace(trc);
        self.8.trace(trc);
        self.9.trace(trc);
    }
}

impl<A: Traceable, B: Traceable, C: Traceable, D: Traceable, E: Traceable, F: Traceable, G: Traceable, H: Traceable, I: Traceable, J: Traceable, K: Traceable> Traceable for (A, B, C, D, E, F, G, H, I, J, K) {
    open spec fn edges(&self) -> Seq<TraceEdge> {
        self.0.edges() + self.1.edges() + self.2.edges() + self.3.edges() + self.4.edges() + self.5.edges() + self.6.edges() + self.7.edges() + self.8.edges() + self.9.edges() + self.10.edges()
    }

    fn trace(&self, trc: &mut JSTracer) {
        self.0.trace(trc);
        self.1.trace(trc);
        self.2.trace(trc);
        self.3.trace(trc);
        self.4.trace(trc);
        self.5.trace(trc);
        self.6.trace(trc);
        self.7.trace(trc);
        self.8.trace(trc);
        self.9.trace(trc);
        self.10.trace(trc);
    }
}

impl<A: Traceable, B: Traceable, C: Traceable, D: Traceable, E: Traceable, F: Traceable, G: Traceable, H: Traceable, I: Traceable, J: Traceable, K: Traceable, L: Traceable> Traceable for (A, B, C, D, E, F, G, H, I, J, K, L) {
    open spec fn edges(&self) -> Seq<TraceEdge> {
        self.0.edges() + self.1.edges() + self.2.edges() + self.3.edges() + self.4.edges() + self.5.edges() + self.6.edges() + self.7.edges() + self.8.edges() + self.9.edges() + self.10.edges() + self.11.edges()
    }

    fn trace(&self, trc: &mut JSTracer) {
        self.0.trace(trc);
        self.1.trace(trc);
        self.2.trace(trc);
        self.3.trace(trc);
        self.4.trace(trc);
        self.5.trace(trc);
        self.6.trace(trc);
        self.7.trace(trc);
        self.8.trace(trc);
        self.9.trace(trc);
        self.10.trace(trc);
        self.11.trace(trc);
    }
}

impl Traceable for bool {
    open spec fn edges(&self) -> Seq<TraceEdge> {
        Seq::empty()
    }

    fn trace(&self, trc: &mut JSTracer) {
    }
}

impl Traceable for i8 {
    open spec fn edges(&self) -> Seq<TraceEdge> {
        Seq::empty()
    }

    fn trace(&self, trc: &mut JSTracer) {
    }
}

impl Traceable for i16 {
    open spec fn edges(&self) -> Seq<TraceEdge> {
        Seq::empty()
    }

    fn trace(&self, trc: &mut JSTracer) {
    }
}

impl Traceable for i32 {
    open spec fn edges(&self) -> Seq<TraceEdge> {
        Seq::empty()
    }

    fn trace(&self, trc: &mut JSTracer) {
    }
}

impl Traceable for i64 {
    open spec fn edges(&self) -> Seq<TraceEdge> {
        Seq::empty()
    }

    fn trace(&self, trc: &mut JSTracer) {
    }
}

impl Traceable for isize {
    open spec fn edges(&self) -> Seq<TraceEdge> {
        Seq::empty()
    }

    fn trace(&self, trc: &mut JSTracer) {
    }
}

impl Traceable for u8 {
    open spec fn edges(&self) -> Seq<TraceEdge> {
        Seq::empty()
    }

    fn trace(&self, trc: &mut JSTracer) {
    }
}

impl Traceable for u16 {
    open spec fn edges(&self) -> Seq<TraceEdge> {
        Seq::empty()
    }

    fn trace(&self, trc: &mut JSTracer) {
    }
}

impl Traceable for u32 {
    open spec fn edges(&self) -> Seq<TraceEdge> {
        Seq::empty()
    }

    fn trace(&self, trc: &mut JSTracer) {
    }
}

impl Traceable for u64 {
    open spec fn edges(&self) -> Seq<TraceEdge> {
        Seq::empty()
    }

    fn trace(&self, trc: &mut JSTracer) {
    }
}

impl Traceable for usize {
    open spec fn edges(&self) -> Seq<TraceEdge> {
        Seq::empty()
    }

    fn trace(&self, trc: &mut JSTracer) {
    }
}

impl Traceable for char {
    open spec fn edges(&self) -> Seq<TraceEdge> {
        Seq::empty()
    }

    fn trace(&self, trc: &mut JSTracer) {
    }
}

impl Traceable for String {
    open spec fn edges(&self) -> Seq<TraceEdge> {
        Seq::empty()
    }

    fn trace(&self, trc: &mut JSTracer) {
    }
}

impl<'a> Traceable for &'a str {
    open spec fn edges(&self) -> Seq<TraceEdge> {
        Seq::empty()
    }

    fn trace(&self, trc: &mut JSTracer) {
    }
}

} // verus!
