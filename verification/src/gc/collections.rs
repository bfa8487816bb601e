//! Rooted collections: owners of references that live in a box or in a
//! growable container, and are registered in the set of the traced owners
//! from their making to their end.

use crate::gc::root::Handle;
use crate::gc::trace::{remove_most_recent, RootedTraceableSet};
use crate::jsapi::{HandleValueArray, JSTracer, TraceEdge, TracerEntry};
use crate::jsgc::{BarrierCall, GCMethods, Heap};
use crate::jsval::{spec_undefined_value, JSVal, UndefinedValue};
use crate::trace::{edges_of, lemma_edges_of_push, Traceable};
use vstd::prelude::*;

verus! {

/// A vector of items to be rooted with `RootedVec`, and the address that
/// it is registered by. It is empty while it is not rooted.
pub struct RootableVec<T: Traceable> {
    v: Vec<T>,
    address: u64,
}

impl<T: Traceable> View for RootableVec<T> {
    type V = Seq<T>;

    closed spec fn view(&self) -> Seq<T> {
        self.v@
    }
}

impl<T: Traceable> RootableVec<T> {
    /// The address that the vector is registered by.
    pub closed spec fn address(&self) -> u64 {
        self.address
    }

    /// An empty vector that can be rooted later, to be registered under
    /// `address`.
    pub fn new_unrooted(address: u64) -> (root: RootableVec<T>)
        ensures
            root@ == Seq::<T>::empty(),
            root.address() == address,
    {
        RootableVec { v: Vec::new(), address }
    }
}

impl<T: Traceable> Traceable for RootableVec<T> {
    open spec fn edges(&self) -> Seq<TraceEdge> {
        edges_of(self@)
    }

    fn trace(&self, trc: &mut JSTracer) {
        self.v.trace(trc);
    }
}

/// A vector of items that is rooted for the lifetime 'a.
///
/// `root` is public so that contracts can speak of the vector after the
/// end of its rooting.
pub struct RootedVec<'a, T: Traceable> {
    pub root: &'a mut RootableVec<T>,
}

impl<'a, T: Traceable> View for RootedVec<'a, T> {
    type V = Seq<T>;

    open spec fn view(&self) -> Seq<T> {
        self.root@
    }
}

impl<'a, T: Traceable> RootedVec<'a, T> {
    /// The address that the vector is registered by.
    pub open spec fn address(&self) -> u64 {
        self.root.address()
    }

    /// Registers the empty vector `root` in `set`.
    pub fn new(set: &mut RootedTraceableSet, root: &'a mut RootableVec<T>) -> (vec: RootedVec<
        'a,
        T,
    >)
        requires
            old(root)@ == Seq::<T>::empty(),
        ensures
            final(set)@ == old(set)@.push(old(root).address()),
            vec@ == Seq::<T>::empty(),
            vec.address() == old(root).address(),
            *final(root) == *final(vec.root),
    {
        set.add(root.address);
        RootedVec { root }
    }

    /// Registers the empty vector `root` in `set` and moves `items` into
    /// it.
    pub fn from_iter(
        set: &mut RootedTraceableSet,
        root: &'a mut RootableVec<T>,
        items: Vec<T>,
    ) -> (vec: Self)
        requires
            old(root)@ == Seq::<T>::empty(),
        ensures
            final(set)@ == old(set)@.push(old(root).address()),
            vec@ == items@,
            vec.address() == old(root).address(),
            *final(root) == *final(vec.root),
    {
        set.add(root.address);
        let mut items = items;
        root.v.append(&mut items);
        RootedVec { root }
    }

    /// The items of the vector.
    pub fn as_vec(&self) -> (v: &Vec<T>)
        ensures
            v@ == self@,
    {
        &self.root.v
    }

    pub fn len(&self) -> (n: usize)
        ensures
            n == self@.len(),
    {
        self.root.v.len()
    }

    /// Adds `item` at the end of the vector.
    pub fn push(&mut self, item: T)
        ensures
            final(self)@ == old(self)@.push(item),
            final(self).address() == old(self).address(),
            *final(final(self).root) == *final(old(self).root),
    {
        self.root.v.push(item);
    }

    /// Takes all items out of the vector.
    pub fn clear(&mut self)
        ensures
            final(self)@ == Seq::<T>::empty(),
            final(self).address() == old(self).address(),
            *final(final(self).root) == *final(old(self).root),
    {
        self.root.v.clear();
    }

    /// Ends the rooting: empties the vector and takes its most recent
    /// registration out of `set`.
    pub fn unroot(self, set: &mut RootedTraceableSet)
        ensures
            final(set)@ == remove_most_recent(old(set)@, self.address()),
            final(self.root)@ == Seq::<T>::empty(),
            final(self.root).address() == self.address(),
    {
        self.root.v.clear();
        set.remove(self.root.address);
    }
}

impl<'a> RootedVec<'a, JSVal> {
    /// The values of the vector, as the engine's entry points take the
    /// arguments of a call.
    pub fn as_handle_value_array(&self) -> (array: HandleValueArray<'_>)
        ensures
            array@ == self@,
    {
        HandleValueArray::from_rooted_slice(self.root.v.as_slice())
    }
}

/// Roots an owner of references of any type, in a box of its own.
///
/// A single reference or value is better kept in a stack root. This is for
/// what fits no slot.
pub struct RootedTraceableBox<T: Traceable> {
    ptr: Box<T>,
    address: u64,
}

impl<T: Traceable> View for RootedTraceableBox<T> {
    type V = T;

    closed spec fn view(&self) -> T {
        *self.ptr
    }
}

impl<T: Traceable> RootedTraceableBox<T> {
    /// The address that the box is registered by.
    pub closed spec fn address(&self) -> u64 {
        self.address
    }

    /// Puts `traceable` into a box and registers the box in `set` under
    /// `address`.
    pub fn new(set: &mut RootedTraceableSet, address: u64, traceable: T) -> (rooted:
        RootedTraceableBox<T>)
        ensures
            final(set)@ == old(set)@.push(address),
            rooted@ == traceable,
            rooted.address() == address,
    {
        Self::from_box(set, address, Box::new(traceable))
    }

    /// Registers the box `boxed_traceable` in `set` under `address`.
    pub fn from_box(set: &mut RootedTraceableSet, address: u64, boxed_traceable: Box<T>) -> (rooted:
        RootedTraceableBox<T>)
        ensures
            final(set)@ == old(set)@.push(address),
            rooted@ == *boxed_traceable,
            rooted.address() == address,
    {
        set.add(address);
        RootedTraceableBox { ptr: boxed_traceable, address }
    }

    /// The address that the box is registered by.
    pub fn ptr(&self) -> (address: u64)
        ensures
            address == self.address(),
    {
        self.address
    }

    /// What is in the box.
    pub fn get_ref(&self) -> (t: &T)
        ensures
            *t == self@,
    {
        &*self.ptr
    }

    /// What is in the box, for changing it.
    pub fn get_mut(&mut self) -> (t: &mut T)
        ensures
            *t == old(self)@,
            final(self)@ == *final(t),
            final(self).address() == old(self).address(),
    {
        &mut *self.ptr
    }

    /// Ends the rooting: takes the most recent registration of the box out
    /// of `set` and gives what was in the box.
    pub fn unroot(self, set: &mut RootedTraceableSet) -> (traceable: Box<T>)
        ensures
            final(set)@ == remove_most_recent(old(set)@, self.address()),
            *traceable == self@,
    {
        set.remove(self.address);
        self.ptr
    }
}

impl<T: GCMethods + Copy> RootedTraceableBox<Heap<T>> where Heap<T>: Traceable {
    /// A read-only view of what the cell in the box holds.
    pub fn handle(&self) -> (h: Handle<'_, T>)
        ensures
            h.value() == self@.value(),
            h.location() == self@.location(),
    {
        Handle::new(self.ptr.marked())
    }
}

impl<T: Traceable> Traceable for RootedTraceableBox<T> {
    open spec fn edges(&self) -> Seq<TraceEdge> {
        self@.edges()
    }

    fn trace(&self, trc: &mut JSTracer) {
        (*self.ptr).trace(trc)
    }
}

/// The report of the value `v` in the heap cell at `location`.
pub open spec fn value_cell_edge(location: u64, v: JSVal) -> TraceEdge {
    TraceEdge { entry: TracerEntry::Value, location, thing: v.asBits_ }
}

/// Inline, fixed capacity buffer of JS values with GC barriers: `N` heap
/// cells of one word each, side by side from a base address on, of which
/// the first `len` are in use.
pub struct FixedValueArray<const N: usize> {
    elems: Vec<JSVal>,
    base: u64,
    len: usize,
}

impl<const N: usize> View for FixedValueArray<N> {
    type V = Seq<JSVal>;

    /// The values in use.
    closed spec fn view(&self) -> Seq<JSVal> {
        self.elems@.take(self.len as int)
    }
}

impl<const N: usize> FixedValueArray<N> {
    /// The cells are `N`, the cells in use are among them, the cells not
    /// in use hold undefined, and the last cell has an address.
    #[verifier::type_invariant]
    spec fn wf(&self) -> bool {
        &&& self.elems@.len() == N
        &&& self.len <= N
        &&& self.base + 8 * N <= u64::MAX
        &&& forall|i: int| self.len <= i < N ==> self.elems@[i] == spec_undefined_value()
    }

    /// The address of the first cell.
    pub closed spec fn base(&self) -> u64 {
        self.base
    }

    /// The address of the cell at `i`.
    pub open spec fn location(&self, i: int) -> u64 {
        (self.base() + 8 * i) as u64
    }

    /// Create a new empty array, with all slots initialized to Undefined.
    pub fn new(base: u64) -> (array: Self)
        requires
            base + 8 * N <= u64::MAX,
        ensures
            array@ == Seq::<JSVal>::empty(),
            array.base() == base,
    {
        let mut elems: Vec<JSVal> = Vec::new();
        let mut i: usize = 0;
        while i < N
            invariant
                i <= N,
                elems@.len() == i,
                forall|j: int| 0 <= j < i ==> elems@[j] == spec_undefined_value(),
            decreases N - i,
        {
            elems.push(UndefinedValue());
            i = i + 1;
        }
        Self { elems, base, len: 0 }
    }

    /// Current logical length.
    pub fn len(&self) -> (n: usize)
        ensures
            n == self@.len(),
            n <= N,
    {
        proof {
            use_type_invariant(self);
        }
        self.len
    }

    /// Max capacity (const generic).
    pub fn capacity(&self) -> (n: usize)
        ensures
            n == N,
    {
        N
    }

    /// Push a JSVal into the next slot, and give the barrier that the
    /// write into that cell raises. There is a free slot.
    pub fn push(&mut self, v: JSVal) -> (call: BarrierCall<JSVal>)
        requires
            old(self)@.len() < N,
        ensures
            final(self)@ == old(self)@.push(v),
            final(self).base() == old(self).base(),
            call == (BarrierCall {
                location: old(self).location(old(self)@.len() as int),
                prev: spec_undefined_value(),
                next: v,
            }),
    {
        proof {
            use_type_invariant(&*self);
        }
        let slot = self.len;
        let location = self.base + 8 * (slot as u64);
        let prev = self.elems[slot];
        self.len = slot + 1;
        self.elems[slot] = v;
        proof {
            assert(self.elems@.take(self.len as int) == old(self).elems@.take(
                old(self).len as int,
            ).push(v));
        }
        JSVal::post_barrier(location, prev, v)
    }

    /// The values in use, as the engine's entry points take the arguments
    /// of a call.
    pub fn as_handle_value_array(&self) -> (array: HandleValueArray<'_>)
        ensures
            array@ == self@,
    {
        proof {
            use_type_invariant(self);
        }
        let slice = vstd::slice::slice_subrange(self.elems.as_slice(), 0, self.len);
        HandleValueArray::from_rooted_slice(slice)
    }

    /// The reports of the cells in use, cell after cell.
    pub open spec fn cell_edges(&self) -> Seq<TraceEdge> {
        Seq::new(self@.len(), |i: int| value_cell_edge(self.location(i), self@[i]))
    }

    /// Ends the life of the array and gives the barriers that tell the
    /// collector so: for each of the `N` cells that of a write of
    /// undefined over what the cell held.
    pub fn retire(self) -> (calls: Vec<BarrierCall<JSVal>>)
        ensures
            calls@.len() == N,
            forall|i: int|
                0 <= i < N ==> #[trigger] calls@[i] == (BarrierCall {
                    location: self.location(i),
                    prev: if i < self@.len() {
                        self@[i]
                    } else {
                        spec_undefined_value()
                    },
                    next: spec_undefined_value(),
                }),
    {
        proof {
            use_type_invariant(&self);
        }
        let mut calls: Vec<BarrierCall<JSVal>> = Vec::new();
        let mut i: usize = 0;
        while i < N
            invariant
                self.wf(),
                i <= N,
                calls@.len() == i,
                forall|j: int|
                    0 <= j < i ==> #[trigger] calls@[j] == (BarrierCall {
                        location: self.location(j),
                        prev: if j < self@.len() {
                            self@[j]
                        } else {
                            spec_undefined_value()
                        },
                        next: spec_undefined_value(),
                    }),
            decreases N - i,
        {
            calls.push(
                JSVal::post_barrier(
                    self.base + 8 * (i as u64),
                    self.elems[i],
                    JSVal::initial_value(),
                ),
            );
            i = i + 1;
        }
        calls
    }
}

impl<const N: usize> Traceable for FixedValueArray<N> {
    /// One report for each cell in use.
    open spec fn edges(&self) -> Seq<TraceEdge> {
        self.cell_edges()
    }

    fn trace(&self, trc: &mut JSTracer) {
        let ghost before = trc@;
        proof {
            use_type_invariant(self);
        }
        let mut i: usize = 0;
        while i < self.len
            invariant
                self.elems@.len() == N,
                self.len <= N,
                self.base + 8 * N <= u64::MAX,
                i <= self.len,
                trc@ == before + Seq::new(
                    i as nat,
                    |j: int| value_cell_edge(self.location(j), self@[j]),
                ),
            decreases self.len - i,
        {
            trc.visit(
                TraceEdge {
                    entry: TracerEntry::Value,
                    location: self.base + 8 * (i as u64),
                    thing: self.elems[i].asBits_,
                },
            );
            proof {
                assert(Seq::new(
                    (i + 1) as nat,
                    |j: int| value_cell_edge(self.location(j), self@[j]),
                ) == Seq::new(i as nat, |j: int| value_cell_edge(self.location(j), self@[j])).push(
                    value_cell_edge(self.location(i as int), self@[i as int]),
                ));
            }
            i = i + 1;
        }
    }
}

/// A rooted wrapper for a FixedValueArray<N>: the array in a box, registered
/// in the set of the traced owners.
pub struct RootedFixedValueArray<const N: usize> {
    ptr: Box<FixedValueArray<N>>,
    address: u64,
}

impl<const N: usize> View for RootedFixedValueArray<N> {
    type V = Seq<JSVal>;

    /// The values in use.
    closed spec fn view(&self) -> Seq<JSVal> {
        self.ptr@
    }
}

impl<const N: usize> RootedFixedValueArray<N> {
    /// The address that the array is registered by.
    pub closed spec fn address(&self) -> u64 {
        self.address
    }

    /// The array in the box.
    pub closed spec fn array(&self) -> FixedValueArray<N> {
        *self.ptr
    }

    /// Allocate a FixedValueArray<N> whose cells start at `base`, and
    /// register it in `set` under `address`.
    pub fn new(set: &mut RootedTraceableSet, address: u64, base: u64) -> (rooted: Self)
        requires
            base + 8 * N <= u64::MAX,
        ensures
            final(set)@ == old(set)@.push(address),
            rooted@ == Seq::<JSVal>::empty(),
            rooted.address() == address,
            rooted.array().base() == base,
    {
        let boxed = Box::new(FixedValueArray::<N>::new(base));
        set.add(address);
        RootedFixedValueArray { ptr: boxed, address }
    }

    /// Push a JSVal into the underlying fixed array.
    pub fn push(&mut self, v: JSVal) -> (call: BarrierCall<JSVal>)
        requires
            old(self)@.len() < N,
        ensures
            final(self)@ == old(self)@.push(v),
            final(self).address() == old(self).address(),
            final(self).array().base() == old(self).array().base(),
            call == (BarrierCall {
                location: old(self).array().location(old(self)@.len() as int),
                prev: spec_undefined_value(),
                next: v,
            }),
    {
        (*self.ptr).push(v)
    }

    /// The values in use, as the engine's entry points take the arguments
    /// of a call.
    pub fn as_handle_value_array(&self) -> (array: HandleValueArray<'_>)
        ensures
            array@ == self@,
    {
        (*self.ptr).as_handle_value_array()
    }

    pub fn len(&self) -> (n: usize)
        ensures
            n == self@.len(),
            n <= N,
    {
        (*self.ptr).len()
    }

    pub fn capacity(&self) -> (n: usize)
        ensures
            n == N,
    {
        (*self.ptr).capacity()
    }

    /// Ends the rooting: takes the most recent registration of the array
    /// out of `set`, and gives the barriers of the end of its cells.
    pub fn unroot(self, set: &mut RootedTraceableSet) -> (calls: Vec<BarrierCall<JSVal>>)
        ensures
            final(set)@ == remove_most_recent(old(set)@, self.address()),
            calls@.len() == N,
            forall|i: int|
                0 <= i < N ==> #[trigger] calls@[i] == (BarrierCall {
                    location: self.array().location(i),
                    prev: if i < self@.len() {
                        self@[i]
                    } else {
                        spec_undefined_value()
                    },
                    next: spec_undefined_value(),
                }),
    {
        set.remove(self.address);
        let array: FixedValueArray<N> = *self.ptr;
        array.retire()
    }
}

impl<const N: usize> Traceable for RootedFixedValueArray<N> {
    open spec fn edges(&self) -> Seq<TraceEdge> {
        self.array().edges()
    }

    fn trace(&self, trc: &mut JSTracer) {
        (*self.ptr).trace(trc)
    }
}

/// A growable collection of values. Each value lies in a heap cell in a box
/// of its own, so that the cell stays where it is when the collection
/// grows.
pub struct DynamicValueArray {
    elems: Vec<Box<Heap<JSVal>>>,
}

impl View for DynamicValueArray {
    type V = Seq<JSVal>;

    /// The values of the cells.
    closed spec fn view(&self) -> Seq<JSVal> {
        Seq::new(self.elems@.len(), |i: int| self.elems@[i].value())
    }
}

impl DynamicValueArray {
    /// The address of the cell at `i`.
    pub closed spec fn location(&self, i: int) -> u64 {
        self.elems@[i].location()
    }

    /// The reports of the cells, cell after cell.
    pub open spec fn cell_edges(&self) -> Seq<TraceEdge> {
        Seq::new(self@.len(), |i: int| value_cell_edge(self.location(i), self@[i]))
    }

    pub fn new() -> (array: Self)
        ensures
            array@ == Seq::<JSVal>::empty(),
    {
        DynamicValueArray { elems: Vec::new() }
    }

    pub fn with_capacity(cap: usize) -> (array: Self)
        ensures
            array@ == Seq::<JSVal>::empty(),
    {
        DynamicValueArray { elems: Vec::with_capacity(cap) }
    }

    /// Adds a cell at `location` that holds `v`, and gives the barrier of
    /// the write of `v` into it.
    pub fn push(&mut self, location: u64, v: JSVal) -> (call: BarrierCall<JSVal>)
        ensures
            final(self)@ == old(self)@.push(v),
            final(self).location(old(self)@.len() as int) == location,
            forall|i: int|
                0 <= i < old(self)@.len() ==> final(self).location(i) == old(self).location(i),
            call == (BarrierCall { location, prev: spec_undefined_value(), next: v }),
    {
        let (cell, call) = Heap::boxed(location, v);
        self.elems.push(cell);
        call
    }

    pub fn len(&self) -> (n: usize)
        ensures
            n == self@.len(),
    {
        self.elems.len()
    }

    /// The value of the cell at `i`.
    pub fn get(&self, i: usize) -> (v: JSVal)
        requires
            i < self@.len(),
        ensures
            v == self@[i as int],
    {
        self.elems[i].get()
    }

    /// Ends the life of the array and gives the barriers that tell the
    /// collector so: for each cell that of a write of undefined over what
    /// the cell held.
    pub fn retire(self) -> (calls: Vec<BarrierCall<JSVal>>)
        ensures
            calls@.len() == self@.len(),
            forall|i: int|
                0 <= i < self@.len() ==> #[trigger] calls@[i] == (BarrierCall {
                    location: self.location(i),
                    prev: self@[i],
                    next: spec_undefined_value(),
                }),
    {
        let mut calls: Vec<BarrierCall<JSVal>> = Vec::new();
        let mut i: usize = 0;
        while i < self.elems.len()
            invariant
                i <= self.elems@.len(),
                calls@.len() == i,
                forall|j: int|
                    0 <= j < i ==> #[trigger] calls@[j] == (BarrierCall {
                        location: self.location(j),
                        prev: self@[j],
                        next: spec_undefined_value(),
                    }),
            decreases self.elems@.len() - i,
        {
            calls.push(self.elems[i].last_barrier());
            i = i + 1;
        }
        calls
    }
}

impl Traceable for DynamicValueArray {
    /// One report for each cell.
    open spec fn edges(&self) -> Seq<TraceEdge> {
        self.cell_edges()
    }

    fn trace(&self, trc: &mut JSTracer) {
        let ghost before = trc@;
        let mut i: usize = 0;
        while i < self.elems.len()
            invariant
                i <= self.elems@.len(),
                trc@ == before + Seq::new(
                    i as nat,
                    |j: int| value_cell_edge(self.location(j), self@[j]),
                ),
            decreases self.elems@.len() - i,
        {
            self.elems[i].trace(trc);
            proof {
                assert(Seq::new(
                    (i + 1) as nat,
                    |j: int| value_cell_edge(self.location(j), self@[j]),
                ) == Seq::new(i as nat, |j: int| value_cell_edge(self.location(j), self@[j]))
                    + seq![value_cell_edge(self.location(i as int), self@[i as int])]);
            }
            i = i + 1;
        }
    }
}

/// A rooted wrapper for a DynamicValueArray. It also owns the buffer in
/// which the values are shown to the engine side by side.
pub struct RootedDynamicValueArray {
    ptr: Box<DynamicValueArray>,
    scratch: Vec<JSVal>,
    address: u64,
}

impl View for RootedDynamicValueArray {
    type V = Seq<JSVal>;

    /// The values of the cells.
    closed spec fn view(&self) -> Seq<JSVal> {
        self.ptr@
    }
}

impl RootedDynamicValueArray {
    /// The address that the array is registered by.
    pub closed spec fn address(&self) -> u64 {
        self.address
    }

    /// The array in the box.
    pub closed spec fn array(&self) -> DynamicValueArray {
        *self.ptr
    }

    /// An empty array, registered in `set` under `address`.
    pub fn new(set: &mut RootedTraceableSet, address: u64) -> (rooted: Self)
        ensures
            final(set)@ == old(set)@.push(address),
            rooted@ == Seq::<JSVal>::empty(),
            rooted.address() == address,
    {
        let boxed = Box::new(DynamicValueArray::new());
        set.add(address);
        RootedDynamicValueArray { ptr: boxed, scratch: Vec::new(), address }
    }

    /// An empty array with room for `cap` values, registered in `set`
    /// under `address`.
    pub fn with_capacity(set: &mut RootedTraceableSet, address: u64, cap: usize) -> (rooted: Self)
        ensures
            final(set)@ == old(set)@.push(address),
            rooted@ == Seq::<JSVal>::empty(),
            rooted.address() == address,
    {
        let boxed = Box::new(DynamicValueArray::with_capacity(cap));
        set.add(address);
        RootedDynamicValueArray { ptr: boxed, scratch: Vec::with_capacity(cap), address }
    }

    /// Adds a cell at `location` that holds `v`, and gives the barrier of
    /// the write of `v` into it.
    pub fn push(&mut self, location: u64, v: JSVal) -> (call: BarrierCall<JSVal>)
        ensures
            final(self)@ == old(self)@.push(v),
            final(self).address() == old(self).address(),
            final(self).array().location(old(self)@.len() as int) == location,
            forall|i: int|
                0 <= i < old(self)@.len() ==> final(self).array().location(i) == old(
                    self,
                ).array().location(i),
            call == (BarrierCall { location, prev: spec_undefined_value(), next: v }),
    {
        (*self.ptr).push(location, v)
    }

    /// Copies the values of the cells into the buffer that the engine is
    /// shown.
    fn rebuild_scratch(&mut self)
        ensures
            final(self).scratch@ == old(self)@,
            final(self).ptr == old(self).ptr,
            final(self).address == old(self).address,
    {
        self.scratch.clear();
        let n = self.ptr.len();
        self.scratch.reserve(n);
        let mut i: usize = 0;
        while i < n
            invariant
                n == self.ptr@.len(),
                i <= n,
                self.ptr == old(self).ptr,
                self.address == old(self).address,
                self.scratch@ == self.ptr@.take(i as int),
            decreases n - i,
        {
            let v = self.ptr.get(i);
            self.scratch.push(v);
            proof {
                assert(self.ptr@.take(i + 1) == self.ptr@.take(i as int).push(v));
            }
            i = i + 1;
        }
        proof {
            assert(self.ptr@.take(n as int) == self.ptr@);
        }
    }

    /// The values of the cells as they are now, as the engine's entry
    /// points take the arguments of a call.
    pub fn as_handle_value_array(&mut self) -> (array: HandleValueArray<'_>)
        ensures
            array@ == old(self)@,
            final(self)@ == old(self)@,
            final(self).address() == old(self).address(),
            final(self).array() == old(self).array(),
    {
        self.rebuild_scratch();
        HandleValueArray::from_rooted_slice(self.scratch.as_slice())
    }

    pub fn len(&self) -> (n: usize)
        ensures
            n == self@.len(),
    {
        (*self.ptr).len()
    }

    /// Ends the rooting: takes the most recent registration of the array
    /// out of `set`, and gives the barriers of the end of its cells.
    pub fn unroot(self, set: &mut RootedTraceableSet) -> (calls: Vec<BarrierCall<JSVal>>)
        ensures
            final(set)@ == remove_most_recent(old(set)@, self.address()),
            calls@.len() == self@.len(),
            forall|i: int|
                0 <= i < self@.len() ==> #[trigger] calls@[i] == (BarrierCall {
                    location: self.array().location(i),
                    prev: self@[i],
                    next: spec_undefined_value(),
                }),
    {
        set.remove(self.address);
        let array: DynamicValueArray = *self.ptr;
        array.retire()
    }
}

impl Traceable for RootedDynamicValueArray {
    open spec fn edges(&self) -> Seq<TraceEdge> {
        self.array().edges()
    }

    fn trace(&self, trc: &mut JSTracer) {
        (*self.ptr).trace(trc)
    }
}

} // verus!
