//! What makes a type usable in a rooted slot or in a heap cell, and the
//! slots and cells themselves.
//!
//! Every write to a cell that the collector knows raises a barrier: a
//! record of the cell's address and of the values before and after. The
//! functions that write hand the record back, and the embedding passes it
//! on to the engine.

use crate::jsapi;
use crate::jsapi::{
    BigIntPtr, FunctionPtr, ObjectPtr, PropertyDescriptor, PropertyKey, RootingContext,
    ScriptPtr, StringPtr, SymbolPtr, VoidId, JSID_TYPE_MASK, JSID_TYPE_STRING, JSID_TYPE_SYMBOL,
    JSID_TYPE_VOID,
};
use crate::jsval::{JSVal, UndefinedValue, JSVAL_SHIFTED_TAG_UNDEFINED};
use crate::trace::Traceable;
use vstd::prelude::*;

verus! {

/// A type whose values can stand in a stack root: it names the list that
/// its slots are linked into.
pub trait RootKind {
    spec fn spec_kind() -> jsapi::RootKind;

    fn kind() -> (k: jsapi::RootKind)
        ensures
            k == Self::spec_kind(),
    ;
}

impl RootKind for ObjectPtr {
    open spec fn spec_kind() -> jsapi::RootKind {
        jsapi::RootKind::Object
    }

    fn kind() -> (k: jsapi::RootKind) {
        jsapi::RootKind::Object
    }
}

impl RootKind for FunctionPtr {
    open spec fn spec_kind() -> jsapi::RootKind {
        jsapi::RootKind::Object
    }

    fn kind() -> (k: jsapi::RootKind) {
        jsapi::RootKind::Object
    }
}

impl RootKind for StringPtr {
    open spec fn spec_kind() -> jsapi::RootKind {
        jsapi::RootKind::String
    }

    fn kind() -> (k: jsapi::RootKind) {
        jsapi::RootKind::String
    }
}

impl RootKind for SymbolPtr {
    open spec fn spec_kind() -> jsapi::RootKind {
        jsapi::RootKind::Symbol
    }

    fn kind() -> (k: jsapi::RootKind) {
        jsapi::RootKind::Symbol
    }
}

impl RootKind for BigIntPtr {
    open spec fn spec_kind() -> jsapi::RootKind {
        jsapi::RootKind::BigInt
    }

    fn kind() -> (k: jsapi::RootKind) {
        jsapi::RootKind::BigInt
    }
}

impl RootKind for ScriptPtr {
    open spec fn spec_kind() -> jsapi::RootKind {
        jsapi::RootKind::Script
    }

    fn kind() -> (k: jsapi::RootKind) {
        jsapi::RootKind::Script
    }
}

impl RootKind for PropertyKey {
    open spec fn spec_kind() -> jsapi::RootKind {
        jsapi::RootKind::Id
    }

    fn kind() -> (k: jsapi::RootKind) {
        jsapi::RootKind::Id
    }
}

impl RootKind for JSVal {
    open spec fn spec_kind() -> jsapi::RootKind {
        jsapi::RootKind::Value
    }

    fn kind() -> (k: jsapi::RootKind) {
        jsapi::RootKind::Value
    }
}

impl<T: Rootable> RootKind for T {
    open spec fn spec_kind() -> jsapi::RootKind {
        jsapi::RootKind::Traceable
    }

    fn kind() -> (k: jsapi::RootKind) {
        jsapi::RootKind::Traceable
    }
}

/// Marks a type that owns references and says so through [`Traceable`] as
/// one whose values can stand in a stack root. Its slots are linked into
/// the list of the traceable roots.
pub trait Rootable: Traceable + Sized {

}

impl<T: Rootable> Rootable for Option<T> {

}

impl Rootable for PropertyDescriptor {

}

impl<const N: usize> Rootable for ValueArray<N> {

}

/// The two links of a stack root: the list that the slot is in, and the
/// slot that was the head of that list when this one was linked.
#[derive(Clone, Copy, PartialEq, Eq, Structural, Debug)]
pub struct RootedBase {
    /// The category whose list head the slot is linked under, or `None`
    /// while the slot is in no list.
    pub stack: Option<jsapi::RootKind>,
    /// The address of the slot that was linked before this one, or zero.
    pub prev: u64,
}

/// A type that may have a value that is safe to leave in a slot which the
/// collector reads: one that refers to nothing that is collected.
pub trait Initialize: Sized {
    /// The safe value of the type. A type that says nothing has none.
    open spec fn spec_initial() -> Option<Self> {
        None
    }

    /// The safe value of the type, or `None` where it has none.
    fn initial() -> (v: Option<Self>)
        ensures
            v == Self::spec_initial(),
    ;
}

impl<T> Initialize for Option<T> {
    open spec fn spec_initial() -> Option<Self> {
        Some(None)
    }

    fn initial() -> (v: Option<Self>) {
        Some(None)
    }
}

/// One call of the engine's post-write barrier: the address of the cell
/// that was written, the value that it held, and the value that it holds.
#[derive(PartialEq, Eq, Structural, Debug)]
pub struct BarrierCall<T> {
    pub location: u64,
    pub prev: T,
    pub next: T,
}

/// A type whose values can stand in a cell that the collector knows: it
/// has a safe value, and a write of it raises a barrier.
pub trait GCMethods: Initialize + Copy {
    /// Whether the value refers to something that the collector may free
    /// or move.
    spec fn refers(self) -> bool;

    /// The type has a safe value, and the safe value refers to nothing
    /// that is collected.
    proof fn lemma_initial_is_safe()
        ensures
            Self::spec_initial() matches Some(v) && !v.refers(),
    ;

    /// The safe value of the type.
    fn initial_value() -> (v: Self)
        ensures
            Some(v) == Self::spec_initial(),
            !v.refers(),
    {
        proof {
            Self::lemma_initial_is_safe();
        }
        match <Self as Initialize>::initial() {
            Some(v) => v,
            None => vstd::pervasive::unreached(),
        }
    }

    /// The barrier that a write of `next` over `prev` into the cell at
    /// `location` raises.
    fn post_barrier(location: u64, prev: Self, next: Self) -> (call: BarrierCall<Self>)
        ensures
            call == (BarrierCall { location, prev, next }),
    {
        BarrierCall { location, prev, next }
    }
}

impl Initialize for ObjectPtr {
    open spec fn spec_initial() -> Option<Self> {
        Some(ObjectPtr { addr: 0 })
    }

    fn initial() -> (v: Option<Self>) {
        Some(ObjectPtr::null())
    }
}

impl GCMethods for ObjectPtr {
    open spec fn refers(self) -> bool {
        self.addr != 0
    }

    proof fn lemma_initial_is_safe() {
    }
}

impl Initialize for FunctionPtr {
    open spec fn spec_initial() -> Option<Self> {
        Some(FunctionPtr { addr: 0 })
    }

    fn initial() -> (v: Option<Self>) {
        Some(FunctionPtr::null())
    }
}

impl GCMethods for FunctionPtr {
    open spec fn refers(self) -> bool {
        self.addr != 0
    }

    proof fn lemma_initial_is_safe() {
    }
}

impl Initialize for StringPtr {
    open spec fn spec_initial() -> Option<Self> {
        Some(StringPtr { addr: 0 })
    }

    fn initial() -> (v: Option<Self>) {
        Some(StringPtr::null())
    }
}

impl GCMethods for StringPtr {
    open spec fn refers(self) -> bool {
        self.addr != 0
    }

    proof fn lemma_initial_is_safe() {
    }
}

impl Initialize for SymbolPtr {
    open spec fn spec_initial() -> Option<Self> {
        Some(SymbolPtr { addr: 0 })
    }

    fn initial() -> (v: Option<Self>) {
        Some(SymbolPtr::null())
    }
}

impl GCMethods for SymbolPtr {
    open spec fn refers(self) -> bool {
        self.addr != 0
    }

    proof fn lemma_initial_is_safe() {
    }
}

impl Initialize for BigIntPtr {
    open spec fn spec_initial() -> Option<Self> {
        Some(BigIntPtr { addr: 0 })
    }

    fn initial() -> (v: Option<Self>) {
        Some(BigIntPtr::null())
    }
}

impl GCMethods for BigIntPtr {
    open spec fn refers(self) -> bool {
        self.addr != 0
    }

    proof fn lemma_initial_is_safe() {
    }
}

impl Initialize for ScriptPtr {
    open spec fn spec_initial() -> Option<Self> {
        Some(ScriptPtr { addr: 0 })
    }

    fn initial() -> (v: Option<Self>) {
        Some(ScriptPtr::null())
    }
}

impl GCMethods for ScriptPtr {
    open spec fn refers(self) -> bool {
        self.addr != 0
    }

    proof fn lemma_initial_is_safe() {
    }
}

impl Initialize for PropertyKey {
    open spec fn spec_initial() -> Option<Self> {
        Some(PropertyKey { asBits_: JSID_TYPE_VOID })
    }

    fn initial() -> (v: Option<Self>) {
        Some(VoidId())
    }
}

impl GCMethods for PropertyKey {
    /// A key refers to something where it holds a string or a symbol.
    open spec fn refers(self) -> bool {
        self.asBits_ & JSID_TYPE_MASK == JSID_TYPE_STRING || self.asBits_ & JSID_TYPE_MASK
            == JSID_TYPE_SYMBOL
    }

    proof fn lemma_initial_is_safe() {
        assert(0x2u64 & 0x7 == 0x2) by (bit_vector);
    }
}

impl Initialize for JSVal {
    open spec fn spec_initial() -> Option<Self> {
        Some(JSVal { asBits_: JSVAL_SHIFTED_TAG_UNDEFINED })
    }

    fn initial() -> (v: Option<Self>) {
        Some(UndefinedValue())
    }
}

impl GCMethods for JSVal {
    /// A value refers to something where it holds a reference other than
    /// null.
    open spec fn refers(self) -> bool {
        self.spec_is_markable()
    }

    proof fn lemma_initial_is_safe() {
    }
}

impl Initialize for PropertyDescriptor {
    open spec fn spec_initial() -> Option<Self> {
        Some(PropertyDescriptor::spec_default())
    }

    fn initial() -> (v: Option<Self>) {
        Some(PropertyDescriptor::default())
    }
}

impl GCMethods for PropertyDescriptor {
    /// A descriptor refers to something where it has an accessor or where
    /// its value does.
    open spec fn refers(self) -> bool {
        self.getter_.addr != 0 || self.setter_.addr != 0 || self.value_.spec_is_markable()
    }

    proof fn lemma_initial_is_safe() {
    }
}

/// An array of values of a fixed size, for use in one rooted slot.
pub struct ValueArray<const N: usize> {
    elements: [JSVal; N],
}

impl<const N: usize> View for ValueArray<N> {
    type V = Seq<JSVal>;

    closed spec fn view(&self) -> Seq<JSVal> {
        self.elements@
    }
}

impl<const N: usize> ValueArray<N> {
    pub fn new(elements: [JSVal; N]) -> (array: Self)
        ensures
            array@ == elements@,
    {
        Self { elements }
    }

    /// The values of the array.
    pub fn elements(&self) -> (elements: &[JSVal; N])
        ensures
            elements@ == self@,
    {
        &self.elements
    }
}

impl<const N: usize> Initialize for ValueArray<N> {
    open spec fn spec_initial() -> Option<Self> {
        Some(ValueArray::spec_undefined())
    }

    fn initial() -> (v: Option<Self>) {
        let array = Self { elements: [UndefinedValue();N] };
        proof {
            assert(array@ =~= Seq::new(N as nat, |i: int| JSVal { asBits_: JSVAL_SHIFTED_TAG_UNDEFINED }));
            ValueArray::lemma_view_decides(array, ValueArray::spec_undefined());
        }
        Some(array)
    }
}

impl<const N: usize> ValueArray<N> {
    /// The array whose values are all undefined.
    pub closed spec fn spec_undefined() -> Self {
        ValueArray {
            elements: vstd::array::spec_array_fill_for_copy_type(
                JSVal { asBits_: JSVAL_SHIFTED_TAG_UNDEFINED },
            ),
        }
    }

    /// Two arrays with the same values are the same array.
    pub proof fn lemma_view_decides(a: Self, b: Self)
        requires
            a@ == b@,
        ensures
            a == b,
    {
        assert(a.elements@ =~= b.elements@);
        vstd::array::axiom_array_ext_equal(a.elements, b.elements);
    }
}

/// A marked location: a place in memory that holds a `T` and that the
/// collector knows by its address. What it holds changes only through the
/// functions of this crate that write to it.
pub struct MarkedLocation<T> {
    value: T,
    address: u64,
}

impl<T> MarkedLocation<T> {
    /// What the location holds.
    pub closed spec fn value(&self) -> T {
        self.value
    }

    /// Where the location is.
    pub closed spec fn address(&self) -> u64 {
        self.address
    }

    pub(crate) fn new(address: u64, value: T) -> (m: Self)
        ensures
            m.value() == value,
            m.address() == address,
    {
        MarkedLocation { value, address }
    }

    /// A view of what the location holds.
    pub fn get(&self) -> (v: &T)
        ensures
            *v == self.value(),
    {
        &self.value
    }

    pub fn location(&self) -> (address: u64)
        ensures
            address == self.address(),
    {
        self.address
    }

    /// Puts `v` into the location and gives what it held. No barrier is
    /// raised: the caller does that.
    pub(crate) fn write(&mut self, v: T) -> (prev: T)
        ensures
            prev == old(self).value(),
            final(self).value() == v,
            final(self).address() == old(self).address(),
    {
        let mut v = v;
        std::mem::swap(&mut self.value, &mut v);
        v
    }
}

/// The barrier calls that the writes of `values`, one after the other, to
/// a cell at `location` raise, where the cell held `start` before the
/// first of them.
pub open spec fn barriers_of_writes<T>(location: u64, start: T, values: Seq<T>) -> Seq<
    BarrierCall<T>,
>
    decreases values.len(),
{
    if values.len() == 0 {
        Seq::empty()
    } else {
        let earlier = values.drop_last();
        barriers_of_writes(location, start, earlier).push(
            BarrierCall {
                location,
                prev: value_after_writes(start, earlier),
                next: values.last(),
            },
        )
    }
}

/// What a cell holds after the writes of `values`, where it held `start`
/// before the first of them.
pub open spec fn value_after_writes<T>(start: T, values: Seq<T>) -> T {
    if values.len() == 0 {
        start
    } else {
        values.last()
    }
}

/// Writes raise exactly one barrier each, in their order: the barrier of
/// the write at place `i` names the address of the cell, the value that the
/// cell held before that write, and the value written.
pub proof fn lemma_one_barrier_per_write<T>(location: u64, start: T, values: Seq<T>)
    ensures
        barriers_of_writes(location, start, values).len() == values.len(),
        forall|i: int|
            0 <= i < values.len() ==> #[trigger] barriers_of_writes(location, start, values)[i]
                == (BarrierCall {
                location,
                prev: if i == 0 {
                    start
                } else {
                    values[i - 1]
                },
                next: values[i],
            }),
    decreases values.len(),
{
    if values.len() > 0 {
        let earlier = values.drop_last();
        lemma_one_barrier_per_write(location, start, earlier);
        let log = barriers_of_writes(location, start, values);
        assert forall|i: int| 0 <= i < values.len() implies #[trigger] log[i] == (BarrierCall {
            location,
            prev: if i == 0 {
                start
            } else {
                values[i - 1]
            },
            next: values[i],
        }) by {
            if i < earlier.len() {
                assert(log[i] == barriers_of_writes(location, start, earlier)[i]);
                assert(earlier[i] == values[i]);
                if i > 0 {
                    assert(earlier[i - 1] == values[i - 1]);
                }
            } else if i > 0 {
                assert(earlier.last() == values[i - 1]);
            }
        }
    }
}

/// A reference that lies in a structure which outlives the call stack: in
/// another collected object, or in a long-lived structure of the embedding.
///
/// The collector keeps the address of the cell from the first write of a
/// value other than the safe one until the cell is retired. A cell that
/// holds such a value must stay where it is, so it is made in a box.
pub struct Heap<T: GCMethods + Copy> {
    ptr: MarkedLocation<T>,
}

impl<T: GCMethods + Copy> Heap<T> {
    /// What the cell holds.
    pub closed spec fn value(&self) -> T {
        self.ptr.value()
    }

    /// The address of the cell.
    pub closed spec fn location(&self) -> u64 {
        self.ptr.address()
    }

    /// A cell at `location` in a box of its own that holds `v`, and the
    /// barrier of the write of `v` over the safe value that the cell was
    /// made with.
    pub fn boxed(location: u64, v: T) -> (r: (Box<Heap<T>>, BarrierCall<T>))
        ensures
            r.0.value() == v,
            r.0.location() == location,
            Some(r.1.prev) == T::spec_initial(),
            r.1 == (BarrierCall { location, prev: r.1.prev, next: v }),
    {
        let mut boxed = Box::new(Heap { ptr: MarkedLocation::new(location, T::initial_value()) });
        let call = boxed.set(v);
        (boxed, call)
    }

    /// A cell at `location` that holds `v`, and the barrier of the write of
    /// `v` over the safe value that the cell was made with. The cell is not
    /// in a box: whoever keeps it sees to it that it stays at `location`.
    pub fn new(location: u64, v: T) -> (r: (Heap<T>, BarrierCall<T>))
        ensures
            r.0.value() == v,
            r.0.location() == location,
            Some(r.1.prev) == T::spec_initial(),
            r.1 == (BarrierCall { location, prev: r.1.prev, next: v }),
    {
        let mut heap = Heap { ptr: MarkedLocation::new(location, T::initial_value()) };
        let call = heap.set(v);
        (heap, call)
    }

    /// Writes `v` into the cell and gives the barrier that the write
    /// raises: it names the cell, the value that the cell held, and `v`.
    pub fn set(&mut self, v: T) -> (call: BarrierCall<T>)
        ensures
            final(self).value() == v,
            final(self).location() == old(self).location(),
            call == (BarrierCall { location: old(self).location(), prev: old(self).value(), next: v }),
    {
        let location = self.ptr.location();
        let prev = self.ptr.write(v);
        T::post_barrier(location, prev, v)
    }

    /// What the cell holds. A read raises no barrier.
    pub fn get(&self) -> (v: T)
        ensures
            v == self.value(),
    {
        *self.ptr.get()
    }

    /// The address of the cell.
    pub fn get_unsafe(&self) -> (location: u64)
        ensures
            location == self.location(),
    {
        self.ptr.location()
    }

    /// The address of the cell, as the engine's entry points take it. The
    /// cell is no root: the address is good for as long as something else
    /// keeps what the cell refers to alive.
    pub fn handle(&self) -> (h: jsapi::Handle<T>)
        ensures
            h.ptr == self.location(),
    {
        jsapi::Handle::from_marked_location(self.ptr.location())
    }

    /// The marked location of the cell.
    pub fn marked(&self) -> (m: &MarkedLocation<T>)
        ensures
            m.value() == self.value(),
            m.address() == self.location(),
    {
        &self.ptr
    }

    /// Ends the life of the cell and gives the barrier that tells the
    /// collector so: that of a write of the safe value over what the cell
    /// held.
    pub fn retire(self) -> (call: BarrierCall<T>)
        ensures
            Some(call.next) == T::spec_initial(),
            call == (BarrierCall { location: self.location(), prev: self.value(), next: call.next }),
    {
        self.last_barrier()
    }

    /// The barrier that the end of the cell's life raises.
    pub(crate) fn last_barrier(&self) -> (call: BarrierCall<T>)
        ensures
            Some(call.next) == T::spec_initial(),
            call == (BarrierCall { location: self.location(), prev: self.value(), next: call.next }),
    {
        let location = self.ptr.location();
        let prev = *self.ptr.get();
        T::post_barrier(location, prev, T::initial_value())
    }
}

/// The storage of a stack root: the links, and the place for the value.
///
/// The place holds a value exactly while a guard keeps the slot linked.
pub struct Rooted<T: RootKind> {
    base: RootedBase,
    address: u64,
    ptr: Option<MarkedLocation<T>>,
}

impl<T: RootKind> Rooted<T> {
    /// The address of the slot.
    pub closed spec fn address(&self) -> u64 {
        self.address
    }

    /// The links of the slot.
    pub closed spec fn base(&self) -> RootedBase {
        self.base
    }

    /// The slot holds no value.
    pub closed spec fn is_wiped(&self) -> bool {
        self.ptr is None
    }

    /// The slot is in no list and holds no value.
    pub closed spec fn is_unrooted(&self) -> bool {
        self.base.stack is None && self.ptr is None
    }

    /// The slot holds a value, at its own address.
    pub closed spec fn is_initialized(&self) -> bool {
        self.ptr matches Some(m) && m.address() == self.address
    }

    /// The value in the slot.
    pub closed spec fn value(&self) -> T
        recommends
            self.is_initialized(),
    {
        self.ptr->0.value()
    }

    /// The slot is linked in `cx` as the collector would find it there.
    pub open spec fn is_linked_in(&self, cx: &RootingContext) -> bool {
        &&& self.base().stack == Some(T::spec_kind())
        &&& cx@.is_linked(self.address())
        &&& cx@.nodes[self.address()] == self.base()
    }

    /// Storage for a stack root at `address`, in no list and without a
    /// value.
    pub fn new_unrooted(address: u64) -> (root: Rooted<T>)
        ensures
            root.is_unrooted(),
            root.address() == address,
    {
        Rooted { base: RootedBase { stack: None, prev: 0 }, address, ptr: None }
    }

    /// The address of the slot.
    pub fn location(&self) -> (address: u64)
        ensures
            address == self.address(),
    {
        self.address
    }

    /// The links of the slot.
    pub fn links(&self) -> (base: RootedBase)
        ensures
            base == self.base(),
    {
        self.base
    }

    /// Whether the slot is in no list and holds no value.
    pub fn unrooted(&self) -> (b: bool)
        ensures
            b == self.is_unrooted(),
    {
        self.base.stack.is_none() && self.ptr.is_none()
    }

    /// Puts a value into the slot.
    pub(crate) fn initialize(&mut self, initial: T)
        ensures
            final(self).is_initialized(),
            final(self).value() == initial,
            final(self).address() == old(self).address(),
            final(self).base() == old(self).base(),
    {
        self.ptr = Some(MarkedLocation::new(self.address, initial));
    }

    /// Takes the value out of the slot.
    pub(crate) fn wipe(&mut self)
        ensures
            final(self).is_wiped(),
            !final(self).is_initialized(),
            final(self).address() == old(self).address(),
            final(self).base() == old(self).base(),
    {
        self.ptr = None;
    }

    /// The marked location of the value.
    pub(crate) fn marked(&self) -> (m: &MarkedLocation<T>)
        requires
            self.is_initialized(),
        ensures
            m.value() == self.value(),
            m.address() == self.address(),
    {
        match &self.ptr {
            Some(m) => m,
            None => vstd::pervasive::unreached(),
        }
    }

    /// The marked location of the value, for writing.
    pub(crate) fn marked_mut(&mut self) -> (m: &mut MarkedLocation<T>)
        requires
            old(self).is_initialized(),
        ensures
            m.value() == old(self).value(),
            m.address() == old(self).address(),
            final(self).address() == old(self).address(),
            final(self).base() == old(self).base(),
            final(self).is_initialized() == (final(m).address() == old(self).address()),
            final(self).value() == final(m).value(),
    {
        match &mut self.ptr {
            Some(m) => m,
            None => vstd::pervasive::unreached(),
        }
    }

    /// Links the slot into the list of its category in `cx`, as the new
    /// head.
    pub fn add_to_root_stack(&mut self, cx: &mut RootingContext)
        requires
            old(cx).wf(),
            old(self).address() != 0,
            !old(cx)@.is_linked(old(self).address()),
        ensures
            final(cx).wf(),
            final(cx)@ == old(cx)@.link(T::spec_kind(), old(self).address()),
            final(cx).spec_realm() == old(cx).spec_realm(),
            final(self).is_linked_in(final(cx)),
            final(self).base() == (RootedBase {
                stack: Some(T::spec_kind()),
                prev: old(cx)@.head(T::spec_kind()),
            }),
            final(self).address() == old(self).address(),
            final(self).is_initialized() == old(self).is_initialized(),
            final(self).is_wiped() == old(self).is_wiped(),
            final(self).value() == old(self).value(),
    {
        self.base.add_to_root_stack(cx, T::kind(), self.address);
    }

    /// Takes the slot, which is the head of its list in `cx`, out of that
    /// list.
    pub fn remove_from_root_stack(&mut self, cx: &mut RootingContext)
        requires
            old(cx).wf(),
            old(self).is_linked_in(old(cx)),
            old(self).address() != 0,
            old(cx)@.head(T::spec_kind()) == old(self).address(),
        ensures
            final(cx).wf(),
            final(cx)@ == old(cx)@.unlink(T::spec_kind()),
            final(cx).spec_realm() == old(cx).spec_realm(),
            final(self).base().stack is None,
            final(self).address() == old(self).address(),
            final(self).is_initialized() == old(self).is_initialized(),
            final(self).value() == old(self).value(),
            final(self).is_unrooted() == old(self).is_wiped(),
    {
        self.base.remove_from_root_stack(cx, self.address);
    }
}

impl RootedBase {
    /// Links the slot at `address`, whose links these are, into the list
    /// of `kind` in `cx`: the slot names the head of that list as its
    /// stack and the slot that the head held as its predecessor, and the
    /// head holds `address`.
    pub fn add_to_root_stack(&mut self, cx: &mut RootingContext, kind: jsapi::RootKind, address: u64)
        requires
            old(cx).wf(),
            address != 0,
            !old(cx)@.is_linked(address),
        ensures
            final(cx).wf(),
            final(cx)@ == old(cx)@.link(kind, address),
            final(cx).spec_realm() == old(cx).spec_realm(),
            *final(self) == (RootedBase { stack: Some(kind), prev: old(cx)@.head(kind) }),
            final(cx)@.nodes[address] == *final(self),
    {
        let previous = cx.link_head(kind, address);
        self.stack = Some(kind);
        self.prev = previous;
    }

    /// Takes the slot at `address`, whose links these are and which is the
    /// head of its list in `cx`, out of that list: the head holds the
    /// slot's predecessor again.
    pub fn remove_from_root_stack(&mut self, cx: &mut RootingContext, address: u64)
        requires
            old(cx).wf(),
            address != 0,
            old(self).stack is Some,
            old(cx)@.is_linked(address),
            old(cx)@.nodes[address] == *old(self),
            old(cx)@.head(old(self).stack->0) == address,
        ensures
            final(cx).wf(),
            final(cx)@ == old(cx)@.unlink(old(self).stack->0),
            final(cx).spec_realm() == old(cx).spec_realm(),
            *final(self) == (RootedBase { stack: None, prev: old(self).prev }),
    {
        match self.stack {
            Some(kind) => {
                cx.unlink_head(kind, self.prev);
                self.stack = None;
            },
            None => {},
        }
    }

    /// The address that the head of the list of `kind` in `cx` holds.
    pub fn get_root_stack(cx: &RootingContext, kind: jsapi::RootKind) -> (head: u64)
        requires
            cx.wf(),
        ensures
            head == cx@.head(kind),
    {
        cx.stack_top(kind)
    }
}

/// Things that stand for a marked location and can be turned into its
/// address, as the engine's entry points take it.
pub trait IntoHandle {
    /// The type of what the location holds.
    type Target;

    /// The address of the location.
    spec fn spec_location(&self) -> u64;

    /// The address of the location.
    fn into_handle(self) -> (h: jsapi::Handle<Self::Target>) where Self: Sized
        ensures
            h.ptr == self.spec_location(),
    ;
}

/// Things that stand for a marked location which may be written to.
pub trait IntoMutableHandle: IntoHandle {
    /// The address of the location, for writing.
    fn into_handle_mut(self) -> (h: jsapi::MutableHandle<Self::Target>) where Self: Sized
        ensures
            h.ptr == self.spec_location(),
    ;
}

} // verus!
