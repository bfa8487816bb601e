//! Guards and handles.
//!
//! A guard keeps a slot linked into the stack roots of a context from its
//! making to its end. A handle is a view of a marked location that does not
//! outlive what keeps the location alive: a read-only one for reading, a
//! mutable one for the writes that raise a barrier.

use crate::jsapi;
use crate::jsapi::RootingContext;
use crate::jsgc::{
    BarrierCall, GCMethods, IntoHandle, IntoMutableHandle, MarkedLocation, RootKind, Rooted,
    RootedBase, ValueArray,
};
use vstd::prelude::*;

verus! {

/// Keeps a value in the stack roots of a context.
///
/// The guard is the only owner of its slot while it lives. `root` is public
/// so that contracts can speak of the slot after the guard's end; the slot
/// itself changes only through the guard.
pub struct RootedGuard<'a, T: 'a + RootKind> {
    pub root: &'a mut Rooted<T>,
}

impl<'a, T: 'a + RootKind> RootedGuard<'a, T> {
    /// The slot holds a value and names the list of its category.
    pub open spec fn wf(&self) -> bool {
        &&& self.root.is_initialized()
        &&& self.root.address() != 0
        &&& self.root.base().stack == Some(T::spec_kind())
    }

    /// The rooted value.
    pub open spec fn value(&self) -> T {
        self.root.value()
    }

    /// The address of the slot.
    pub open spec fn address(&self) -> u64 {
        self.root.address()
    }

    /// The links of the slot.
    pub open spec fn base(&self) -> RootedBase {
        self.root.base()
    }

    /// The slot is linked in `cx` as the collector would find it there.
    pub open spec fn is_rooted_in(&self, cx: &RootingContext) -> bool {
        self.root.is_linked_in(cx)
    }

    /// Writes `initial` into the slot `root` and links the slot into the
    /// list of its category in `cx`, as the new head.
    pub fn new(cx: &mut RootingContext, root: &'a mut Rooted<T>, initial: T) -> (guard: Self)
        requires
            old(cx).wf(),
            old(root).is_unrooted(),
            old(root).address() != 0,
            !old(cx)@.is_linked(old(root).address()),
        ensures
            final(cx).wf(),
            final(cx)@ == old(cx)@.link(T::spec_kind(), old(root).address()),
            final(cx).spec_realm() == old(cx).spec_realm(),
            guard.wf(),
            guard.is_rooted_in(final(cx)),
            guard.value() == initial,
            guard.address() == old(root).address(),
            guard.base().prev == old(cx)@.head(T::spec_kind()),
            *final(root) == *final(guard.root),
    {
        root.initialize(initial);
        root.add_to_root_stack(cx);
        RootedGuard { root }
    }

    /// A read-only view of the rooted value.
    pub fn handle(&'a self) -> (h: Handle<'a, T>)
        requires
            self.wf(),
        ensures
            h.value() == self.value(),
            h.location() == self.address(),
    {
        Handle::new(self.root.marked())
    }

    /// A view of the rooted value through which it can be written.
    pub fn handle_mut(&mut self) -> (h: MutableHandle<'_, T>)
        requires
            old(self).wf(),
        ensures
            h.value() == old(self).value(),
            h.location() == old(self).address(),
            final(self).wf() == (final(h.ptr).address() == old(self).address()),
            final(self).value() == final(h.ptr).value(),
            final(self).address() == old(self).address(),
            final(self).base() == old(self).base(),
            *final(final(self).root) == *final(old(self).root),
    {
        MutableHandle::new(self.root.marked_mut())
    }

    /// The address of the rooted value.
    pub fn as_ptr(&self) -> (location: u64)
        requires
            self.wf(),
        ensures
            location == self.address(),
    {
        self.root.marked().location()
    }

    /// The address of the slot that was the head of the list when this one
    /// was linked, or zero.
    pub fn prev(&self) -> (address: u64)
        ensures
            address == self.base().prev,
    {
        self.root.links().prev
    }

    /// A copy of the rooted value.
    pub fn get(&self) -> (v: T) where T: Copy
        requires
            self.wf(),
        ensures
            v == self.value(),
    {
        *self.root.marked().get()
    }

    /// Writes `v` into the slot and gives the barrier that the write
    /// raises: it names the slot, the value that the slot held, and `v`.
    pub fn set(&mut self, v: T) -> (call: BarrierCall<T>) where T: GCMethods
        requires
            old(self).wf(),
        ensures
            final(self).wf(),
            final(self).value() == v,
            final(self).address() == old(self).address(),
            final(self).base() == old(self).base(),
            *final(final(self).root) == *final(old(self).root),
            call == (BarrierCall { location: old(self).address(), prev: old(self).value(), next: v }),
    {
        let mut h = self.handle_mut();
        h.set(v)
    }

    /// Whether the slot is the head of the list of its category in `cx`:
    /// whether the guard is the one that may end next.
    pub fn is_top(&self, cx: &RootingContext) -> (b: bool)
        requires
            cx.wf(),
        ensures
            b == (cx@.head(T::spec_kind()) == self.address()),
    {
        cx.stack_top(T::kind()) == self.root.location()
    }

    /// Ends the guard if it is the one that may end: if its slot is the head
    /// of its list in `cx`. A guard that is asked to end while a guard that
    /// was made after it is alive is handed back, and nothing changes.
    pub fn try_unroot(self, cx: &mut RootingContext) -> (r: Result<(), Self>)
        requires
            old(cx).wf(),
            self.wf(),
            self.is_rooted_in(old(cx)),
        ensures
            final(cx).wf(),
            final(cx).spec_realm() == old(cx).spec_realm(),
            r is Ok <==> old(cx)@.head(T::spec_kind()) == self.address(),
            r is Ok ==> final(cx)@ == old(cx)@.unlink(T::spec_kind()),
            r is Ok ==> final(self.root).is_unrooted(),
            r is Ok ==> final(self.root).address() == self.address(),
            r matches Err(guard) ==> guard == self && final(cx)@ == old(cx)@,
    {
        if self.is_top(cx) {
            self.unroot(cx);
            Ok(())
        } else {
            Err(self)
        }
    }

    /// Ends the guard: takes the value out of the slot and the slot, which
    /// is the head of its list in `cx`, out of that list.
    pub fn unroot(self, cx: &mut RootingContext)
        requires
            old(cx).wf(),
            self.wf(),
            self.is_rooted_in(old(cx)),
            old(cx)@.head(T::spec_kind()) == self.address(),
        ensures
            final(cx).wf(),
            final(cx)@ == old(cx)@.unlink(T::spec_kind()),
            final(cx).spec_realm() == old(cx).spec_realm(),
            final(self.root).is_unrooted(),
            final(self.root).address() == self.address(),
    {
        self.root.wipe();
        self.root.remove_from_root_stack(cx);
    }
}

impl<'a, T> RootedGuard<'a, Option<T>> where Option<T>: RootKind {
    /// Takes the value out of the slot and leaves `None` there.
    pub fn take(&mut self) -> (v: Option<T>)
        requires
            old(self).wf(),
        ensures
            v == old(self).value(),
            final(self).wf(),
            final(self).value() == None::<T>,
            final(self).address() == old(self).address(),
            final(self).base() == old(self).base(),
            *final(final(self).root) == *final(old(self).root),
    {
        let mut h = self.handle_mut();
        h.take()
    }
}

impl<'a, const N: usize> RootedGuard<'a, ValueArray<N>> {
    /// The values of the rooted array, as the engine's entry points take
    /// the arguments of a call.
    pub fn as_handle_value_array(&self) -> (array: jsapi::HandleValueArray<'_>)
        requires
            self.wf(),
        ensures
            array@ == self.value()@,
    {
        jsapi::HandleValueArray::from_rooted_slice(
            self.root.marked().get().elements().as_slice(),
        )
    }
}

/// A read-only view of a marked location.
pub struct Handle<'a, T: 'a> {
    ptr: &'a MarkedLocation<T>,
}

impl<T> Clone for Handle<'_, T> {
    fn clone(&self) -> (h: Self)
        ensures
            h == *self,
    {
        *self
    }
}

impl<T> Copy for Handle<'_, T> {

}

impl<'a, T> Handle<'a, T> {
    /// What the location holds.
    pub closed spec fn value(&self) -> T {
        self.ptr.value()
    }

    /// The address of the location.
    pub closed spec fn location(&self) -> u64 {
        self.ptr.address()
    }

    /// A copy of what the location holds.
    pub fn get(&self) -> (v: T) where T: Copy
        ensures
            v == self.value(),
    {
        *self.ptr.get()
    }

    /// A view of what the location holds.
    pub fn get_ref(&self) -> (v: &'a T)
        ensures
            *v == self.value(),
    {
        self.ptr.get()
    }

    pub fn new(ptr: &'a MarkedLocation<T>) -> (h: Self)
        ensures
            h.value() == ptr.value(),
            h.location() == ptr.address(),
    {
        Handle { ptr }
    }
}

impl<'a, T> IntoHandle for Handle<'a, T> {
    type Target = T;

    open spec fn spec_location(&self) -> u64 {
        self.location()
    }

    fn into_handle(self) -> (h: jsapi::Handle<T>) {
        jsapi::Handle::from_marked_location(self.ptr.location())
    }
}

/// A view of a marked location through which it can be written.
///
/// `ptr` is public so that contracts can speak of what the location holds
/// when the handle is gone. The location changes only through `set` and
/// `take`.
pub struct MutableHandle<'a, T: 'a> {
    pub ptr: &'a mut MarkedLocation<T>,
}

impl<'a, T> MutableHandle<'a, T> {
    /// What the location holds.
    pub open spec fn value(&self) -> T {
        self.ptr.value()
    }

    /// The address of the location.
    pub open spec fn location(&self) -> u64 {
        self.ptr.address()
    }

    /// A read-only view of the location.
    pub fn handle(&self) -> (h: Handle<'_, T>)
        ensures
            h.value() == self.value(),
            h.location() == self.location(),
    {
        Handle::new(&*self.ptr)
    }

    pub fn new(ptr: &'a mut MarkedLocation<T>) -> (h: Self)
        ensures
            *h.ptr == *old(ptr),
            *final(h.ptr) == *final(ptr),
    {
        Self { ptr }
    }

    /// A copy of what the location holds.
    pub fn get(&self) -> (v: T) where T: Copy
        ensures
            v == self.value(),
    {
        *self.ptr.get()
    }

    /// Writes `v` into the location and gives the barrier that the write
    /// raises: it names the location, the value that it held, and `v`.
    pub fn set(&mut self, v: T) -> (call: BarrierCall<T>) where T: GCMethods
        ensures
            final(self).value() == v,
            final(self).location() == old(self).location(),
            *final(final(self).ptr) == *final(old(self).ptr),
            call == (BarrierCall {
                location: old(self).location(),
                prev: old(self).value(),
                next: v,
            }),
    {
        let location = self.ptr.location();
        let prev = self.ptr.write(v);
        T::post_barrier(location, prev, v)
    }

    /// A handle to the same location that lives for a shorter time and
    /// keeps this one borrowed meanwhile. A mutable handle that is to be
    /// handed to several calls in turn is reborrowed for all but the last.
    pub fn reborrow<'b>(&'b mut self) -> (h: MutableHandle<'b, T>) where 'a: 'b
        ensures
            h.value() == old(self).value(),
            h.location() == old(self).location(),
            *final(self).ptr == *final(h.ptr),
            *final(final(self).ptr) == *final(old(self).ptr),
    {
        MutableHandle { ptr: &mut *self.ptr }
    }

    /// The address of the location, as the engine's entry points take it
    /// for writing.
    pub fn raw(&mut self) -> (h: jsapi::MutableHandle<T>)
        ensures
            h.ptr == old(self).location(),
            *final(self).ptr == *old(self).ptr,
            *final(final(self).ptr) == *final(old(self).ptr),
    {
        jsapi::MutableHandle::from_marked_location(self.ptr.location())
    }
}

impl<'a, T> MutableHandle<'a, Option<T>> {
    /// Takes the value out of the location and leaves `None` there.
    pub fn take(&mut self) -> (v: Option<T>)
        ensures
            v == old(self).value(),
            final(self).value() == None::<T>,
            final(self).location() == old(self).location(),
            *final(final(self).ptr) == *final(old(self).ptr),
    {
        self.ptr.write(None)
    }
}

impl<'a, T> IntoHandle for MutableHandle<'a, T> {
    type Target = T;

    open spec fn spec_location(&self) -> u64 {
        self.location()
    }

    fn into_handle(self) -> (h: jsapi::Handle<T>) {
        jsapi::Handle::from_marked_location(self.ptr.location())
    }
}

impl<'a, T> IntoMutableHandle for MutableHandle<'a, T> {
    fn into_handle_mut(self) -> (h: jsapi::MutableHandle<T>) {
        jsapi::MutableHandle::from_marked_location(self.ptr.location())
    }
}

} // verus!
