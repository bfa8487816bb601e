//! The context of the engine, as the one handle that all work goes through.
//!
//! A function that may start a collection takes the context exclusively. A
//! function that cannot takes it shared. Data that the collector does not
//! know, and that must therefore not be held while a collection may start,
//! is tied to a [`NoGC`] token: the token borrows the context shared, so no
//! function that takes the context exclusively can be called while the
//! token, or anything tied to it, is alive.

use crate::jsapi::RootingContext;
use std::marker::PhantomData;
use vstd::prelude::*;

verus! {

/// The context of the engine on this thread.
pub struct JSContext {
    ptr: u64,
    raw: RootingContext,
}

/// Token that ensures that no GC can happen while it is alive.
///
/// Each function that trigger GC require mutable access to [JSContext],
/// so one cannot call them because [NoGC] lifetime is bounded to [JSContext].
///
/// The token takes no room. In proofs it is known by the context that it
/// borrows.
pub struct NoGC<'cx>(PhantomData<&'cx ()>, Ghost<u64>);

impl<'cx> NoGC<'cx> {
    /// The address of the context that the token borrows.
    pub closed spec fn context(&self) -> u64 {
        self.1@
    }
}

impl JSContext {
    /// The address of the engine's context.
    pub closed spec fn address(&self) -> u64 {
        self.ptr
    }

    /// The part of the engine's context that the rooting layer works on.
    pub closed spec fn raw(&self) -> RootingContext {
        self.raw
    }

    /// Wraps the engine's context at the address `cx`, which is not null,
    /// with the part of it that the rooting layer works on.
    pub fn from_ptr(cx: u64, raw: RootingContext) -> (context: JSContext)
        requires
            cx != 0,
        ensures
            context.address() == cx,
            context.raw() == raw,
    {
        JSContext { ptr: cx, raw }
    }

    /// Returns [NoGC] token bounded to this [JSContext].
    /// No function that accepts `&mut JSContext` (read: triggers GC)
    /// can be called while this is alive.
    pub fn no_gc<'cx>(&'cx self) -> (token: NoGC<'cx>)
        ensures
            token.context() == self.address(),
    {
        NoGC(PhantomData, Ghost(self.ptr))
    }

    /// The engine's context, for work that may start a collection. While
    /// the result is in use no token can be taken, and none is alive.
    pub fn raw_cx(&mut self) -> (raw: &mut RootingContext)
        ensures
            *raw == old(self).raw(),
            final(self).raw() == *final(raw),
            final(self).address() == old(self).address(),
    {
        &mut self.raw
    }

    /// The engine's context, for work that cannot start a collection.
    pub fn raw_cx_no_gc(&self) -> (raw: &RootingContext)
        ensures
            *raw == self.raw(),
    {
        &self.raw
    }

    /// The address of the engine's context.
    pub fn as_ptr(&self) -> (address: u64)
        ensures
            address == self.address(),
    {
        self.ptr
    }
}

} // verus!
