//! Realms: the scopes that scripts run in. A context is in one realm at a
//! time; it enters another and later goes back to the one before, last in,
//! first out.
//!
//! A scope that has entered a realm keeps the context borrowed. The context
//! is reached only through the innermost scope, so an outer scope cannot
//! end while an inner one is alive.

use crate::context::JSContext;
use crate::gc::root::Handle;
use crate::jsapi::{JSAutoRealm, ObjectPtr};
use vstd::prelude::*;

verus! {

/// What a scope keeps of its entering. It is made and read by its scope
/// alone.
pub struct EnteredRealm {
    entered: JSAutoRealm,
}

impl View for EnteredRealm {
    type V = JSAutoRealm;

    closed spec fn view(&self) -> JSAutoRealm {
        self.entered
    }
}

/// The scope of a realm that was entered. When it ends, the context is
/// back in the realm that it was in before.
///
/// The fields are public so that contracts can speak of the context after
/// the end of the scope.
pub struct AutoRealm<'cx> {
    pub cx: &'cx mut JSContext,
    pub realm: EnteredRealm,
}

impl<'cx> AutoRealm<'cx> {
    /// What is kept of the entering.
    pub open spec fn spec_realm(&self) -> JSAutoRealm {
        self.realm@
    }

    /// The context as it is now.
    pub open spec fn spec_context(&self) -> JSContext {
        *self.cx
    }

    /// Enters the realm of the object `target`, which is `target_realm`.
    /// The realm becomes the current realm of the context.
    pub fn new(cx: &'cx mut JSContext, target: ObjectPtr, target_realm: u64) -> (scope: AutoRealm<
        'cx,
    >)
        requires
            target.addr != 0,
        ensures
            scope.cx.raw().spec_realm() == target_realm,
            scope.cx.raw()@ == old(cx).raw()@,
            scope.cx.address() == old(cx).address(),
            old(cx).raw().wf() ==> scope.cx.raw().wf(),
            scope.spec_realm() == (JSAutoRealm {
                cx_: old(cx).address(),
                oldRealm_: old(cx).raw().spec_realm(),
            }),
            *final(cx) == *final(scope.cx),
    {
        let address = cx.as_ptr();
        let entered = JSAutoRealm::new(cx.raw_cx(), address, target_realm);
        AutoRealm { cx, realm: EnteredRealm { entered } }
    }

    /// Enters the realm of the object that `target` holds, which is
    /// `target_realm`. The handle holds an object.
    pub fn new_from_handle(
        cx: &'cx mut JSContext,
        target: Handle<ObjectPtr>,
        target_realm: u64,
    ) -> (scope: AutoRealm<'cx>)
        requires
            target.value().addr != 0,
        ensures
            scope.cx.raw().spec_realm() == target_realm,
            scope.cx.raw()@ == old(cx).raw()@,
            scope.cx.address() == old(cx).address(),
            old(cx).raw().wf() ==> scope.cx.raw().wf(),
            scope.spec_realm() == (JSAutoRealm {
                cx_: old(cx).address(),
                oldRealm_: old(cx).raw().spec_realm(),
            }),
            *final(cx) == *final(scope.cx),
    {
        Self::new(cx, target.get(), target_realm)
    }

    /// If we can get &mut AutoRealm then we are current realm,
    /// because if there existed other current realm, we couldn't get &mut AutoRealm.
    pub fn current_realm(&mut self) -> (current: CurrentRealm<'_>)
        requires
            old(self).cx.raw().spec_realm() != 0,
        ensures
            current.spec_realm() == old(self).cx.raw().spec_realm(),
            *current.cx == *old(self).cx,
            *final(self).cx == *final(current.cx),
            final(self).spec_realm() == old(self).spec_realm(),
            *final(final(self).cx) == *final(old(self).cx),
    {
        CurrentRealm::assert_current(&mut *self.cx)
    }

    /// What is kept of the entering.
    pub fn realm(&self) -> (realm: &JSAutoRealm)
        ensures
            *realm == self.spec_realm(),
    {
        &self.realm.entered
    }

    /// The context, for work that cannot start a collection.
    pub fn context(&self) -> (cx: &JSContext)
        ensures
            *cx == self.spec_context(),
    {
        &*self.cx
    }

    /// The context, for work that may start a collection.
    pub fn context_mut(&mut self) -> (cx: &mut JSContext)
        ensures
            *cx == *old(self).cx,
            *final(self).cx == *final(cx),
            final(self).spec_realm() == old(self).spec_realm(),
            *final(final(self).cx) == *final(old(self).cx),
    {
        &mut *self.cx
    }

    /// Ends the scope: the context is back in the realm that it was in
    /// before the scope entered.
    pub fn leave(self)
        ensures
            final(self.cx).raw().spec_realm() == self.spec_realm().oldRealm_,
            final(self.cx).raw()@ == self.spec_context().raw()@,
            final(self.cx).address() == self.spec_context().address(),
            self.spec_context().raw().wf() ==> final(self.cx).raw().wf(),
    {
        self.realm.entered.leave(self.cx.raw_cx());
    }
}

/// Represents the current realm of [JSContext] (top realm on realm stack).
///
/// The fields are public so that contracts can speak of the context after
/// the end of the borrow.
pub struct CurrentRealm<'cx> {
    pub cx: &'cx mut JSContext,
    /// The address of the realm.
    pub realm: u64,
}

impl<'cx> CurrentRealm<'cx> {
    /// The address of the realm.
    pub open spec fn spec_realm(&self) -> u64 {
        self.realm
    }

    /// The context as it is now.
    pub open spec fn spec_context(&self) -> JSContext {
        *self.cx
    }

    /// The realm that the context is in. The context is in a realm.
    pub fn assert_current(cx: &'cx mut JSContext) -> (current: CurrentRealm<'cx>)
        requires
            old(cx).raw().spec_realm() != 0,
        ensures
            current.spec_realm() == old(cx).raw().spec_realm(),
            *current.cx == *old(cx),
            *final(cx) == *final(current.cx),
    {
        let realm = cx.raw_cx_no_gc().realm();
        CurrentRealm { cx, realm }
    }

    #[verifier::when_used_as_spec(spec_realm)]
    pub fn realm(&self) -> (realm: u64)
        ensures
            realm == self.spec_realm(),
    {
        self.realm
    }

    /// The context, for work that cannot start a collection.
    pub fn context(&self) -> (cx: &JSContext)
        ensures
            *cx == self.spec_context(),
    {
        &*self.cx
    }

    /// The context, for work that may start a collection.
    pub fn context_mut(&mut self) -> (cx: &mut JSContext)
        ensures
            *cx == *old(self).cx,
            *final(self).cx == *final(cx),
            final(self).spec_realm() == old(self).spec_realm(),
            *final(final(self).cx) == *final(old(self).cx),
    {
        &mut *self.cx
    }
}

} // verus!
