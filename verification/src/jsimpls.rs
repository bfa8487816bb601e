//! What the rooting layer does with the engine's data: the results of object
//! operations, the arguments of native calls, and the tables that end in a
//! zeroed entry.

use crate::jsapi::{
    AutoGCRooter, AutoGCRooterKind, CallArgs, Handle, HandleValueArray, JSErrNum, JSFunctionSpec,
    JSAutoRealm, JSJitGetterCallArgs, JSJitMethodCallArgs, JSJitSetterCallArgs, JSNativeWrapper,
    JSPropertySpec, JSPropertySpec_AccessorsOrValue_Accessors, JSPropertySpec_Kind,
    JSPropertySpec_Name, MutableHandle, ObjectOpResult, ObjectPtr, Range, RootingContext, Type,
};
use crate::jsval::{gc_pointer_aligned, JSVal, JSVAL_TAG_OBJECT};
use std::marker::PhantomData;
use vstd::prelude::*;

verus! {

impl<'a> View for HandleValueArray<'a> {
    type V = Seq<JSVal>;

    open spec fn view(&self) -> Seq<JSVal> {
        self.elements_@
    }
}

impl<'a> HandleValueArray<'a> {
    /// The empty run.
    pub fn new() -> (array: HandleValueArray<'a>)
        ensures
            array@ == Seq::<JSVal>::empty(),
    {
        let empty: &[JSVal] = &[];
        assert(empty@.len() == 0);
        HandleValueArray { elements_: empty }
    }

    /// The run of the values of `values`, which something keeps rooted for
    /// as long as the run is in use.
    pub fn from_rooted_slice(values: &'a [JSVal]) -> (array: HandleValueArray<'a>)
        ensures
            array@ == values@,
    {
        HandleValueArray { elements_: values }
    }

    /// The number of values in the run.
    pub fn length_(&self) -> (n: usize)
        ensures
            n == self@.len(),
    {
        self.elements_.len()
    }
}

impl JSAutoRealm {
    /// Puts the context `cx`, which lies at the address `address`, into
    /// `realm`, and keeps the realm that it was in.
    pub fn new(cx: &mut RootingContext, address: u64, realm: u64) -> (entered: JSAutoRealm)
        ensures
            entered == (JSAutoRealm { cx_: address, oldRealm_: old(cx).spec_realm() }),
            final(cx).spec_realm() == realm,
            final(cx)@ == old(cx)@,
            old(cx).wf() ==> final(cx).wf(),
    {
        JSAutoRealm { cx_: address, oldRealm_: cx.enter_realm(realm) }
    }

    /// Puts the context `cx` back into the realm that it was in before it
    /// entered.
    pub fn leave(self, cx: &mut RootingContext)
        ensures
            final(cx).spec_realm() == self.oldRealm_,
            final(cx)@ == old(cx)@,
            old(cx).wf() ==> final(cx).wf(),
    {
        let _ = cx.enter_realm(self.oldRealm_);
    }
}

impl AutoGCRooter {
    /// A root of `kind` that is in no list.
    pub fn new_unrooted(kind: AutoGCRooterKind) -> (rooter: AutoGCRooter)
        ensures
            rooter == (AutoGCRooter { down: 0, kind_: kind, stackTop: false }),
    {
        AutoGCRooter { down: 0, kind_: kind, stackTop: false }
    }

    /// Links the root at `address`, whose links these are and which is not
    /// the head of the list of its category in `cx`, into that list: the
    /// root names the root that the head held as the one below it, and the
    /// head holds `address`.
    pub fn add_to_root_stack(&mut self, cx: &mut RootingContext, address: u64)
        requires
            old(cx).wf(),
            old(cx).rooter_head(old(self).kind_) != address,
        ensures
            final(cx).wf(),
            *final(self) == (AutoGCRooter {
                down: old(cx).rooter_head(old(self).kind_),
                kind_: old(self).kind_,
                stackTop: true,
            }),
            final(cx).rooter_head(old(self).kind_) == address,
            forall|other: AutoGCRooterKind|
                other != old(self).kind_ ==> final(cx).rooter_head(other) == old(cx).rooter_head(
                    other,
                ),
            final(cx)@ == old(cx)@,
            final(cx).spec_realm() == old(cx).spec_realm(),
    {
        self.stackTop = true;
        self.down = cx.set_rooter_head(self.kind_, address);
    }

    /// Takes the root at `address`, whose links these are and which is the
    /// head of the list of its category in `cx`, out of that list: the head
    /// holds the root below it again.
    pub fn remove_from_root_stack(&mut self, cx: &mut RootingContext, address: u64)
        requires
            old(cx).wf(),
            old(self).stackTop,
            old(cx).rooter_head(old(self).kind_) == address,
        ensures
            final(cx).wf(),
            *final(self) == *old(self),
            final(cx).rooter_head(old(self).kind_) == old(self).down,
            forall|other: AutoGCRooterKind|
                other != old(self).kind_ ==> final(cx).rooter_head(other) == old(cx).rooter_head(
                    other,
                ),
            final(cx)@ == old(cx)@,
            final(cx).spec_realm() == old(cx).spec_realm(),
    {
        let _ = cx.set_rooter_head(self.kind_, self.down);
    }
}

impl JSJitMethodCallArgs {
    /// The place of the argument at `i`, or `None` where the call has no
    /// such argument: the engine's own place of undefined stands for it
    /// then.
    pub fn get(&self, i: u32) -> (h: Option<Handle<JSVal>>)
        requires
            self.argv_ + 8 * self.argc_ <= u64::MAX,
        ensures
            i < self.argc_ ==> (h matches Some(handle) && handle.ptr == self.argv_ + 8 * i),
            i >= self.argc_ ==> h is None,
    {
        if i < self.argc_ {
            Some(Handle::from_marked_location(self.argv_ + 8 * (i as u64)))
        } else {
            None
        }
    }

    /// The place of the argument at `i`.
    pub fn index(&self, i: u32) -> (h: Handle<JSVal>)
        requires
            i < self.argc_,
            self.argv_ + 8 * self.argc_ <= u64::MAX,
        ensures
            h.ptr == self.argv_ + 8 * i,
    {
        Handle::from_marked_location(self.argv_ + 8 * (i as u64))
    }

    /// The place of the argument at `i`, for writing.
    pub fn index_mut(&self, i: u32) -> (h: MutableHandle<JSVal>)
        requires
            i < self.argc_,
            self.argv_ + 8 * self.argc_ <= u64::MAX,
        ensures
            h.ptr == self.argv_ + 8 * i,
    {
        MutableHandle::from_marked_location(self.argv_ + 8 * (i as u64))
    }

    /// The place for the result: the callee's slot, two words below the
    /// first argument.
    pub fn rval(&self) -> (h: MutableHandle<JSVal>)
        requires
            self.argv_ >= 16,
        ensures
            h.ptr == self.argv_ - 16,
    {
        MutableHandle::from_marked_location(self.argv_ - 16)
    }
}

impl JSJitGetterCallArgs {
    /// The place for the result.
    pub fn rval(&self) -> (h: MutableHandle<JSVal>)
        ensures
            h.ptr == self._base.ptr,
    {
        MutableHandle::from_marked_location(self._base.ptr)
    }
}

impl<'a> CallArgs<'a> {
    /// The words lie where the addresses say: there are as many as the
    /// call has slots, and the address of each slot can be formed.
    pub open spec fn wf(&self) -> bool {
        &&& self.vp_@.len() >= self.argc_ + 2 + (if self.constructing_ {
            1int
        } else {
            0
        })
        &&& self.argv_ >= 16
        &&& self.argv_ + 8 * (self.argc_ + 1) <= u64::MAX
        &&& self.constructing_ == self.vp_@[1].spec_is_magic()
    }

    /// The argument at `i`.
    pub open spec fn arg(&self, i: int) -> JSVal {
        self.vp_@[i + 2]
    }

    /// The arguments of a call with `argc` arguments whose words are `vp`,
    /// the first of them at the address `address`.
    pub fn from_vp(vp: &'a [JSVal], address: u64, argc: u32) -> (args: CallArgs<'a>)
        requires
            vp@.len() >= argc + 2,
            vp@[1].spec_is_magic() ==> vp@.len() >= argc + 3,
            address + 8 * (argc + 3) <= u64::MAX,
        ensures
            args.wf(),
            args.vp_@ == vp@,
            args.argc_ == argc,
            args.argv_ == address + 16,
            args.constructing_ == vp@[1].spec_is_magic(),
    {
        CallArgs { constructing_: vp[1].is_magic(), argc_: argc, argv_: address + 16, vp_: vp }
    }

    /// The place of the argument at `i`.
    pub fn index(&self, i: u32) -> (h: Handle<JSVal>)
        requires
            self.wf(),
            i < self.argc_,
        ensures
            h.ptr == self.argv_ + 8 * i,
    {
        Handle::from_marked_location(self.argv_ + 8 * (i as u64))
    }

    /// The place of the argument at `i`, for writing.
    pub fn index_mut(&self, i: u32) -> (h: MutableHandle<JSVal>)
        requires
            self.wf(),
            i < self.argc_,
        ensures
            h.ptr == self.argv_ + 8 * i,
    {
        MutableHandle::from_marked_location(self.argv_ + 8 * (i as u64))
    }

    /// The argument at `i`, or undefined where the call has no such
    /// argument.
    pub fn get(&self, i: u32) -> (v: JSVal)
        requires
            self.wf(),
        ensures
            i < self.argc_ ==> v == self.arg(i as int),
            i >= self.argc_ ==> v == crate::jsval::spec_undefined_value(),
    {
        if i < self.argc_ {
            let slots = self.vp_.len();
            assert(i + 2 < slots);
            self.vp_[i as usize + 2]
        } else {
            crate::jsval::UndefinedValue()
        }
    }

    /// The place for the result: the callee's slot.
    pub fn rval(&self) -> (h: MutableHandle<JSVal>)
        requires
            self.wf(),
        ensures
            h.ptr == self.argv_ - 16,
    {
        MutableHandle::from_marked_location(self.argv_ - 16)
    }

    /// The place of `this`.
    pub fn thisv(&self) -> (h: Handle<JSVal>)
        requires
            self.wf(),
        ensures
            h.ptr == self.argv_ - 8,
    {
        Handle::from_marked_location(self.argv_ - 8)
    }

    /// The place of the callee.
    pub fn calleev(&self) -> (h: Handle<JSVal>)
        requires
            self.wf(),
        ensures
            h.ptr == self.argv_ - 16,
    {
        Handle::from_marked_location(self.argv_ - 16)
    }

    /// The object that is called.
    pub fn callee(&self) -> (o: ObjectPtr)
        requires
            self.wf(),
            self.vp_@[0].spec_to_tag() <= JSVAL_TAG_OBJECT,
            self.vp_@[0].spec_is_object(),
            gc_pointer_aligned(self.vp_@[0].spec_payload()),
        ensures
            o.addr == self.vp_@[0].spec_payload(),
    {
        self.vp_[0].to_object()
    }

    /// The place of `new.target`, in a call that constructs.
    pub fn new_target(&self) -> (h: MutableHandle<JSVal>)
        requires
            self.wf(),
            self.constructing_,
        ensures
            h.ptr == self.argv_ + 8 * self.argc_,
    {
        MutableHandle::from_marked_location(self.argv_ + 8 * (self.argc_ as u64))
    }

    /// Whether the call constructs: whether the slot of `this` holds the
    /// engine's marker for that.
    pub fn is_constructing(&self) -> (b: bool)
        requires
            self.wf(),
        ensures
            b == self.vp_@[1].spec_is_magic(),
            b == self.constructing_,
    {
        self.vp_[1].is_magic()
    }
}

impl JSJitSetterCallArgs {
    /// The place of the value to set. A setter has one argument.
    pub fn get(&self, i: u32) -> (h: Handle<JSVal>)
        requires
            i == 0,
        ensures
            h.ptr == self._base.ptr,
    {
        self._base.handle()
    }
}

impl JSNativeWrapper {
    /// The wrapper that is all zero.
    pub open spec fn spec_zero() -> JSNativeWrapper {
        JSNativeWrapper { op: None, info: 0 }
    }

    /// The wrapper that is all zero.
    pub fn zero() -> (w: JSNativeWrapper)
        ensures
            w == JSNativeWrapper::spec_zero(),
    {
        JSNativeWrapper { op: None, info: 0 }
    }

    pub open spec fn spec_is_zeroed(&self) -> bool {
        self.op is None && self.info == 0
    }

    #[verifier::when_used_as_spec(spec_is_zeroed)]
    pub fn is_zeroed(&self) -> (b: bool)
        ensures
            b == self.spec_is_zeroed(),
            b == (*self == JSNativeWrapper::spec_zero()),
    {
        self.op.is_none() && self.info == 0
    }
}

impl JSFunctionSpec {
    /// The entry that is all zero: the one that ends a table.
    pub open spec fn spec_zero() -> JSFunctionSpec {
        JSFunctionSpec {
            name: JSPropertySpec_Name { string_: 0 },
            call: JSNativeWrapper::spec_zero(),
            nargs: 0,
            flags: 0,
            selfHostedName: 0,
        }
    }

    /// The entry that is all zero.
    pub fn zero() -> (spec: JSFunctionSpec)
        ensures
            spec == JSFunctionSpec::spec_zero(),
    {
        JSFunctionSpec {
            name: JSPropertySpec_Name { string_: 0 },
            call: JSNativeWrapper::zero(),
            nargs: 0,
            flags: 0,
            selfHostedName: 0,
        }
    }

    pub open spec fn spec_is_zeroed(&self) -> bool {
        *self == JSFunctionSpec::spec_zero()
    }

    #[verifier::when_used_as_spec(spec_is_zeroed)]
    pub fn is_zeroed(&self) -> (b: bool)
        ensures
            b == self.spec_is_zeroed(),
    {
        self.name.string_ == 0 && self.selfHostedName == 0 && self.flags == 0 && self.nargs == 0
            && self.call.is_zeroed()
    }
}

impl JSPropertySpec {
    /// The entry that is all zero: the one that ends a table.
    pub open spec fn spec_zero() -> JSPropertySpec {
        JSPropertySpec {
            name: JSPropertySpec_Name { string_: 0 },
            attributes_: 0,
            kind_: JSPropertySpec_Kind::NativeAccessor,
            accessors: JSPropertySpec_AccessorsOrValue_Accessors {
                getter: JSNativeWrapper::spec_zero(),
                setter: JSNativeWrapper::spec_zero(),
            },
        }
    }

    /// The entry that is all zero.
    pub fn zero() -> (spec: JSPropertySpec)
        ensures
            spec == JSPropertySpec::spec_zero(),
    {
        JSPropertySpec {
            name: JSPropertySpec_Name { string_: 0 },
            attributes_: 0,
            kind_: JSPropertySpec_Kind::NativeAccessor,
            accessors: JSPropertySpec_AccessorsOrValue_Accessors {
                getter: JSNativeWrapper::zero(),
                setter: JSNativeWrapper::zero(),
            },
        }
    }

    pub open spec fn spec_is_accessor(&self) -> bool {
        self.kind_ == JSPropertySpec_Kind::NativeAccessor || self.kind_
            == JSPropertySpec_Kind::SelfHostedAccessor
    }

    /// Whether the property is given by a getter and a setter.
    #[verifier::when_used_as_spec(spec_is_accessor)]
    pub fn is_accessor(&self) -> (b: bool)
        ensures
            b == self.spec_is_accessor(),
    {
        self.kind_ == JSPropertySpec_Kind::NativeAccessor || self.kind_
            == JSPropertySpec_Kind::SelfHostedAccessor
    }

    /// The entry has no name, no attribute and no accessor. An entry that
    /// is all zero is such a one; so is one that differs from it in being
    /// self-hosted.
    pub open spec fn spec_is_zeroed(&self) -> bool {
        &&& self.name.string_ == 0
        &&& self.attributes_ == 0
        &&& self.spec_is_accessor()
        &&& self.accessors.getter.spec_is_zeroed()
        &&& self.accessors.setter.spec_is_zeroed()
    }

    #[verifier::when_used_as_spec(spec_is_zeroed)]
    pub fn is_zeroed(&self) -> (b: bool)
        ensures
            b == self.spec_is_zeroed(),
            *self == JSPropertySpec::spec_zero() ==> b,
    {
        self.name.string_ == 0 && self.attributes_ == 0 && self.is_accessor()
            && self.accessors.getter.is_zeroed() && self.accessors.setter.is_zeroed()
    }
}

impl ObjectOpResult {
    pub open spec fn spec_ok(&self) -> bool {
        self.code_ == Some(JSErrNum::JSMSG_NOT_AN_ERROR)
    }

    /// The result of a failure with `code`.
    pub open spec fn failed_with(code: JSErrNum) -> ObjectOpResult {
        ObjectOpResult { code_: Some(code) }
    }

    /// Whether the operation succeeded. The outcome is known.
    #[verifier::when_used_as_spec(spec_ok)]
    pub fn ok(&self) -> (b: bool)
        requires
            self.code_ is Some,
        ensures
            b == self.spec_ok(),
    {
        match self.code_ {
            Some(JSErrNum::JSMSG_NOT_AN_ERROR) => true,
            _ => false,
        }
    }

    /// Set this ObjectOpResult to true and return true.
    pub fn succeed(&mut self) -> (b: bool)
        ensures
            b,
            final(self).spec_ok(),
    {
        self.code_ = Some(JSErrNum::JSMSG_NOT_AN_ERROR);
        true
    }

    /// Records the failure with `code`, which is an error, and returns
    /// true: the failure is reported, not thrown.
    pub fn fail(&mut self, code: JSErrNum) -> (b: bool)
        requires
            code != JSErrNum::JSMSG_NOT_AN_ERROR,
        ensures
            b,
            *final(self) == ObjectOpResult::failed_with(code),
            !final(self).spec_ok(),
    {
        self.code_ = Some(code);
        true
    }

    pub fn fail_cant_redefine_prop(&mut self) -> (b: bool)
        ensures
            b,
            *final(self) == ObjectOpResult::failed_with(JSErrNum::JSMSG_CANT_REDEFINE_PROP),
    {
        self.fail(JSErrNum::JSMSG_CANT_REDEFINE_PROP)
    }

    pub fn fail_read_only(&mut self) -> (b: bool)
        ensures
            b,
            *final(self) == ObjectOpResult::failed_with(JSErrNum::JSMSG_READ_ONLY),
    {
        self.fail(JSErrNum::JSMSG_READ_ONLY)
    }

    pub fn fail_getter_only(&mut self) -> (b: bool)
        ensures
            b,
            *final(self) == ObjectOpResult::failed_with(JSErrNum::JSMSG_GETTER_ONLY),
    {
        self.fail(JSErrNum::JSMSG_GETTER_ONLY)
    }

    pub fn fail_cant_delete(&mut self) -> (b: bool)
        ensures
            b,
            *final(self) == ObjectOpResult::failed_with(JSErrNum::JSMSG_CANT_DELETE),
    {
        self.fail(JSErrNum::JSMSG_CANT_DELETE)
    }

    pub fn fail_cant_set_interposed(&mut self) -> (b: bool)
        ensures
            b,
            *final(self) == ObjectOpResult::failed_with(JSErrNum::JSMSG_CANT_SET_INTERPOSED),
    {
        self.fail(JSErrNum::JSMSG_CANT_SET_INTERPOSED)
    }

    pub fn fail_cant_define_window_element(&mut self) -> (b: bool)
        ensures
            b,
            *final(self) == ObjectOpResult::failed_with(
                JSErrNum::JSMSG_CANT_DEFINE_WINDOW_ELEMENT,
            ),
    {
        self.fail(JSErrNum::JSMSG_CANT_DEFINE_WINDOW_ELEMENT)
    }

    pub fn fail_cant_delete_window_element(&mut self) -> (b: bool)
        ensures
            b,
            *final(self) == ObjectOpResult::failed_with(
                JSErrNum::JSMSG_CANT_DELETE_WINDOW_ELEMENT,
            ),
    {
        self.fail(JSErrNum::JSMSG_CANT_DELETE_WINDOW_ELEMENT)
    }

    pub fn fail_cant_define_window_named_property(&mut self) -> (b: bool)
        ensures
            b,
            *final(self) == ObjectOpResult::failed_with(
                JSErrNum::JSMSG_CANT_DEFINE_WINDOW_NAMED_PROPERTY,
            ),
    {
        self.fail(JSErrNum::JSMSG_CANT_DEFINE_WINDOW_NAMED_PROPERTY)
    }

    pub fn fail_cant_delete_window_named_property(&mut self) -> (b: bool)
        ensures
            b,
            *final(self) == ObjectOpResult::failed_with(
                JSErrNum::JSMSG_CANT_DELETE_WINDOW_NAMED_PROPERTY,
            ),
    {
        self.fail(JSErrNum::JSMSG_CANT_DELETE_WINDOW_NAMED_PROPERTY)
    }

    pub fn fail_cant_define_window_non_configurable(&mut self) -> (b: bool)
        ensures
            b,
            *final(self) == ObjectOpResult::failed_with(JSErrNum::JSMSG_CANT_DEFINE_WINDOW_NC),
    {
        self.fail(JSErrNum::JSMSG_CANT_DEFINE_WINDOW_NC)
    }

    pub fn fail_cant_prevent_extensions(&mut self) -> (b: bool)
        ensures
            b,
            *final(self) == ObjectOpResult::failed_with(JSErrNum::JSMSG_CANT_PREVENT_EXTENSIONS),
    {
        self.fail(JSErrNum::JSMSG_CANT_PREVENT_EXTENSIONS)
    }

    pub fn fail_cant_set_proto(&mut self) -> (b: bool)
        ensures
            b,
            *final(self) == ObjectOpResult::failed_with(JSErrNum::JSMSG_CANT_SET_PROTO),
    {
        self.fail(JSErrNum::JSMSG_CANT_SET_PROTO)
    }

    pub fn fail_no_named_setter(&mut self) -> (b: bool)
        ensures
            b,
            *final(self) == ObjectOpResult::failed_with(JSErrNum::JSMSG_NO_NAMED_SETTER),
    {
        self.fail(JSErrNum::JSMSG_NO_NAMED_SETTER)
    }

    pub fn fail_no_indexed_setter(&mut self) -> (b: bool)
        ensures
            b,
            *final(self) == ObjectOpResult::failed_with(JSErrNum::JSMSG_NO_INDEXED_SETTER),
    {
        self.fail(JSErrNum::JSMSG_NO_INDEXED_SETTER)
    }

    pub fn fail_not_data_descriptor(&mut self) -> (b: bool)
        ensures
            b,
            *final(self) == ObjectOpResult::failed_with(JSErrNum::JSMSG_NOT_DATA_DESCRIPTOR),
    {
        self.fail(JSErrNum::JSMSG_NOT_DATA_DESCRIPTOR)
    }

    pub fn fail_invalid_descriptor(&mut self) -> (b: bool)
        ensures
            b,
            *final(self) == ObjectOpResult::failed_with(JSErrNum::JSMSG_INVALID_DESCRIPTOR),
    {
        self.fail(JSErrNum::JSMSG_INVALID_DESCRIPTOR)
    }

    pub fn fail_bad_array_length(&mut self) -> (b: bool)
        ensures
            b,
            *final(self) == ObjectOpResult::failed_with(JSErrNum::JSMSG_BAD_ARRAY_LENGTH),
    {
        self.fail(JSErrNum::JSMSG_BAD_ARRAY_LENGTH)
    }

    pub fn fail_bad_index(&mut self) -> (b: bool)
        ensures
            b,
            *final(self) == ObjectOpResult::failed_with(JSErrNum::JSMSG_BAD_INDEX),
    {
        self.fail(JSErrNum::JSMSG_BAD_INDEX)
    }

    /// The error that the operation failed with.
    pub fn failure_code(&self) -> (code: JSErrNum)
        requires
            self.code_ is Some,
            !self.spec_ok(),
        ensures
            self.code_ == Some(code),
            code != JSErrNum::JSMSG_NOT_AN_ERROR,
    {
        match self.code_ {
            Some(code) => code,
            None => vstd::pervasive::unreached(),
        }
    }

    /// The same as `fail_no_named_setter`, under its older name.
    pub fn failNoNamedSetter(&mut self) -> (b: bool)
        ensures
            b,
            *final(self) == ObjectOpResult::failed_with(JSErrNum::JSMSG_NO_NAMED_SETTER),
    {
        self.fail_no_named_setter()
    }
}

impl Default for ObjectOpResult {
    /// The result of an operation whose outcome is not known yet.
    fn default() -> (r: ObjectOpResult)
        ensures
            r.code_ is None,
    {
        ObjectOpResult { code_: None }
    }
}

impl<T> Range<T> {
    /// The run from the address `start` up to the address `end`.
    pub fn new(start: u64, end: u64) -> (r: Range<T>)
        ensures
            r.mStart == start,
            r.mEnd == end,
    {
        Range { mStart: start, mEnd: end, _phantom_0: PhantomData }
    }
}

impl Type {
    pub open spec fn spec_byte_size(&self) -> Option<usize> {
        match self {
            Type::Int8 | Type::Uint8 | Type::Uint8Clamped => Some(1),
            Type::Int16 | Type::Uint16 | Type::Float16 => Some(2),
            Type::Int32 | Type::Uint32 | Type::Float32 => Some(4),
            Type::Int64 | Type::Float64 | Type::BigInt64 | Type::BigUint64 => Some(8),
            Type::Simd128 => Some(16),
            Type::MaxTypedArrayViewType => None,
        }
    }

    /// The number of bytes of an element of the type, or `None` for the
    /// entry that only marks the end of the types of typed arrays.
    #[verifier::when_used_as_spec(spec_byte_size)]
    pub fn byte_size(&self) -> (size: Option<usize>)
        ensures
            size == self.spec_byte_size(),
    {
        match self {
            Type::Int8 | Type::Uint8 | Type::Uint8Clamped => Some(1),
            Type::Int16 | Type::Uint16 | Type::Float16 => Some(2),
            Type::Int32 | Type::Uint32 | Type::Float32 => Some(4),
            Type::Int64 | Type::Float64 | Type::BigInt64 | Type::BigUint64 => Some(8),
            Type::Simd128 => Some(16),
            Type::MaxTypedArrayViewType => None,
        }
    }
}

} // verus!
