//! The life of the engine and of its contexts, and the conversions and
//! checks that need no call into the engine.
//!
//! The engine is started once in a process and shut down once. A context
//! lives on one thread, which holds at most one. What the engine itself
//! does at each of these steps is not here: the functions of this module
//! take the outcome of the engine's part as an argument, decide, and keep
//! the books.

use crate::gc::root::{Handle, RootedGuard};
use crate::jsapi::{JSFunctionSpec, JSPropertySpec, ObjectPtr, StringPtr};
use crate::jsval::{
    double_bits_of_int32, gc_pointer_aligned, lemma_word_arithmetic, JSVal, JSVAL_TAG_OBJECT,
};
use vstd::prelude::*;
use vstd::string::StringSliceAdditionalSpecFns;

verus! {

/// The native stack that a context may use, in bytes.
pub const STACK_QUOTA: usize = 128 * 8 * 1024;

/// The part of the native stack that is kept for the code of the system.
pub const SYSTEM_CODE_BUFFER: usize = 10 * 1024;

/// The part of the native stack that is kept for trusted scripts.
pub const TRUSTED_SCRIPT_BUFFER: usize = 8 * 12800;

/// The size of a chunk of the engine's heap, as a power of two.
pub const ChunkShift: usize = 20;

/// The size of a chunk of the engine's heap, in bytes.
pub const ChunkSize: usize = 0x10_0000;

/// The nominal size of the heap of a context, in bytes.
pub const default_heapsize: u32 = 32 * 1024 * 1024;

/// The class flag of the classes of the objects of the embedding's
/// document model.
pub const JSCLASS_IS_DOMJSCLASS: u32 = 0x10;

/// The class flag of the classes of global objects.
pub const JSCLASS_IS_GLOBAL: u32 = 0x2_0000;

/// Things that say whether a call into the engine went well, as a result
/// with an error that carries nothing: what went wrong is left pending in
/// the engine.
pub trait ToResult {
    spec fn spec_to_result(self) -> Result<(), ()>;

    fn to_result(self) -> (r: Result<(), ()>)
        ensures
            r == self.spec_to_result(),
    ;
}

impl ToResult for bool {
    open spec fn spec_to_result(self) -> Result<(), ()> {
        if self {
            Ok(())
        } else {
            Err(())
        }
    }

    fn to_result(self) -> (r: Result<(), ()>) {
        if self {
            Ok(())
        } else {
            Err(())
        }
    }
}

/// Where the process is in the life of the engine.
#[derive(Clone, Copy, PartialEq, Eq, Structural, Debug)]
pub enum EngineState {
    Uninitialized,
    InitFailed,
    Initialized,
    ShutDown,
}

#[derive(Clone, Copy, PartialEq, Eq, Structural, Debug)]
pub enum JSEngineError {
    AlreadyInitialized,
    AlreadyShutDown,
    InitFailed,
}

/// A handle that must be kept alive in order to create new Runtimes.
/// When this handle is dropped, the engine is shut down and cannot
/// be reinitialized.
pub struct JSEngine {
    /// The count of alive handles derived from this initialized instance.
    outstanding_handles: u32,
}

/// A share in the engine: while one is out, the engine is not shut down.
pub struct JSEngineHandle {
    share: (),
}

impl EngineState {
    /// What an attempt to start the engine leads to: the state after it,
    /// and the error where the attempt is refused or fails. `js_init` is
    /// the outcome of the engine's own start, which is made only from the
    /// state in which the engine was never started.
    pub open spec fn after_init(self, js_init: bool) -> (EngineState, Option<JSEngineError>) {
        match self {
            EngineState::Initialized => (self, Some(JSEngineError::AlreadyInitialized)),
            EngineState::InitFailed => (self, Some(JSEngineError::InitFailed)),
            EngineState::ShutDown => (self, Some(JSEngineError::AlreadyShutDown)),
            EngineState::Uninitialized => if js_init {
                (EngineState::Initialized, None)
            } else {
                (EngineState::InitFailed, Some(JSEngineError::InitFailed))
            },
        }
    }

    /// Whether the engine's own start is to be attempted: only where it
    /// never was.
    pub fn may_init(&self) -> (b: bool)
        ensures
            b == (*self == EngineState::Uninitialized),
    {
        match self {
            EngineState::Uninitialized => true,
            _ => false,
        }
    }
}

/// The engine is started at most once: whatever the first attempt leads
/// to, every later attempt is refused and changes nothing.
pub proof fn lemma_engine_starts_once(state: EngineState, first: bool, second: bool)
    ensures
        state.after_init(first).0 != EngineState::Uninitialized,
        state.after_init(first).0.after_init(second).0 == state.after_init(first).0,
        state.after_init(first).0.after_init(second).1 is Some,
        state.after_init(first).1 is None <==> state == EngineState::Uninitialized && first,
{
}

impl JSEngine {
    /// The number of handles that are out.
    pub closed spec fn outstanding(&self) -> u32 {
        self.outstanding_handles
    }

    /// Initialize the JS engine to prepare for creating new JS runtimes.
    ///
    /// `js_init` is the outcome of the engine's own start. It is looked at
    /// only where `state` says that the engine was never started.
    pub fn init(state: &mut EngineState, js_init: bool) -> (r: Result<JSEngine, JSEngineError>)
        ensures
            *final(state) == old(state).after_init(js_init).0,
            match r {
                Ok(engine) => old(state).after_init(js_init).1 is None && engine.outstanding()
                    == 0,
                Err(e) => old(state).after_init(js_init).1 == Some(e),
            },
    {
        match *state {
            EngineState::Initialized => return Err(JSEngineError::AlreadyInitialized),
            EngineState::InitFailed => return Err(JSEngineError::InitFailed),
            EngineState::ShutDown => return Err(JSEngineError::AlreadyShutDown),
            EngineState::Uninitialized => (),
        }
        if !js_init {
            *state = EngineState::InitFailed;
            Err(JSEngineError::InitFailed)
        } else {
            *state = EngineState::Initialized;
            Ok(JSEngine { outstanding_handles: 0 })
        }
    }

    pub fn can_shutdown(&self) -> (b: bool)
        ensures
            b == (self.outstanding() == 0),
    {
        self.outstanding_handles == 0
    }

    /// Create a handle to this engine.
    pub fn handle(&mut self) -> (handle: JSEngineHandle)
        ensures
            final(self).outstanding() == old(self).outstanding().wrapping_add(1),
    {
        self.outstanding_handles = self.outstanding_handles.wrapping_add(1);
        JSEngineHandle { share: () }
    }

    /// Takes a handle back: what the end of a handle does.
    pub fn release(&mut self, handle: JSEngineHandle)
        ensures
            final(self).outstanding() == old(self).outstanding().wrapping_sub(1),
    {
        self.outstanding_handles = self.outstanding_handles.wrapping_sub(1);
    }

    /// Shut down the JS engine, invalidating any existing runtimes and preventing
    /// any new ones from being created. Tells whether the engine's own shut-down
    /// is to be made: only where the engine is running. No handle is out then.
    pub fn shut_down(self, state: &mut EngineState) -> (shut: bool)
        requires
            *old(state) == EngineState::Initialized ==> self.outstanding() == 0,
        ensures
            shut == (*old(state) == EngineState::Initialized),
            shut ==> *final(state) == EngineState::ShutDown,
            !shut ==> *final(state) == *old(state),
    {
        match *state {
            EngineState::Initialized => {
                *state = EngineState::ShutDown;
                true
            },
            _ => false,
        }
    }
}

impl JSEngineHandle {
    /// Another handle to the engine `engine` that this one is a handle to.
    pub fn duplicate(&self, engine: &mut JSEngine) -> (handle: JSEngineHandle)
        ensures
            final(engine).outstanding() == old(engine).outstanding().wrapping_add(1),
    {
        engine.handle()
    }
}

/// The place where a thread keeps the address of its context: zero while
/// it has none.
pub struct ThreadContext {
    cx: u64,
}

impl View for ThreadContext {
    type V = u64;

    closed spec fn view(&self) -> u64 {
        self.cx
    }
}

impl ThreadContext {
    /// The place of a thread that has no context.
    pub fn new() -> (slot: ThreadContext)
        ensures
            slot@ == 0,
    {
        ThreadContext { cx: 0 }
    }
}

/// A token that a child context was announced to its parent, or lives.
/// The parent is not destroyed while one is out.
pub struct ChildLink {
    link: (),
}

/// A handle to a Runtime that will be used to create a new runtime in another
/// thread. This handle and the new runtime must be gone before the runtime
/// that gave the handle ends.
pub struct ParentRuntime {
    /// The address of the engine's runtime of the parent.
    parent: u64,
    /// Handle to ensure the JS engine remains running while this handle exists.
    engine: JSEngineHandle,
    /// The share in the count of the children of the runtime that created
    /// this value.
    children_of_parent: ChildLink,
}

impl ParentRuntime {
    /// The address of the parent's runtime.
    pub closed spec fn parent(&self) -> u64 {
        self.parent
    }

    /// Ends a handle under which no child was made: gives its share in the
    /// engine back, and its share in the parent's children to the caller,
    /// who hands it to the parent.
    pub fn cancel(self, engine: &mut JSEngine) -> (link: ChildLink)
        ensures
            final(engine).outstanding() == old(engine).outstanding().wrapping_sub(1),
    {
        engine.release(self.engine);
        self.children_of_parent
    }
}

/// The three limits of the native stack of a context: for the code of the
/// system, for trusted scripts and for untrusted scripts.
#[derive(Clone, Copy, PartialEq, Eq, Structural, Debug)]
pub struct NativeStackQuota {
    pub system_code: usize,
    pub trusted_script: usize,
    pub untrusted_script: usize,
}

/// One step of the making of a context.
#[derive(Clone, Copy, PartialEq, Eq, Structural, Debug)]
pub enum ContextSetup {
    /// The engine makes the context, with a heap of `max_bytes` at first,
    /// under the runtime at `parent_runtime`, or under none where that is
    /// null.
    NewContext { max_bytes: u32, parent_runtime: u64 },
    /// The limit on the bytes of the heap is set to `max_bytes`.
    SetMaxBytes { max_bytes: u32 },
    /// The tracer of the registered owners of references is made known to
    /// the collector.
    AddExtraGCRootsTracer,
    /// The limits of the native stack are set.
    SetNativeStackQuota { quota: NativeStackQuota },
    /// The context is taken into the place of the thread.
    EnterThread,
    /// The engine loads the code that it runs itself.
    InitSelfHostedCode,
    /// The reporter of warnings is set.
    SetWarningReporter,
}

/// The steps of the making of a context, in their order. The limit on the
/// bytes of the heap is taken away, so that the collector does not run
/// again and again near an arbitrary threshold.
pub open spec fn spec_context_setup(parent_runtime: u64) -> Seq<ContextSetup> {
    seq![
        ContextSetup::NewContext { max_bytes: 34603008, parent_runtime },
        ContextSetup::SetMaxBytes { max_bytes: u32::MAX },
        ContextSetup::AddExtraGCRootsTracer,
        ContextSetup::SetNativeStackQuota {
            quota: NativeStackQuota {
                system_code: 1048576,
                trusted_script: 1038336,
                untrusted_script: 935936,
            },
        },
        ContextSetup::EnterThread,
        ContextSetup::InitSelfHostedCode,
        ContextSetup::SetWarningReporter,
    ]
}

/// The books of a context of the engine: its address, its share in the
/// engine, and the children that depend on it.
pub struct Runtime {
    /// The address of the engine's context.
    cx: u64,
    /// The engine that this runtime is associated with.
    engine: JSEngineHandle,
    /// If this Runtime was created with a parent, the share in the
    /// parent's count of children that is given back when this Runtime
    /// ends.
    _parent_child_count: Option<ChildLink>,
    /// The number of child runtimes that have been announced or created
    /// with this Runtime as a parent and have not ended.
    outstanding_children: u32,
}

impl Runtime {
    /// The address of the context.
    pub closed spec fn spec_cx(&self) -> u64 {
        self.cx
    }

    /// The number of children that are announced or alive.
    pub closed spec fn children(&self) -> u32 {
        self.outstanding_children
    }

    /// Whether the runtime has a parent.
    pub closed spec fn has_parent(&self) -> bool {
        self._parent_child_count is Some
    }

    /// Get the `JSContext` for this thread.
    pub fn get(slot: &ThreadContext) -> (cx: Option<u64>)
        ensures
            slot@ == 0 ==> cx is None,
            slot@ != 0 ==> cx == Some(slot@),
    {
        if slot.cx == 0 {
            None
        } else {
            Some(slot.cx)
        }
    }

    /// The number of bytes that the heap of a new context is asked for:
    /// the nominal size and one chunk.
    pub fn new_context_bytes() -> (bytes: u32)
        ensures
            bytes == default_heapsize + ChunkSize,
            bytes == 34603008,
    {
        default_heapsize + (ChunkSize as u32)
    }

    /// The limits of the native stack that a new context is given.
    pub fn native_stack_quota() -> (quota: NativeStackQuota)
        ensures
            quota.system_code == STACK_QUOTA,
            quota.trusted_script == STACK_QUOTA - SYSTEM_CODE_BUFFER,
            quota.untrusted_script == STACK_QUOTA - SYSTEM_CODE_BUFFER - TRUSTED_SCRIPT_BUFFER,
            quota == (NativeStackQuota {
                system_code: 1048576,
                trusted_script: 1038336,
                untrusted_script: 935936,
            }),
    {
        NativeStackQuota {
            system_code: STACK_QUOTA,
            trusted_script: STACK_QUOTA - SYSTEM_CODE_BUFFER,
            untrusted_script: STACK_QUOTA - SYSTEM_CODE_BUFFER - TRUSTED_SCRIPT_BUFFER,
        }
    }

    /// The address of the runtime of the parent that a new context is made
    /// under: null where it has no parent.
    pub fn parent_runtime(parent: &Option<ParentRuntime>) -> (address: u64)
        ensures
            parent matches Some(p) ==> address == p.parent(),
            parent is None ==> address == 0,
    {
        match parent {
            Some(p) => p.parent,
            None => 0,
        }
    }

    /// The steps of the making of a context under the parent `parent`, or
    /// under none, in their order.
    pub fn context_setup(parent: &Option<ParentRuntime>) -> (steps: Vec<ContextSetup>)
        ensures
            parent matches Some(p) ==> steps@ == spec_context_setup(p.parent()),
            parent is None ==> steps@ == spec_context_setup(0),
    {
        let mut steps: Vec<ContextSetup> = Vec::new();
        steps.push(
            ContextSetup::NewContext {
                max_bytes: Self::new_context_bytes(),
                parent_runtime: Self::parent_runtime(parent),
            },
        );
        steps.push(ContextSetup::SetMaxBytes { max_bytes: u32::MAX });
        steps.push(ContextSetup::AddExtraGCRootsTracer);
        steps.push(ContextSetup::SetNativeStackQuota { quota: Self::native_stack_quota() });
        steps.push(ContextSetup::EnterThread);
        steps.push(ContextSetup::InitSelfHostedCode);
        steps.push(ContextSetup::SetWarningReporter);
        proof {
            let address: u64 = match parent {
                Some(p) => p.parent(),
                None => 0,
            };
            assert(steps@ =~= spec_context_setup(address));
        }
        steps
    }

    /// Creates a new `JSContext`: takes the context at `js_context`, which
    /// the engine has made for this thread, into the thread's place.
    pub fn new(slot: &mut ThreadContext, engine: JSEngineHandle, js_context: u64) -> (rt: Runtime)
        requires
            js_context != 0,
            old(slot)@ == 0,
        ensures
            final(slot)@ == js_context,
            rt.spec_cx() == js_context,
            rt.children() == 0,
            !rt.has_parent(),
    {
        Self::create(slot, engine, None, js_context).0
    }

    /// Signal that a new child runtime will be created in the future, and ensure
    /// that this runtime will not allow itself to be destroyed before the new
    /// child runtime. Returns a handle that can be passed to `create_with_parent`
    /// in order to create a new runtime on another thread that is associated with
    /// this runtime.
    ///
    /// `rt` is the address of the engine's runtime of this context.
    pub fn prepare_for_new_child(&mut self, engine: &mut JSEngine, rt: u64) -> (parent:
        ParentRuntime)
        requires
            old(self).children() < u32::MAX,
        ensures
            parent.parent() == rt,
            final(self).children() == old(self).children() + 1,
            final(self).spec_cx() == old(self).spec_cx(),
            final(self).has_parent() == old(self).has_parent(),
            final(engine).outstanding() == old(engine).outstanding().wrapping_add(1),
    {
        self.outstanding_children = self.outstanding_children + 1;
        ParentRuntime {
            parent: rt,
            engine: self.engine.duplicate(engine),
            children_of_parent: ChildLink { link: () },
        }
    }

    /// Takes back the share of a child that has ended, or of a handle for
    /// a child that was never made.
    pub fn child_gone(&mut self, link: ChildLink)
        requires
            old(self).children() > 0,
        ensures
            final(self).children() == old(self).children() - 1,
            final(self).spec_cx() == old(self).spec_cx(),
            final(self).has_parent() == old(self).has_parent(),
    {
        self.outstanding_children = self.outstanding_children - 1;
    }

    /// Creates a new `JSContext` with a parent runtime: takes the context
    /// at `js_context`, which the engine has made under the parent for this
    /// thread, into the thread's place. Gives the parent's share in the
    /// engine back, which the new runtime does not keep.
    pub fn create_with_parent(
        slot: &mut ThreadContext,
        engine: &mut JSEngine,
        parent: ParentRuntime,
        js_context: u64,
    ) -> (rt: Runtime)
        requires
            js_context != 0,
            old(slot)@ == 0,
        ensures
            final(slot)@ == js_context,
            rt.spec_cx() == js_context,
            rt.children() == 0,
            rt.has_parent(),
            final(engine).outstanding() == old(engine).outstanding(),
    {
        let handle = parent.engine.duplicate(engine);
        let (rt, spare) = Self::create(slot, handle, Some(parent), js_context);
        match spare {
            Some(h) => engine.release(h),
            None => {},
        }
        proof {
            let n = old(engine).outstanding();
            assert(n.wrapping_add(1).wrapping_sub(1) == n) by (bit_vector);
        }
        rt
    }

    /// Takes the context at `js_context`, which the engine has made and
    /// which is not null, into the place of a thread that has no context
    /// yet. Gives the runtime, and the parent's handle to the engine where
    /// there was a parent.
    fn create(
        slot: &mut ThreadContext,
        engine: JSEngineHandle,
        parent: Option<ParentRuntime>,
        js_context: u64,
    ) -> (r: (Runtime, Option<JSEngineHandle>))
        requires
            js_context != 0,
            old(slot)@ == 0,
        ensures
            final(slot)@ == js_context,
            r.0.spec_cx() == js_context,
            r.0.children() == 0,
            r.0.has_parent() == (parent is Some),
            r.1 is Some == (parent is Some),
    {
        slot.cx = js_context;
        match parent {
            Some(p) => (
                Runtime {
                    engine,
                    _parent_child_count: Some(p.children_of_parent),
                    cx: js_context,
                    outstanding_children: 0,
                },
                Some(p.engine),
            ),
            None => (
                Runtime {
                    engine,
                    _parent_child_count: None,
                    cx: js_context,
                    outstanding_children: 0,
                },
                None,
            ),
        }
    }

    /// The number of children that are announced or alive.
    pub fn outstanding_children(&self) -> (n: u32)
        ensures
            n == self.children(),
    {
        self.outstanding_children
    }

    /// Returns the `JSContext` object.
    #[verifier::when_used_as_spec(spec_cx)]
    pub fn cx(&self) -> (cx: u64)
        ensures
            cx == self.spec_cx(),
    {
        self.cx
    }

    /// Ends the runtime, which has no child left and whose context is the
    /// one in the thread's place: empties the place, and gives back the
    /// handle to the engine and the share in the parent's children.
    pub fn destroy(self, slot: &mut ThreadContext) -> (r: (JSEngineHandle, Option<ChildLink>))
        requires
            self.children() == 0,
            old(slot)@ == self.spec_cx(),
        ensures
            final(slot)@ == 0,
            r.1 is Some == self.has_parent(),
    {
        slot.cx = 0;
        (self.engine, self._parent_child_count)
    }
}

/// The flags and tables of a class of objects.
#[derive(Clone, Copy, PartialEq, Eq, Structural, Debug)]
pub struct JSClass {
    pub name: u64,
    pub flags: u32,
    pub cOps: u64,
    pub spec: u64,
    pub ext: u64,
    pub oOps: u64,
}

pub open spec fn spec_is_dom_class(class: &JSClass) -> bool {
    class.flags & JSCLASS_IS_DOMJSCLASS != 0
}

/// Whether the objects of the class belong to the embedding's document
/// model.
#[verifier::when_used_as_spec(spec_is_dom_class)]
pub fn is_dom_class(class: &JSClass) -> (b: bool)
    ensures
        b == spec_is_dom_class(class),
{
    class.flags & JSCLASS_IS_DOMJSCLASS != 0
}

/// A script that was compiled, by the address of its compiled form.
pub struct Stencil {
    mRawPtr: u64,
}

impl Stencil {
    pub closed spec fn spec_ptr(&self) -> u64 {
        self.mRawPtr
    }

    /// The compiled form at the address `ptr`, or none where `ptr` is
    /// null.
    pub fn from_raw(ptr: u64) -> (stencil: Stencil)
        ensures
            stencil.spec_ptr() == ptr,
    {
        Stencil { mRawPtr: ptr }
    }

    pub fn is_null(&self) -> (b: bool)
        ensures
            b == (self.spec_ptr() == 0),
    {
        self.mRawPtr == 0
    }

    /// The address of the compiled form.
    pub fn as_ptr(&self) -> (ptr: u64)
        ensures
            ptr == self.spec_ptr(),
    {
        self.mRawPtr
    }

    /// Ends the stencil and gives the address of the compiled form that is
    /// to be released, if there is one.
    pub fn release(self) -> (ptr: Option<u64>)
        ensures
            self.spec_ptr() == 0 ==> ptr is None,
            self.spec_ptr() != 0 ==> ptr == Some(self.spec_ptr()),
    {
        if self.is_null() {
            return None;
        }
        Some(self.mRawPtr)
    }
}

/// The buffer of a structured clone, by its address, which is not null.
pub struct JSAutoStructuredCloneBufferWrapper {
    ptr: u64,
}

impl JSAutoStructuredCloneBufferWrapper {
    pub closed spec fn spec_ptr(&self) -> u64 {
        self.ptr
    }

    /// Wraps the buffer at `buffer`, which the engine has made.
    pub fn new(buffer: u64) -> (wrapper: Self)
        requires
            buffer != 0,
        ensures
            wrapper.spec_ptr() == buffer,
    {
        Self { ptr: buffer }
    }

    pub fn as_raw_ptr(&self) -> (ptr: u64)
        ensures
            ptr == self.spec_ptr(),
    {
        self.ptr
    }
}

/// Where a script was called from.
#[derive(Debug)]
pub struct ScriptedCaller {
    pub filename: String,
    pub line: u32,
    pub col: u32,
}

/// A source text in units of `T` that the engine reads and does not own:
/// its units, and their number as the engine counts it.
pub struct SourceText<'a, T> {
    pub units_: &'a [T],
    pub length_: u32,
    pub ownsUnits_: bool,
}

/// A count that is cut to 32 bits is what it leaves when divided by 2^32.
pub proof fn lemma_cut_to_32_bits(n: usize)
    ensures
        n as u32 == n as int % 0x1_0000_0000,
{
    let wide = n as u64;
    assert(wide as u32 == wide % 0x1_0000_0000) by (bit_vector);
    assert(wide as u32 == n as u32) by (bit_vector)
        requires
            wide == n as u64,
    ;
}

/// The source text of the bytes of `source`. The engine counts the units
/// in 32 bits: the count is the number of bytes, cut to that width.
pub fn transform_str_to_source_text(source: &str) -> (text: SourceText<'_, u8>)
    ensures
        text.units_@ == source.spec_bytes(),
        text.length_ == source.spec_bytes().len() as int % 0x1_0000_0000,
        !text.ownsUnits_,
{
    let units = source.as_bytes();
    let n = units.len();
    proof {
        lemma_cut_to_32_bits(n);
    }
    SourceText { units_: units, length_: n as u32, ownsUnits_: false }
}

/// The source text of the units of `source`. The engine counts the units
/// in 32 bits: the count is the number of units, cut to that width.
pub fn transform_u16_to_source_text(source: &[u16]) -> (text: SourceText<'_, u16>)
    ensures
        text.units_@ == source@,
        text.length_ == source@.len() as int % 0x1_0000_0000,
        !text.ownsUnits_,
{
    let n = source.len();
    proof {
        lemma_cut_to_32_bits(n);
    }
    SourceText { units_: source, length_: n as u32, ownsUnits_: false }
}

/// Whether the bits of a double are those of a NaN.
pub open spec fn double_is_nan(bits: u64) -> bool {
    bits & 0x7FFF_FFFF_FFFF_FFFF > 0x7FF0_0000_0000_0000
}

/// Whether the bits of a double are those of zero, of either sign.
pub open spec fn double_is_zero(bits: u64) -> bool {
    bits & 0x7FFF_FFFF_FFFF_FFFF == 0
}

/// What a value is as a boolean, where that follows from the word alone.
pub open spec fn spec_to_boolean(val: JSVal) -> Option<bool> {
    if val.spec_is_boolean() {
        Some(val.spec_to_boolean())
    } else if val.spec_is_int32() {
        Some(val.spec_to_int32() != 0)
    } else if val.spec_is_null_or_undefined() {
        Some(false)
    } else if val.spec_is_double() {
        Some(!double_is_nan(val.asBits_) && !double_is_zero(val.asBits_))
    } else if val.spec_is_symbol() {
        Some(true)
    } else {
        None
    }
}

/// The value that `v` holds as a boolean: booleans are themselves,
/// integers and doubles are true unless they are zero or NaN, null and
/// undefined are false, symbols are true. `None` where the engine has to
/// be asked.
pub fn ToBoolean(v: Handle<JSVal>) -> (b: Option<bool>)
    ensures
        b == spec_to_boolean(v.value()),
{
    let val = v.get();
    if val.is_boolean() {
        return Some(val.to_boolean());
    }
    if val.is_int32() {
        return Some(val.to_int32() != 0);
    }
    if val.is_null_or_undefined() {
        return Some(false);
    }
    if val.is_double() {
        let magnitude = val.to_double() & 0x7FFF_FFFF_FFFF_FFFF;
        return Some(!(magnitude > 0x7FF0_0000_0000_0000) && !(magnitude == 0));
    }
    if val.is_symbol() {
        return Some(true);
    }
    None
}

/// The value that `v` holds as a number, by the bit pattern of its double,
/// where `v` holds a number; `None` where the engine has to be asked.
pub fn ToNumber(v: Handle<JSVal>) -> (bits: Option<u64>)
    requires
        v.value().spec_is_number() ==> v.value().spec_is_double() || v.value().spec_is_int32(),
    ensures
        v.value().spec_is_double() ==> bits == Some(v.value().asBits_),
        v.value().spec_is_int32() ==> bits == Some(
            double_bits_of_int32(v.value().spec_to_int32()),
        ),
        !v.value().spec_is_number() ==> bits is None,
{
    let val = v.get();
    proof {
        lemma_word_arithmetic(val.asBits_);
    }
    if val.is_number() {
        return Some(val.to_number());
    }
    None
}

/// What the bits of a 32-bit integer are as integers of other widths: the
/// same number where it fits, and the number raised by the size of the
/// type, or left from the division by it, where it does not.
pub proof fn lemma_int32_casts(i: i32)
    by (bit_vector)
    ensures
        i as u32 == (if i < 0 {
            i + 0x1_0000_0000
        } else {
            i as int
        }),
        i as u16 == (i as u32) % 0x1_0000,
        i as i64 == i,
        i as i64 as u64 == (if i < 0 {
            i + 0x1_0000_0000_0000_0000
        } else {
            i as int
        }),
{
}

/// The 32-bit integer in `v`, where `v` holds one; `None` where the engine
/// has to be asked.
pub fn convert_from_int32(v: Handle<JSVal>) -> (i: Option<i32>)
    ensures
        v.value().spec_is_int32() ==> i == Some(v.value().spec_to_int32()),
        !v.value().spec_is_int32() ==> i is None,
{
    let val = v.get();
    if val.is_int32() {
        return Some(val.to_int32());
    }
    None
}

/// The value that `v` holds as a 32-bit integer, where `v` holds one.
pub fn ToInt32(v: Handle<JSVal>) -> (i: Option<i32>)
    ensures
        v.value().spec_is_int32() ==> i == Some(v.value().spec_to_int32()),
        !v.value().spec_is_int32() ==> i is None,
{
    convert_from_int32(v)
}

/// The value that `v` holds as an unsigned 32-bit integer, where `v` holds
/// a 32-bit integer: the integer with the same 32 bits.
pub fn ToUint32(v: Handle<JSVal>) -> (i: Option<u32>)
    ensures
        v.value().spec_is_int32() ==> i == Some(v.value().spec_to_int32() as u32),
        v.value().spec_is_int32() && v.value().spec_to_int32() >= 0 ==> i == Some(
            v.value().spec_to_int32() as u32,
        ) && i->0 == v.value().spec_to_int32(),
        v.value().spec_is_int32() && v.value().spec_to_int32() < 0 ==> i is Some && i->0
            == v.value().spec_to_int32() + 0x1_0000_0000,
        !v.value().spec_is_int32() ==> i is None,
{
    proof {
        lemma_int32_casts(v.value().spec_to_int32());
    }
    match convert_from_int32(v) {
        Some(i) => Some(i as u32),
        None => None,
    }
}

/// The value that `v` holds as an unsigned 16-bit integer, where `v` holds
/// a 32-bit integer: the integer of its lower 16 bits.
pub fn ToUint16(v: Handle<JSVal>) -> (i: Option<u16>)
    ensures
        v.value().spec_is_int32() ==> i == Some(v.value().spec_to_int32() as u16),
        v.value().spec_is_int32() ==> i is Some && i->0 == (v.value().spec_to_int32() as u32)
            % 0x1_0000,
        !v.value().spec_is_int32() ==> i is None,
{
    proof {
        lemma_int32_casts(v.value().spec_to_int32());
    }
    match convert_from_int32(v) {
        Some(i) => Some(i as u16),
        None => None,
    }
}

/// The value that `v` holds as a 64-bit integer, where `v` holds a 32-bit
/// integer.
pub fn ToInt64(v: Handle<JSVal>) -> (i: Option<i64>)
    ensures
        v.value().spec_is_int32() ==> i is Some && i->0 == v.value().spec_to_int32(),
        !v.value().spec_is_int32() ==> i is None,
{
    proof {
        lemma_int32_casts(v.value().spec_to_int32());
    }
    match convert_from_int32(v) {
        Some(i) => Some(i as i64),
        None => None,
    }
}

/// The value that `v` holds as an unsigned 64-bit integer, where `v` holds
/// a 32-bit integer: the integer with the bits of the 64-bit integer of
/// the same value.
pub fn ToUint64(v: Handle<JSVal>) -> (i: Option<u64>)
    ensures
        v.value().spec_is_int32() ==> i == Some(v.value().spec_to_int32() as i64 as u64),
        v.value().spec_is_int32() && v.value().spec_to_int32() >= 0 ==> i is Some && i->0
            == v.value().spec_to_int32(),
        v.value().spec_is_int32() && v.value().spec_to_int32() < 0 ==> i is Some && i->0
            == v.value().spec_to_int32() + 0x1_0000_0000_0000_0000,
        !v.value().spec_is_int32() ==> i is None,
{
    proof {
        lemma_int32_casts(v.value().spec_to_int32());
    }
    match convert_from_int32(v) {
        Some(i) => Some(i as i64 as u64),
        None => None,
    }
}

/// The string that `v` holds, where it holds one; `None` where the engine
/// has to be asked.
pub fn ToString(v: Handle<JSVal>) -> (s: Option<StringPtr>)
    requires
        v.value().spec_is_string() ==> gc_pointer_aligned(v.value().spec_payload()),
    ensures
        v.value().spec_is_string() ==> s == Some(StringPtr { addr: v.value().spec_payload() }),
        !v.value().spec_is_string() ==> s is None,
{
    let val = v.get();
    if val.is_string() {
        return Some(val.to_string());
    }
    None
}

/// Whether a table of functions ends as the engine needs it to: with an
/// entry that is all zero.
pub fn methods_end_zeroed(methods: &[JSFunctionSpec]) -> (b: bool)
    ensures
        b == (methods@.len() > 0 && methods@.last().spec_is_zeroed()),
{
    let n = methods.len();
    if n == 0 {
        false
    } else {
        methods[n - 1].is_zeroed()
    }
}

/// Whether a table of properties ends as the engine needs it to: with an
/// entry that has no name, no attribute and no accessor.
pub fn properties_end_zeroed(properties: &[JSPropertySpec]) -> (b: bool)
    ensures
        b == (properties@.len() > 0 && properties@.last().spec_is_zeroed()),
{
    let n = properties.len();
    if n == 0 {
        false
    } else {
        properties[n - 1].is_zeroed()
    }
}

/// What is to be done with a value that is handed to the code of another
/// realm.
#[derive(Clone, Copy, PartialEq, Eq, Structural, Debug)]
pub enum WrapAction {
    /// The value is good as it is.
    Nothing,
    /// The engine is to wrap the value for the realm of the context.
    Wrap,
    /// The value is an object of this realm that may be a window: where it
    /// is one, its proxy takes its place.
    Outerize,
}

/// What is to be done with an object value: it is wrapped where it is of
/// another realm than the context, and may give way to its window proxy
/// where it is of the same realm and of the document model.
pub open spec fn spec_wrap_action_for_object(same_realm: bool, is_dom: bool) -> WrapAction {
    if !same_realm {
        WrapAction::Wrap
    } else if is_dom {
        WrapAction::Outerize
    } else {
        WrapAction::Nothing
    }
}

/// What is to be done with a value: a string is wrapped, an object is
/// treated as objects are, and every other value is good as it is.
pub open spec fn spec_wrap_action(val: JSVal, same_realm: bool, is_dom: bool) -> WrapAction {
    if val.spec_is_string() {
        WrapAction::Wrap
    } else if val.spec_is_object() {
        spec_wrap_action_for_object(same_realm, is_dom)
    } else {
        WrapAction::Nothing
    }
}

/// What is to be done with the object value in `rval`, which is of the
/// realm of the context if `same_realm` says so and of the document model
/// if `is_dom` says so.
pub fn maybe_wrap_object_value(rval: Handle<JSVal>, same_realm: bool, is_dom: bool) -> (action:
    WrapAction)
    requires
        rval.value().spec_to_tag() <= JSVAL_TAG_OBJECT,
        rval.value().spec_is_object(),
    ensures
        action == spec_wrap_action_for_object(same_realm, is_dom),
{
    if !same_realm {
        WrapAction::Wrap
    } else if is_dom {
        WrapAction::Outerize
    } else {
        WrapAction::Nothing
    }
}

/// What is to be done with the value in `rval`, which is an object or
/// null: null is good as it is.
pub fn maybe_wrap_object_or_null_value(rval: Handle<JSVal>, same_realm: bool, is_dom: bool) -> (action:
    WrapAction)
    requires
        rval.value().spec_to_tag() <= JSVAL_TAG_OBJECT,
        rval.value().spec_is_object_or_null(),
    ensures
        rval.value().spec_is_null() ==> action == WrapAction::Nothing,
        !rval.value().spec_is_null() ==> action == spec_wrap_action_for_object(
            same_realm,
            is_dom,
        ),
{
    if !rval.get().is_null() {
        maybe_wrap_object_value(rval, same_realm, is_dom)
    } else {
        WrapAction::Nothing
    }
}

/// What is to be done with the value in `rval`.
pub fn maybe_wrap_value(rval: Handle<JSVal>, same_realm: bool, is_dom: bool) -> (action:
    WrapAction)
    requires
        rval.value().spec_to_tag() <= JSVAL_TAG_OBJECT,
    ensures
        action == spec_wrap_action(rval.value(), same_realm, is_dom),
{
    let val = rval.get();
    if val.is_string() {
        WrapAction::Wrap
    } else if val.is_object() {
        maybe_wrap_object_value(rval, same_realm, is_dom)
    } else {
        WrapAction::Nothing
    }
}

/// How the frames of the stack are captured.
#[derive(Clone, Copy, PartialEq, Eq, Structural, Debug)]
pub enum StackCapture {
    AllFrames,
    MaxFrames(u32),
}

/// What the engine says of a saved frame.
#[derive(Clone, Copy, PartialEq, Eq, Structural, Debug)]
pub enum SavedFrameResult {
    Allowed,
    AccessDenied,
}

/// The stack of the script that runs, as it was captured: the rooted
/// object of its youngest frame.
pub struct CapturedJSStack<'a> {
    cx: u64,
    stack: RootedGuard<'a, ObjectPtr>,
}

impl<'a> CapturedJSStack<'a> {
    /// How many frames a capture takes: all, or as many as asked for.
    pub fn capture_mode(max_frame_count: Option<u32>) -> (mode: StackCapture)
        ensures
            max_frame_count matches Some(count) ==> mode == StackCapture::MaxFrames(count),
            max_frame_count is None ==> mode == StackCapture::AllFrames,
    {
        match max_frame_count {
            None => StackCapture::AllFrames,
            Some(count) => StackCapture::MaxFrames(count),
        }
    }

    /// The captured stack of the context at `cx` whose youngest frame
    /// `guard` roots, where the engine's capture went well; the guard
    /// itself where it did not.
    pub fn new(cx: u64, guard: RootedGuard<'a, ObjectPtr>, captured: bool) -> (stack: Result<
        Self,
        RootedGuard<'a, ObjectPtr>,
    >)
        ensures
            captured ==> (stack matches Ok(s) && s.guard() == guard && s.context() == cx),
            !captured ==> stack == Err::<Self, RootedGuard<'a, ObjectPtr>>(guard),
    {
        if !captured {
            Err(guard)
        } else {
            Ok(CapturedJSStack { cx, stack: guard })
        }
    }

    /// The guard of the youngest frame.
    pub closed spec fn guard(&self) -> RootedGuard<'a, ObjectPtr> {
        self.stack
    }

    /// The address of the context.
    pub closed spec fn context(&self) -> u64 {
        self.cx
    }

    /// The frame to go on with after a frame, from what the engine says
    /// of the frame's parent: the parent, as long as the engine gives one.
    pub fn next_frame(result: SavedFrameResult, next: ObjectPtr) -> (frame: Option<ObjectPtr>)
        ensures
            result == SavedFrameResult::Allowed && next.addr != 0 ==> frame == Some(next),
            !(result == SavedFrameResult::Allowed && next.addr != 0) ==> frame is None,
    {
        match result {
            SavedFrameResult::Allowed => if next.is_null() {
                None
            } else {
                Some(next)
            },
            _ => None,
        }
    }

    /// Ends the captured stack and gives the guard of its youngest frame
    /// back.
    pub fn into_guard(self) -> (guard: RootedGuard<'a, ObjectPtr>)
        ensures
            guard == self.guard(),
    {
        self.stack
    }
}

/// The characters of a text in Latin-1: each byte is the code of its
/// character.
pub fn latin1_to_chars(bytes: &[u8]) -> (chars: Vec<char>)
    ensures
        chars@.len() == bytes@.len(),
        forall|i: int| 0 <= i < bytes@.len() ==> chars@[i] as u32 == bytes@[i],
{
    let mut chars: Vec<char> = Vec::new();
    let mut i: usize = 0;
    while i < bytes.len()
        invariant
            i <= bytes@.len(),
            chars@.len() == i,
            forall|j: int| 0 <= j < i ==> chars@[j] as u32 == bytes@[j],
        decreases bytes@.len() - i,
    {
        chars.push(bytes[i] as char);
        i = i + 1;
    }
    chars
}

} // verus!
