use mozjs::context::JSContext;
use mozjs::gc::root::{Handle, RootedGuard};
use mozjs::jsapi::{
    AutoGCRooter, AutoGCRooterKind, JSAutoRealm, ObjectPtr, RootKind, RootingContext, StringPtr,
    SymbolPtr,
};
use mozjs::offthread::{stack_size, FrontendContext, STACK_SIZE};
use mozjs::jsgc::Rooted;
use mozjs::jsval::{
    BooleanValue, DoubleValue, Int32Value, JSVal, NullValue, ObjectValue, StringValue,
    SymbolValue, UndefinedValue,
};
use mozjs::realm::{AutoRealm, CurrentRealm};
use mozjs::rust::{
    latin1_to_chars, maybe_wrap_object_or_null_value, maybe_wrap_object_value, maybe_wrap_value,
    CapturedJSStack, ContextSetup, SavedFrameResult, StackCapture, WrapAction,
};
use mozjs::rust::{
    convert_from_int32, is_dom_class, transform_str_to_source_text,
    transform_u16_to_source_text, EngineState, JSAutoStructuredCloneBufferWrapper, JSClass,
    JSEngine, JSEngineError, NativeStackQuota, Runtime, Stencil, ThreadContext, ToBoolean,
    ToInt32, ToInt64, ToNumber, ToResult, ToString, ToUint16, ToUint32, ToUint64,
    JSCLASS_IS_DOMJSCLASS, JSCLASS_IS_GLOBAL, STACK_QUOTA,
};

#[test]
fn engine_starts_once_and_shuts_down_once() {
    let mut state = EngineState::Uninitialized;
    assert!(state.may_init());
    let mut engine = JSEngine::init(&mut state, true).unwrap();
    assert_eq!(state, EngineState::Initialized);
    assert!(!state.may_init());
    assert_eq!(
        JSEngine::init(&mut state, true).err(),
        Some(JSEngineError::AlreadyInitialized)
    );
    assert!(engine.can_shutdown());
    let handle = engine.handle();
    assert!(!engine.can_shutdown());
    let second = handle.duplicate(&mut engine);
    engine.release(handle);
    assert!(!engine.can_shutdown());
    engine.release(second);
    assert!(engine.can_shutdown());
    assert!(engine.shut_down(&mut state));
    assert_eq!(state, EngineState::ShutDown);
    assert_eq!(
        JSEngine::init(&mut state, true).err(),
        Some(JSEngineError::AlreadyShutDown)
    );
    assert_eq!(state, EngineState::ShutDown);
}

#[test]
fn a_failed_start_is_final() {
    let mut state = EngineState::Uninitialized;
    assert_eq!(
        JSEngine::init(&mut state, false).err(),
        Some(JSEngineError::InitFailed)
    );
    assert_eq!(state, EngineState::InitFailed);
    assert_eq!(
        JSEngine::init(&mut state, true).err(),
        Some(JSEngineError::InitFailed)
    );
    assert_eq!(state, EngineState::InitFailed);
}

#[test]
fn runtime() {
    let mut state = EngineState::Uninitialized;
    let mut engine = JSEngine::init(&mut state, true).unwrap();
    let mut slot = ThreadContext::new();
    assert_eq!(Runtime::get(&slot), None);
    let mut runtime = Runtime::new(&mut slot, engine.handle(), 0x7f00_0000);
    assert_eq!(runtime.cx(), 0x7f00_0000);
    assert_eq!(Runtime::get(&slot), Some(0x7f00_0000));

    let parent = runtime.prepare_for_new_child(&mut engine, 0x7e00_0000);
    assert_eq!(Runtime::parent_runtime(&None), 0);
    let mut child_slot = ThreadContext::new();
    let child = Runtime::create_with_parent(&mut child_slot, &mut engine, parent, 0x7f10_0000);
    assert_eq!(child.cx(), 0x7f10_0000);
    assert_eq!(Runtime::get(&child_slot), Some(0x7f10_0000));
    let (handle, link) = child.destroy(&mut child_slot);
    assert_eq!(Runtime::get(&child_slot), None);
    engine.release(handle);
    runtime.child_gone(link.unwrap());

    let (handle, link) = runtime.destroy(&mut slot);
    assert!(link.is_none());
    assert_eq!(Runtime::get(&slot), None);
    engine.release(handle);
    assert!(engine.can_shutdown());
    assert!(engine.shut_down(&mut state));
}

#[test]
fn contexts_are_made_step_by_step() {
    let steps = Runtime::context_setup(&None);
    assert_eq!(
        steps,
        vec![
            ContextSetup::NewContext {
                max_bytes: 33 * 1024 * 1024,
                parent_runtime: 0
            },
            ContextSetup::SetMaxBytes {
                max_bytes: u32::MAX
            },
            ContextSetup::AddExtraGCRootsTracer,
            ContextSetup::SetNativeStackQuota {
                quota: Runtime::native_stack_quota()
            },
            ContextSetup::EnterThread,
            ContextSetup::InitSelfHostedCode,
            ContextSetup::SetWarningReporter,
        ]
    );
    let mut state = EngineState::Uninitialized;
    let mut engine = JSEngine::init(&mut state, true).unwrap();
    let mut slot = ThreadContext::new();
    let mut runtime = Runtime::new(&mut slot, engine.handle(), 0x7f00_0000);
    let parent = Some(runtime.prepare_for_new_child(&mut engine, 0x7e00_0000));
    assert_eq!(
        Runtime::context_setup(&parent)[0],
        ContextSetup::NewContext {
            max_bytes: 33 * 1024 * 1024,
            parent_runtime: 0x7e00_0000
        }
    );
    assert_eq!(Runtime::parent_runtime(&parent), 0x7e00_0000);
    // A handle under which no child is made gives its shares back.
    assert_eq!(runtime.outstanding_children(), 1);
    let link = parent.unwrap().cancel(&mut engine);
    runtime.child_gone(link);
    assert_eq!(runtime.outstanding_children(), 0);
    let (handle, _) = runtime.destroy(&mut slot);
    engine.release(handle);
    assert!(engine.can_shutdown());
}

#[test]
fn new_contexts_get_their_heap_and_stack() {
    assert_eq!(Runtime::new_context_bytes(), 32 * 1024 * 1024 + 1024 * 1024);
    assert_eq!(STACK_QUOTA, 1048576);
    assert_eq!(
        Runtime::native_stack_quota(),
        NativeStackQuota {
            system_code: 1048576,
            trusted_script: 1048576 - 10240,
            untrusted_script: 1048576 - 10240 - 102400,
        }
    );
}

#[test]
fn engine_calls_report_as_results() {
    assert_eq!(true.to_result(), Ok(()));
    assert_eq!(false.to_result(), Err(()));
}

#[test]
fn small_wrappers_keep_their_addresses() {
    assert!(Stencil::from_raw(0).is_null());
    assert_eq!(Stencil::from_raw(0).release(), None);
    let stencil = Stencil::from_raw(0x4000);
    assert!(!stencil.is_null());
    assert_eq!(stencil.as_ptr(), 0x4000);
    assert_eq!(stencil.release(), Some(0x4000));
    assert_eq!(
        JSAutoStructuredCloneBufferWrapper::new(0x5000).as_raw_ptr(),
        0x5000
    );
    let mut class = JSClass {
        name: 0,
        flags: JSCLASS_IS_GLOBAL,
        cOps: 0,
        spec: 0,
        ext: 0,
        oOps: 0,
    };
    assert!(!is_dom_class(&class));
    class.flags |= JSCLASS_IS_DOMJSCLASS;
    assert!(is_dom_class(&class));
    assert_eq!(JSCLASS_IS_DOMJSCLASS, 1 << 4);
    assert_eq!(JSCLASS_IS_GLOBAL, 1 << 17);
}

#[test]
fn source_texts_borrow_their_units() {
    let text = transform_str_to_source_text("1 + 1");
    assert_eq!(text.units_, b"1 + 1");
    assert_eq!(text.length_, 5);
    assert!(!text.ownsUnits_);
    let units: Vec<u16> = "héllo".encode_utf16().collect();
    let text = transform_u16_to_source_text(&units);
    assert_eq!(text.length_, 5);
    assert_eq!(text.units_, &units[..]);
    assert!(!text.ownsUnits_);
}

fn with_handle<R>(v: JSVal, f: impl FnOnce(Handle<JSVal>) -> R) -> R {
    let mut cx = RootingContext::new();
    let mut slot = Rooted::new_unrooted(0x1000);
    let guard = RootedGuard::new(&mut cx, &mut slot, v);
    let r = f(guard.handle());
    guard.unroot(&mut cx);
    r
}

#[test]
fn conversions_that_need_no_engine() {
    assert_eq!(with_handle(BooleanValue(true), ToBoolean), Some(true));
    assert_eq!(with_handle(BooleanValue(false), ToBoolean), Some(false));
    assert_eq!(with_handle(Int32Value(0), ToBoolean), Some(false));
    assert_eq!(with_handle(Int32Value(-3), ToBoolean), Some(true));
    assert_eq!(with_handle(NullValue(), ToBoolean), Some(false));
    assert_eq!(with_handle(UndefinedValue(), ToBoolean), Some(false));
    assert_eq!(
        with_handle(DoubleValue(0.0f64.to_bits()), ToBoolean),
        Some(false)
    );
    assert_eq!(
        with_handle(DoubleValue((-0.0f64).to_bits()), ToBoolean),
        Some(false)
    );
    assert_eq!(
        with_handle(DoubleValue(f64::NAN.to_bits()), ToBoolean),
        Some(false)
    );
    assert_eq!(
        with_handle(DoubleValue(0.5f64.to_bits()), ToBoolean),
        Some(true)
    );
    assert_eq!(
        with_handle(DoubleValue(f64::NEG_INFINITY.to_bits()), ToBoolean),
        Some(true)
    );
    assert_eq!(
        with_handle(SymbolValue(SymbolPtr { addr: 0x40 }), ToBoolean),
        Some(true)
    );
    assert_eq!(
        with_handle(ObjectValue(ObjectPtr { addr: 0x40 }), ToBoolean),
        None
    );
    assert_eq!(
        with_handle(StringValue(StringPtr { addr: 0x40 }), ToBoolean),
        None
    );

    assert_eq!(with_handle(Int32Value(-1), convert_from_int32), Some(-1));
    assert_eq!(with_handle(Int32Value(-1), ToInt32), Some(-1));
    assert_eq!(with_handle(Int32Value(-1), ToUint32), Some(u32::MAX));
    assert_eq!(with_handle(Int32Value(-1), ToUint16), Some(u16::MAX));
    assert_eq!(with_handle(Int32Value(0x12345), ToUint16), Some(0x2345));
    assert_eq!(with_handle(Int32Value(-1), ToInt64), Some(-1));
    assert_eq!(with_handle(Int32Value(-1), ToUint64), Some(u64::MAX));
    assert_eq!(with_handle(Int32Value(7), ToUint64), Some(7));
    assert_eq!(with_handle(DoubleValue(1.0f64.to_bits()), ToInt32), None);
    assert_eq!(with_handle(NullValue(), ToUint32), None);

    assert_eq!(
        with_handle(Int32Value(-7), ToNumber),
        Some((-7.0f64).to_bits())
    );
    assert_eq!(
        with_handle(DoubleValue(2.5f64.to_bits()), ToNumber),
        Some(2.5f64.to_bits())
    );
    assert_eq!(with_handle(BooleanValue(true), ToNumber), None);
    assert_eq!(
        with_handle(StringValue(StringPtr { addr: 0x40 }), ToString),
        Some(StringPtr { addr: 0x40 })
    );
    assert_eq!(with_handle(Int32Value(1), ToString), None);
}

#[test]
fn realms_are_left_in_the_reverse_of_the_order_of_entering() {
    let mut cx = JSContext::from_ptr(0x7f00_0000, RootingContext::new());
    assert_eq!(cx.as_ptr(), 0x7f00_0000);
    assert_eq!(cx.raw_cx_no_gc().realm(), 0);
    {
        let _token = cx.no_gc();
        assert_eq!(cx.raw_cx_no_gc().stack_top(RootKind::Value), 0);
    }
    let global = ObjectPtr { addr: 0x5550_0010 };
    let mut outer = AutoRealm::new(&mut cx, global, 0x100);
    assert_eq!(outer.context().raw_cx_no_gc().realm(), 0x100);
    assert_eq!(
        *outer.realm(),
        JSAutoRealm {
            cx_: 0x7f00_0000,
            oldRealm_: 0
        }
    );
    {
        let mut current = outer.current_realm();
        assert_eq!(current.realm(), 0x100);
        assert_eq!(current.context().as_ptr(), 0x7f00_0000);
        let inner_cx = current.context_mut();
        let mut slot = Rooted::new_unrooted(0x1000);
        let guard = RootedGuard::new(inner_cx.raw_cx(), &mut slot, global);
        let inner = AutoRealm::new_from_handle(inner_cx, guard.handle(), 0x200);
        assert_eq!(inner.context().raw_cx_no_gc().realm(), 0x200);
        inner.leave();
        assert_eq!(inner_cx.raw_cx_no_gc().realm(), 0x100);
        guard.unroot(inner_cx.raw_cx());
    }
    {
        let inner = AutoRealm::new(outer.context_mut(), global, 0x200);
        assert_eq!(inner.context().raw_cx_no_gc().realm(), 0x200);
        assert_eq!(inner.realm().oldRealm_, 0x100);
        inner.leave();
    }
    assert_eq!(outer.context().raw_cx_no_gc().realm(), 0x100);
    assert_eq!(CurrentRealm::assert_current(outer.context_mut()).realm(), 0x100);
    outer.leave();
    assert_eq!(cx.raw_cx_no_gc().realm(), 0);
}

#[test]
fn values_for_another_realm_are_wrapped() {
    let object = ObjectValue(ObjectPtr { addr: 0x40 });
    let string = StringValue(StringPtr { addr: 0x40 });
    assert_eq!(
        with_handle(object, |h| maybe_wrap_object_value(h, false, true)),
        WrapAction::Wrap
    );
    assert_eq!(
        with_handle(object, |h| maybe_wrap_object_value(h, true, true)),
        WrapAction::Outerize
    );
    assert_eq!(
        with_handle(object, |h| maybe_wrap_object_value(h, true, false)),
        WrapAction::Nothing
    );
    assert_eq!(
        with_handle(NullValue(), |h| maybe_wrap_object_or_null_value(
            h, false, false
        )),
        WrapAction::Nothing
    );
    assert_eq!(
        with_handle(object, |h| maybe_wrap_object_or_null_value(h, false, false)),
        WrapAction::Wrap
    );
    assert_eq!(
        with_handle(string, |h| maybe_wrap_value(h, true, false)),
        WrapAction::Wrap
    );
    assert_eq!(
        with_handle(object, |h| maybe_wrap_value(h, true, true)),
        WrapAction::Outerize
    );
    assert_eq!(
        with_handle(Int32Value(1), |h| maybe_wrap_value(h, false, true)),
        WrapAction::Nothing
    );

    assert_eq!(CapturedJSStack::capture_mode(None), StackCapture::AllFrames);
    assert_eq!(
        CapturedJSStack::capture_mode(Some(3)),
        StackCapture::MaxFrames(3)
    );
    let parent = ObjectPtr { addr: 0x80 };
    assert_eq!(
        CapturedJSStack::next_frame(SavedFrameResult::Allowed, parent),
        Some(parent)
    );
    assert_eq!(
        CapturedJSStack::next_frame(SavedFrameResult::Allowed, ObjectPtr::null()),
        None
    );
    assert_eq!(
        CapturedJSStack::next_frame(SavedFrameResult::AccessDenied, parent),
        None
    );
    let mut cx = RootingContext::new();
    let mut slot = Rooted::new_unrooted(0x1000);
    let guard = RootedGuard::new(&mut cx, &mut slot, ObjectPtr::null());
    let guard = match CapturedJSStack::new(0x7f00_0000, guard, false) {
        Ok(_) => panic!("a capture that failed gives no stack"),
        Err(guard) => guard,
    };
    let stack = match CapturedJSStack::new(0x7f00_0000, guard, true) {
        Ok(stack) => stack,
        Err(_) => panic!("a capture that went well gives a stack"),
    };
    stack.into_guard().unroot(&mut cx);

    assert_eq!(latin1_to_chars(b"caf\xe9"), vec!['c', 'a', 'f', 'é']);
}

#[test]
fn self_tracing_roots_are_linked_under_their_category() {
    let mut cx = RootingContext::new();
    let mut first = AutoGCRooter::new_unrooted(AutoGCRooterKind::Custom);
    let mut second = AutoGCRooter::new_unrooted(AutoGCRooterKind::Custom);
    first.add_to_root_stack(&mut cx, 0x100);
    second.add_to_root_stack(&mut cx, 0x200);
    assert_eq!(cx.rooter_top(AutoGCRooterKind::Custom), 0x200);
    assert_eq!(cx.rooter_top(AutoGCRooterKind::Wrapper), 0);
    assert_eq!(second.down, 0x100);
    assert_eq!(first.down, 0);
    assert!(second.stackTop);
    second.remove_from_root_stack(&mut cx, 0x200);
    assert_eq!(cx.rooter_top(AutoGCRooterKind::Custom), 0x100);
    first.remove_from_root_stack(&mut cx, 0x100);
    assert_eq!(cx.rooter_top(AutoGCRooterKind::Custom), 0);
}

#[test]
fn helper_threads_get_their_stack() {
    assert_eq!(STACK_SIZE, 2 * 1024 * 1024 - 8192);
    assert_eq!(stack_size(), STACK_SIZE);
    assert_eq!(FrontendContext(0x40).as_ptr(), 0x40);
}
