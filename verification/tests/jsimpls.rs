use mozjs::jsapi::{
    AutoGCRooter, AutoGCRooterKind, CallArgs, HandleValueArray, JSErrNum, JSFunctionSpec,
    JSJitGetterCallArgs, JSJitMethodCallArgs, JSJitSetterCallArgs, JSNativeWrapper,
    JSPropertySpec, JSPropertySpec_Kind, MutableHandle, ObjectOpResult, ObjectPtr, Range, Type,
};
use mozjs::jsval::{Int32Value, JSVal, ObjectValue, UndefinedValue, JSVAL_SHIFTED_TAG_MAGIC};
use mozjs::rust::{methods_end_zeroed, properties_end_zeroed};

#[test]
fn object_op_result_starts_unknown_and_records_the_outcome() {
    let mut result = ObjectOpResult::default();
    assert_eq!(result.code_, None);
    assert!(result.succeed());
    assert!(result.ok());
    assert!(result.fail(JSErrNum::JSMSG_READ_ONLY));
    assert!(!result.ok());
    assert_eq!(result.failure_code(), JSErrNum::JSMSG_READ_ONLY);
    assert!(result.succeed());
    assert!(result.ok());
}

#[test]
fn each_failure_records_its_own_error() {
    let cases: Vec<(fn(&mut ObjectOpResult) -> bool, JSErrNum)> = vec![
        (
            ObjectOpResult::fail_cant_redefine_prop,
            JSErrNum::JSMSG_CANT_REDEFINE_PROP,
        ),
        (ObjectOpResult::fail_read_only, JSErrNum::JSMSG_READ_ONLY),
        (ObjectOpResult::fail_getter_only, JSErrNum::JSMSG_GETTER_ONLY),
        (ObjectOpResult::fail_cant_delete, JSErrNum::JSMSG_CANT_DELETE),
        (
            ObjectOpResult::fail_cant_set_interposed,
            JSErrNum::JSMSG_CANT_SET_INTERPOSED,
        ),
        (
            ObjectOpResult::fail_cant_define_window_element,
            JSErrNum::JSMSG_CANT_DEFINE_WINDOW_ELEMENT,
        ),
        (
            ObjectOpResult::fail_cant_delete_window_element,
            JSErrNum::JSMSG_CANT_DELETE_WINDOW_ELEMENT,
        ),
        (
            ObjectOpResult::fail_cant_define_window_named_property,
            JSErrNum::JSMSG_CANT_DEFINE_WINDOW_NAMED_PROPERTY,
        ),
        (
            ObjectOpResult::fail_cant_delete_window_named_property,
            JSErrNum::JSMSG_CANT_DELETE_WINDOW_NAMED_PROPERTY,
        ),
        (
            ObjectOpResult::fail_cant_define_window_non_configurable,
            JSErrNum::JSMSG_CANT_DEFINE_WINDOW_NC,
        ),
        (
            ObjectOpResult::fail_cant_prevent_extensions,
            JSErrNum::JSMSG_CANT_PREVENT_EXTENSIONS,
        ),
        (
            ObjectOpResult::fail_cant_set_proto,
            JSErrNum::JSMSG_CANT_SET_PROTO,
        ),
        (
            ObjectOpResult::fail_no_named_setter,
            JSErrNum::JSMSG_NO_NAMED_SETTER,
        ),
        (
            ObjectOpResult::fail_no_indexed_setter,
            JSErrNum::JSMSG_NO_INDEXED_SETTER,
        ),
        (
            ObjectOpResult::fail_not_data_descriptor,
            JSErrNum::JSMSG_NOT_DATA_DESCRIPTOR,
        ),
        (
            ObjectOpResult::fail_invalid_descriptor,
            JSErrNum::JSMSG_INVALID_DESCRIPTOR,
        ),
        (
            ObjectOpResult::fail_bad_array_length,
            JSErrNum::JSMSG_BAD_ARRAY_LENGTH,
        ),
        (ObjectOpResult::fail_bad_index, JSErrNum::JSMSG_BAD_INDEX),
        (
            ObjectOpResult::failNoNamedSetter,
            JSErrNum::JSMSG_NO_NAMED_SETTER,
        ),
    ];
    for (fail, code) in cases {
        let mut result = ObjectOpResult::default();
        assert!(fail(&mut result));
        assert!(!result.ok());
        assert_eq!(result.failure_code(), code);
    }
}

#[test]
fn element_types_have_their_sizes() {
    assert_eq!(Type::Int8.byte_size(), Some(1));
    assert_eq!(Type::Uint8.byte_size(), Some(1));
    assert_eq!(Type::Uint8Clamped.byte_size(), Some(1));
    assert_eq!(Type::Int16.byte_size(), Some(2));
    assert_eq!(Type::Uint16.byte_size(), Some(2));
    assert_eq!(Type::Float16.byte_size(), Some(2));
    assert_eq!(Type::Int32.byte_size(), Some(4));
    assert_eq!(Type::Uint32.byte_size(), Some(4));
    assert_eq!(Type::Float32.byte_size(), Some(4));
    assert_eq!(Type::Int64.byte_size(), Some(8));
    assert_eq!(Type::Float64.byte_size(), Some(8));
    assert_eq!(Type::BigInt64.byte_size(), Some(8));
    assert_eq!(Type::BigUint64.byte_size(), Some(8));
    assert_eq!(Type::Simd128.byte_size(), Some(16));
    assert_eq!(Type::MaxTypedArrayViewType.byte_size(), None);
}

#[test]
fn tables_end_with_a_zeroed_entry() {
    let named = JSFunctionSpec {
        nargs: 2,
        ..JSFunctionSpec::zero()
    };
    assert!(JSFunctionSpec::zero().is_zeroed());
    assert!(!named.is_zeroed());
    assert!(methods_end_zeroed(&[named, JSFunctionSpec::zero()]));
    assert!(!methods_end_zeroed(&[JSFunctionSpec::zero(), named]));
    assert!(!methods_end_zeroed(&[]));

    let mut property = JSPropertySpec::zero();
    assert!(property.is_zeroed());
    assert!(property.is_accessor());
    property.kind_ = JSPropertySpec_Kind::SelfHostedAccessor;
    assert!(property.is_accessor());
    assert!(property.is_zeroed());
    property.kind_ = JSPropertySpec_Kind::Value;
    assert!(!property.is_accessor());
    assert!(!property.is_zeroed());
    let mut with_getter = JSPropertySpec::zero();
    with_getter.accessors.getter.op = Some(0x4000);
    assert!(!with_getter.is_zeroed());
    assert!(properties_end_zeroed(&[with_getter, JSPropertySpec::zero()]));
    assert!(!properties_end_zeroed(&[with_getter]));
    assert!(!properties_end_zeroed(&[]));

    assert!(JSNativeWrapper::zero().is_zeroed());
    assert!(!JSNativeWrapper {
        op: None,
        info: 8
    }
    .is_zeroed());
}

#[test]
fn call_arguments_lie_after_the_callee_and_this() {
    let callee = ObjectValue(ObjectPtr { addr: 0x5550_0010 });
    let words = [callee, UndefinedValue(), Int32Value(1), Int32Value(2)];
    let args = CallArgs::from_vp(&words, 0x8000, 2);
    assert_eq!(args.argc_, 2);
    assert_eq!(args.argv_, 0x8010);
    assert!(!args.is_constructing());
    assert_eq!(args.calleev().ptr, 0x8000);
    assert_eq!(args.rval().ptr, 0x8000);
    assert_eq!(args.thisv().ptr, 0x8008);
    assert_eq!(args.index(0).ptr, 0x8010);
    assert_eq!(args.index(1).ptr, 0x8018);
    assert_eq!(args.index_mut(1).ptr, 0x8018);
    assert_eq!(args.get(0), Int32Value(1));
    assert_eq!(args.get(1), Int32Value(2));
    assert_eq!(args.get(2), UndefinedValue());
    assert_eq!(args.callee(), ObjectPtr { addr: 0x5550_0010 });

    let magic = JSVal {
        asBits_: JSVAL_SHIFTED_TAG_MAGIC | 6,
    };
    let words = [callee, magic, Int32Value(1), callee];
    let args = CallArgs::from_vp(&words, 0x8000, 1);
    assert!(args.is_constructing());
    assert!(args.constructing_);
    assert_eq!(args.new_target().ptr, 0x8018);
}

#[test]
fn compiled_code_arguments_are_addresses() {
    let args = JSJitMethodCallArgs {
        argc_: 2,
        argv_: 0x8010,
    };
    assert_eq!(args.index(1).ptr, 0x8018);
    assert_eq!(args.index_mut(0).ptr, 0x8010);
    assert_eq!(args.rval().ptr, 0x8000);
    assert_eq!(args.get(1).map(|h| h.ptr), Some(0x8018));
    assert!(args.get(2).is_none());
    let getter = JSJitGetterCallArgs {
        _base: MutableHandle::from_marked_location(0x8000),
    };
    assert_eq!(getter.rval().ptr, 0x8000);
    let setter = JSJitSetterCallArgs {
        _base: MutableHandle::from_marked_location(0x8008),
    };
    assert_eq!(setter.get(0).ptr, 0x8008);
    assert_eq!(MutableHandle::<JSVal>::from_marked_location(8).handle().ptr, 8);
}

#[test]
fn empty_runs_and_unlinked_roots() {
    assert_eq!(HandleValueArray::new().length_(), 0);
    let values = [Int32Value(1)];
    let array = HandleValueArray::from_rooted_slice(&values);
    assert_eq!(array.length_(), 1);
    assert_eq!(array.elements_[0], Int32Value(1));
    let rooter = AutoGCRooter::new_unrooted(AutoGCRooterKind::Custom);
    assert_eq!(rooter.down, 0);
    assert_eq!(rooter.kind_, AutoGCRooterKind::Custom);
    assert!(!rooter.stackTop);
    let range = Range::<u8>::new(0x100, 0x110);
    assert_eq!(range.mStart, 0x100);
    assert_eq!(range.mEnd, 0x110);
}
