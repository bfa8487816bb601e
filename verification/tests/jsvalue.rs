use mozjs::jsapi::{ObjectPtr, StringPtr, TraceKind};
use mozjs::jsval::{
    int32_to_double_bits, BooleanValue, DoubleValue, Int32Value, JSVal, NullValue,
    ObjectOrNullValue, ObjectValue, PrivateValue, StringValue, UInt32Value, UndefinedValue,
};

#[test]
fn jsvalues() {
    let val = UndefinedValue();
    assert!(val.is_undefined());
    assert!(val.is_primitive());

    let val = NullValue();
    assert!(val.is_null());
    assert!(val.is_null_or_undefined());
    assert!(val.is_object_or_null());
    assert!(val.to_object_or_null().is_null());

    let val = BooleanValue(true);
    assert!(val.is_boolean());
    assert!(val.is_primitive());
    assert!(val.to_boolean());

    let val = BooleanValue(false);
    assert!(val.is_boolean());
    assert!(val.is_primitive());
    assert!(!val.to_boolean());

    let val = Int32Value(42);
    assert!(val.is_int32());
    assert!(val.is_primitive());
    assert!(val.is_number());
    assert_eq!(val.to_int32(), 42);
    assert_eq!(f64::from_bits(val.to_number()), 42.0);

    let val = Int32Value(-42);
    assert!(val.is_int32());
    assert!(val.is_primitive());
    assert!(val.is_number());
    assert_eq!(val.to_int32(), -42);
    assert_eq!(f64::from_bits(val.to_number()), -42.0);

    let val = DoubleValue(42.5f64.to_bits());
    assert!(val.is_double());
    assert!(val.is_primitive());
    assert!(val.is_number());
    assert_eq!(f64::from_bits(val.to_double()), 42.5);
    assert_eq!(f64::from_bits(val.to_number()), 42.5);

    let val = DoubleValue((-42.5f64).to_bits());
    assert!(val.is_double());
    assert!(val.is_primitive());
    assert!(val.is_number());
    assert_eq!(f64::from_bits(val.to_double()), -42.5);
    assert_eq!(f64::from_bits(val.to_number()), -42.5);
}

#[test]
fn integers_become_the_doubles_of_their_value() {
    assert_eq!(int32_to_double_bits(0), 0);
    assert_eq!(int32_to_double_bits(1), 0x3FF0_0000_0000_0000);
    assert_eq!(int32_to_double_bits(-1), 0xBFF0_0000_0000_0000);
    assert_eq!(int32_to_double_bits(3), 0x4008_0000_0000_0000);
    assert_eq!(int32_to_double_bits(i32::MIN), 0xC1E0_0000_0000_0000);
    let mut i: i64 = i32::MIN as i64;
    while i <= i32::MAX as i64 {
        assert_eq!(int32_to_double_bits(i as i32), (i as f64).to_bits());
        i += 65_521;
    }
    for i in [i32::MAX, i32::MAX - 1, 1 << 30, (1 << 30) + 1, -(1 << 30), 255, 256, -257] {
        assert_eq!(int32_to_double_bits(i), (i as f64).to_bits());
    }
}

#[test]
fn test_representation_agreement() {
    assert_eq!(BooleanValue(true).asBits(), 0xFFF9_0000_0000_0001);
    assert_eq!(DoubleValue(3.14159f64.to_bits()).asBits(), 3.14159f64.to_bits());
    assert_eq!(Int32Value(37).asBits(), 0xFFF8_8000_0000_0025);
    assert_eq!(NullValue().asBits(), 0xFFFA_0000_0000_0000);
    assert_eq!(UndefinedValue().asBits(), 0xFFF9_8000_0000_0000);
    let val = Int32Value(37);
    assert!(!val.is_boolean());
    assert!(!val.is_double());
    assert!(val.is_int32());
    assert!(val.is_number());
    assert!(!val.is_null());
    assert!(!val.is_undefined());
}

fn types_held(v: &JSVal) -> usize {
    let held = [
        v.is_undefined(),
        v.is_null(),
        v.is_boolean(),
        v.is_int32(),
        v.is_double(),
        v.is_string(),
        v.is_symbol(),
        v.is_bigint(),
        v.is_object(),
        v.is_magic(),
    ];
    held.iter().filter(|b| **b).count()
}

#[test]
fn primitives_round_trip_and_are_of_one_type() {
    for i in [0i32, 1, -1, 42, i32::MAX, i32::MIN] {
        let v = Int32Value(i);
        assert_eq!(v.to_int32(), i);
        assert_eq!(types_held(&v), 1);
    }
    for b in [true, false] {
        let v = BooleanValue(b);
        assert_eq!(v.to_boolean(), b);
        assert_eq!(types_held(&v), 1);
    }
    for d in [0.0f64, -0.0, 1.5, -42.5, f64::MAX, f64::MIN_POSITIVE, f64::INFINITY] {
        let v = DoubleValue(d.to_bits());
        assert_eq!(f64::from_bits(v.to_double()), d);
        assert_eq!(v.to_double(), d.to_bits());
        assert_eq!(types_held(&v), 1);
    }
    assert_eq!(types_held(&NullValue()), 1);
    assert_eq!(types_held(&UndefinedValue()), 1);
    assert_eq!(JSVal::default(), UndefinedValue());
}

#[test]
fn unsigned_integers_above_the_signed_range_become_doubles() {
    let v = UInt32Value(0x7fff_ffff);
    assert!(v.is_int32());
    assert_eq!(v.to_int32(), i32::MAX);
    let v = UInt32Value(0x8000_0000);
    assert!(v.is_double());
    assert_eq!(f64::from_bits(v.to_double()), 2147483648.0);
    let v = UInt32Value(u32::MAX);
    assert!(v.is_double());
    assert_eq!(f64::from_bits(v.to_double()), 4294967295.0);
    assert_eq!(v.to_double(), (u32::MAX as f64).to_bits());
}

#[test]
fn references_keep_their_address_and_kind() {
    let o = ObjectPtr { addr: 0x7f00_dead_bee8 };
    let v = ObjectValue(o);
    assert_eq!(v.asBits(), 0xFFFE_7f00_dead_bee8);
    assert!(v.is_object());
    assert!(!v.is_primitive());
    assert!(v.is_gcthing());
    assert!(v.is_markable());
    assert_eq!(v.to_object(), o);
    assert_eq!(v.to_object_or_null(), o);
    assert_eq!(v.to_gcthing(), o.addr);
    assert_eq!(v.trace_kind(), TraceKind::Object);

    let s = StringPtr { addr: 0x1000 };
    let v = StringValue(s);
    assert!(v.is_string());
    assert!(v.is_primitive());
    assert_eq!(v.to_string(), s);
    assert_eq!(v.trace_kind(), TraceKind::String);

    assert_eq!(ObjectOrNullValue(ObjectPtr::null()), NullValue());
    assert_eq!(ObjectOrNullValue(o), ObjectValue(o));
    assert!(!NullValue().is_markable());
}

#[test]
fn private_values_lie_among_the_doubles() {
    let v = PrivateValue(0x0000_7fff_ffff_fff8);
    assert!(v.is_private());
    assert!(v.is_double());
    assert_eq!(v.to_private(), 0x0000_7fff_ffff_fff8);
    assert!(!DoubleValue(1.0f64.to_bits()).is_private());
}
