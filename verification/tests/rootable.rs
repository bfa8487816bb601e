use mozjs::gc::root::{MutableHandle, RootedGuard};
use mozjs::jsapi::{JSTracer, ObjectPtr, RootKind, RootingContext, TracerEntry};
use mozjs::jsgc::{BarrierCall, Initialize, Rootable, Rooted, ValueArray};
use mozjs::jsval::{
    Int32Value, JSVal, NullValue, ObjectValue, UndefinedValue, JS_ARGV, JS_CALLEE,
};
use mozjs::trace::Traceable;
use std::collections::VecDeque;

impl Rootable for ContainsGCValue {}

impl Traceable for ContainsGCValue {
    fn trace(&self, trc: &mut JSTracer) {
        self.val.trace(trc);
    }
}

impl Initialize for ContainsGCValue {
    fn initial() -> Option<ContainsGCValue> {
        None
    }
}

struct ContainsGCValue {
    val: JSVal,
}

#[test]
fn rooting() {
    let mut context = RootingContext::new();
    let mut proto_slot = Rooted::new_unrooted(0x7000);
    let prototype_proto =
        RootedGuard::new(&mut context, &mut proto_slot, ObjectPtr { addr: 0x5550_0010 });
    let mut container_slot = Rooted::new_unrooted(0x7100);
    let some_container = RootedGuard::new(
        &mut context,
        &mut container_slot,
        ContainsGCValue {
            val: ObjectValue(prototype_proto.get()),
        },
    );
    let mut optional_slot = Rooted::new_unrooted(0x7200);
    let some_optional_container = RootedGuard::new(
        &mut context,
        &mut optional_slot,
        Some(ContainsGCValue {
            val: ObjectValue(prototype_proto.get()),
        }),
    );
    assert_eq!(
        some_container.handle().get_ref().val.to_object(),
        prototype_proto.get()
    );
    assert_eq!(
        some_container.handle().get_ref().val,
        some_optional_container
            .handle()
            .get_ref()
            .as_ref()
            .unwrap()
            .val
    );
    // Both containers are roots that trace themselves; the object is a root
    // of its own category.
    assert_eq!(context.stack_top(RootKind::Traceable), 0x7200);
    assert_eq!(some_optional_container.prev(), 0x7100);
    assert_eq!(some_container.prev(), 0);
    assert_eq!(context.stack_top(RootKind::Object), 0x7000);
    some_optional_container.unroot(&mut context);
    some_container.unroot(&mut context);
    prototype_proto.unroot(&mut context);
    assert_eq!(context.stack_top(RootKind::Traceable), 0);
    assert_eq!(context.stack_top(RootKind::Object), 0);
}

#[test]
fn guard_holds_the_integer_42() {
    let mut cx = RootingContext::new();
    let mut slot = Rooted::new_unrooted(0x1000);
    let guard = RootedGuard::new(&mut cx, &mut slot, Int32Value(42));
    let handle = guard.handle();
    assert_eq!(handle.get().to_int32(), 42);
    assert!(handle.get().is_int32());
    assert!(!handle.get().is_double());
    assert_eq!(guard.as_ptr(), 0x1000);
    guard.unroot(&mut cx);
}

#[test]
fn root_list_is_the_reverse_of_the_linking_order() {
    let mut cx = RootingContext::new();
    let mut slot_a = Rooted::new_unrooted(0x1000);
    let mut slot_b = Rooted::new_unrooted(0x2000);
    let mut slot_c = Rooted::new_unrooted(0x3000);
    let mut slot_o = Rooted::new_unrooted(0x4000);
    let a = RootedGuard::new(&mut cx, &mut slot_a, UndefinedValue());
    let b = RootedGuard::new(&mut cx, &mut slot_b, NullValue());
    let o = RootedGuard::new(&mut cx, &mut slot_o, ObjectPtr::null());
    let c = RootedGuard::new(&mut cx, &mut slot_c, Int32Value(3));
    // Read the list of the values from its head to its tail.
    assert_eq!(cx.stack_top(RootKind::Value), 0x3000);
    assert_eq!(c.prev(), 0x2000);
    assert_eq!(b.prev(), 0x1000);
    assert_eq!(a.prev(), 0);
    // The list of the objects is one of its own.
    assert_eq!(cx.stack_top(RootKind::Object), 0x4000);
    assert_eq!(o.prev(), 0);
    c.unroot(&mut cx);
    assert_eq!(cx.stack_top(RootKind::Value), 0x2000);
    o.unroot(&mut cx);
    assert_eq!(cx.stack_top(RootKind::Object), 0);
    b.unroot(&mut cx);
    assert_eq!(cx.stack_top(RootKind::Value), 0x1000);
    a.unroot(&mut cx);
    assert_eq!(cx.stack_top(RootKind::Value), 0);
}

#[test]
fn well_nested_guards_end_and_mis_nested_ones_are_told_apart() {
    let mut cx = RootingContext::new();
    let mut slot_a = Rooted::new_unrooted(0x1000);
    let mut slot_b = Rooted::new_unrooted(0x2000);
    let a = RootedGuard::new(&mut cx, &mut slot_a, Int32Value(1));
    let b = RootedGuard::new(&mut cx, &mut slot_b, Int32Value(2));
    // While B is alive, A is not the guard that may end: an attempt to end
    // it is rejected, and nothing changes.
    assert!(!a.is_top(&cx));
    assert!(b.is_top(&cx));
    let a = match a.try_unroot(&mut cx) {
        Ok(()) => panic!("a guard ended while a later one was alive"),
        Err(a) => a,
    };
    assert_eq!(cx.stack_top(RootKind::Value), 0x2000);
    assert_eq!(b.prev(), 0x1000);
    assert_eq!(a.get(), Int32Value(1));
    // B ends before A: both succeed.
    assert!(b.try_unroot(&mut cx).is_ok());
    assert!(a.is_top(&cx));
    assert!(a.try_unroot(&mut cx).is_ok());
    assert_eq!(cx.stack_top(RootKind::Value), 0);
    // The slots are empty again and can be used for new roots.
    let a = RootedGuard::new(&mut cx, &mut slot_a, Int32Value(3));
    assert_eq!(a.get(), Int32Value(3));
    a.unroot(&mut cx);
}

#[test]
fn every_set_on_a_rooted_slot_raises_one_barrier() {
    let mut cx = RootingContext::new();
    let mut slot = Rooted::new_unrooted(0x1000);
    let mut guard = RootedGuard::new(&mut cx, &mut slot, ObjectPtr::null());
    let mut log: Vec<BarrierCall<ObjectPtr>> = Vec::new();
    let first = ObjectPtr { addr: 0x10 };
    let second = ObjectPtr { addr: 0x20 };
    log.push(guard.set(first));
    {
        let mut handle = guard.handle_mut();
        assert_eq!(handle.get(), first);
        log.push(handle.set(second));
        let mut shorter = handle.reborrow();
        log.push(shorter.set(first));
        assert_eq!(handle.handle().get(), first);
    }
    assert_eq!(guard.get(), first);
    assert_eq!(
        log,
        vec![
            BarrierCall {
                location: 0x1000,
                prev: ObjectPtr::null(),
                next: first
            },
            BarrierCall {
                location: 0x1000,
                prev: first,
                next: second
            },
            BarrierCall {
                location: 0x1000,
                prev: second,
                next: first
            },
        ]
    );
    guard.unroot(&mut cx);
}

fn write_twice(mut out: MutableHandle<JSVal>) -> usize {
    let mut calls = 0;
    let _ = out.reborrow().set(Int32Value(1));
    calls += 1;
    let _ = out.set(Int32Value(2));
    calls += 1;
    calls
}

#[test]
fn a_mutable_handle_is_threaded_through_calls() {
    let mut cx = RootingContext::new();
    let mut slot = Rooted::new_unrooted(0x1000);
    let mut guard = RootedGuard::new(&mut cx, &mut slot, UndefinedValue());
    assert_eq!(write_twice(guard.handle_mut()), 2);
    assert_eq!(guard.get(), Int32Value(2));
    guard.unroot(&mut cx);
}

#[test]
fn take_leaves_the_empty_state() {
    let mut cx = RootingContext::new();
    let mut slot = Rooted::new_unrooted(0x1000);
    let mut guard = RootedGuard::new(
        &mut cx,
        &mut slot,
        Some(ContainsGCValue {
            val: Int32Value(5),
        }),
    );
    let taken = guard.take();
    assert_eq!(taken.unwrap().val, Int32Value(5));
    assert!(guard.handle().get_ref().is_none());
    assert!(guard.take().is_none());
    guard.unroot(&mut cx);
}

#[test]
fn a_traced_container_reports_its_value() {
    let container = ContainsGCValue {
        val: ObjectValue(ObjectPtr { addr: 0x5550_0010 }),
    };
    let mut trc = JSTracer::new();
    container.trace(&mut trc);
    assert_eq!(trc.len(), 1);
    assert_eq!(trc.edges()[0].entry, TracerEntry::ValueRoot);
    assert_eq!(trc.edges()[0].thing, 0xFFFE_0000_5550_0010);
}

#[test]
fn an_array_of_values_is_rooted_in_one_slot() {
    let mut cx = RootingContext::new();
    let mut slot = Rooted::new_unrooted(0x1000);
    let guard = RootedGuard::new(
        &mut cx,
        &mut slot,
        ValueArray::new([Int32Value(1), Int32Value(2), Int32Value(3)]),
    );
    assert_eq!(cx.stack_top(RootKind::Traceable), 0x1000);
    assert_eq!(guard.prev(), 0);
    let args = guard.as_handle_value_array();
    assert_eq!(args.length_(), 3);
    assert_eq!(args.elements_[2], Int32Value(3));
    let mut trc = JSTracer::new();
    guard.handle().get_ref().trace(&mut trc);
    assert_eq!(trc.len(), 3);
    guard.unroot(&mut cx);
    assert_eq!(cx.stack_top(RootKind::Traceable), 0);
}

#[test]
fn call_words_split_into_callee_and_arguments() {
    let words = [Int32Value(0), Int32Value(1), Int32Value(2), Int32Value(3)];
    assert_eq!(JS_CALLEE(&words), Int32Value(0));
    assert_eq!(JS_ARGV(&words), &[Int32Value(2), Int32Value(3)]);
    assert_eq!(JS_ARGV(&words[..2]).len(), 0);
}

#[test]
fn deques_and_wide_tuples_report_their_items_in_order() {
    let mut deque = VecDeque::new();
    deque.push_back(Int32Value(2));
    deque.push_front(Int32Value(1));
    let mut trc = JSTracer::new();
    deque.trace(&mut trc);
    (
        Int32Value(3),
        4u8,
        Int32Value(5),
        true,
        Int32Value(6),
        'c',
        Int32Value(7),
    )
        .trace(&mut trc);
    let things: Vec<u64> = trc.edges().iter().map(|e| e.thing).collect();
    let expected: Vec<u64> = (1..=7)
        .filter(|i| *i != 4)
        .map(|i| Int32Value(i).asBits())
        .collect();
    assert_eq!(things, expected);
}
