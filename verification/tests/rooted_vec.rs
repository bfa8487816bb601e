use mozjs::gc::collections::{
    DynamicValueArray, FixedValueArray, RootableVec, RootedDynamicValueArray,
    RootedFixedValueArray, RootedTraceableBox, RootedVec,
};
use mozjs::gc::trace::{trace_traceables, RootedTraceableSet};
use mozjs::jsapi::{HandleValueArray, JSTracer, ObjectPtr, TraceEdge, TracerEntry};
use mozjs::jsgc::{BarrierCall, Heap};
use mozjs::jsval::{Int32Value, JSVal, ObjectValue, UndefinedValue};
use mozjs::trace::Traceable;

#[test]
fn rooted_vec() {
    let mut set = RootedTraceableSet::new();
    let mut root = RootableVec::new_unrooted(0xA000);
    let mut values = RootedVec::new(&mut set, &mut root);
    for i in 0..32u64 {
        values.push(ObjectValue(ObjectPtr {
            addr: 0x1000 + 8 * i,
        }));
    }
    let array = values.as_handle_value_array();
    let length = array.length_();
    assert_eq!(values.len(), length as usize);
    for index in 0..length {
        let element = array.elements_[index];
        assert_eq!(values.as_vec()[index as usize], element);
    }
    assert_eq!(set.len(), 1);
    values.unroot(&mut set);
    assert_eq!(set.len(), 0);
}

#[test]
fn add_then_remove_leaves_the_set_as_it_was() {
    let mut set = RootedTraceableSet::new();
    set.add(0x10);
    set.add(0x20);
    let before = set.len();
    set.add(0x30);
    set.remove(0x30);
    assert_eq!(set.len(), before);
    let mut trc = JSTracer::new();
    set.trace(&mut trc);
    let order: Vec<u64> = trc.edges().iter().map(|e| e.location).collect();
    assert_eq!(order, vec![0x10, 0x20]);
}

fn registered(set: &RootedTraceableSet) -> Vec<u64> {
    let mut trc = JSTracer::new();
    trace_traceables(set, &mut trc);
    assert!(trc
        .edges()
        .iter()
        .all(|e| e.entry == TracerEntry::Traceable && e.thing == 0));
    trc.edges().iter().map(|e| e.location).collect()
}

#[test]
fn interleaved_registrations_leave_in_reverse_order() {
    let mut set = RootedTraceableSet::new();
    set.add(0x10);
    set.add(0x20);
    set.add(0x10);
    set.add(0x20);
    assert_eq!(registered(&set), vec![0x10, 0x20, 0x10, 0x20]);
    // The most recent registration of an address is the one that leaves.
    set.remove(0x10);
    assert_eq!(registered(&set), vec![0x10, 0x20, 0x20]);
    set.remove(0x20);
    assert_eq!(registered(&set), vec![0x10, 0x20]);
    set.remove(0x20);
    assert_eq!(registered(&set), vec![0x10]);
    set.remove(0x10);
    assert_eq!(registered(&set), Vec::<u64>::new());
}

#[test]
fn removing_an_absent_address_changes_nothing() {
    let mut set = RootedTraceableSet::new();
    set.remove(0x10);
    assert_eq!(set.len(), 0);
    set.add(0x20);
    set.remove(0x10);
    set.remove(0x10);
    assert_eq!(registered(&set), vec![0x20]);
}

#[test]
fn rooted_vec_from_items_is_empty_when_unrooted() {
    let mut set = RootedTraceableSet::new();
    let mut root = RootableVec::new_unrooted(0xA000);
    {
        let mut values =
            RootedVec::from_iter(&mut set, &mut root, vec![Int32Value(1), Int32Value(2)]);
        assert_eq!(values.len(), 2);
        values.push(Int32Value(3));
        let mut trc = JSTracer::new();
        values.root.trace(&mut trc);
        assert_eq!(trc.len(), 3);
        assert_eq!(registered(&set), vec![0xA000]);
        values.unroot(&mut set);
    }
    assert_eq!(registered(&set), Vec::<u64>::new());
    let mut trc = JSTracer::new();
    root.trace(&mut trc);
    assert_eq!(trc.len(), 0);
    let mut again = RootedVec::new(&mut set, &mut root);
    assert_eq!(again.len(), 0);
    again.push(Int32Value(4));
    again.clear();
    assert_eq!(again.len(), 0);
    again.unroot(&mut set);
}

#[test]
fn rooted_traceable_box_is_registered_while_it_lives() {
    let mut set = RootedTraceableSet::new();
    let (cell, _) = Heap::new(0xB008, ObjectPtr { addr: 0x1000 });
    let mut rooted = RootedTraceableBox::new(&mut set, 0xB000, cell);
    assert_eq!(rooted.ptr(), 0xB000);
    assert_eq!(registered(&set), vec![0xB000]);
    assert_eq!(rooted.handle().get(), ObjectPtr { addr: 0x1000 });
    let call = rooted.get_mut().set(ObjectPtr { addr: 0x2000 });
    assert_eq!(call.prev, ObjectPtr { addr: 0x1000 });
    assert_eq!(rooted.get_ref().get(), ObjectPtr { addr: 0x2000 });
    let mut trc = JSTracer::new();
    rooted.trace(&mut trc);
    assert_eq!(
        trc.edges()[0],
        TraceEdge {
            entry: TracerEntry::Object,
            location: 0xB008,
            thing: 0x2000
        }
    );
    let cell = rooted.unroot(&mut set);
    assert_eq!(cell.get(), ObjectPtr { addr: 0x2000 });
    assert_eq!(set.len(), 0);
}

#[test]
fn fixed_value_array_fills_its_cells_in_order() {
    let mut array = FixedValueArray::<3>::new(0xC000);
    assert_eq!(array.len(), 0);
    assert_eq!(array.capacity(), 3);
    assert_eq!(array.as_handle_value_array().length_(), 0);
    let call = array.push(Int32Value(1));
    assert_eq!(
        call,
        BarrierCall {
            location: 0xC000,
            prev: UndefinedValue(),
            next: Int32Value(1)
        }
    );
    let call = array.push(Int32Value(2));
    assert_eq!(call.location, 0xC008);
    assert_eq!(array.len(), 2);
    assert_eq!(
        array.as_handle_value_array().elements_,
        &[Int32Value(1), Int32Value(2)]
    );
    let mut trc = JSTracer::new();
    array.trace(&mut trc);
    assert_eq!(trc.len(), 2);
    assert_eq!(
        trc.edges()[1],
        TraceEdge {
            entry: TracerEntry::Value,
            location: 0xC008,
            thing: Int32Value(2).asBits()
        }
    );
    let calls = array.retire();
    assert_eq!(calls.len(), 3);
    assert_eq!(calls[0].prev, Int32Value(1));
    assert_eq!(calls[1].prev, Int32Value(2));
    assert_eq!(calls[2].prev, UndefinedValue());
    assert_eq!(calls[2].location, 0xC010);
    assert!(calls.iter().all(|c| c.next == UndefinedValue()));
}

#[test]
fn rooted_fixed_value_array_is_registered_and_retired() {
    let mut set = RootedTraceableSet::new();
    let mut array = RootedFixedValueArray::<2>::new(&mut set, 0xD000, 0xD100);
    assert_eq!(registered(&set), vec![0xD000]);
    assert_eq!(array.capacity(), 2);
    let call = array.push(Int32Value(9));
    assert_eq!(call.location, 0xD100);
    assert_eq!(array.len(), 1);
    assert_eq!(array.as_handle_value_array().elements_, &[Int32Value(9)]);
    let mut trc = JSTracer::new();
    array.trace(&mut trc);
    assert_eq!(trc.len(), 1);
    let calls = array.unroot(&mut set);
    assert_eq!(calls.len(), 2);
    assert_eq!(calls[0].prev, Int32Value(9));
    assert_eq!(set.len(), 0);
}

#[test]
fn dynamic_value_array_keeps_each_value_in_a_cell_of_its_own() {
    let mut array = DynamicValueArray::with_capacity(4);
    assert_eq!(array.len(), 0);
    let call = array.push(0xE000, Int32Value(1));
    assert_eq!(
        call,
        BarrierCall {
            location: 0xE000,
            prev: UndefinedValue(),
            next: Int32Value(1)
        }
    );
    let _ = array.push(0xE100, Int32Value(2));
    assert_eq!(array.len(), 2);
    assert_eq!(array.get(1), Int32Value(2));
    let mut trc = JSTracer::new();
    array.trace(&mut trc);
    let sites: Vec<u64> = trc.edges().iter().map(|e| e.location).collect();
    assert_eq!(sites, vec![0xE000, 0xE100]);
    let calls = array.retire();
    assert_eq!(calls.len(), 2);
    assert_eq!(
        calls[1],
        BarrierCall {
            location: 0xE100,
            prev: Int32Value(2),
            next: UndefinedValue()
        }
    );
    assert_eq!(DynamicValueArray::new().len(), 0);
}

#[test]
fn rooted_dynamic_value_array_shows_its_values_as_they_are() {
    let mut set = RootedTraceableSet::new();
    let mut array = RootedDynamicValueArray::new(&mut set, 0xF000);
    let mut other = RootedDynamicValueArray::with_capacity(&mut set, 0xF100, 2);
    assert_eq!(registered(&set), vec![0xF000, 0xF100]);
    assert_eq!(array.as_handle_value_array().length_(), 0);
    let _ = array.push(0xF200, Int32Value(1));
    let _ = array.push(0xF300, Int32Value(2));
    assert_eq!(array.len(), 2);
    {
        let shown: HandleValueArray = array.as_handle_value_array();
        let expected: Vec<JSVal> = vec![Int32Value(1), Int32Value(2)];
        assert_eq!(shown.elements_, &expected[..]);
    }
    let _ = array.push(0xF400, Int32Value(3));
    assert_eq!(array.as_handle_value_array().length_(), 3);
    let mut trc = JSTracer::new();
    array.trace(&mut trc);
    assert_eq!(trc.len(), 3);
    let _ = other.push(0xF500, Int32Value(4));
    let calls = other.unroot(&mut set);
    assert_eq!(calls.len(), 1);
    assert_eq!(registered(&set), vec![0xF000]);
    let calls = array.unroot(&mut set);
    assert_eq!(calls.len(), 3);
    assert_eq!(calls[2].location, 0xF400);
    assert_eq!(set.len(), 0);
}
