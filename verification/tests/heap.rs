use mozjs::jsapi::{
    FunctionPtr, JSTracer, ObjectPtr, PropertyDescriptor, PropertyKey, StringPtr, SymbolPtr,
    TraceEdge, TracerEntry, VoidId,
};
use mozjs::jsgc::{BarrierCall, GCMethods, Heap, Initialize, ValueArray};
use mozjs::jsval::{Int32Value, JSVal, ObjectValue, UndefinedValue};
use mozjs::trace::Traceable;
use std::rc::Rc;
use std::sync::Arc;

#[test]
fn heap_wrapper_raises_a_barrier_on_set_and_on_its_end() {
    let reference = ObjectPtr { addr: 0x5550_0010 };
    let (mut cell, made) = Heap::<ObjectPtr>::boxed(0x9000, ObjectPtr::null());
    assert_eq!(
        made,
        BarrierCall {
            location: 0x9000,
            prev: ObjectPtr::null(),
            next: ObjectPtr::null()
        }
    );
    let mut log = Vec::new();
    log.push(cell.set(reference));
    assert_eq!(log.len(), 1);
    assert_eq!(
        log[0],
        BarrierCall {
            location: 0x9000,
            prev: ObjectPtr::null(),
            next: reference
        }
    );
    assert_eq!(cell.get(), reference);
    log.push((*cell).retire());
    assert_eq!(log.len(), 2);
    assert_eq!(
        log[1],
        BarrierCall {
            location: 0x9000,
            prev: reference,
            next: ObjectPtr::null()
        }
    );
}

#[test]
fn every_set_on_a_heap_cell_raises_one_barrier_with_the_values_around_it() {
    let (mut cell, first) = Heap::<JSVal>::new(0x9100, Int32Value(0));
    assert_eq!(first.prev, UndefinedValue());
    assert_eq!(first.next, Int32Value(0));
    let mut before = cell.get();
    let mut calls = 0;
    for i in 1..50 {
        let call = cell.set(Int32Value(i));
        calls += 1;
        assert_eq!(
            call,
            BarrierCall {
                location: 0x9100,
                prev: before,
                next: Int32Value(i)
            }
        );
        assert_eq!(cell.get(), Int32Value(i));
        before = cell.get();
    }
    assert_eq!(calls, 49);
    assert_eq!(cell.get_unsafe(), 0x9100);
    assert_eq!(cell.handle().ptr, 0x9100);
}

#[test]
fn reads_raise_nothing_and_boxed_makes_the_first_write() {
    let (cell, made) = Heap::<StringPtr>::boxed(0x9200, StringPtr { addr: 0x40 });
    assert_eq!(made.location, 0x9200);
    assert_eq!(made.prev, StringPtr::null());
    assert_eq!(made.next, StringPtr { addr: 0x40 });
    assert_eq!(cell.get(), StringPtr { addr: 0x40 });
    assert_eq!(cell.get(), StringPtr { addr: 0x40 });
    assert_eq!(cell.marked().location(), 0x9200);
}

#[test]
fn safe_values_refer_to_nothing() {
    assert_eq!(<ObjectPtr as Initialize>::initial(), Some(ObjectPtr::null()));
    assert_eq!(<ObjectPtr as GCMethods>::initial_value(), ObjectPtr::null());
    assert_eq!(<JSVal as GCMethods>::initial_value(), UndefinedValue());
    assert!(!<JSVal as GCMethods>::initial_value().is_markable());
    assert_eq!(<PropertyKey as GCMethods>::initial_value(), VoidId());
    assert_eq!(VoidId().asBits_, 2);
    assert_eq!(
        <PropertyDescriptor as GCMethods>::initial_value(),
        PropertyDescriptor::default()
    );
    assert_eq!(PropertyDescriptor::default().value_, UndefinedValue());
    assert!(PropertyDescriptor::default().getter_.is_null());
    assert_eq!(<Option<u8> as Initialize>::initial(), Some(None));
    let array = <ValueArray<3> as Initialize>::initial().unwrap();
    assert_eq!(array.elements(), &[UndefinedValue(); 3]);
    let call = <SymbolPtr as GCMethods>::post_barrier(
        8,
        SymbolPtr::null(),
        SymbolPtr { addr: 16 },
    );
    assert_eq!(call.location, 8);
    assert_eq!(call.prev, SymbolPtr::null());
    assert_eq!(call.next, SymbolPtr { addr: 16 });
}

struct Handcrafted {
    direct: Heap<ObjectPtr>,
    optional: Option<Heap<StringPtr>>,
    absent: Option<Heap<StringPtr>>,
    sequence: Vec<Heap<JSVal>>,
    boxed: Box<Heap<FunctionPtr>>,
    null: Heap<ObjectPtr>,
    shared: Rc<Heap<SymbolPtr>>,
    atomic: Arc<(Heap<PropertyKey>, u32)>,
    plain: (u64, bool, String),
    nested: Option<Vec<Box<Heap<ObjectPtr>>>>,
}

impl Traceable for Handcrafted {
    fn trace(&self, trc: &mut JSTracer) {
        self.direct.trace(trc);
        self.optional.trace(trc);
        self.absent.trace(trc);
        self.sequence.trace(trc);
        self.boxed.trace(trc);
        self.null.trace(trc);
        self.shared.trace(trc);
        self.atomic.trace(trc);
        self.plain.trace(trc);
        self.nested.trace(trc);
    }
}

#[test]
fn a_trace_pass_visits_each_reference_once() {
    let value = Handcrafted {
        direct: Heap::new(0x100, ObjectPtr { addr: 0x1000 }).0,
        optional: Some(Heap::new(0x108, StringPtr { addr: 0x2000 }).0),
        absent: None,
        sequence: vec![
            Heap::new(0x200, Int32Value(1)).0,
            Heap::new(0x208, ObjectValue(ObjectPtr { addr: 0x1000 })).0,
            Heap::new(0x210, UndefinedValue()).0,
        ],
        boxed: Heap::boxed(0x300, FunctionPtr { addr: 0x3000 }).0,
        null: Heap::new(0x110, ObjectPtr::null()).0,
        shared: Rc::new(Heap::new(0x400, SymbolPtr { addr: 0x4000 }).0),
        atomic: Arc::new((Heap::new(0x500, VoidId()).0, 7)),
        plain: (1, true, "text".to_string()),
        nested: Some(vec![
            Heap::boxed(0x600, ObjectPtr { addr: 0x6000 }).0,
            Heap::boxed(0x608, ObjectPtr { addr: 0x6008 }).0,
        ]),
    };
    let mut trc = JSTracer::new();
    value.trace(&mut trc);
    // One object, one string, three values, one function, one symbol, one
    // key and the two nested objects; the null reference is no site.
    assert_eq!(trc.len(), 10);
    let sites: Vec<u64> = trc.edges().iter().map(|e| e.location).collect();
    assert_eq!(
        sites,
        vec![0x100, 0x108, 0x200, 0x208, 0x210, 0x300, 0x400, 0x500, 0x600, 0x608]
    );
    assert_eq!(
        trc.edges()[0],
        TraceEdge {
            entry: TracerEntry::Object,
            location: 0x100,
            thing: 0x1000
        }
    );
    assert_eq!(trc.edges()[1].entry, TracerEntry::String);
    assert_eq!(trc.edges()[2].entry, TracerEntry::Value);
    assert_eq!(trc.edges()[5].entry, TracerEntry::Function);
    assert_eq!(trc.edges()[6].entry, TracerEntry::Symbol);
    assert_eq!(trc.edges()[7].entry, TracerEntry::Id);
    // A second pass visits the same sites again.
    value.trace(&mut trc);
    assert_eq!(trc.len(), 20);
}

#[test]
fn values_descriptors_and_arrays_are_traced_where_they_lie() {
    let mut trc = JSTracer::new();
    Int32Value(5).trace(&mut trc);
    PropertyDescriptor::default().trace(&mut trc);
    ValueArray::new([Int32Value(1), Int32Value(2)]).trace(&mut trc);
    [Int32Value(3)].trace(&mut trc);
    let ok: Result<JSVal, u8> = Ok(Int32Value(4));
    let err: Result<JSVal, u8> = Err(4);
    ok.trace(&mut trc);
    err.trace(&mut trc);
    ().trace(&mut trc);
    (Int32Value(6),).trace(&mut trc);
    "text".trace(&mut trc);
    assert_eq!(trc.len(), 7);
    assert_eq!(trc.edges()[0].entry, TracerEntry::ValueRoot);
    assert_eq!(trc.edges()[0].thing, Int32Value(5).asBits());
    assert_eq!(trc.edges()[1].entry, TracerEntry::PropertyDescriptor);
    assert_eq!(trc.edges()[2].thing, Int32Value(1).asBits());
    assert_eq!(trc.edges()[3].thing, Int32Value(2).asBits());
    assert_eq!(trc.edges()[4].thing, Int32Value(3).asBits());
    assert_eq!(trc.edges()[5].thing, Int32Value(4).asBits());
    assert_eq!(trc.edges()[6].thing, Int32Value(6).asBits());
}
