//! The engine's data as far as the rooting layer reads it: references to
//! engine-owned things, and the small enumerations that the engine's
//! entry points are keyed by.
//!
//! A reference is the address of the thing in the engine's heap. The
//! address zero is the null reference.

use crate::jsgc::RootedBase;
use crate::jsval::{JSVal, JSVAL_SHIFTED_TAG_UNDEFINED};
use std::marker::PhantomData;
use vstd::prelude::*;

verus! {

/// A reference to an engine object.
#[derive(Clone, Copy, PartialEq, Eq, Structural, Debug, Hash)]
pub struct ObjectPtr {
    pub addr: u64,
}

/// A reference to an engine function object.
#[derive(Clone, Copy, PartialEq, Eq, Structural, Debug, Hash)]
pub struct FunctionPtr {
    pub addr: u64,
}

/// A reference to an engine string.
#[derive(Clone, Copy, PartialEq, Eq, Structural, Debug, Hash)]
pub struct StringPtr {
    pub addr: u64,
}

/// A reference to an engine symbol.
#[derive(Clone, Copy, PartialEq, Eq, Structural, Debug, Hash)]
pub struct SymbolPtr {
    pub addr: u64,
}

/// A reference to an engine big integer.
#[derive(Clone, Copy, PartialEq, Eq, Structural, Debug, Hash)]
pub struct BigIntPtr {
    pub addr: u64,
}

/// A reference to an engine script.
#[derive(Clone, Copy, PartialEq, Eq, Structural, Debug, Hash)]
pub struct ScriptPtr {
    pub addr: u64,
}

impl ObjectPtr {
    pub fn null() -> (p: Self)
        ensures
            p.addr == 0,
    {
        ObjectPtr { addr: 0 }
    }

    pub fn is_null(&self) -> (b: bool)
        ensures
            b == (self.addr == 0),
    {
        self.addr == 0
    }
}

impl FunctionPtr {
    pub fn null() -> (p: Self)
        ensures
            p.addr == 0,
    {
        FunctionPtr { addr: 0 }
    }

    pub fn is_null(&self) -> (b: bool)
        ensures
            b == (self.addr == 0),
    {
        self.addr == 0
    }
}

impl StringPtr {
    pub fn null() -> (p: Self)
        ensures
            p.addr == 0,
    {
        StringPtr { addr: 0 }
    }

    pub fn is_null(&self) -> (b: bool)
        ensures
            b == (self.addr == 0),
    {
        self.addr == 0
    }
}

impl SymbolPtr {
    pub fn null() -> (p: Self)
        ensures
            p.addr == 0,
    {
        SymbolPtr { addr: 0 }
    }

    pub fn is_null(&self) -> (b: bool)
        ensures
            b == (self.addr == 0),
    {
        self.addr == 0
    }
}

impl BigIntPtr {
    pub fn null() -> (p: Self)
        ensures
            p.addr == 0,
    {
        BigIntPtr { addr: 0 }
    }

    pub fn is_null(&self) -> (b: bool)
        ensures
            b == (self.addr == 0),
    {
        self.addr == 0
    }
}

impl ScriptPtr {
    pub fn null() -> (p: Self)
        ensures
            p.addr == 0,
    {
        ScriptPtr { addr: 0 }
    }

    pub fn is_null(&self) -> (b: bool)
        ensures
            b == (self.addr == 0),
    {
        self.addr == 0
    }
}

/// The kind of thing that a traced reference leads to.
#[derive(Clone, Copy, PartialEq, Eq, Structural, Debug)]
pub enum TraceKind {
    Object,
    BigInt,
    String,
    Symbol,
}

/// The category of a stack root. The collector keeps one list of stack roots
/// per category.
#[derive(Clone, Copy, PartialEq, Eq, Structural, Debug)]
pub enum RootKind {
    Object,
    BigInt,
    Symbol,
    String,
    Script,
    Id,
    Value,
    Traceable,
}

/// The number of categories of stack roots.
pub const ROOT_KIND_LIMIT: usize = 8;

impl RootKind {
    /// The place of the category's list among the lists of a context.
    pub open spec fn spec_index(self) -> int {
        match self {
            RootKind::Object => 0,
            RootKind::BigInt => 1,
            RootKind::Symbol => 2,
            RootKind::String => 3,
            RootKind::Script => 4,
            RootKind::Id => 5,
            RootKind::Value => 6,
            RootKind::Traceable => 7,
        }
    }

    pub fn index(self) -> (i: usize)
        ensures
            i == self.spec_index(),
            i < ROOT_KIND_LIMIT,
    {
        match self {
            RootKind::Object => 0,
            RootKind::BigInt => 1,
            RootKind::Symbol => 2,
            RootKind::String => 3,
            RootKind::Script => 4,
            RootKind::Id => 5,
            RootKind::Value => 6,
            RootKind::Traceable => 7,
        }
    }
}

/// One step in the life of the stack roots of a context: a slot is linked
/// into the list of its category, or the slot at the head of a list leaves
/// it.
pub enum RootEvent {
    Linked { kind: RootKind, address: u64 },
    Unlinked { kind: RootKind, address: u64 },
}

/// The stack roots of a context as the collector reads them: for each
/// category the addresses of the linked slots, the most recent first, and
/// for each linked slot the two links that it holds.
pub struct RootStacks {
    pub lists: Seq<Seq<u64>>,
    pub nodes: Map<u64, RootedBase>,
}

impl RootStacks {
    /// The stack roots of a context in which no slot is linked.
    pub open spec fn empty() -> RootStacks {
        RootStacks {
            lists: Seq::new(ROOT_KIND_LIMIT as nat, |i: int| Seq::<u64>::empty()),
            nodes: Map::empty(),
        }
    }

    /// The list of a category, read from its head to its tail.
    pub open spec fn list(self, kind: RootKind) -> Seq<u64> {
        self.lists[kind.spec_index()]
    }

    /// The address that the head of a list holds: that of the most recent
    /// slot, or zero where the list is empty.
    pub open spec fn head(self, kind: RootKind) -> u64 {
        if self.list(kind).len() == 0 {
            0
        } else {
            self.list(kind)[0]
        }
    }

    pub open spec fn is_linked(self, address: u64) -> bool {
        self.nodes.contains_key(address)
    }

    /// The slot at place `i` of the list of `kind` is linked as the list
    /// says: it names the list's head as its stack and the next slot of the
    /// list, or null at the tail, as its predecessor.
    pub open spec fn node_in_place(self, kind: RootKind, i: int) -> bool {
        let list = self.list(kind);
        let address = list[i];
        &&& address != 0
        &&& self.nodes.contains_key(address)
        &&& self.nodes[address].stack == Some(kind)
        &&& self.nodes[address].prev == (if i + 1 < list.len() {
            list[i + 1]
        } else {
            0
        })
    }

    /// What the collector reads when it starts at the slot at `address` and
    /// goes from each slot to its predecessor, for `steps` slots at most:
    /// the addresses of the slots that it passes before it comes to null.
    pub open spec fn follow(self, address: u64, steps: nat) -> Seq<u64>
        decreases steps,
    {
        if steps == 0 || address == 0 {
            Seq::empty()
        } else {
            seq![address] + self.follow(self.nodes[address].prev, (steps - 1) as nat)
        }
    }

    /// Each list is a chain from its head through the predecessor links to
    /// null, no slot stands twice in a list, and the linked slots are
    /// those of the lists.
    pub open spec fn wf(self) -> bool {
        &&& self.lists.len() == ROOT_KIND_LIMIT
        &&& forall|kind: RootKind, i: int|
            0 <= i < self.list(kind).len() ==> #[trigger] self.node_in_place(kind, i)
        &&& forall|kind: RootKind, i: int, j: int|
            0 <= i < j < self.list(kind).len() ==> #[trigger] self.list(kind)[i]
                != #[trigger] self.list(kind)[j]
        &&& forall|address: u64| #[trigger]
            self.nodes.contains_key(address) ==> self.nodes[address].stack is Some
                && self.list(self.nodes[address].stack->0).contains(address)
    }

    /// The stack roots after the slot at `address` is linked into the list
    /// of `kind`: it is the new head, and its predecessor is the old one.
    pub open spec fn link(self, kind: RootKind, address: u64) -> RootStacks {
        RootStacks {
            lists: self.lists.update(kind.spec_index(), seq![address] + self.list(kind)),
            nodes: self.nodes.insert(
                address,
                RootedBase { stack: Some(kind), prev: self.head(kind) },
            ),
        }
    }

    /// The stack roots after the head of the list of `kind` has left it:
    /// the head's predecessor is the new head.
    pub open spec fn unlink(self, kind: RootKind) -> RootStacks {
        RootStacks {
            lists: self.lists.update(kind.spec_index(), self.list(kind).drop_first()),
            nodes: self.nodes.remove(self.head(kind)),
        }
    }

    /// Whether the discipline of the stack roots allows a step: a slot
    /// that is linked is at an address other than null and not linked yet,
    /// and a slot that leaves is the head of its list.
    pub open spec fn permits(self, event: RootEvent) -> bool {
        match event {
            RootEvent::Linked { kind, address } => address != 0 && !self.is_linked(address),
            RootEvent::Unlinked { kind, address } => address != 0 && self.head(kind) == address,
        }
    }

    pub open spec fn step(self, event: RootEvent) -> RootStacks {
        match event {
            RootEvent::Linked { kind, address } => self.link(kind, address),
            RootEvent::Unlinked { kind, address } => self.unlink(kind),
        }
    }

    /// The stack roots of a context that has gone through `events`, from
    /// the state in which no slot is linked.
    pub open spec fn after(events: Seq<RootEvent>) -> RootStacks
        decreases events.len(),
    {
        if events.len() == 0 {
            RootStacks::empty()
        } else {
            RootStacks::after(events.drop_last()).step(events.last())
        }
    }

    /// Each of `events` is allowed in the state that the events before it
    /// lead to.
    pub open spec fn well_nested(events: Seq<RootEvent>) -> bool
        decreases events.len(),
    {
        events.len() > 0 ==> RootStacks::well_nested(events.drop_last()) && RootStacks::after(
            events.drop_last(),
        ).permits(events.last())
    }

    pub proof fn lemma_empty_wf()
        ensures
            RootStacks::empty().wf(),
            forall|kind: RootKind| #[trigger] RootStacks::empty().list(kind) == Seq::<u64>::empty(),
    {
    }

    /// The change that linking a slot makes, list by list and slot by slot.
    pub proof fn lemma_link(self, kind: RootKind, address: u64)
        requires
            self.wf(),
            address != 0,
            !self.is_linked(address),
        ensures
            self.link(kind, address).wf(),
            self.link(kind, address).list(kind) == seq![address] + self.list(kind),
            self.link(kind, address).head(kind) == address,
            forall|other: RootKind|
                other != kind ==> #[trigger] self.link(kind, address).list(other) == self.list(
                    other,
                ),
            !self.list(kind).contains(address),
    {
        let after = self.link(kind, address);
        let old_list = self.list(kind);
        let new_list = seq![address] + old_list;
        assert(after.list(kind) == new_list);
        assert forall|other: RootKind| other != kind implies #[trigger] after.list(other)
            == self.list(other) by {}
        assert(!old_list.contains(address)) by {
            if old_list.contains(address) {
                let i = choose|i: int| 0 <= i < old_list.len() && old_list[i] == address;
                assert(self.node_in_place(kind, i));
            }
        }
        assert forall|k: RootKind, i: int| 0 <= i < after.list(k).len() implies #[trigger]
            after.node_in_place(k, i) by {
            if k == kind {
                if i > 0 {
                    assert(self.node_in_place(kind, i - 1));
                    assert(new_list[i] == old_list[i - 1]);
                } else if old_list.len() > 0 {
                    assert(self.node_in_place(kind, 0));
                    assert(new_list[1] == old_list[0]);
                }
            } else {
                assert(self.node_in_place(k, i));
            }
        }
        assert forall|k: RootKind, i: int, j: int|
            0 <= i < j < after.list(k).len() implies #[trigger] after.list(k)[i]
            != #[trigger] after.list(k)[j] by {
            if k == kind {
                if i > 0 {
                    assert(new_list[i] == old_list[i - 1]);
                    assert(new_list[j] == old_list[j - 1]);
                } else {
                    assert(new_list[j] == old_list[j - 1]);
                    assert(self.node_in_place(kind, j - 1));
                }
            }
        }
        assert forall|a: u64| #[trigger] after.nodes.contains_key(a) implies after.nodes[a].stack
            is Some && after.list(after.nodes[a].stack->0).contains(a) by {
            if a == address {
                assert(new_list[0] == address);
            } else {
                let k = self.nodes[a].stack->0;
                let i = choose|i: int| 0 <= i < self.list(k).len() && self.list(k)[i] == a;
                if k == kind {
                    assert(new_list[i + 1] == a);
                } else {
                    assert(after.list(k)[i] == a);
                }
            }
        }
    }

    /// The change that the leaving of a head makes, list by list and slot
    /// by slot.
    pub proof fn lemma_unlink(self, kind: RootKind)
        requires
            self.wf(),
            self.head(kind) != 0,
        ensures
            self.unlink(kind).wf(),
            self.list(kind).len() > 0,
            self.list(kind)[0] == self.head(kind),
            self.is_linked(self.head(kind)),
            self.unlink(kind).list(kind) == self.list(kind).drop_first(),
            self.unlink(kind).head(kind) == self.nodes[self.head(kind)].prev,
            !self.unlink(kind).is_linked(self.head(kind)),
            forall|other: RootKind|
                other != kind ==> #[trigger] self.unlink(kind).list(other) == self.list(other),
    {
        let after = self.unlink(kind);
        let old_list = self.list(kind);
        let new_list = old_list.drop_first();
        let address = self.head(kind);
        assert(self.node_in_place(kind, 0));
        assert(after.list(kind) == new_list);
        assert forall|other: RootKind| other != kind implies #[trigger] after.list(other)
            == self.list(other) by {}
        assert forall|k: RootKind, i: int| 0 <= i < after.list(k).len() implies #[trigger]
            after.node_in_place(k, i) by {
            if k == kind {
                assert(self.node_in_place(kind, i + 1));
                assert(new_list[i] == old_list[i + 1]);
                assert(old_list[0] != old_list[i + 1]);
            } else {
                assert(self.node_in_place(k, i));
            }
        }
        assert forall|k: RootKind, i: int, j: int|
            0 <= i < j < after.list(k).len() implies #[trigger] after.list(k)[i]
            != #[trigger] after.list(k)[j] by {
            if k == kind {
                assert(new_list[i] == old_list[i + 1]);
                assert(new_list[j] == old_list[j + 1]);
            }
        }
        assert forall|a: u64| #[trigger] after.nodes.contains_key(a) implies after.nodes[a].stack
            is Some && after.list(after.nodes[a].stack->0).contains(a) by {
            let k = self.nodes[a].stack->0;
            let i = choose|i: int| 0 <= i < self.list(k).len() && self.list(k)[i] == a;
            if k == kind {
                assert(i > 0);
                assert(new_list[i - 1] == a);
            } else {
                assert(after.list(k)[i] == a);
            }
        }
    }

    /// Following the links from the slot at place `i` of a list reads the
    /// rest of the list and then comes to null.
    pub proof fn lemma_follow_from(self, kind: RootKind, i: int, steps: nat)
        requires
            self.wf(),
            0 <= i <= self.list(kind).len(),
            steps >= self.list(kind).len() - i,
        ensures
            self.follow(
                if i < self.list(kind).len() {
                    self.list(kind)[i]
                } else {
                    0
                },
                steps,
            ) == self.list(kind).subrange(i, self.list(kind).len() as int),
        decreases self.list(kind).len() - i,
    {
        let list = self.list(kind);
        if i < list.len() {
            assert(self.node_in_place(kind, i));
            self.lemma_follow_from(kind, i + 1, (steps - 1) as nat);
            assert(seq![list[i]] + list.subrange(i + 1, list.len() as int) == list.subrange(
                i,
                list.len() as int,
            ));
        } else {
            assert(list.subrange(i, list.len() as int) == Seq::<u64>::empty());
        }
    }

    /// What the collector reads when it follows the links from the head of
    /// a list is the list, and the reading comes to an end.
    pub proof fn lemma_follow_reads_list(self, kind: RootKind, steps: nat)
        requires
            self.wf(),
            steps >= self.list(kind).len(),
        ensures
            self.follow(self.head(kind), steps) == self.list(kind),
    {
        self.lemma_follow_from(kind, 0, steps);
        assert(self.list(kind).subrange(0, self.list(kind).len() as int) == self.list(kind));
    }

    /// A list read from its head is the chain of the predecessor links:
    /// it starts at the slot that the head names and goes from each slot to
    /// the one that the slot names, down to the slot that names null.
    pub proof fn lemma_list_is_chain(self, kind: RootKind, i: int)
        requires
            self.wf(),
            0 <= i < self.list(kind).len(),
        ensures
            self.list(kind)[0] == self.head(kind),
            self.list(kind)[i] != 0,
            self.is_linked(self.list(kind)[i]),
            self.nodes[self.list(kind)[i]].stack == Some(kind),
            i + 1 < self.list(kind).len() ==> self.nodes[self.list(kind)[i]].prev == self.list(
                kind,
            )[i + 1],
            i + 1 == self.list(kind).len() ==> self.nodes[self.list(kind)[i]].prev == 0,
    {
        assert(self.node_in_place(kind, i));
    }
}

/// `s` without the entries that are `x`, in the order of `s`.
pub open spec fn without(s: Seq<u64>, x: u64) -> Seq<u64>
    decreases s.len(),
{
    if s.len() == 0 {
        s
    } else if s.last() == x {
        without(s.drop_last(), x)
    } else {
        without(s.drop_last(), x).push(s.last())
    }
}

/// The slots of `kind` that `events` have linked and that have not left
/// since, in the order in which they were linked.
pub open spec fn alive_after(events: Seq<RootEvent>, kind: RootKind) -> Seq<u64>
    decreases events.len(),
{
    if events.len() == 0 {
        Seq::empty()
    } else {
        let before = alive_after(events.drop_last(), kind);
        match events.last() {
            RootEvent::Linked { kind: k, address } => if k == kind {
                before.push(address)
            } else {
                before
            },
            RootEvent::Unlinked { kind: k, address } => if k == kind {
                without(before, address)
            } else {
                before
            },
        }
    }
}

proof fn lemma_without_absent(s: Seq<u64>, x: u64)
    requires
        !s.contains(x),
    ensures
        without(s, x) == s,
    decreases s.len(),
{
    if s.len() > 0 {
        assert(s.last() == s[s.len() - 1]);
        assert forall|i: int| 0 <= i < s.drop_last().len() implies s.drop_last()[i] != x by {
            assert(s[i] == s.drop_last()[i]);
        }
        lemma_without_absent(s.drop_last(), x);
        assert(s.drop_last().push(s.last()) == s);
    }
}

proof fn lemma_without_last(s: Seq<u64>, x: u64)
    requires
        s.len() > 0,
        s.last() == x,
        forall|i: int, j: int| 0 <= i < j < s.len() ==> s[i] != s[j],
    ensures
        without(s, x) == s.drop_last(),
{
    assert forall|i: int| 0 <= i < s.drop_last().len() implies s.drop_last()[i] != x by {
        assert(s[i] != s[s.len() - 1]);
    }
    lemma_without_absent(s.drop_last(), x);
}

/// The discipline of the stack roots keeps every list a chain.
pub proof fn lemma_well_nested_wf(events: Seq<RootEvent>)
    requires
        RootStacks::well_nested(events),
    ensures
        RootStacks::after(events).wf(),
    decreases events.len(),
{
    if events.len() == 0 {
        RootStacks::lemma_empty_wf();
    } else {
        lemma_well_nested_wf(events.drop_last());
        let before = RootStacks::after(events.drop_last());
        match events.last() {
            RootEvent::Linked { kind, address } => {
                before.lemma_link(kind, address);
            },
            RootEvent::Unlinked { kind, address } => {
                before.lemma_unlink(kind);
            },
        }
    }
}

/// Whatever slots are linked and leave, as long as each that leaves is the
/// head of its list: at every point what the collector reads by following
/// the links from the head of the list of a category is the slots of that
/// category that are still linked, in the reverse of the order in which
/// they were linked.
pub proof fn lemma_collector_reads_live_roots_in_reverse(
    events: Seq<RootEvent>,
    kind: RootKind,
    steps: nat,
)
    requires
        RootStacks::well_nested(events),
        steps >= alive_after(events, kind).len(),
    ensures
        RootStacks::after(events).follow(RootStacks::after(events).head(kind), steps)
            == alive_after(events, kind).reverse(),
{
    lemma_root_list_reverses_linking_order(events, kind);
    lemma_well_nested_wf(events);
    RootStacks::after(events).lemma_follow_reads_list(kind, steps);
}

/// Whatever slots are linked and leave, as long as each that leaves is the
/// head of its list: at every point the list of a category, from its head
/// to its tail, is the slots of that category that are still linked, in
/// the reverse of the order in which they were linked.
pub proof fn lemma_root_list_reverses_linking_order(events: Seq<RootEvent>, kind: RootKind)
    requires
        RootStacks::well_nested(events),
    ensures
        RootStacks::after(events).list(kind) == alive_after(events, kind).reverse(),
    decreases events.len(),
{
    if events.len() == 0 {
        RootStacks::lemma_empty_wf();
        assert(alive_after(events, kind).reverse() == Seq::<u64>::empty());
    } else {
        let earlier = events.drop_last();
        lemma_root_list_reverses_linking_order(earlier, kind);
        lemma_well_nested_wf(earlier);
        let before = RootStacks::after(earlier);
        let alive = alive_after(earlier, kind);
        match events.last() {
            RootEvent::Linked { kind: k, address } => {
                before.lemma_link(k, address);
                if k == kind {
                    assert(alive.push(address).reverse() == seq![address] + alive.reverse());
                }
            },
            RootEvent::Unlinked { kind: k, address } => {
                before.lemma_unlink(k);
                if k == kind {
                    let list = before.list(kind);
                    assert(alive.len() == list.len());
                    assert(alive.last() == list[0]);
                    assert forall|i: int, j: int| 0 <= i < j < alive.len() implies alive[i]
                        != alive[j] by {
                        assert(list[alive.len() - 1 - j] != list[alive.len() - 1 - i]);
                    }
                    lemma_without_last(alive, address);
                    assert(alive.drop_last().reverse() == list.drop_first());
                }
            },
        }
    }
}

/// The part of an engine context that the rooting layer works on: the heads
/// of the lists of stack roots, and the realm that the context is in.
///
/// The links of the slots themselves lie in the slots. What the collector
/// would read by following them is the view of the context.
pub struct RootingContext {
    stackRoots_: Vec<u64>,
    autoGCRooters_: Vec<u64>,
    realm_: u64,
    stacks: Ghost<RootStacks>,
}

impl View for RootingContext {
    type V = RootStacks;

    closed spec fn view(&self) -> RootStacks {
        self.stacks@
    }
}

impl RootingContext {
    /// The heads of the lists name the first slot of each list, and the
    /// lists are chains.
    pub closed spec fn wf(&self) -> bool {
        &&& self@.wf()
        &&& self.stackRoots_@.len() == ROOT_KIND_LIMIT
        &&& self.autoGCRooters_@.len() == AUTO_GC_ROOTER_KIND_LIMIT
        &&& forall|kind: RootKind| #[trigger]
            self.stackRoots_@[kind.spec_index()] == self@.head(kind)
    }

    /// The address that the head of the list of the self-tracing roots of
    /// `kind` holds: that of the most recent of them, or zero.
    pub closed spec fn rooter_head(&self, kind: AutoGCRooterKind) -> u64 {
        self.autoGCRooters_@[kind.spec_index()]
    }

    /// The realm that the context is in, by its address, or zero where it
    /// is in none.
    pub closed spec fn spec_realm(&self) -> u64 {
        self.realm_
    }

    /// A context with no stack roots, in no realm.
    pub fn new() -> (cx: RootingContext)
        ensures
            cx.wf(),
            cx@ == RootStacks::empty(),
            cx.spec_realm() == 0,
            forall|kind: AutoGCRooterKind| cx.rooter_head(kind) == 0,
    {
        let mut heads: Vec<u64> = Vec::new();
        let mut i: usize = 0;
        while i < ROOT_KIND_LIMIT
            invariant
                i <= ROOT_KIND_LIMIT,
                heads@.len() == i,
                forall|j: int| 0 <= j < i ==> heads@[j] == 0,
            decreases ROOT_KIND_LIMIT - i,
        {
            heads.push(0);
            i = i + 1;
        }
        let mut rooters: Vec<u64> = Vec::new();
        let mut i: usize = 0;
        while i < AUTO_GC_ROOTER_KIND_LIMIT
            invariant
                i <= AUTO_GC_ROOTER_KIND_LIMIT,
                rooters@.len() == i,
                forall|j: int| 0 <= j < i ==> rooters@[j] == 0,
            decreases AUTO_GC_ROOTER_KIND_LIMIT - i,
        {
            rooters.push(0);
            i = i + 1;
        }
        proof {
            RootStacks::lemma_empty_wf();
        }
        RootingContext {
            stackRoots_: heads,
            autoGCRooters_: rooters,
            realm_: 0,
            stacks: Ghost(RootStacks::empty()),
        }
    }

    /// The address that the head of the list of the self-tracing roots of
    /// `kind` holds.
    pub fn rooter_top(&self, kind: AutoGCRooterKind) -> (address: u64)
        requires
            self.wf(),
        ensures
            address == self.rooter_head(kind),
    {
        self.autoGCRooters_[kind.index()]
    }

    /// Writes `address` into the head of the list of the self-tracing
    /// roots of `kind` and gives the address that the head held.
    pub(crate) fn set_rooter_head(&mut self, kind: AutoGCRooterKind, address: u64) -> (previous:
        u64)
        requires
            old(self).wf(),
        ensures
            final(self).wf(),
            previous == old(self).rooter_head(kind),
            final(self).rooter_head(kind) == address,
            forall|other: AutoGCRooterKind|
                other != kind ==> final(self).rooter_head(other) == old(self).rooter_head(other),
            final(self)@ == old(self)@,
            final(self).spec_realm() == old(self).spec_realm(),
    {
        let previous = self.autoGCRooters_[kind.index()];
        self.autoGCRooters_.set(kind.index(), address);
        proof {
            assert forall|other: AutoGCRooterKind| other != kind implies self.rooter_head(other)
                == old(self).rooter_head(other) by {
                assert(other.spec_index() != kind.spec_index());
            }
        }
        previous
    }

    /// The address that the head of the list of `kind` holds.
    pub fn stack_top(&self, kind: RootKind) -> (address: u64)
        requires
            self.wf(),
        ensures
            address == self@.head(kind),
    {
        self.stackRoots_[kind.index()]
    }

    #[verifier::when_used_as_spec(spec_realm)]
    pub fn realm(&self) -> (realm: u64)
        ensures
            realm == self.spec_realm(),
    {
        self.realm_
    }

    /// Puts the context into `realm` and gives the realm that it was in.
    pub fn enter_realm(&mut self, realm: u64) -> (previous: u64)
        ensures
            previous == old(self).spec_realm(),
            final(self).spec_realm() == realm,
            final(self)@ == old(self)@,
            old(self).wf() ==> final(self).wf(),
            forall|r: AutoGCRooterKind| final(self).rooter_head(r) == old(self).rooter_head(r),
    {
        let previous = self.realm_;
        self.realm_ = realm;
        previous
    }

    /// Writes `address` into the head of the list of `kind` and gives the
    /// address that the head held.
    pub(crate) fn link_head(&mut self, kind: RootKind, address: u64) -> (previous: u64)
        requires
            old(self).wf(),
            address != 0,
            !old(self)@.is_linked(address),
        ensures
            final(self).wf(),
            previous == old(self)@.head(kind),
            final(self)@ == old(self)@.link(kind, address),
            final(self).spec_realm() == old(self).spec_realm(),
            forall|r: AutoGCRooterKind| final(self).rooter_head(r) == old(self).rooter_head(r),
    {
        let previous = self.stackRoots_[kind.index()];
        self.stackRoots_.set(kind.index(), address);
        proof {
            let before = self.stacks@;
            before.lemma_link(kind, address);
            self.stacks@ = before.link(kind, address);
            assert forall|k: RootKind| #[trigger]
                self.stackRoots_@[k.spec_index()] == before.link(kind, address).head(k) by {
                if k != kind {
                    assert(k.spec_index() != kind.spec_index());
                }
            }
        }
        previous
    }

    /// Writes `previous`, the predecessor of the slot at the head of the
    /// list of `kind`, into that head.
    pub(crate) fn unlink_head(&mut self, kind: RootKind, previous: u64)
        requires
            old(self).wf(),
            old(self)@.head(kind) != 0,
            previous == old(self)@.nodes[old(self)@.head(kind)].prev,
        ensures
            final(self).wf(),
            final(self)@ == old(self)@.unlink(kind),
            final(self).spec_realm() == old(self).spec_realm(),
            forall|r: AutoGCRooterKind| final(self).rooter_head(r) == old(self).rooter_head(r),
    {
        self.stackRoots_.set(kind.index(), previous);
        proof {
            let before = self.stacks@;
            before.lemma_unlink(kind);
            self.stacks@ = before.unlink(kind);
            assert forall|k: RootKind| #[trigger]
                self.stackRoots_@[k.spec_index()] == before.unlink(kind).head(k) by {
                if k != kind {
                    assert(k.spec_index() != kind.spec_index());
                } else {
                    assert(before.node_in_place(kind, 0));
                    if before.list(kind).len() > 1 {
                        assert(before.unlink(kind).list(kind)[0] == before.list(kind)[1]);
                    }
                }
            }
        }
    }
}

/// A property key: one tagged word. Its three lowest bits say what the rest
/// of the word holds.
#[derive(Clone, Copy, PartialEq, Eq, Structural, Debug)]
pub struct PropertyKey {
    pub asBits_: u64,
}

pub type jsid = PropertyKey;

/// The bits of a property key that hold its type.
pub const JSID_TYPE_MASK: u64 = 0x7;

/// The type bits of a key that holds a string.
pub const JSID_TYPE_STRING: u64 = 0x0;

/// The type bits of the key that stands for no property.
pub const JSID_TYPE_VOID: u64 = 0x2;

/// The type bits of a key that holds a symbol.
pub const JSID_TYPE_SYMBOL: u64 = 0x4;

/// The key that stands for no property.
pub fn VoidId() -> (id: jsid)
    ensures
        id.asBits_ == JSID_TYPE_VOID,
{
    PropertyKey { asBits_: JSID_TYPE_VOID }
}

impl Default for PropertyKey {
    fn default() -> (id: PropertyKey)
        ensures
            id.asBits_ == JSID_TYPE_VOID,
    {
        VoidId()
    }
}

/// The description of a property: its attribute bits, the accessor objects
/// and the value.
#[derive(Clone, Copy, PartialEq, Eq, Structural, Debug)]
pub struct PropertyDescriptor {
    pub _bitfield_1: u16,
    pub getter_: ObjectPtr,
    pub setter_: ObjectPtr,
    pub value_: JSVal,
}

impl PropertyDescriptor {
    /// The descriptor with no attribute set, no accessor and the value
    /// undefined.
    pub open spec fn spec_default() -> PropertyDescriptor {
        PropertyDescriptor {
            _bitfield_1: 0,
            getter_: ObjectPtr { addr: 0 },
            setter_: ObjectPtr { addr: 0 },
            value_: JSVal { asBits_: JSVAL_SHIFTED_TAG_UNDEFINED },
        }
    }
}

impl Default for PropertyDescriptor {
    fn default() -> (d: PropertyDescriptor)
        ensures
            d == PropertyDescriptor::spec_default(),
    {
        PropertyDescriptor {
            _bitfield_1: 0,
            getter_: ObjectPtr::null(),
            setter_: ObjectPtr::null(),
            value_: JSVal { asBits_: JSVAL_SHIFTED_TAG_UNDEFINED },
        }
    }
}

/// The entry point of the engine's tracer that a reference is reported
/// through.
#[derive(Clone, Copy, PartialEq, Eq, Structural, Debug)]
pub enum TracerEntry {
    Function,
    Object,
    Symbol,
    BigInt,
    Script,
    String,
    /// A value in a heap cell.
    Value,
    /// A value that is traced where it lies.
    ValueRoot,
    Id,
    PropertyDescriptor,
    /// A registered owner of references, to be traced by whoever holds it.
    Traceable,
}

/// One report to the tracer: the entry point, the address of the cell that
/// holds the reference (zero where the reference is traced where it lies),
/// and the word that the cell held when it was reported.
#[derive(Clone, Copy, PartialEq, Eq, Structural, Debug)]
pub struct TraceEdge {
    pub entry: TracerEntry,
    pub location: u64,
    pub thing: u64,
}

/// The visitor of a tracing pass. It keeps the reports it was given, in the
/// order in which they came.
pub struct JSTracer {
    edges: Vec<TraceEdge>,
}

impl View for JSTracer {
    type V = Seq<TraceEdge>;

    closed spec fn view(&self) -> Seq<TraceEdge> {
        self.edges@
    }
}

impl JSTracer {
    /// A visitor that has been given no report.
    pub fn new() -> (trc: JSTracer)
        ensures
            trc@ == Seq::<TraceEdge>::empty(),
    {
        JSTracer { edges: Vec::new() }
    }

    /// Takes one report.
    pub fn visit(&mut self, edge: TraceEdge)
        ensures
            final(self)@ == old(self)@.push(edge),
    {
        self.edges.push(edge);
    }

    /// The number of reports taken.
    pub fn len(&self) -> (n: usize)
        ensures
            n == self@.len(),
    {
        self.edges.len()
    }

    /// The reports taken, in the order in which they came.
    pub fn edges(&self) -> (edges: &Vec<TraceEdge>)
        ensures
            edges@ == self@,
    {
        &self.edges
    }
}

/// The address of a marked location that holds a `T`, as the engine's entry
/// points take it.
pub struct Handle<T> {
    pub ptr: u64,
    pub _phantom_0: PhantomData<T>,
}

/// The address of a marked location that holds a `T` and may be written to,
/// as the engine's entry points take it.
pub struct MutableHandle<T> {
    pub ptr: u64,
    pub _phantom_0: PhantomData<T>,
}

impl<T> Handle<T> {
    pub fn from_marked_location(ptr: u64) -> (h: Handle<T>)
        ensures
            h.ptr == ptr,
    {
        Handle { ptr, _phantom_0: PhantomData }
    }
}

impl<T> MutableHandle<T> {
    pub fn from_marked_location(ptr: u64) -> (h: MutableHandle<T>)
        ensures
            h.ptr == ptr,
    {
        MutableHandle { ptr, _phantom_0: PhantomData }
    }

    pub fn handle(&self) -> (h: Handle<T>)
        ensures
            h.ptr == self.ptr,
    {
        Handle::from_marked_location(self.ptr)
    }
}

/// The numbers of the engine's error messages that the results of object
/// operations name.
#[derive(Clone, Copy, PartialEq, Eq, Structural, Debug)]
pub enum JSErrNum {
    /// The number zero, which stands for no error.
    JSMSG_NOT_AN_ERROR,
    JSMSG_CANT_REDEFINE_PROP,
    JSMSG_READ_ONLY,
    JSMSG_GETTER_ONLY,
    JSMSG_CANT_DELETE,
    JSMSG_CANT_SET_INTERPOSED,
    JSMSG_CANT_DEFINE_WINDOW_ELEMENT,
    JSMSG_CANT_DELETE_WINDOW_ELEMENT,
    JSMSG_CANT_DEFINE_WINDOW_NAMED_PROPERTY,
    JSMSG_CANT_DELETE_WINDOW_NAMED_PROPERTY,
    JSMSG_CANT_DEFINE_WINDOW_NC,
    JSMSG_CANT_PREVENT_EXTENSIONS,
    JSMSG_CANT_SET_PROTO,
    JSMSG_NO_NAMED_SETTER,
    JSMSG_NO_INDEXED_SETTER,
    JSMSG_NOT_DATA_DESCRIPTOR,
    JSMSG_INVALID_DESCRIPTOR,
    JSMSG_BAD_ARRAY_LENGTH,
    JSMSG_BAD_INDEX,
}

/// The outcome of an operation on an object: not yet known, success, or
/// the error that the operation failed with.
///
/// `code_` is `None` while the outcome is not known. Success is the error
/// number that stands for no error.
#[derive(Clone, Copy, PartialEq, Eq, Structural, Debug)]
pub struct ObjectOpResult {
    pub code_: Option<JSErrNum>,
}

/// The element types of typed arrays.
#[derive(Clone, Copy, PartialEq, Eq, Structural, Debug)]
pub enum Type {
    Int8,
    Uint8,
    Int16,
    Uint16,
    Int32,
    Uint32,
    Float32,
    Float64,
    Uint8Clamped,
    BigInt64,
    BigUint64,
    Float16,
    MaxTypedArrayViewType,
    Int64,
    Simd128,
}

/// A run of rooted values, as the engine's entry points take the arguments
/// of a call.
pub struct HandleValueArray<'a> {
    pub elements_: &'a [JSVal],
}

/// The categories of the roots that trace themselves.
#[derive(Clone, Copy, PartialEq, Eq, Structural, Debug)]
pub enum AutoGCRooterKind {
    Array,
    ValueArray,
    Parser,
    WrapperVector,
    Wrapper,
    Custom,
}

/// The number of categories of roots that trace themselves.
pub const AUTO_GC_ROOTER_KIND_LIMIT: usize = 6;

impl AutoGCRooterKind {
    /// The place of the category's list among the lists of a context.
    pub open spec fn spec_index(self) -> int {
        match self {
            AutoGCRooterKind::Array => 0,
            AutoGCRooterKind::ValueArray => 1,
            AutoGCRooterKind::Parser => 2,
            AutoGCRooterKind::WrapperVector => 3,
            AutoGCRooterKind::Wrapper => 4,
            AutoGCRooterKind::Custom => 5,
        }
    }

    pub fn index(self) -> (i: usize)
        ensures
            i == self.spec_index(),
            i < AUTO_GC_ROOTER_KIND_LIMIT,
    {
        match self {
            AutoGCRooterKind::Array => 0,
            AutoGCRooterKind::ValueArray => 1,
            AutoGCRooterKind::Parser => 2,
            AutoGCRooterKind::WrapperVector => 3,
            AutoGCRooterKind::Wrapper => 4,
            AutoGCRooterKind::Custom => 5,
        }
    }
}

/// The links of a root that traces itself: the list that it is in, and the
/// root that was the head of that list when this one was linked.
#[derive(Clone, Copy, PartialEq, Eq, Structural, Debug)]
pub struct AutoGCRooter {
    /// The address of the root that was linked before this one, or zero.
    pub down: u64,
    pub kind_: AutoGCRooterKind,
    /// Whether the root is linked under the list head of its category.
    pub stackTop: bool,
}

/// A native function of the embedding with the description that the
/// engine's compiler uses, both by their addresses.
#[derive(Clone, Copy, PartialEq, Eq, Structural, Debug)]
pub struct JSNativeWrapper {
    pub op: Option<u64>,
    pub info: u64,
}

/// How the accessors or the value of a property are given.
#[derive(Clone, Copy, PartialEq, Eq, Structural, Debug)]
pub enum JSPropertySpec_Kind {
    Value,
    SelfHostedAccessor,
    NativeAccessor,
}

/// The name of a property: the address of its characters, or zero.
#[derive(Clone, Copy, PartialEq, Eq, Structural, Debug)]
pub struct JSPropertySpec_Name {
    pub string_: u64,
}

/// The getter and the setter of a property.
#[derive(Clone, Copy, PartialEq, Eq, Structural, Debug)]
pub struct JSPropertySpec_AccessorsOrValue_Accessors {
    pub getter: JSNativeWrapper,
    pub setter: JSNativeWrapper,
}

/// One entry of a table of properties. The table ends with an entry that
/// is all zero.
#[derive(Clone, Copy, PartialEq, Eq, Structural, Debug)]
pub struct JSPropertySpec {
    pub name: JSPropertySpec_Name,
    pub attributes_: u8,
    pub kind_: JSPropertySpec_Kind,
    pub accessors: JSPropertySpec_AccessorsOrValue_Accessors,
}

/// One entry of a table of functions. The table ends with an entry that is
/// all zero.
#[derive(Clone, Copy, PartialEq, Eq, Structural, Debug)]
pub struct JSFunctionSpec {
    pub name: JSPropertySpec_Name,
    pub call: JSNativeWrapper,
    pub nargs: u16,
    pub flags: u16,
    pub selfHostedName: u64,
}

/// The arguments of a call of a native function: the words that the engine
/// put on its stack, from the slot of the callee on, and where they lie.
///
/// The callee's slot, which takes the result, comes first, then the slot
/// of `this`, then the arguments, and after them the slot of `new.target`
/// where the call constructs.
pub struct CallArgs<'a> {
    pub constructing_: bool,
    pub argc_: u32,
    /// The address of the first argument.
    pub argv_: u64,
    /// The words, from the callee's slot on.
    pub vp_: &'a [JSVal],
}

/// The arguments of a call of a method out of compiled code, by the
/// address of the first.
#[derive(Clone, Copy, PartialEq, Eq, Structural, Debug)]
pub struct JSJitMethodCallArgs {
    pub argc_: u32,
    pub argv_: u64,
}

/// The argument of a call of a getter out of compiled code: the place for
/// the result.
pub struct JSJitGetterCallArgs {
    pub _base: MutableHandle<JSVal>,
}

/// The argument of a call of a setter out of compiled code: the place of
/// the value to set.
pub struct JSJitSetterCallArgs {
    pub _base: MutableHandle<JSVal>,
}

/// The bounds of a run of `T` in memory, by their addresses.
pub struct Range<T> {
    pub mStart: u64,
    pub mEnd: u64,
    pub _phantom_0: PhantomData<T>,
}

/// What is kept of the entering of a realm: the context that entered, by
/// its address, and the realm that it was in before.
#[derive(Clone, Copy, PartialEq, Eq, Structural, Debug)]
pub struct JSAutoRealm {
    pub cx_: u64,
    pub oldRealm_: u64,
}

} // verus!
