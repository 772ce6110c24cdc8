//! The naive record: a payload and a self reference captured at
//! construction, with nothing that keeps the record's bytes at the address
//! the reference encodes.
//!
//! A variable of this discipline stays bound to its location; relocation
//! exchanges the full contents of two locations. The payloads move to new
//! addresses, but each copied self reference still encodes the address its
//! record occupied before — after a swap of two records it names the slot
//! that now holds the *other* record's payload, and dereferencing it
//! silently yields the wrong value.

use vstd::prelude::*;
use crate::memory::Memory;
use crate::label::format_label;
use crate::label::label_of;

verus! {

/// A variable holding a naive record: it is bound to the address `addr`,
/// where the record's contents (payload and stored self reference) currently
/// sit.
pub struct Test {
    pub addr: usize,
}

impl Test {
    /// The variable names an allocated address, and the self reference
    /// stored there names one too, so that dereferencing it is possible at
    /// all. Nothing here demands that the reference points back home: that
    /// is exactly the guarantee the naive discipline lacks.
    pub open spec fn wf(self, mem: Memory) -> bool {
        &&& mem.in_bounds(self.addr as int)
        &&& mem.in_bounds(mem.self_reference_at_spec(self.addr as int))
    }

    /// The payload this variable observes.
    pub open spec fn value_spec(self, mem: Memory) -> Seq<char> {
        mem.value_at_spec(self.addr as int)
    }

    /// What dereferencing this variable's stored self reference observes.
    pub open spec fn self_reference_spec(self, mem: Memory) -> Seq<char> {
        mem.value_at_spec(mem.self_reference_at_spec(self.addr as int))
    }

    /// Build a record with payload `"Test <id>"` at a fresh address, the
    /// self reference captured immediately after the payload is placed, so
    /// the new record starts out self-consistent.
    pub fn new(mem: &mut Memory, id: i32) -> (t: Test)
        ensures
            final(mem).spec_len() == old(mem).spec_len() + 1,
            t.addr as int == old(mem).spec_len(),
            t.wf(*final(mem)),
            final(mem).consistent_at(t.addr as int),
            t.value_spec(*final(mem)) == label_of(id as int),
            t.self_reference_spec(*final(mem)) == label_of(id as int),
            forall|i: int|
                0 <= i < old(mem).spec_len() ==> final(mem).slots@[i] == old(mem).slots@[i],
    {
        let value = format_label(id);
        let addr: usize = mem.allocate(value);
        Test { addr }
    }

    /// helper getter for the payload
    pub fn a<'a>(&self, mem: &'a Memory) -> (r: &'a String)
        requires
            mem.in_bounds(self.addr as int),
        ensures
            r@ == self.value_spec(*mem),
    {
        mem.value_at(self.addr)
    }

    /// helper getter for the dereferenced self reference — whatever payload
    /// sits at the stored address now, with no check that it is this
    /// record's own.
    pub fn b<'a>(&self, mem: &'a Memory) -> (r: &'a String)
        requires
            self.wf(*mem),
        ensures
            r@ == self.self_reference_spec(*mem),
    {
        let target: usize = mem.self_reference_at(self.addr);
        mem.value_at(target)
    }

    /// Whether the variable is well formed in `mem`; lets an unverified
    /// caller establish the accessors' preconditions.
    pub fn check_wf(&self, mem: &Memory) -> (r: bool)
        ensures
            r == self.wf(*mem),
    {
        self.addr < mem.len() && mem.self_reference_at(self.addr) < mem.len()
    }
}

/// Relocate two records by exchanging the full contents of their locations,
/// byte for byte, as a swap of the two variables does. Each payload changes
/// address; each self reference is copied along unchanged and still encodes
/// the address its record lived at before the exchange — so when the two
/// records were self-consistent and sat at distinct addresses, each
/// variable's self reference now resolves to the payload it held *before*
/// the swap, while its payload is the other record's.
pub fn swap_contents(mem: &mut Memory, t1: &Test, t2: &Test)
    requires
        old(mem).in_bounds(t1.addr as int),
        old(mem).in_bounds(t2.addr as int),
    ensures
        final(mem).spec_len() == old(mem).spec_len(),
        final(mem).slots@[t1.addr as int] == old(mem).slots@[t2.addr as int],
        final(mem).slots@[t2.addr as int] == old(mem).slots@[t1.addr as int],
        forall|k: int|
            0 <= k < old(mem).spec_len() && k != t1.addr as int && k != t2.addr as int
                ==> final(mem).slots@[k] == old(mem).slots@[k],
        t1.value_spec(*final(mem)) == t2.value_spec(*old(mem)),
        t2.value_spec(*final(mem)) == t1.value_spec(*old(mem)),
        (t1.addr != t2.addr && old(mem).consistent_at(t1.addr as int)
            && old(mem).consistent_at(t2.addr as int)) ==> {
            &&& t1.self_reference_spec(*final(mem)) == t1.value_spec(*old(mem))
            &&& t2.self_reference_spec(*final(mem)) == t2.value_spec(*old(mem))
        },
    {
        mem.swap_slots(t1.addr, t2.addr);
    }

/// Law (defect): the naive discipline does not preserve self-consistency
/// under relocation. After a full-content exchange of two self-consistent
/// records at distinct addresses holding distinct payloads, each variable's
/// payload and dereferenced self reference disagree: the payload is the
/// other record's, while the stale reference resolves to the payload the
/// variable held before.
pub proof fn lemma_swap_contents_breaks_consistency(
    before: Memory,
    after: Memory,
    t1: Test,
    t2: Test,
)
    requires
        before.in_bounds(t1.addr as int),
        before.in_bounds(t2.addr as int),
        before.consistent_at(t1.addr as int),
        before.consistent_at(t2.addr as int),
        t1.addr != t2.addr,
        t1.value_spec(before) != t2.value_spec(before),
        after.spec_len() == before.spec_len(),
        after.slots@[t1.addr as int] == before.slots@[t2.addr as int],
        after.slots@[t2.addr as int] == before.slots@[t1.addr as int],
    ensures
        t1.value_spec(after) == t2.value_spec(before),
        t1.self_reference_spec(after) == t1.value_spec(before),
        t1.value_spec(after) != t1.self_reference_spec(after),
        t2.value_spec(after) == t1.value_spec(before),
        t2.self_reference_spec(after) == t2.value_spec(before),
        t2.value_spec(after) != t2.self_reference_spec(after),
{
}

/// Law: the accessors are idempotent. The observed payload and the observed
/// dereferenced self reference are functions of the record and the memory
/// alone, so any two observations without an intervening mutation agree.
pub proof fn lemma_accessors_idempotent(
    mem: Memory,
    t: Test,
    v1: Seq<char>,
    v2: Seq<char>,
    s1: Seq<char>,
    s2: Seq<char>,
)
    requires
        v1 == t.value_spec(mem),
        v2 == t.value_spec(mem),
        s1 == t.self_reference_spec(mem),
        s2 == t.self_reference_spec(mem),
    ensures
        v1 == v2,
        s1 == s2,
{
}

} // verus!
