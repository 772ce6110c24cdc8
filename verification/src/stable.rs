//! The address-stable record: the payload is pinned at its address for the
//! record's whole lifetime, and only the handle referring to it relocates.
//!
//! Construction places the record directly at its final address and computes
//! the self reference only then, so the reference is valid forever after:
//! nothing in this discipline ever moves a record's bytes. A handle is a
//! thin indirection; exchanging two handles exchanges which record each
//! variable observes and touches no slot at all.

use vstd::prelude::*;
use crate::memory::Memory;
use crate::label::format_label;
use crate::label::label_of;

verus! {

/// A handle to a pinned record: the record's contents sit at `addr` and
/// never move. The handle itself may be freely relocated.
pub struct Test {
    pub addr: usize,
}

impl Test {
    /// The handle names an allocated address whose stored self reference
    /// points back at that same address — the pinning invariant. It holds
    /// from construction on, because no operation of this discipline moves
    /// slot contents.
    pub open spec fn wf(self, mem: Memory) -> bool {
        &&& mem.in_bounds(self.addr as int)
        &&& mem.consistent_at(self.addr as int)
    }

    /// The payload of the record this handle refers to.
    pub open spec fn value_spec(self, mem: Memory) -> Seq<char> {
        mem.value_at_spec(self.addr as int)
    }

    /// What dereferencing the record's self reference observes.
    pub open spec fn self_reference_spec(self, mem: Memory) -> Seq<char> {
        mem.value_at_spec(mem.self_reference_at_spec(self.addr as int))
    }

    /// Build a record with payload `"Test <id>"` pinned at a fresh address:
    /// the payload is placed first, and the self reference is computed once
    /// the payload has reached its permanent address. Returns the handle;
    /// the record it refers to is self-consistent and stays so.
    pub fn new(mem: &mut Memory, id: i32) -> (t: Test)
        ensures
            final(mem).spec_len() == old(mem).spec_len() + 1,
            t.addr as int == old(mem).spec_len(),
            t.wf(*final(mem)),
            t.value_spec(*final(mem)) == label_of(id as int),
            t.self_reference_spec(*final(mem)) == label_of(id as int),
            forall|i: int|
                0 <= i < old(mem).spec_len() ==> final(mem).slots@[i] == old(mem).slots@[i],
    {
        let value = format_label(id);
        let addr: usize = mem.allocate(value);
        Test { addr }
    }

    /// helper getter for the payload
    pub fn a<'a>(&self, mem: &'a Memory) -> (r: &'a String)
        requires
            mem.in_bounds(self.addr as int),
        ensures
            r@ == self.value_spec(*mem),
    {
        mem.value_at(self.addr)
    }

    /// helper getter for the dereferenced self reference. Under the pinning
    /// invariant it always yields the record's own payload.
    pub fn b<'a>(&self, mem: &'a Memory) -> (r: &'a String)
        requires
            self.wf(*mem),
        ensures
            r@ == self.self_reference_spec(*mem),
            r@ == self.value_spec(*mem),
    {
        let target: usize = mem.self_reference_at(self.addr);
        mem.value_at(target)
    }

    /// Whether the handle is well formed in `mem`; lets an unverified
    /// caller establish the accessors' preconditions.
    pub fn check_wf(&self, mem: &Memory) -> (r: bool)
        ensures
            r == self.wf(*mem),
    {
        self.addr < mem.len() && mem.self_reference_at(self.addr) == self.addr
    }
}

/// Relocate the two handles: exchange which record each variable refers to.
/// No slot is touched — the function does not even receive the memory — so
/// every record's payload keeps its address and its self reference stays
/// valid.
pub fn swap_handles(t1: &mut Test, t2: &mut Test)
    ensures
        *final(t1) == *old(t2),
        *final(t2) == *old(t1),
{
    core::mem::swap(t1, t2);
}

/// Law: a well-formed stable record is self-consistent — its dereferenced
/// self reference equals its own payload — at every observation point.
pub proof fn lemma_self_consistent(mem: Memory, t: Test)
    requires
        t.wf(mem),
    ensures
        t.self_reference_spec(mem) == t.value_spec(mem),
{
}

/// Law: a pinned record is undisturbed by later constructions. Extending
/// the memory with new slots leaves an existing record well formed, at the
/// same address, with the same payload and the same dereferenced self
/// reference.
pub proof fn lemma_wf_preserved_by_extension(before: Memory, after: Memory, t: Test)
    requires
        t.wf(before),
        after.spec_len() >= before.spec_len(),
        forall|i: int| 0 <= i < before.spec_len() ==> after.slots@[i] == before.slots@[i],
    ensures
        t.wf(after),
        t.value_spec(after) == t.value_spec(before),
        t.self_reference_spec(after) == t.self_reference_spec(before),
{
}

/// Law: exchanging two handles is observable only in which record each
/// variable names. The memory is untouched, so the address backing each
/// record's payload — and the payload itself — are what they were before
/// the handles moved; each variable now reports the pair the other variable
/// reported, and both records remain self-consistent.
pub proof fn lemma_swap_handles_observable(
    mem: Memory,
    t1_before: Test,
    t2_before: Test,
    t1_after: Test,
    t2_after: Test,
)
    requires
        t1_before.wf(mem),
        t2_before.wf(mem),
        t1_after == t2_before,
        t2_after == t1_before,
    ensures
        t1_after.wf(mem),
        t2_after.wf(mem),
        t1_after.addr == t2_before.addr,
        t2_after.addr == t1_before.addr,
        t1_after.value_spec(mem) == t2_before.value_spec(mem),
        t2_after.value_spec(mem) == t1_before.value_spec(mem),
        t1_after.self_reference_spec(mem) == t1_after.value_spec(mem),
        t2_after.self_reference_spec(mem) == t2_after.value_spec(mem),
{
}

/// Law: the accessors are idempotent. The observed payload and the observed
/// dereferenced self reference are functions of the record and the memory
/// alone, so any two observations without an intervening mutation agree.
pub proof fn lemma_accessors_idempotent(
    mem: Memory,
    t: Test,
    v1: Seq<char>,
    v2: Seq<char>,
    s1: Seq<char>,
    s2: Seq<char>,
)
    requires
        v1 == t.value_spec(mem),
        v2 == t.value_spec(mem),
        s1 == t.self_reference_spec(mem),
        s2 == t.self_reference_spec(mem),
    ensures
        v1 == v2,
        s1 == s2,
{
}

} // verus!
