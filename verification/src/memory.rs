//! An explicit model of the address space records live in.
//!
//! An address is an index into a sequence of slots; a record's bytes occupy
//! exactly one slot at a time. Modelling addresses as plain values is what
//! lets contracts speak about relocation: moving a record's contents to
//! another slot changes the address backing its payload, while the self
//! reference stored in those contents is copied along unchanged.

use vstd::prelude::*;
use vstd::pervasive::VecAdditionalExecFns;

verus! {

/// The contents stored at one address: a record's payload together with the
/// self reference the record carries (the address at which the record
/// believes its own payload lives).
pub struct Slot {
    pub value: String,
    pub self_reference: usize,
}

/// The address space. Slots are only ever added, never removed, so an
/// allocated address stays allocated.
pub struct Memory {
    pub slots: Vec<Slot>,
}

impl Memory {
    /// The number of allocated addresses.
    pub open spec fn spec_len(self) -> nat {
        self.slots@.len()
    }

    /// Whether `addr` is an allocated address.
    pub open spec fn in_bounds(self, addr: int) -> bool {
        0 <= addr < self.spec_len()
    }

    /// The payload stored at `addr`.
    pub open spec fn value_at_spec(self, addr: int) -> Seq<char> {
        self.slots@[addr].value@
    }

    /// The self reference stored at `addr`.
    pub open spec fn self_reference_at_spec(self, addr: int) -> int {
        self.slots@[addr].self_reference as int
    }

    /// The record whose bytes sit at `addr` is self-consistent: the self
    /// reference stored there points back at `addr` itself, so dereferencing
    /// it yields that record's own payload.
    pub open spec fn consistent_at(self, addr: int) -> bool {
        self.self_reference_at_spec(addr) == addr
    }

    /// An empty address space.
    pub fn new() -> (m: Memory)
        ensures
            m.spec_len() == 0,
    {
        Memory { slots: Vec::new() }
    }

    /// The number of allocated addresses.
    pub fn len(&self) -> (n: usize)
        ensures
            n == self.spec_len(),
    {
        self.slots.len()
    }

    /// Place a freshly built record at a new address. The payload is written
    /// first; the self reference is computed only once the payload sits at
    /// its address, so a record is always self-consistent at birth.
    pub fn allocate(&mut self, value: String) -> (addr: usize)
        ensures
            addr as int == old(self).spec_len(),
            final(self).spec_len() == old(self).spec_len() + 1,
            final(self).value_at_spec(addr as int) == value@,
            final(self).self_reference_at_spec(addr as int) == addr as int,
            forall|i: int|
                0 <= i < old(self).spec_len() ==> final(self).slots@[i] == old(self).slots@[i],
    {
        let addr: usize = self.slots.len();
        self.slots.push(Slot { value, self_reference: addr });
        addr
    }

    /// Read the payload stored at `addr`.
    pub fn value_at(&self, addr: usize) -> (r: &String)
        requires
            self.in_bounds(addr as int),
        ensures
            r@ == self.value_at_spec(addr as int),
    {
        &self.slots[addr].value
    }

    /// Read the self reference stored at `addr`.
    pub fn self_reference_at(&self, addr: usize) -> (r: usize)
        requires
            self.in_bounds(addr as int),
        ensures
            r as int == self.self_reference_at_spec(addr as int),
    {
        self.slots[addr].self_reference
    }

    /// Exchange the contents of the slots at `i` and `j`, byte for byte, the
    /// way a move or swap of two records relocates them: each payload changes
    /// address, and each stored self reference travels with its record,
    /// unchanged.
    pub fn swap_slots(&mut self, i: usize, j: usize)
        requires
            old(self).in_bounds(i as int),
            old(self).in_bounds(j as int),
        ensures
            final(self).spec_len() == old(self).spec_len(),
            final(self).slots@[i as int] == old(self).slots@[j as int],
            final(self).slots@[j as int] == old(self).slots@[i as int],
            forall|k: int|
                0 <= k < old(self).spec_len() && k != i as int && k != j as int
                    ==> final(self).slots@[k] == old(self).slots@[k],
    {
        if i == j {
            return;
        }
        let mut carried = Slot { value: String::new(), self_reference: 0 };
        self.slots.set_and_swap(i, &mut carried);
        self.slots.set_and_swap(j, &mut carried);
        self.slots.set_and_swap(i, &mut carried);
    }
}

} // verus!
