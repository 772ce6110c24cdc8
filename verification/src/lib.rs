//! Self-referential records and address stability.
//!
//! A record holds a payload together with a self reference: an address that
//! must always resolve to the record's own payload. Relocating a record's
//! bytes invalidates that reference, because the payload's address changes
//! while the stored reference still encodes the old one.
//!
//! The library models the address space explicitly ([`memory::Memory`]) and
//! offers the two construction disciplines side by side:
//!
//! - [`naive::Test`] captures the self reference at construction and permits
//!   byte-for-byte relocation of the record's contents; after such a
//!   relocation the self reference is stale and the record is provably no
//!   longer self-consistent.
//! - [`stable::Test`] pins the record at its address for its whole lifetime
//!   and relocates only the handle that refers to it; self-consistency is
//!   proved to survive any number of handle exchanges.

pub mod label;
pub mod memory;
pub mod naive;
pub mod stable;
