//! What the library asks of guest memory.
//!
//! How memory for a guest is obtained is left to the caller: anonymous
//! memory, huge pages or a file will all do. To register a slot of it with a
//! virtual machine the library needs no more than the five values below.

use vstd::prelude::*;

verus! {

/// A single slot of allocated memory for a guest.
pub trait MemorySlot {
    /// The number of the slot, unique within its virtual machine.
    fn slot_id(&self) -> u32;

    /// Flags of the slot: read-only memory, logging of dirty pages.
    fn flags(&self) -> u32;

    /// The size of the slot in bytes.
    fn memory_size(&self) -> usize;

    /// The address at which the guest sees the start of the slot.
    fn guest_address(&self) -> u64;

    /// The address of the start of the slot in this process.
    fn host_address(&self) -> u64;
}

} // verus!
