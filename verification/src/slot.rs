//! A slot of guest memory described by plain numbers.

use crate::error::Error;
use crate::linux::kvm_structs::kvm_userspace_memory_region;
use crate::mem::MemorySlot;
use crate::vcpu::MAP_FAILED;
use vstd::prelude::*;

verus! {

/// A slot of guest memory: where it lies for the guest and for this process,
/// and how large it is. The memory itself belongs to whoever mapped it.
#[derive(Clone, Copy, Debug, PartialEq, Eq, Structural)]
pub struct Slot {
    pub slot_id: u32,
    pub flags: u32,
    pub memory_size: usize,
    pub guest_addr: u64,
    pub host_addr: u64,
}

impl Slot {
    /// The description that the kernel is given of this slot.
    pub open spec fn region(&self) -> kvm_userspace_memory_region {
        kvm_userspace_memory_region {
            slot: self.slot_id,
            flags: self.flags,
            guest_phys_addr: self.guest_addr,
            memory_size: self.memory_size as u64,
            userspace_addr: self.host_addr,
        }
    }

    /// Slot number 0 without flags at guest address 0, for `memory_size` bytes
    /// that are mapped at `host_addr` in this process.
    pub fn new(memory_size: usize, host_addr: u64) -> (slot: Slot)
        ensures
            slot == (Slot { slot_id: 0, flags: 0, memory_size, guest_addr: 0, host_addr }),
    {
        Slot { slot_id: 0, flags: 0, memory_size, guest_addr: 0, host_addr }
    }

    /// The slot for a mapping of `memory_size` bytes, from what the mapping
    /// call returned: `address` is its result, `errno` the code it left if
    /// it failed. A mapping that failed gives no slot but the system error.
    pub fn from_mapping(memory_size: usize, address: usize, errno: i32) -> (r: Result<Slot, Error>)
        ensures
            address == MAP_FAILED ==> r == Err::<Slot, Error>(Error::System { errno }),
            address != MAP_FAILED ==> r == Ok::<Slot, Error>(
                Slot { slot_id: 0, flags: 0, memory_size, guest_addr: 0, host_addr: address as u64 },
            ),
    {
        if address == MAP_FAILED {
            Err(Error::System { errno })
        } else {
            Ok(Slot::new(memory_size, address as u64))
        }
    }

    /// The description that the kernel is given of this slot.
    pub fn as_kvm_memory_region(&self) -> (region: kvm_userspace_memory_region)
        ensures
            region == self.region(),
            region.memory_size == self.memory_size,
    {
        kvm_userspace_memory_region {
            slot: self.slot_id,
            flags: self.flags,
            guest_phys_addr: self.guest_addr,
            memory_size: self.memory_size as u64,
            userspace_addr: self.host_addr,
        }
    }
}

impl MemorySlot for Slot {
    fn slot_id(&self) -> (id: u32)
        ensures
            id == self.slot_id,
    {
        self.slot_id
    }

    fn flags(&self) -> (flags: u32)
        ensures
            flags == self.flags,
    {
        self.flags
    }

    fn memory_size(&self) -> (size: usize)
        ensures
            size == self.memory_size,
    {
        self.memory_size
    }

    fn guest_address(&self) -> (address: u64)
        ensures
            address == self.guest_addr,
    {
        self.guest_addr
    }

    fn host_address(&self) -> (address: u64)
        ensures
            address == self.host_addr,
    {
        self.host_addr
    }
}

} // verus!
