//! Virtual machine operations.

use crate::error::{expect_zero, true_or_error, zero_or_error, Error};
use crate::linux::kvm_structs::kvm_userspace_memory_region;
use crate::mem::MemorySlot;
use vstd::prelude::*;

verus! {

/// The description of a slot that the kernel is given, from the five values
/// that a slot has.
pub fn memory_region(
    slot_id: u32,
    flags: u32,
    guest_address: u64,
    memory_size: usize,
    host_address: u64,
) -> (region: kvm_userspace_memory_region)
    ensures
        region == (kvm_userspace_memory_region {
            slot: slot_id,
            flags,
            guest_phys_addr: guest_address,
            memory_size: memory_size as u64,
            userspace_addr: host_address,
        }),
        region.memory_size == memory_size,
{
    kvm_userspace_memory_region {
        slot: slot_id,
        flags,
        guest_phys_addr: guest_address,
        memory_size: memory_size as u64,
        userspace_addr: host_address,
    }
}

/// The handle for the operations on one virtual machine.
pub struct VirtualMachine {
    fd: i32,
}

impl VirtualMachine {
    /// The number of the descriptor that the handle stands for.
    pub closed spec fn descriptor(&self) -> i32 {
        self.fd
    }

    /// A handle is valid if its descriptor is one that the kernel can return.
    pub open spec fn wf(&self) -> bool {
        self.descriptor() >= 0
    }

    /// The handle for a descriptor that the kernel returned for a virtual
    /// machine.
    pub fn from_file(handle: i32) -> (vm: VirtualMachine)
        requires
            handle >= 0,
        ensures
            vm.descriptor() == handle,
            vm.wf(),
    {
        VirtualMachine { fd: handle }
    }

    /// The number of the descriptor that the handle stands for.
    pub fn as_raw_fd(&self) -> (fd: i32)
        ensures
            fd == self.descriptor(),
    {
        self.fd
    }

    /// The descriptor of a new virtual CPU, from the kernel's answer to
    /// `KVM_CREATE_VCPU`. The CPU can be used once the region it shares with
    /// the kernel is mapped: see `VirtualCPU::from_file`.
    pub fn create_vcpu(&self, raw_fd: i32, errno: i32) -> (r: Result<i32, Error>)
        ensures
            raw_fd >= 0 ==> r == Ok::<i32, Error>(raw_fd),
            raw_fd < 0 ==> r == Err::<i32, Error>(Error::System { errno }),
    {
        if raw_fd < 0 {
            return Err(Error::System { errno });
        }
        Ok(raw_fd)
    }

    /// The description of `slot` to register it with: each field is what the
    /// slot answered when asked for it, the size widened to 64 bits.
    pub fn user_memory_region<S: MemorySlot + ?Sized>(&self, slot: &S) -> (region:
        kvm_userspace_memory_region)
        ensures
            call_ensures(S::slot_id, (slot,), region.slot),
            call_ensures(S::flags, (slot,), region.flags),
            call_ensures(S::guest_address, (slot,), region.guest_phys_addr),
            exists|size: usize|
                call_ensures(S::memory_size, (slot,), size) && region.memory_size == size,
            call_ensures(S::host_address, (slot,), region.userspace_addr),
    {
        let slot_id = slot.slot_id();
        let flags = slot.flags();
        let guest_address = slot.guest_address();
        let memory_size = slot.memory_size();
        let host_address = slot.host_address();
        memory_region(slot_id, flags, guest_address, memory_size, host_address)
    }

    /// Whether the slot is registered, from the kernel's answer to
    /// `KVM_SET_USER_MEMORY_REGION`.
    pub fn set_user_memory_region(&self, result: i32, errno: i32) -> (r: Result<bool, Error>)
        ensures
            r == true_or_error(result, errno),
    {
        if result == 0 {
            Ok(true)
        } else {
            Err(Error::System { errno })
        }
    }

    /// Whether the address of the task state segment is set, from the
    /// kernel's answer to `KVM_SET_TSS_ADDR`.
    pub fn set_tss_address(&self, result: i32, errno: i32) -> (r: Result<(), Error>)
        ensures
            r == zero_or_error(result, errno),
    {
        expect_zero(result, errno)
    }
}

} // verus!
