//! Numbers that the KVM interface gives a meaning.

use vstd::prelude::*;

verus! {

/// The one version of the interface that is stable and supported.
pub const KVM_API_VERSION: i32 = 12;

/// Capability: interrupt controllers can be created in the kernel.
pub const KVM_CAP_IRQCHIP: u32 = 0;

/// Capability: guest memory is given to a virtual machine slot by slot.
pub const KVM_CAP_USER_MEMORY: u32 = 3;

/// Capability: the address of the task state segment can be set.
pub const KVM_CAP_SET_TSS_ADDR: u32 = 4;

/// Flag of a memory slot: writes to it are logged page by page.
pub const KVM_MEM_LOG_DIRTY_PAGES: u32 = 1;

/// Flag of a memory slot: the guest cannot write to it.
pub const KVM_MEM_READONLY: u32 = 2;

/// Exit reason: the guest accessed an I/O port.
pub const KVM_EXIT_IO: u32 = 2;

/// Exit reason: the guest executed a halt instruction.
pub const KVM_EXIT_HLT: u32 = 5;

/// Exit reason: the guest accessed memory-mapped I/O.
pub const KVM_EXIT_MMIO: u32 = 6;

/// Direction of a port access: the guest reads from the port.
pub const KVM_EXIT_IO_IN: u8 = 0;

/// Direction of a port access: the guest writes to the port.
pub const KVM_EXIT_IO_OUT: u8 = 1;

} // verus!
