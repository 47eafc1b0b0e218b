//! The request codes of the KVM interface.
//!
//! Each code is built from the direction of the transfer, the number of the
//! operation and the size of the structure that the request carries, under
//! the type tag that all KVM requests share.

use crate::linux::ioctl::{
    ioctl_code, ioctl_fields_fit, _IOC_DIRSHIFT, _IOC_NONE, _IOC_READ, _IOC_SIZESHIFT,
    _IOC_TYPESHIFT, _IOC_WRITE,
};
use crate::linux::kvm_structs::{
    KVM_CPUID2_SIZE, KVM_FPU_SIZE, KVM_LAPIC_STATE_SIZE, KVM_MSRS_SIZE, KVM_MSR_LIST_SIZE,
    KVM_PIT_CONFIG_SIZE, KVM_REGS_SIZE, KVM_SREGS_SIZE, KVM_USERSPACE_MEMORY_REGION_SIZE,
};
use vstd::prelude::*;

verus! {

/// The type tag of every KVM request.
pub const KVMIO: u32 = 0xAE;

/// The type tag at its place in a request code.
pub const KVM_IOC_TYPE: u32 = KVMIO << _IOC_TYPESHIFT;

/// Direction of a request whose argument the kernel reads and fills in.
pub const _IOC_READ_WRITE: u32 = _IOC_READ | _IOC_WRITE;

/// Asks for the version of the interface.
pub const KVM_GET_API_VERSION: u64 = ((_IOC_NONE << _IOC_DIRSHIFT) | KVM_IOC_TYPE | 0x00
    | (0 << _IOC_SIZESHIFT)) as u64;

/// Creates a virtual machine.
pub const KVM_CREATE_VM: u64 = ((_IOC_NONE << _IOC_DIRSHIFT) | KVM_IOC_TYPE | 0x01
    | (0 << _IOC_SIZESHIFT)) as u64;

/// Asks for the indices of the model-specific registers that guests may use.
pub const KVM_GET_MSR_INDEX_LIST: u64 = ((_IOC_READ_WRITE << _IOC_DIRSHIFT) | KVM_IOC_TYPE | 0x02
    | ((KVM_MSR_LIST_SIZE as u32) << _IOC_SIZESHIFT)) as u64;

/// Asks whether an extension of the interface is there.
pub const KVM_CHECK_EXTENSION: u64 = ((_IOC_NONE << _IOC_DIRSHIFT) | KVM_IOC_TYPE | 0x03
    | (0 << _IOC_SIZESHIFT)) as u64;

/// Asks for the size in bytes of the region shared with a running CPU.
pub const KVM_GET_VCPU_MMAP_SIZE: u64 = ((_IOC_NONE << _IOC_DIRSHIFT) | KVM_IOC_TYPE | 0x04
    | (0 << _IOC_SIZESHIFT)) as u64;

/// Asks for the CPUID entries that host and kernel support.
pub const KVM_GET_SUPPORTED_CPUID: u64 = ((_IOC_READ_WRITE << _IOC_DIRSHIFT) | KVM_IOC_TYPE | 0x05
    | ((KVM_CPUID2_SIZE as u32) << _IOC_SIZESHIFT)) as u64;

/// Asks for the CPUID entries that the kernel emulates.
pub const KVM_GET_EMULATED_CPUID: u64 = ((_IOC_READ_WRITE << _IOC_DIRSHIFT) | KVM_IOC_TYPE | 0x09
    | ((KVM_CPUID2_SIZE as u32) << _IOC_SIZESHIFT)) as u64;

/// Asks for the indices of the feature registers that can be read system-wide.
pub const KVM_GET_MSR_FEATURE_INDEX_LIST: u64 = ((_IOC_READ_WRITE << _IOC_DIRSHIFT) | KVM_IOC_TYPE | 0x0a
    | ((KVM_MSR_LIST_SIZE as u32) << _IOC_SIZESHIFT)) as u64;

/// Adds a virtual CPU to a virtual machine.
pub const KVM_CREATE_VCPU: u64 = ((_IOC_NONE << _IOC_DIRSHIFT) | KVM_IOC_TYPE | 0x41
    | (0 << _IOC_SIZESHIFT)) as u64;

/// Gives a virtual machine a slot of guest memory.
pub const KVM_SET_USER_MEMORY_REGION: u64 = ((_IOC_WRITE << _IOC_DIRSHIFT) | KVM_IOC_TYPE | 0x46
    | ((KVM_USERSPACE_MEMORY_REGION_SIZE as u32) << _IOC_SIZESHIFT)) as u64;

/// Says where in guest memory the task state segment lies.
pub const KVM_SET_TSS_ADDR: u64 = ((_IOC_NONE << _IOC_DIRSHIFT) | KVM_IOC_TYPE | 0x47
    | (0 << _IOC_SIZESHIFT)) as u64;

/// Creates the in-kernel interrupt controller.
pub const KVM_CREATE_IRQCHIP: u64 = ((_IOC_NONE << _IOC_DIRSHIFT) | KVM_IOC_TYPE | 0x60
    | (0 << _IOC_SIZESHIFT)) as u64;

/// Creates the in-kernel interval timer.
pub const KVM_CREATE_PIT2: u64 = ((_IOC_WRITE << _IOC_DIRSHIFT) | KVM_IOC_TYPE | 0x77
    | ((KVM_PIT_CONFIG_SIZE as u32) << _IOC_SIZESHIFT)) as u64;

/// Runs a virtual CPU until it stops.
pub const KVM_RUN: u64 = ((_IOC_NONE << _IOC_DIRSHIFT) | KVM_IOC_TYPE | 0x80
    | (0 << _IOC_SIZESHIFT)) as u64;

/// Reads the general registers.
pub const KVM_GET_REGS: u64 = ((_IOC_READ << _IOC_DIRSHIFT) | KVM_IOC_TYPE | 0x81
    | ((KVM_REGS_SIZE as u32) << _IOC_SIZESHIFT)) as u64;

/// Writes the general registers.
pub const KVM_SET_REGS: u64 = ((_IOC_WRITE << _IOC_DIRSHIFT) | KVM_IOC_TYPE | 0x82
    | ((KVM_REGS_SIZE as u32) << _IOC_SIZESHIFT)) as u64;

/// Reads the special registers.
pub const KVM_GET_SREGS: u64 = ((_IOC_READ << _IOC_DIRSHIFT) | KVM_IOC_TYPE | 0x83
    | ((KVM_SREGS_SIZE as u32) << _IOC_SIZESHIFT)) as u64;

/// Writes the special registers.
pub const KVM_SET_SREGS: u64 = ((_IOC_WRITE << _IOC_DIRSHIFT) | KVM_IOC_TYPE | 0x84
    | ((KVM_SREGS_SIZE as u32) << _IOC_SIZESHIFT)) as u64;

/// Reads model-specific registers.
pub const KVM_GET_MSRS: u64 = ((_IOC_READ_WRITE << _IOC_DIRSHIFT) | KVM_IOC_TYPE | 0x88
    | ((KVM_MSRS_SIZE as u32) << _IOC_SIZESHIFT)) as u64;

/// Writes model-specific registers.
pub const KVM_SET_MSRS: u64 = ((_IOC_WRITE << _IOC_DIRSHIFT) | KVM_IOC_TYPE | 0x89
    | ((KVM_MSRS_SIZE as u32) << _IOC_SIZESHIFT)) as u64;

/// Reads the floating-point state.
pub const KVM_GET_FPU: u64 = ((_IOC_READ << _IOC_DIRSHIFT) | KVM_IOC_TYPE | 0x8c
    | ((KVM_FPU_SIZE as u32) << _IOC_SIZESHIFT)) as u64;

/// Writes the floating-point state.
pub const KVM_SET_FPU: u64 = ((_IOC_WRITE << _IOC_DIRSHIFT) | KVM_IOC_TYPE | 0x8d
    | ((KVM_FPU_SIZE as u32) << _IOC_SIZESHIFT)) as u64;

/// Reads the state of the local interrupt controller.
pub const KVM_GET_LAPIC: u64 = ((_IOC_READ << _IOC_DIRSHIFT) | KVM_IOC_TYPE | 0x8e
    | ((KVM_LAPIC_STATE_SIZE as u32) << _IOC_SIZESHIFT)) as u64;

/// Writes the state of the local interrupt controller.
pub const KVM_SET_LAPIC: u64 = ((_IOC_WRITE << _IOC_DIRSHIFT) | KVM_IOC_TYPE | 0x8f
    | ((KVM_LAPIC_STATE_SIZE as u32) << _IOC_SIZESHIFT)) as u64;

/// Sets the CPUID entries that the guest sees.
pub const KVM_SET_CPUID2: u64 = ((_IOC_WRITE << _IOC_DIRSHIFT) | KVM_IOC_TYPE | 0x90
    | ((KVM_CPUID2_SIZE as u32) << _IOC_SIZESHIFT)) as u64;

/// Reads the CPUID entries that the guest sees.
pub const KVM_GET_CPUID2: u64 = ((_IOC_READ_WRITE << _IOC_DIRSHIFT) | KVM_IOC_TYPE | 0x91
    | ((KVM_CPUID2_SIZE as u32) << _IOC_SIZESHIFT)) as u64;

/// Every code above is what the code builder gives for the operation's
/// direction, number and argument size, and is the number that the kernel
/// documents for the operation. The fields of each fit their places.
pub proof fn lemma_documented_codes()
    ensures
        KVM_GET_API_VERSION == ioctl_code(_IOC_NONE, KVMIO, 0x00, 0) == 0xAE00,
        KVM_CREATE_VM == ioctl_code(_IOC_NONE, KVMIO, 0x01, 0) == 0xAE01,
        KVM_GET_MSR_INDEX_LIST == ioctl_code(_IOC_READ_WRITE, KVMIO, 0x02, KVM_MSR_LIST_SIZE as u32) == 0xC004AE02,
        KVM_CHECK_EXTENSION == ioctl_code(_IOC_NONE, KVMIO, 0x03, 0) == 0xAE03,
        KVM_GET_VCPU_MMAP_SIZE == ioctl_code(_IOC_NONE, KVMIO, 0x04, 0) == 0xAE04,
        KVM_GET_SUPPORTED_CPUID == ioctl_code(_IOC_READ_WRITE, KVMIO, 0x05, KVM_CPUID2_SIZE as u32) == 0xC008AE05,
        KVM_GET_EMULATED_CPUID == ioctl_code(_IOC_READ_WRITE, KVMIO, 0x09, KVM_CPUID2_SIZE as u32) == 0xC008AE09,
        KVM_GET_MSR_FEATURE_INDEX_LIST == ioctl_code(_IOC_READ_WRITE, KVMIO, 0x0a, KVM_MSR_LIST_SIZE as u32) == 0xC004AE0A,
        KVM_CREATE_VCPU == ioctl_code(_IOC_NONE, KVMIO, 0x41, 0) == 0xAE41,
        KVM_SET_USER_MEMORY_REGION == ioctl_code(_IOC_WRITE, KVMIO, 0x46, KVM_USERSPACE_MEMORY_REGION_SIZE as u32) == 0x4020AE46,
        KVM_SET_TSS_ADDR == ioctl_code(_IOC_NONE, KVMIO, 0x47, 0) == 0xAE47,
        KVM_CREATE_IRQCHIP == ioctl_code(_IOC_NONE, KVMIO, 0x60, 0) == 0xAE60,
        KVM_CREATE_PIT2 == ioctl_code(_IOC_WRITE, KVMIO, 0x77, KVM_PIT_CONFIG_SIZE as u32) == 0x4040AE77,
        KVM_RUN == ioctl_code(_IOC_NONE, KVMIO, 0x80, 0) == 0xAE80,
        KVM_GET_REGS == ioctl_code(_IOC_READ, KVMIO, 0x81, KVM_REGS_SIZE as u32) == 0x8090AE81,
        KVM_SET_REGS == ioctl_code(_IOC_WRITE, KVMIO, 0x82, KVM_REGS_SIZE as u32) == 0x4090AE82,
        KVM_GET_SREGS == ioctl_code(_IOC_READ, KVMIO, 0x83, KVM_SREGS_SIZE as u32) == 0x8138AE83,
        KVM_SET_SREGS == ioctl_code(_IOC_WRITE, KVMIO, 0x84, KVM_SREGS_SIZE as u32) == 0x4138AE84,
        KVM_GET_MSRS == ioctl_code(_IOC_READ_WRITE, KVMIO, 0x88, KVM_MSRS_SIZE as u32) == 0xC008AE88,
        KVM_SET_MSRS == ioctl_code(_IOC_WRITE, KVMIO, 0x89, KVM_MSRS_SIZE as u32) == 0x4008AE89,
        KVM_GET_FPU == ioctl_code(_IOC_READ, KVMIO, 0x8c, KVM_FPU_SIZE as u32) == 0x81A0AE8C,
        KVM_SET_FPU == ioctl_code(_IOC_WRITE, KVMIO, 0x8d, KVM_FPU_SIZE as u32) == 0x41A0AE8D,
        KVM_GET_LAPIC == ioctl_code(_IOC_READ, KVMIO, 0x8e, KVM_LAPIC_STATE_SIZE as u32) == 0x8400AE8E,
        KVM_SET_LAPIC == ioctl_code(_IOC_WRITE, KVMIO, 0x8f, KVM_LAPIC_STATE_SIZE as u32) == 0x4400AE8F,
        KVM_SET_CPUID2 == ioctl_code(_IOC_WRITE, KVMIO, 0x90, KVM_CPUID2_SIZE as u32) == 0x4008AE90,
        KVM_GET_CPUID2 == ioctl_code(_IOC_READ_WRITE, KVMIO, 0x91, KVM_CPUID2_SIZE as u32) == 0xC008AE91,
        forall|number: u32|
            number < 0x100 ==> {
                &&& ioctl_fields_fit(_IOC_NONE, KVMIO, number, 0)
                &&& ioctl_fields_fit(_IOC_READ_WRITE, KVMIO, number, KVM_MSR_LIST_SIZE as u32)
                &&& ioctl_fields_fit(_IOC_READ_WRITE, KVMIO, number, KVM_CPUID2_SIZE as u32)
                &&& ioctl_fields_fit(_IOC_READ_WRITE, KVMIO, number, KVM_MSRS_SIZE as u32)
                &&& ioctl_fields_fit(
                    _IOC_WRITE,
                    KVMIO,
                    number,
                    KVM_USERSPACE_MEMORY_REGION_SIZE as u32,
                )
                &&& ioctl_fields_fit(_IOC_WRITE, KVMIO, number, KVM_PIT_CONFIG_SIZE as u32)
                &&& ioctl_fields_fit(_IOC_READ, KVMIO, number, KVM_REGS_SIZE as u32)
                &&& ioctl_fields_fit(_IOC_READ, KVMIO, number, KVM_SREGS_SIZE as u32)
                &&& ioctl_fields_fit(_IOC_READ, KVMIO, number, KVM_FPU_SIZE as u32)
                &&& #[trigger] ioctl_fields_fit(
                    _IOC_READ,
                    KVMIO,
                    number,
                    KVM_LAPIC_STATE_SIZE as u32,
                )
            },
{
    lemma_codes();
}

proof fn lemma_codes()
    by (bit_vector)
    ensures
        _IOC_READ_WRITE == 3,
        KVM_GET_API_VERSION == 0xAE00,
        ioctl_code(0, 0xAE, 0x00, 0) == 0xAE00,
        KVM_CREATE_VM == 0xAE01,
        ioctl_code(0, 0xAE, 0x01, 0) == 0xAE01,
        KVM_GET_MSR_INDEX_LIST == 0xC004AE02,
        ioctl_code(3, 0xAE, 0x02, 4) == 0xC004AE02,
        KVM_CHECK_EXTENSION == 0xAE03,
        ioctl_code(0, 0xAE, 0x03, 0) == 0xAE03,
        KVM_GET_VCPU_MMAP_SIZE == 0xAE04,
        ioctl_code(0, 0xAE, 0x04, 0) == 0xAE04,
        KVM_GET_SUPPORTED_CPUID == 0xC008AE05,
        ioctl_code(3, 0xAE, 0x05, 8) == 0xC008AE05,
        KVM_GET_EMULATED_CPUID == 0xC008AE09,
        ioctl_code(3, 0xAE, 0x09, 8) == 0xC008AE09,
        KVM_GET_MSR_FEATURE_INDEX_LIST == 0xC004AE0A,
        ioctl_code(3, 0xAE, 0x0a, 4) == 0xC004AE0A,
        KVM_CREATE_VCPU == 0xAE41,
        ioctl_code(0, 0xAE, 0x41, 0) == 0xAE41,
        KVM_SET_USER_MEMORY_REGION == 0x4020AE46,
        ioctl_code(1, 0xAE, 0x46, 32) == 0x4020AE46,
        KVM_SET_TSS_ADDR == 0xAE47,
        ioctl_code(0, 0xAE, 0x47, 0) == 0xAE47,
        KVM_CREATE_IRQCHIP == 0xAE60,
        ioctl_code(0, 0xAE, 0x60, 0) == 0xAE60,
        KVM_CREATE_PIT2 == 0x4040AE77,
        ioctl_code(1, 0xAE, 0x77, 64) == 0x4040AE77,
        KVM_RUN == 0xAE80,
        ioctl_code(0, 0xAE, 0x80, 0) == 0xAE80,
        KVM_GET_REGS == 0x8090AE81,
        ioctl_code(2, 0xAE, 0x81, 144) == 0x8090AE81,
        KVM_SET_REGS == 0x4090AE82,
        ioctl_code(1, 0xAE, 0x82, 144) == 0x4090AE82,
        KVM_GET_SREGS == 0x8138AE83,
        ioctl_code(2, 0xAE, 0x83, 312) == 0x8138AE83,
        KVM_SET_SREGS == 0x4138AE84,
        ioctl_code(1, 0xAE, 0x84, 312) == 0x4138AE84,
        KVM_GET_MSRS == 0xC008AE88,
        ioctl_code(3, 0xAE, 0x88, 8) == 0xC008AE88,
        KVM_SET_MSRS == 0x4008AE89,
        ioctl_code(1, 0xAE, 0x89, 8) == 0x4008AE89,
        KVM_GET_FPU == 0x81A0AE8C,
        ioctl_code(2, 0xAE, 0x8c, 416) == 0x81A0AE8C,
        KVM_SET_FPU == 0x41A0AE8D,
        ioctl_code(1, 0xAE, 0x8d, 416) == 0x41A0AE8D,
        KVM_GET_LAPIC == 0x8400AE8E,
        ioctl_code(2, 0xAE, 0x8e, 1024) == 0x8400AE8E,
        KVM_SET_LAPIC == 0x4400AE8F,
        ioctl_code(1, 0xAE, 0x8f, 1024) == 0x4400AE8F,
        KVM_SET_CPUID2 == 0x4008AE90,
        ioctl_code(1, 0xAE, 0x90, 8) == 0x4008AE90,
        KVM_GET_CPUID2 == 0xC008AE91,
        ioctl_code(3, 0xAE, 0x91, 8) == 0xC008AE91,
{
}

} // verus!
