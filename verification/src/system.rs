//! System operations: what is asked of the KVM device itself.
//!
//! The interface divides its operations into three classes, made on three
//! kinds of descriptor: the system, a virtual machine, a virtual CPU. Each
//! class has a handle type here. A handle holds the descriptor number; the
//! caller makes the system calls on it and hands each answer to the method
//! of the operation, which says what the answer means.

use crate::error::{expect_value, value_or_error, Error};
use crate::layout::Layout;
use crate::linux::kvm_consts::KVM_API_VERSION;
use crate::linux::kvm_structs::{kvm_cpuid_entry2, KVM_CPUID2_SIZE, KVM_MSR_LIST_SIZE};
use crate::payload::{lemma_entries_of_payload, payload};
use crate::utils::{KVMCpuid2Wrapper, KVMMSRListWrapper};
use crate::vm::VirtualMachine;
use vstd::prelude::*;

verus! {

/// Room that is made for the answer when the kernel is asked for a list of
/// MSR indices.
pub const MAX_KVM_MSR_ENTRIES: u32 = 256;

/// Room that is made for the answer when the kernel is asked for a list of
/// CPUID entries.
pub const MAX_KVM_CPUID_ENTRIES: u32 = 256;

/// What a request that fills in a list came to: the list as read from the
/// buffer if the kernel returned zero, else the system error.
pub open spec fn list_or_error<T>(result: i32, errno: i32, read: Result<Seq<T>, Error>) -> Result<
    Seq<T>,
    Error,
> {
    if result == 0 {
        read
    } else {
        Err(Error::System { errno })
    }
}

/// What the version query came to. A negative result is a request that
/// failed, and gives the system error with the code that the kernel left.
/// Any other result is the version that the kernel reports: the supported
/// one is accepted, every other one is a mismatch.
pub open spec fn version_or_error(result: i32, errno: i32) -> Result<i32, Error> {
    if result < 0 {
        Err(Error::System { errno })
    } else if result == KVM_API_VERSION {
        Ok(KVM_API_VERSION)
    } else {
        Err(Error::VersionMismatch { reported: result })
    }
}

/// The handle for system operations: the open KVM device.
pub struct KVMSystem {
    fd: i32,
}

impl KVMSystem {
    /// The number of the descriptor that the handle stands for.
    pub closed spec fn descriptor(&self) -> i32 {
        self.fd
    }

    /// A handle is valid if its descriptor is one that an open can return.
    pub open spec fn wf(&self) -> bool {
        self.descriptor() >= 0
    }

    /// The handle for what opening the device returned: `raw_fd` is the
    /// result of the open, `errno` the code it left if it failed.
    pub fn new(raw_fd: i32, errno: i32) -> (r: Result<KVMSystem, Error>)
        ensures
            raw_fd >= 0 ==> (r matches Ok(system) && system.descriptor() == raw_fd && system.wf()),
            raw_fd < 0 ==> (r matches Err(e) && e == (Error::System { errno })),
    {
        if raw_fd < 0 {
            return Err(Error::System { errno });
        }
        Ok(KVMSystem { fd: raw_fd })
    }

    /// The number of the descriptor that the handle stands for.
    pub fn as_raw_fd(&self) -> (fd: i32)
        ensures
            fd == self.descriptor(),
    {
        self.fd
    }

    /// The version of the interface, from the kernel's answer to
    /// `KVM_GET_API_VERSION`. A request that failed is a system error with
    /// the code `errno` that it left. Of the versions that the kernel can
    /// report only the one supported is accepted; every other one is a
    /// mismatch and is never passed on as a version.
    pub fn api_version(&self, result: i32, errno: i32) -> (r: Result<i32, Error>)
        ensures
            r == version_or_error(result, errno),
            result < 0 ==> r == Err::<i32, Error>(Error::System { errno }),
            result == KVM_API_VERSION ==> r == Ok::<i32, Error>(KVM_API_VERSION),
            result >= 0 && result != KVM_API_VERSION ==> r == Err::<i32, Error>(
                Error::VersionMismatch { reported: result },
            ),
    {
        if result < 0 {
            Err(Error::System { errno })
        } else if result == KVM_API_VERSION {
            Ok(result)
        } else {
            Err(Error::VersionMismatch { reported: result })
        }
    }

    /// The buffer to ask for a list of MSR indices with.
    pub fn msr_list_buffer() -> (list: KVMMSRListWrapper)
        ensures
            list@ == payload(
                KVM_MSR_LIST_SIZE as nat,
                Seq::new(MAX_KVM_MSR_ENTRIES as nat, |i: int| 0u32),
            ),
            list.indices() == Ok::<Seq<u32>, Error>(
                Seq::new(MAX_KVM_MSR_ENTRIES as nat, |i: int| 0u32),
            ),
    {
        let list = KVMMSRListWrapper::new(MAX_KVM_MSR_ENTRIES);
        proof {
            lemma_entries_of_payload::<u32>(
                KVM_MSR_LIST_SIZE as nat,
                Seq::new(MAX_KVM_MSR_ENTRIES as nat, |i: int| 0u32),
            );
        }
        list
    }

    /// The buffer to ask for a list of CPUID entries with.
    pub fn cpuid_buffer() -> (cpuid: KVMCpuid2Wrapper)
        ensures
            cpuid@ == payload(
                KVM_CPUID2_SIZE as nat,
                Seq::new(MAX_KVM_CPUID_ENTRIES as nat, |i: int| kvm_cpuid_entry2::zeroed()),
            ),
            cpuid.entries() == Ok::<Seq<kvm_cpuid_entry2>, Error>(
                Seq::new(MAX_KVM_CPUID_ENTRIES as nat, |i: int| kvm_cpuid_entry2::zeroed()),
            ),
    {
        let cpuid = KVMCpuid2Wrapper::new(MAX_KVM_CPUID_ENTRIES);
        proof {
            lemma_entries_of_payload::<kvm_cpuid_entry2>(
                KVM_CPUID2_SIZE as nat,
                Seq::new(MAX_KVM_CPUID_ENTRIES as nat, |i: int| kvm_cpuid_entry2::zeroed()),
            );
        }
        cpuid
    }

    /// The indices of the MSRs that guests may use, from the kernel's answer
    /// to `KVM_GET_MSR_INDEX_LIST` in `list`.
    pub fn get_msr_index_list(&self, result: i32, errno: i32, list: &KVMMSRListWrapper) -> (r:
        Result<Vec<u32>, Error>)
        ensures
            match r {
                Ok(indices) => list_or_error(result, errno, list.indices()) == Ok::<
                    Seq<u32>,
                    Error,
                >(indices@),
                Err(e) => list_or_error(result, errno, list.indices()) == Err::<Seq<u32>, Error>(e),
            },
    {
        self.get_msr_list(result, errno, list)
    }

    /// The indices of the feature MSRs, from the kernel's answer to
    /// `KVM_GET_MSR_FEATURE_INDEX_LIST` in `list`.
    pub fn get_msr_feature_index_list(
        &self,
        result: i32,
        errno: i32,
        list: &KVMMSRListWrapper,
    ) -> (r: Result<Vec<u32>, Error>)
        ensures
            match r {
                Ok(indices) => list_or_error(result, errno, list.indices()) == Ok::<
                    Seq<u32>,
                    Error,
                >(indices@),
                Err(e) => list_or_error(result, errno, list.indices()) == Err::<Seq<u32>, Error>(e),
            },
    {
        self.get_msr_list(result, errno, list)
    }

    fn get_msr_list(&self, result: i32, errno: i32, list: &KVMMSRListWrapper) -> (r: Result<
        Vec<u32>,
        Error,
    >)
        ensures
            match r {
                Ok(indices) => list_or_error(result, errno, list.indices()) == Ok::<
                    Seq<u32>,
                    Error,
                >(indices@),
                Err(e) => list_or_error(result, errno, list.indices()) == Err::<Seq<u32>, Error>(e),
            },
    {
        if result == 0 {
            list.to_indices_vec()
        } else {
            Err(Error::System { errno })
        }
    }

    /// The CPUID entries that host and kernel support, from the kernel's
    /// answer to `KVM_GET_SUPPORTED_CPUID` in `cpuid`.
    pub fn get_supported_cpuid(&self, result: i32, errno: i32, cpuid: &KVMCpuid2Wrapper) -> (r:
        Result<Vec<kvm_cpuid_entry2>, Error>)
        ensures
            match r {
                Ok(entries) => list_or_error(result, errno, cpuid.entries()) == Ok::<
                    Seq<kvm_cpuid_entry2>,
                    Error,
                >(entries@),
                Err(e) => list_or_error(result, errno, cpuid.entries()) == Err::<
                    Seq<kvm_cpuid_entry2>,
                    Error,
                >(e),
            },
    {
        if result == 0 {
            cpuid.to_entries_vec()
        } else {
            Err(Error::System { errno })
        }
    }

    fn check_extension(&self, result: i32, errno: i32) -> (r: Result<i32, Error>)
        ensures
            r == value_or_error(result, errno),
    {
        expect_value(result, errno)
    }

    /// Whether interrupt controllers can be created in the kernel, from the
    /// kernel's answer to `KVM_CHECK_EXTENSION` for `KVM_CAP_IRQCHIP`.
    pub fn check_cap_irqchip(&self, result: i32, errno: i32) -> (r: Result<i32, Error>)
        ensures
            r == value_or_error(result, errno),
    {
        self.check_extension(result, errno)
    }

    /// Whether guest memory is given slot by slot, from the kernel's answer
    /// to `KVM_CHECK_EXTENSION` for `KVM_CAP_USER_MEMORY`.
    pub fn check_cap_user_memory(&self, result: i32, errno: i32) -> (r: Result<i32, Error>)
        ensures
            r == value_or_error(result, errno),
    {
        self.check_extension(result, errno)
    }

    /// Whether the address of the task state segment can be set, from the
    /// kernel's answer to `KVM_CHECK_EXTENSION` for `KVM_CAP_SET_TSS_ADDR`.
    pub fn check_cap_set_tss_address(&self, result: i32, errno: i32) -> (r: Result<i32, Error>)
        ensures
            r == value_or_error(result, errno),
    {
        self.check_extension(result, errno)
    }

    /// The size in bytes of the region that every virtual CPU shares with the
    /// kernel, from the kernel's answer to `KVM_GET_VCPU_MMAP_SIZE`.
    pub fn get_vcpu_mmap_size(&self, result: i32, errno: i32) -> (r: Result<usize, Error>)
        ensures
            result > 0 ==> r == Ok::<usize, Error>(result as usize),
            result <= 0 ==> r == Err::<usize, Error>(Error::System { errno }),
    {
        if result > 0 {
            Ok(result as usize)
        } else {
            Err(Error::System { errno })
        }
    }

    /// The handle of a new virtual machine, from the kernel's answer to
    /// `KVM_CREATE_VM`: a descriptor or a failure.
    pub fn create_vm(&self, raw_fd: i32, errno: i32) -> (r: Result<VirtualMachine, Error>)
        ensures
            raw_fd >= 0 ==> (r matches Ok(vm) && vm.descriptor() == raw_fd && vm.wf()),
            raw_fd < 0 ==> (r matches Err(e) && e == (Error::System { errno })),
    {
        if raw_fd < 0 {
            return Err(Error::System { errno });
        }
        Ok(VirtualMachine::from_file(raw_fd))
    }
}

} // verus!
