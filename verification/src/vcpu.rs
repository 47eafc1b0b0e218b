//! Virtual CPU operations.

use crate::error::{done_or_error, expect_zero, true_or_error, zero_or_error, Error};
use crate::layout::{from_bytes, to_bytes, Layout};
use crate::linux::kvm_consts::{KVM_EXIT_HLT, KVM_EXIT_IO, KVM_EXIT_MMIO};
use crate::linux::kvm_run::{kvm_run, kvm_run_io, kvm_run_mmio, KVM_RUN_SIZE};
use crate::linux::kvm_structs::{
    kvm_cpuid_entry2, kvm_fpu, kvm_lapic_state, kvm_msr_entry, kvm_regs, kvm_sregs,
};
use crate::system::list_or_error;
use crate::utils::{KVMCpuid2Wrapper, KVMMSRSWrapper};
use vstd::prelude::*;
use vstd::slice::slice_subrange;

verus! {

/// What a failed mapping returns in place of an address.
pub const MAP_FAILED: usize = usize::MAX;

/// What a request that fills in a structure came to: the structure that the
/// buffer holds if the kernel was content with the request and the buffer has
/// the structure's size; else the system error, or the length that is wrong.
pub open spec fn structure_or_error<T: Layout>(accepted: bool, errno: i32, bytes: Seq<u8>) -> Result<
    T,
    Error,
> {
    if !accepted {
        Err(Error::System { errno })
    } else if bytes.len() != T::spec_size() {
        Err(Error::BufferLength { expected: T::spec_size() as usize, actual: bytes.len() as usize })
    } else {
        Ok(T::decode(bytes))
    }
}

/// What a request that fills in a list came to when any result but a
/// negative one is a success.
pub open spec fn counted_list_or_error<T>(
    result: i32,
    errno: i32,
    read: Result<Seq<T>, Error>,
) -> Result<Seq<T>, Error> {
    if result >= 0 {
        read
    } else {
        Err(Error::System { errno })
    }
}

/// Why a virtual CPU stopped running and what the kernel says of it.
#[derive(Clone, Copy, Debug, PartialEq, Eq)]
pub enum VcpuExit {
    /// The guest executed a halt instruction.
    Hlt,
    /// The guest accessed an I/O port.
    Io(kvm_run_io),
    /// The guest accessed memory-mapped I/O.
    Mmio(kvm_run_mmio),
    /// A reason that this library does not interpret.
    Other { reason: u32 },
}

/// The head that a shared region holds, if the region is long enough for one.
pub open spec fn head_of(region: Seq<u8>) -> Result<kvm_run, Error> {
    if region.len() < KVM_RUN_SIZE {
        Err(Error::BufferLength { expected: KVM_RUN_SIZE, actual: region.len() as usize })
    } else {
        Ok(kvm_run::decode(region.subrange(0, KVM_RUN_SIZE as int)))
    }
}

/// What is read behind the head of a region that is long enough for it.
pub open spec fn payload_of<T: Layout>(region: Seq<u8>) -> Result<T, Error> {
    if region.len() < KVM_RUN_SIZE + T::spec_size() {
        Err(
            Error::BufferLength {
                expected: (KVM_RUN_SIZE + T::spec_size()) as usize,
                actual: region.len() as usize,
            },
        )
    } else {
        Ok(T::decode(region.subrange(KVM_RUN_SIZE as int, KVM_RUN_SIZE + T::spec_size())))
    }
}

/// Why the CPU stopped, as a shared region tells it: the reason in the head
/// decides what is read behind the head.
pub open spec fn exit_of(region: Seq<u8>) -> Result<VcpuExit, Error> {
    match head_of(region) {
        Err(e) => Err(e),
        Ok(head) => if head.exit_reason == KVM_EXIT_HLT {
            Ok(VcpuExit::Hlt)
        } else if head.exit_reason == KVM_EXIT_IO {
            match payload_of::<kvm_run_io>(region) {
                Ok(io) => Ok(VcpuExit::Io(io)),
                Err(e) => Err(e),
            }
        } else if head.exit_reason == KVM_EXIT_MMIO {
            match payload_of::<kvm_run_mmio>(region) {
                Ok(mmio) => Ok(VcpuExit::Mmio(mmio)),
                Err(e) => Err(e),
            }
        } else {
            Ok(VcpuExit::Other { reason: head.exit_reason })
        },
    }
}

/// Where in a shared region the data of a port access lie, if they lie
/// within it: from `data_offset` on, `count` data of `size` bytes.
pub open spec fn io_data_of(region: Seq<u8>, io: kvm_run_io) -> Option<Seq<u8>> {
    if io.data_offset + io.size * io.count <= region.len() {
        Some(region.subrange(io.data_offset as int, io.data_offset + io.size * io.count))
    } else {
        None
    }
}

fn read_payload<T: Layout>(region: &[u8]) -> (r: Result<T, Error>)
    requires
        KVM_RUN_SIZE + T::spec_size() <= usize::MAX,
    ensures
        r == payload_of::<T>(region@),
{
    let size = T::size();
    if region.len() < KVM_RUN_SIZE + size {
        return Err(Error::BufferLength { expected: KVM_RUN_SIZE + size, actual: region.len() });
    }
    Ok(T::get(region, KVM_RUN_SIZE))
}

fn read_structure<T: Layout>(accepted: bool, errno: i32, bytes: &[u8]) -> (r: Result<T, Error>)
    ensures
        r == structure_or_error::<T>(accepted, errno, bytes@),
{
    if !accepted {
        return Err(Error::System { errno });
    }
    match from_bytes::<T>(bytes) {
        Some(v) => Ok(v),
        None => Err(Error::BufferLength { expected: T::size(), actual: bytes.len() }),
    }
}

/// The handle for the operations on one virtual CPU, with the region that
/// the CPU shares with the kernel.
pub struct VirtualCPU {
    fd: i32,
    kvm_run: usize,
    vcpu_map_size: usize,
}

impl VirtualCPU {
    /// The number of the descriptor that the handle stands for.
    pub closed spec fn descriptor(&self) -> i32 {
        self.fd
    }

    /// The address of the shared region in this process.
    pub closed spec fn region_address(&self) -> usize {
        self.kvm_run
    }

    /// The size of the shared region in bytes.
    pub closed spec fn region_size(&self) -> usize {
        self.vcpu_map_size
    }

    /// A handle is valid if its descriptor is one that the kernel can return
    /// and its region is mapped.
    pub open spec fn wf(&self) -> bool {
        &&& self.descriptor() >= 0
        &&& self.region_address() != MAP_FAILED
        &&& self.region_size() > 0
    }

    /// The address of a mapping, from what the mapping call returned.
    pub fn map_kvm_run(address: usize, errno: i32) -> (r: Result<usize, Error>)
        ensures
            address != MAP_FAILED ==> r == Ok::<usize, Error>(address),
            address == MAP_FAILED ==> r == Err::<usize, Error>(Error::System { errno }),
    {
        if address == MAP_FAILED {
            Err(Error::System { errno })
        } else {
            Ok(address)
        }
    }

    /// The handle for the descriptor `handle` of a virtual CPU, once the
    /// region of `vcpu_map_size` bytes that it shares with the kernel has
    /// been mapped: `address` is what the mapping call returned, `errno` the
    /// code it left if it failed. There is no handle without a mapping.
    pub fn from_file(handle: i32, vcpu_map_size: usize, address: usize, errno: i32) -> (r: Result<
        VirtualCPU,
        Error,
    >)
        requires
            handle >= 0,
            vcpu_map_size > 0,
        ensures
            address != MAP_FAILED ==> (r matches Ok(vcpu) && vcpu.wf() && vcpu.descriptor()
                == handle && vcpu.region_address() == address && vcpu.region_size()
                == vcpu_map_size),
            address == MAP_FAILED ==> (r matches Err(e) && e == (Error::System { errno })),
    {
        match VirtualCPU::map_kvm_run(address, errno) {
            Ok(kvm_run) => Ok(VirtualCPU { fd: handle, kvm_run, vcpu_map_size }),
            Err(e) => Err(e),
        }
    }

    /// The number of the descriptor that the handle stands for.
    pub fn as_raw_fd(&self) -> (fd: i32)
        ensures
            fd == self.descriptor(),
    {
        self.fd
    }

    /// The address of the shared region in this process.
    pub fn kvm_run_address(&self) -> (address: usize)
        ensures
            address == self.region_address(),
    {
        self.kvm_run
    }

    /// The size of the shared region in bytes.
    pub fn vcpu_map_size(&self) -> (size: usize)
        ensures
            size == self.region_size(),
    {
        self.vcpu_map_size
    }

    /// The head of the shared region `region`.
    pub fn kvm_run(&self, region: &[u8]) -> (r: Result<kvm_run, Error>)
        ensures
            r == head_of(region@),
    {
        if region.len() < KVM_RUN_SIZE {
            return Err(Error::BufferLength { expected: KVM_RUN_SIZE, actual: region.len() });
        }
        Ok(kvm_run::get(region, 0))
    }

    /// Writes `run` over the head of the shared region `region` and leaves
    /// what lies behind the head as it is. A region too short for a head is
    /// left untouched.
    pub fn kvm_run_mut(&self, region: &mut [u8], run: &kvm_run) -> (r: Result<(), Error>)
        ensures
            old(region)@.len() >= KVM_RUN_SIZE ==> r is Ok && final(region)@ == run.encode() + old(
                region,
            )@.subrange(KVM_RUN_SIZE as int, old(region)@.len() as int),
            old(region)@.len() < KVM_RUN_SIZE ==> final(region)@ == old(region)@ && r == Err::<
                (),
                Error,
            >(Error::BufferLength { expected: KVM_RUN_SIZE, actual: old(region)@.len() as usize }),
    {
        let len = region.len();
        if len < KVM_RUN_SIZE {
            return Err(Error::BufferLength { expected: KVM_RUN_SIZE, actual: len });
        }
        let head = to_bytes(run);
        proof {
            kvm_run::lemma_encode(*run);
        }
        let mut i: usize = 0;
        while i < KVM_RUN_SIZE
            invariant
                i <= KVM_RUN_SIZE <= len,
                head@ == run.encode(),
                head@.len() == KVM_RUN_SIZE,
                region@.len() == len == old(region)@.len(),
                forall|j: int| 0 <= j < i ==> region@[j] == head@[j],
                forall|j: int| i <= j < len ==> region@[j] == old(region)@[j],
            decreases KVM_RUN_SIZE - i,
        {
            region[i] = head[i];
            i = i + 1;
        }
        assert(region@ =~= run.encode() + old(region)@.subrange(KVM_RUN_SIZE as int, len as int));
        Ok(())
    }

    /// Why the CPU stopped, as the shared region `region` tells it after a
    /// run.
    pub fn exit(&self, region: &[u8]) -> (r: Result<VcpuExit, Error>)
        ensures
            r == exit_of(region@),
    {
        let head = match self.kvm_run(region) {
            Ok(head) => head,
            Err(e) => { return Err(e); },
        };
        if head.exit_reason == KVM_EXIT_HLT {
            Ok(VcpuExit::Hlt)
        } else if head.exit_reason == KVM_EXIT_IO {
            match read_payload::<kvm_run_io>(region) {
                Ok(io) => Ok(VcpuExit::Io(io)),
                Err(e) => Err(e),
            }
        } else if head.exit_reason == KVM_EXIT_MMIO {
            match read_payload::<kvm_run_mmio>(region) {
                Ok(mmio) => Ok(VcpuExit::Mmio(mmio)),
                Err(e) => Err(e),
            }
        } else {
            Ok(VcpuExit::Other { reason: head.exit_reason })
        }
    }

    /// The data of the port access `io` within the shared region `region`;
    /// `None` if the region does not hold all of them.
    pub fn io_data<'a>(&self, region: &'a [u8], io: &kvm_run_io) -> (r: Option<&'a [u8]>)
        ensures
            match r {
                Some(data) => io_data_of(region@, *io) == Some(data@),
                None => io_data_of(region@, *io) is None,
            },
    {
        let size = io.size as u64;
        let count = io.count as u64;
        assert(size * count <= 0xff * 0xffff_ffff) by (nonlinear_arith)
            requires
                0 <= size <= 0xff,
                0 <= count <= 0xffff_ffff,
        ;
        let bytes = size * count;
        let len = region.len() as u64;
        if bytes > len || io.data_offset > len - bytes {
            return None;
        }
        let end = io.data_offset + bytes;
        Some(slice_subrange(region, io.data_offset as usize, end as usize))
    }

    /// Whether the CPU ran and stopped, from the kernel's answer to
    /// `KVM_RUN`. After `Ok` the shared region says why the guest stopped.
    pub fn run(&self, result: i32, errno: i32) -> (r: Result<bool, Error>)
        ensures
            r == true_or_error(result, errno),
    {
        if result == 0 {
            Ok(true)
        } else {
            Err(Error::System { errno })
        }
    }

    /// The general registers, from the kernel's answer to `KVM_GET_REGS` in
    /// `reply`.
    pub fn get_kvm_regs(&self, result: i32, errno: i32, reply: &[u8]) -> (r: Result<kvm_regs, Error>)
        ensures
            r == structure_or_error::<kvm_regs>(result == 0, errno, reply@),
    {
        read_structure::<kvm_regs>(result == 0, errno, reply)
    }

    /// Whether the general registers are set, from the kernel's answer to
    /// `KVM_SET_REGS`.
    pub fn set_kvm_regs(&self, result: i32, errno: i32) -> (r: Result<(), Error>)
        ensures
            r == zero_or_error(result, errno),
    {
        expect_zero(result, errno)
    }

    /// The special registers, from the kernel's answer to `KVM_GET_SREGS` in
    /// `reply`.
    pub fn get_kvm_sregs(&self, result: i32, errno: i32, reply: &[u8]) -> (r: Result<
        kvm_sregs,
        Error,
    >)
        ensures
            r == structure_or_error::<kvm_sregs>(result == 0, errno, reply@),
    {
        read_structure::<kvm_sregs>(result == 0, errno, reply)
    }

    /// Whether the special registers are set, from the kernel's answer to
    /// `KVM_SET_SREGS`.
    pub fn set_kvm_sregs(&self, result: i32, errno: i32) -> (r: Result<(), Error>)
        ensures
            r == zero_or_error(result, errno),
    {
        expect_zero(result, errno)
    }

    /// The floating-point state, from the kernel's answer to `KVM_GET_FPU`
    /// in `reply`.
    pub fn get_fpu(&self, result: i32, errno: i32, reply: &[u8]) -> (r: Result<kvm_fpu, Error>)
        ensures
            r == structure_or_error::<kvm_fpu>(result == 0, errno, reply@),
    {
        read_structure::<kvm_fpu>(result == 0, errno, reply)
    }

    /// Whether the floating-point state is set, from the kernel's answer to
    /// `KVM_SET_FPU`.
    pub fn set_fpu(&self, result: i32, errno: i32) -> (r: Result<(), Error>)
        ensures
            r == zero_or_error(result, errno),
    {
        expect_zero(result, errno)
    }

    /// The CPUID entries that the guest sees, from the kernel's answer to
    /// `KVM_GET_CPUID2` in `cpuid`.
    pub fn get_cpuid(&self, result: i32, errno: i32, cpuid: &KVMCpuid2Wrapper) -> (r: Result<
        Vec<kvm_cpuid_entry2>,
        Error,
    >)
        ensures
            match r {
                Ok(entries) => list_or_error(result, errno, cpuid.entries()) == Ok::<
                    Seq<kvm_cpuid_entry2>,
                    Error,
                >(entries@),
                Err(e) => list_or_error(result, errno, cpuid.entries()) == Err::<
                    Seq<kvm_cpuid_entry2>,
                    Error,
                >(e),
            },
    {
        if result == 0 {
            cpuid.to_entries_vec()
        } else {
            Err(Error::System { errno })
        }
    }

    /// Whether the CPUID entries are set, from the kernel's answer to
    /// `KVM_SET_CPUID2`.
    pub fn set_cpuid(&self, result: i32, errno: i32) -> (r: Result<(), Error>)
        ensures
            r == zero_or_error(result, errno),
    {
        expect_zero(result, errno)
    }

    /// The MSR entries with their values, from the kernel's answer to
    /// `KVM_GET_MSRS` in `msrs`. The kernel returns the number of registers
    /// that it read; any number but a negative one is a success.
    pub fn get_msrs(&self, result: i32, errno: i32, msrs: &KVMMSRSWrapper) -> (r: Result<
        Vec<kvm_msr_entry>,
        Error,
    >)
        ensures
            match r {
                Ok(entries) => counted_list_or_error(result, errno, msrs.entries()) == Ok::<
                    Seq<kvm_msr_entry>,
                    Error,
                >(entries@),
                Err(e) => counted_list_or_error(result, errno, msrs.entries()) == Err::<
                    Seq<kvm_msr_entry>,
                    Error,
                >(e),
            },
    {
        if result >= 0 {
            msrs.to_entries_vec()
        } else {
            Err(Error::System { errno })
        }
    }

    /// Whether the MSRs are set, from the kernel's answer to `KVM_SET_MSRS`.
    /// The kernel returns the number of registers that it wrote; any number
    /// but a negative one is a success.
    pub fn set_msrs(&self, result: i32, errno: i32) -> (r: Result<(), Error>)
        ensures
            r == done_or_error(result, errno),
    {
        if result >= 0 {
            Ok(())
        } else {
            Err(Error::System { errno })
        }
    }

    /// The state of the local interrupt controller, from the kernel's answer
    /// to `KVM_GET_LAPIC` in `reply`.
    pub fn get_lapic(&self, result: i32, errno: i32, reply: &[u8]) -> (r: Result<
        kvm_lapic_state,
        Error,
    >)
        ensures
            r == structure_or_error::<kvm_lapic_state>(result >= 0, errno, reply@),
    {
        read_structure::<kvm_lapic_state>(result >= 0, errno, reply)
    }

    /// Whether the state of the local interrupt controller is set, from the
    /// kernel's answer to `KVM_SET_LAPIC`.
    pub fn set_lapic(&self, result: i32, errno: i32) -> (r: Result<(), Error>)
        ensures
            r == done_or_error(result, errno),
    {
        if result >= 0 {
            Ok(())
        } else {
            Err(Error::System { errno })
        }
    }
}

} // verus!
