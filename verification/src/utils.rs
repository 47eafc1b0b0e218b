//! Buffers for the requests that carry a list: CPUID entries, MSR entries, MSR
//! indices.
//!
//! Each wrapper owns one buffer laid out as the kernel wants it, a header with
//! the number of entries followed by the entries. A wrapper is viewed as the
//! bytes of its buffer; what those bytes mean is said by [`entries_of`].

use crate::error::Error;
use crate::layout::{u32_le, zeros, Layout};
use crate::linux::kvm_structs::{
    kvm_cpuid_entry2, kvm_msr_entry, KVM_CPUID2_SIZE, KVM_MSRS_SIZE, KVM_MSR_LIST_SIZE,
};
use crate::payload::{allocate, entries_of, pack, payload, unpack};
use vstd::prelude::*;

verus! {

/// The entry that asks for the value of the register `index`.
pub open spec fn msr_query(index: u32) -> kvm_msr_entry {
    kvm_msr_entry { index, reserved: 0, data: 0 }
}

/// A list of CPUID entries in the kernel's layout.
pub struct KVMCpuid2Wrapper {
    buf: Vec<u8>,
}

impl View for KVMCpuid2Wrapper {
    type V = Seq<u8>;

    closed spec fn view(&self) -> Seq<u8> {
        self.buf@
    }
}

impl KVMCpuid2Wrapper {
    /// What the buffer holds, read as a list of CPUID entries.
    pub open spec fn entries(&self) -> Result<Seq<kvm_cpuid_entry2>, Error> {
        entries_of::<kvm_cpuid_entry2>(KVM_CPUID2_SIZE as nat, self@)
    }

    /// A zeroed buffer with room for `num_entries` entries, its header saying so.
    pub fn new(num_entries: u32) -> (w: KVMCpuid2Wrapper)
        requires
            KVM_CPUID2_SIZE + num_entries * kvm_cpuid_entry2::spec_size() <= usize::MAX,
        ensures
            w@ == payload(
                KVM_CPUID2_SIZE as nat,
                Seq::new(num_entries as nat, |i: int| kvm_cpuid_entry2::zeroed()),
            ),
            w@ == u32_le(num_entries) + zeros((4 + num_entries * 40) as nat),
    {
        KVMCpuid2Wrapper { buf: allocate::<kvm_cpuid_entry2>(KVM_CPUID2_SIZE, num_entries) }
    }

    /// A buffer that holds exactly `cpuid_entries`, in their order.
    pub fn from_cpuid_entries(cpuid_entries: &[kvm_cpuid_entry2]) -> (w: KVMCpuid2Wrapper)
        requires
            cpuid_entries.len() <= u32::MAX,
        ensures
            w@ == payload(KVM_CPUID2_SIZE as nat, cpuid_entries@),
    {
        KVMCpuid2Wrapper { buf: pack(KVM_CPUID2_SIZE, cpuid_entries) }
    }

    /// The entries that the buffer now declares, in the order they lie in it.
    pub fn to_entries_vec(&self) -> (r: Result<Vec<kvm_cpuid_entry2>, Error>)
        ensures
            match r {
                Ok(entries) => self.entries() == Ok::<Seq<kvm_cpuid_entry2>, Error>(entries@),
                Err(e) => self.entries() == Err::<Seq<kvm_cpuid_entry2>, Error>(e),
            },
    {
        unpack::<kvm_cpuid_entry2>(KVM_CPUID2_SIZE, self.buf.as_slice())
    }

    /// The buffer, for the kernel to read and to fill in.
    pub fn as_mut_ptr(&mut self) -> (bytes: &mut [u8])
        ensures
            bytes@ == old(self)@,
            final(self)@ == final(bytes)@,
    {
        self.buf.as_mut_slice()
    }

    /// The buffer, for the kernel to read.
    pub fn as_ptr(&self) -> (bytes: &[u8])
        ensures
            bytes@ == self@,
    {
        self.buf.as_slice()
    }
}

/// A list of MSR entries in the kernel's layout.
pub struct KVMMSRSWrapper {
    buf: Vec<u8>,
}

impl View for KVMMSRSWrapper {
    type V = Seq<u8>;

    closed spec fn view(&self) -> Seq<u8> {
        self.buf@
    }
}

impl KVMMSRSWrapper {
    /// What the buffer holds, read as a list of MSR entries.
    pub open spec fn entries(&self) -> Result<Seq<kvm_msr_entry>, Error> {
        entries_of::<kvm_msr_entry>(KVM_MSRS_SIZE as nat, self@)
    }

    /// A zeroed buffer with room for `num_entries` entries, its header saying so.
    pub fn new(num_entries: u32) -> (w: KVMMSRSWrapper)
        requires
            KVM_MSRS_SIZE + num_entries * kvm_msr_entry::spec_size() <= usize::MAX,
        ensures
            w@ == payload(
                KVM_MSRS_SIZE as nat,
                Seq::new(num_entries as nat, |i: int| kvm_msr_entry::zeroed()),
            ),
            w@ == u32_le(num_entries) + zeros((4 + num_entries * 16) as nat),
    {
        KVMMSRSWrapper { buf: allocate::<kvm_msr_entry>(KVM_MSRS_SIZE, num_entries) }
    }

    /// A buffer that asks for the registers `msr_indices`: one entry for each
    /// index, in their order, with everything but the index zero.
    pub fn from_msr_indices(msr_indices: &[u32]) -> (w: KVMMSRSWrapper)
        requires
            msr_indices.len() <= u32::MAX,
        ensures
            w@ == payload(KVM_MSRS_SIZE as nat, msr_indices@.map_values(|i: u32| msr_query(i))),
    {
        let n = msr_indices.len();
        let mut entries: Vec<kvm_msr_entry> = Vec::new();
        let mut k: usize = 0;
        while k < n
            invariant
                k <= n == msr_indices.len(),
                entries@ == msr_indices@.take(k as int).map_values(|i: u32| msr_query(i)),
            decreases n - k,
        {
            entries.push(kvm_msr_entry { index: msr_indices[k], reserved: 0, data: 0 });
            k = k + 1;
            assert(entries@ =~= msr_indices@.take(k as int).map_values(|i: u32| msr_query(i)));
        }
        assert(msr_indices@.take(n as int) =~= msr_indices@);
        KVMMSRSWrapper { buf: pack(KVM_MSRS_SIZE, entries.as_slice()) }
    }

    /// A buffer that holds exactly `msr_entries`, in their order.
    pub fn from_msr_entries(msr_entries: &[kvm_msr_entry]) -> (w: KVMMSRSWrapper)
        requires
            msr_entries.len() <= u32::MAX,
        ensures
            w@ == payload(KVM_MSRS_SIZE as nat, msr_entries@),
    {
        KVMMSRSWrapper { buf: pack(KVM_MSRS_SIZE, msr_entries) }
    }

    /// The entries that the buffer now declares, in the order they lie in it.
    pub fn to_entries_vec(&self) -> (r: Result<Vec<kvm_msr_entry>, Error>)
        ensures
            match r {
                Ok(entries) => self.entries() == Ok::<Seq<kvm_msr_entry>, Error>(entries@),
                Err(e) => self.entries() == Err::<Seq<kvm_msr_entry>, Error>(e),
            },
    {
        unpack::<kvm_msr_entry>(KVM_MSRS_SIZE, self.buf.as_slice())
    }

    /// The buffer, for the kernel to read and to fill in.
    pub fn as_mut_ptr(&mut self) -> (bytes: &mut [u8])
        ensures
            bytes@ == old(self)@,
            final(self)@ == final(bytes)@,
    {
        self.buf.as_mut_slice()
    }

    /// The buffer, for the kernel to read.
    pub fn as_ptr(&self) -> (bytes: &[u8])
        ensures
            bytes@ == self@,
    {
        self.buf.as_slice()
    }
}

/// A list of MSR indices in the kernel's layout.
pub struct KVMMSRListWrapper {
    buf: Vec<u8>,
}

impl View for KVMMSRListWrapper {
    type V = Seq<u8>;

    closed spec fn view(&self) -> Seq<u8> {
        self.buf@
    }
}

impl KVMMSRListWrapper {
    /// What the buffer holds, read as a list of MSR indices.
    pub open spec fn indices(&self) -> Result<Seq<u32>, Error> {
        entries_of::<u32>(KVM_MSR_LIST_SIZE as nat, self@)
    }

    /// A zeroed buffer with room for `num_entries` indices, its header saying so.
    pub fn new(num_entries: u32) -> (w: KVMMSRListWrapper)
        requires
            KVM_MSR_LIST_SIZE + num_entries * u32::spec_size() <= usize::MAX,
        ensures
            w@ == payload(KVM_MSR_LIST_SIZE as nat, Seq::new(num_entries as nat, |i: int| 0u32)),
            w@ == u32_le(num_entries) + zeros((num_entries * 4) as nat),
    {
        KVMMSRListWrapper { buf: allocate::<u32>(KVM_MSR_LIST_SIZE, num_entries) }
    }

    /// The indices that the buffer now declares, in the order they lie in it.
    pub fn to_indices_vec(&self) -> (r: Result<Vec<u32>, Error>)
        ensures
            match r {
                Ok(indices) => self.indices() == Ok::<Seq<u32>, Error>(indices@),
                Err(e) => self.indices() == Err::<Seq<u32>, Error>(e),
            },
    {
        unpack::<u32>(KVM_MSR_LIST_SIZE, self.buf.as_slice())
    }

    /// The buffer, for the kernel to read and to fill in.
    pub fn as_mut_ptr(&mut self) -> (bytes: &mut [u8])
        ensures
            bytes@ == old(self)@,
            final(self)@ == final(bytes)@,
    {
        self.buf.as_mut_slice()
    }
}

} // verus!
