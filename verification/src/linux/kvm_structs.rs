//! The structures that KVM requests carry.

use crate::layout::{
    array_of, get_bytes, get_u16, get_u32, get_u64, get_u8, lemma_append_keeps,
    lemma_append_twice, lemma_array_of, lemma_array_of_view, lemma_read_within,
    lemma_subrange_join, lemma_subrange_within, lemma_u16_le, lemma_u32_le, lemma_u64_le,
    lemma_u8_le, lemma_zeros_join, put_bytes, put_u16, put_u32, put_u64, put_u8, u16_at, u16_le,
    u32_at, u32_le, u64_at, u64_le, zeros, Layout,
};
use vstd::array::group_array_axioms;
use vstd::prelude::*;

verus! {

/// Bytes of a `kvm_userspace_memory_region`.
pub const KVM_USERSPACE_MEMORY_REGION_SIZE: usize = 32;

/// Bytes of a `kvm_regs`.
pub const KVM_REGS_SIZE: usize = 144;

/// Bytes of a `kvm_segment`.
pub const KVM_SEGMENT_SIZE: usize = 24;

/// Bytes of a `kvm_dtable`.
pub const KVM_DTABLE_SIZE: usize = 16;

/// Bytes of a `kvm_sregs`.
pub const KVM_SREGS_SIZE: usize = 312;

/// Bytes of a `kvm_fpu`.
pub const KVM_FPU_SIZE: usize = 416;

/// Bytes of a `kvm_lapic_state`.
pub const KVM_LAPIC_STATE_SIZE: usize = 1024;

/// Bytes of the configuration of the in-kernel interval timer.
pub const KVM_PIT_CONFIG_SIZE: usize = 64;

/// Bytes of a `kvm_msr_entry`.
pub const KVM_MSR_ENTRY_SIZE: usize = 16;

/// Bytes of a `kvm_cpuid_entry2`.
pub const KVM_CPUID_ENTRY2_SIZE: usize = 40;

/// Bytes of the header in front of a list of CPUID entries: their number and a
/// padding word.
pub const KVM_CPUID2_SIZE: usize = 8;

/// Bytes of the header in front of a list of MSR entries: their number and a
/// padding word.
pub const KVM_MSRS_SIZE: usize = 8;

/// Bytes of the header in front of a list of MSR indices: their number.
pub const KVM_MSR_LIST_SIZE: usize = 4;

/// A slot of guest memory as a virtual machine is told of it.
#[derive(Clone, Copy, Debug, PartialEq, Eq, Structural)]
pub struct kvm_userspace_memory_region {
    pub slot: u32,
    pub flags: u32,
    pub guest_phys_addr: u64,
    pub memory_size: u64,
    pub userspace_addr: u64,
}

/// Where the parts of a `kvm_userspace_memory_region` lie in its bytes.
proof fn lemma_kvm_userspace_memory_region_parts(
    e0: Seq<u8>,
    e1: Seq<u8>,
    e2: Seq<u8>,
    e3: Seq<u8>,
    e4: Seq<u8>,
)
    requires
        e0.len() == 4,
        e1.len() == 4,
        e2.len() == 8,
        e3.len() == 8,
        e4.len() == 8,
    ensures
        ({
            let bytes = e0 + e1 + e2 + e3 + e4;
            &&& bytes.len() == 32
            &&& bytes.subrange(0, 4) == e0
            &&& bytes.subrange(4, 8) == e1
            &&& bytes.subrange(8, 16) == e2
            &&& bytes.subrange(16, 24) == e3
            &&& bytes.subrange(24, 32) == e4
        }),
{
    let upto0 = e0;
    lemma_subrange_join(e0, 0, 0, 0);
    let upto1 = upto0 + e1;
    lemma_append_keeps(upto0, e1);
    let upto2 = upto1 + e2;
    lemma_append_keeps(upto1, e2);
    let upto3 = upto2 + e3;
    lemma_append_keeps(upto2, e3);
    let upto4 = upto3 + e4;
    lemma_append_keeps(upto3, e4);
}

impl Layout for kvm_userspace_memory_region {
    open spec fn spec_size() -> nat {
        KVM_USERSPACE_MEMORY_REGION_SIZE as nat
    }

    open spec fn encode(&self) -> Seq<u8> {
        u32_le(self.slot) + u32_le(self.flags) + u64_le(self.guest_phys_addr)
            + u64_le(self.memory_size) + u64_le(self.userspace_addr)
    }

    open spec fn decode(bytes: Seq<u8>) -> Self {
        kvm_userspace_memory_region {
            slot: u32_at(bytes, 0),
            flags: u32_at(bytes, 4),
            guest_phys_addr: u64_at(bytes, 8),
            memory_size: u64_at(bytes, 16),
            userspace_addr: u64_at(bytes, 24),
        }
    }

    open spec fn zeroed() -> Self {
        kvm_userspace_memory_region {
            slot: 0u32,
            flags: 0u32,
            guest_phys_addr: 0u64,
            memory_size: 0u64,
            userspace_addr: 0u64,
        }
    }

    proof fn lemma_size() {
    }

    proof fn lemma_encode(v: Self) {
        let bytes = v.encode();
        lemma_u32_le(v.slot, Seq::empty());
        lemma_u32_le(v.flags, Seq::empty());
        lemma_u64_le(v.guest_phys_addr, Seq::empty());
        lemma_u64_le(v.memory_size, Seq::empty());
        lemma_u64_le(v.userspace_addr, Seq::empty());
        lemma_kvm_userspace_memory_region_parts(
            u32_le(v.slot),
            u32_le(v.flags),
            u64_le(v.guest_phys_addr),
            u64_le(v.memory_size),
            u64_le(v.userspace_addr),
        );
        lemma_read_within(bytes, 0, 4);
        assert(u32_at(bytes, 0) == u32_at(bytes.subrange(0, 4), 0));
        lemma_read_within(bytes, 4, 8);
        assert(u32_at(bytes, 4) == u32_at(bytes.subrange(4, 8), 0));
        lemma_read_within(bytes, 8, 16);
        assert(u64_at(bytes, 8) == u64_at(bytes.subrange(8, 16), 0));
        lemma_read_within(bytes, 16, 24);
        assert(u64_at(bytes, 16) == u64_at(bytes.subrange(16, 24), 0));
        lemma_read_within(bytes, 24, 32);
        assert(u64_at(bytes, 24) == u64_at(bytes.subrange(24, 32), 0));
    }

    proof fn lemma_decode(bytes: Seq<u8>) {
        let v = Self::decode(bytes);
        lemma_u32_le(0, bytes.subrange(0, 4));
        lemma_read_within(bytes, 0, 4);
        assert(u32_at(bytes, 0) == u32_at(bytes.subrange(0, 4), 0));
        assert(u32_le(v.slot) == bytes.subrange(0, 4));
        lemma_u32_le(0, bytes.subrange(4, 8));
        lemma_read_within(bytes, 4, 8);
        assert(u32_at(bytes, 4) == u32_at(bytes.subrange(4, 8), 0));
        assert(u32_le(v.flags) == bytes.subrange(4, 8));
        lemma_subrange_join(bytes, 0, 4, 8);
        lemma_u64_le(0, bytes.subrange(8, 16));
        lemma_read_within(bytes, 8, 16);
        assert(u64_at(bytes, 8) == u64_at(bytes.subrange(8, 16), 0));
        assert(u64_le(v.guest_phys_addr) == bytes.subrange(8, 16));
        lemma_subrange_join(bytes, 0, 8, 16);
        lemma_u64_le(0, bytes.subrange(16, 24));
        lemma_read_within(bytes, 16, 24);
        assert(u64_at(bytes, 16) == u64_at(bytes.subrange(16, 24), 0));
        assert(u64_le(v.memory_size) == bytes.subrange(16, 24));
        lemma_subrange_join(bytes, 0, 16, 24);
        lemma_u64_le(0, bytes.subrange(24, 32));
        lemma_read_within(bytes, 24, 32);
        assert(u64_at(bytes, 24) == u64_at(bytes.subrange(24, 32), 0));
        assert(u64_le(v.userspace_addr) == bytes.subrange(24, 32));
        lemma_subrange_join(bytes, 0, 24, 32);
        lemma_subrange_join(bytes, 0, 0, 0);
        assert(v.encode() == bytes.subrange(0, KVM_USERSPACE_MEMORY_REGION_SIZE as int));
    }

    proof fn lemma_zeroed() {
        let v = Self::zeroed();
        lemma_u32_le(0, Seq::empty());
        assert(u32_le(v.slot) == zeros(4));
        assert(u32_le(v.flags) == zeros(4));
        lemma_zeros_join(4, 4);
        lemma_u64_le(0, Seq::empty());
        assert(u64_le(v.guest_phys_addr) == zeros(8));
        lemma_zeros_join(8, 8);
        assert(u64_le(v.memory_size) == zeros(8));
        lemma_zeros_join(16, 8);
        assert(u64_le(v.userspace_addr) == zeros(8));
        lemma_zeros_join(24, 8);
        assert(v.encode() == zeros(KVM_USERSPACE_MEMORY_REGION_SIZE as nat));
    }

    fn size() -> usize {
        KVM_USERSPACE_MEMORY_REGION_SIZE
    }

    fn put(&self, out: &mut Vec<u8>) {
        put_u32(out, self.slot);
        let ghost c0 = u32_le(self.slot);
        assert(out@ == old(out)@ + c0);
        put_u32(out, self.flags);
        let ghost c1 = c0 + u32_le(self.flags);
        proof {
            lemma_append_twice(old(out)@, c0, u32_le(self.flags));
        }
        assert(out@ == old(out)@ + c1);
        put_u64(out, self.guest_phys_addr);
        let ghost c2 = c1 + u64_le(self.guest_phys_addr);
        proof {
            lemma_append_twice(old(out)@, c1, u64_le(self.guest_phys_addr));
        }
        assert(out@ == old(out)@ + c2);
        put_u64(out, self.memory_size);
        let ghost c3 = c2 + u64_le(self.memory_size);
        proof {
            lemma_append_twice(old(out)@, c2, u64_le(self.memory_size));
        }
        assert(out@ == old(out)@ + c3);
        put_u64(out, self.userspace_addr);
        let ghost c4 = c3 + u64_le(self.userspace_addr);
        proof {
            lemma_append_twice(old(out)@, c3, u64_le(self.userspace_addr));
        }
        assert(out@ == old(out)@ + c4);
    }

    fn get(bytes: &[u8], at: usize) -> Self {
        proof {
            lemma_read_within(bytes@, at as int, at + KVM_USERSPACE_MEMORY_REGION_SIZE);
        }
        kvm_userspace_memory_region {
            slot: get_u32(bytes, at),
            flags: get_u32(bytes, at + 4),
            guest_phys_addr: get_u64(bytes, at + 8),
            memory_size: get_u64(bytes, at + 16),
            userspace_addr: get_u64(bytes, at + 24),
        }
    }
}

impl Default for kvm_userspace_memory_region {
    /// The value all of whose fields are zero.
    fn default() -> (v: Self)
        ensures
            v == Self::zeroed(),
    {
        kvm_userspace_memory_region {
            slot: 0u32,
            flags: 0u32,
            guest_phys_addr: 0u64,
            memory_size: 0u64,
            userspace_addr: 0u64,
        }
    }
}

/// The general registers of a virtual CPU.
#[derive(Clone, Copy, Debug, PartialEq, Eq, Structural)]
pub struct kvm_regs {
    pub rax: u64,
    pub rbx: u64,
    pub rcx: u64,
    pub rdx: u64,
    pub rsi: u64,
    pub rdi: u64,
    pub rsp: u64,
    pub rbp: u64,
    pub r8: u64,
    pub r9: u64,
    pub r10: u64,
    pub r11: u64,
    pub r12: u64,
    pub r13: u64,
    pub r14: u64,
    pub r15: u64,
    pub rip: u64,
    pub rflags: u64,
}

/// Where the parts of a `kvm_regs` lie in its bytes.
proof fn lemma_kvm_regs_parts(
    e0: Seq<u8>,
    e1: Seq<u8>,
    e2: Seq<u8>,
    e3: Seq<u8>,
    e4: Seq<u8>,
    e5: Seq<u8>,
    e6: Seq<u8>,
    e7: Seq<u8>,
    e8: Seq<u8>,
    e9: Seq<u8>,
    e10: Seq<u8>,
    e11: Seq<u8>,
    e12: Seq<u8>,
    e13: Seq<u8>,
    e14: Seq<u8>,
    e15: Seq<u8>,
    e16: Seq<u8>,
    e17: Seq<u8>,
)
    requires
        e0.len() == 8,
        e1.len() == 8,
        e2.len() == 8,
        e3.len() == 8,
        e4.len() == 8,
        e5.len() == 8,
        e6.len() == 8,
        e7.len() == 8,
        e8.len() == 8,
        e9.len() == 8,
        e10.len() == 8,
        e11.len() == 8,
        e12.len() == 8,
        e13.len() == 8,
        e14.len() == 8,
        e15.len() == 8,
        e16.len() == 8,
        e17.len() == 8,
    ensures
        ({
            let bytes = e0 + e1 + e2 + e3 + e4 + e5 + e6 + e7 + e8 + e9 + e10 + e11 + e12 + e13 + e14 + e15
                + e16 + e17;
            &&& bytes.len() == 144
            &&& bytes.subrange(0, 8) == e0
            &&& bytes.subrange(8, 16) == e1
            &&& bytes.subrange(16, 24) == e2
            &&& bytes.subrange(24, 32) == e3
            &&& bytes.subrange(32, 40) == e4
            &&& bytes.subrange(40, 48) == e5
            &&& bytes.subrange(48, 56) == e6
            &&& bytes.subrange(56, 64) == e7
            &&& bytes.subrange(64, 72) == e8
            &&& bytes.subrange(72, 80) == e9
            &&& bytes.subrange(80, 88) == e10
            &&& bytes.subrange(88, 96) == e11
            &&& bytes.subrange(96, 104) == e12
            &&& bytes.subrange(104, 112) == e13
            &&& bytes.subrange(112, 120) == e14
            &&& bytes.subrange(120, 128) == e15
            &&& bytes.subrange(128, 136) == e16
            &&& bytes.subrange(136, 144) == e17
        }),
{
    let upto0 = e0;
    lemma_subrange_join(e0, 0, 0, 0);
    let upto1 = upto0 + e1;
    lemma_append_keeps(upto0, e1);
    let upto2 = upto1 + e2;
    lemma_append_keeps(upto1, e2);
    let upto3 = upto2 + e3;
    lemma_append_keeps(upto2, e3);
    let upto4 = upto3 + e4;
    lemma_append_keeps(upto3, e4);
    let upto5 = upto4 + e5;
    lemma_append_keeps(upto4, e5);
    let upto6 = upto5 + e6;
    lemma_append_keeps(upto5, e6);
    let upto7 = upto6 + e7;
    lemma_append_keeps(upto6, e7);
    let upto8 = upto7 + e8;
    lemma_append_keeps(upto7, e8);
    let upto9 = upto8 + e9;
    lemma_append_keeps(upto8, e9);
    let upto10 = upto9 + e10;
    lemma_append_keeps(upto9, e10);
    let upto11 = upto10 + e11;
    lemma_append_keeps(upto10, e11);
    let upto12 = upto11 + e12;
    lemma_append_keeps(upto11, e12);
    let upto13 = upto12 + e13;
    lemma_append_keeps(upto12, e13);
    let upto14 = upto13 + e14;
    lemma_append_keeps(upto13, e14);
    let upto15 = upto14 + e15;
    lemma_append_keeps(upto14, e15);
    let upto16 = upto15 + e16;
    lemma_append_keeps(upto15, e16);
    let upto17 = upto16 + e17;
    lemma_append_keeps(upto16, e17);
}

impl Layout for kvm_regs {
    open spec fn spec_size() -> nat {
        KVM_REGS_SIZE as nat
    }

    open spec fn encode(&self) -> Seq<u8> {
        u64_le(self.rax) + u64_le(self.rbx) + u64_le(self.rcx) + u64_le(self.rdx)
            + u64_le(self.rsi) + u64_le(self.rdi) + u64_le(self.rsp) + u64_le(self.rbp)
            + u64_le(self.r8) + u64_le(self.r9) + u64_le(self.r10) + u64_le(self.r11)
            + u64_le(self.r12) + u64_le(self.r13) + u64_le(self.r14) + u64_le(self.r15)
            + u64_le(self.rip) + u64_le(self.rflags)
    }

    open spec fn decode(bytes: Seq<u8>) -> Self {
        kvm_regs {
            rax: u64_at(bytes, 0),
            rbx: u64_at(bytes, 8),
            rcx: u64_at(bytes, 16),
            rdx: u64_at(bytes, 24),
            rsi: u64_at(bytes, 32),
            rdi: u64_at(bytes, 40),
            rsp: u64_at(bytes, 48),
            rbp: u64_at(bytes, 56),
            r8: u64_at(bytes, 64),
            r9: u64_at(bytes, 72),
            r10: u64_at(bytes, 80),
            r11: u64_at(bytes, 88),
            r12: u64_at(bytes, 96),
            r13: u64_at(bytes, 104),
            r14: u64_at(bytes, 112),
            r15: u64_at(bytes, 120),
            rip: u64_at(bytes, 128),
            rflags: u64_at(bytes, 136),
        }
    }

    open spec fn zeroed() -> Self {
        kvm_regs {
            rax: 0u64,
            rbx: 0u64,
            rcx: 0u64,
            rdx: 0u64,
            rsi: 0u64,
            rdi: 0u64,
            rsp: 0u64,
            rbp: 0u64,
            r8: 0u64,
            r9: 0u64,
            r10: 0u64,
            r11: 0u64,
            r12: 0u64,
            r13: 0u64,
            r14: 0u64,
            r15: 0u64,
            rip: 0u64,
            rflags: 0u64,
        }
    }

    proof fn lemma_size() {
    }

    proof fn lemma_encode(v: Self) {
        let bytes = v.encode();
        lemma_u64_le(v.rax, Seq::empty());
        lemma_u64_le(v.rbx, Seq::empty());
        lemma_u64_le(v.rcx, Seq::empty());
        lemma_u64_le(v.rdx, Seq::empty());
        lemma_u64_le(v.rsi, Seq::empty());
        lemma_u64_le(v.rdi, Seq::empty());
        lemma_u64_le(v.rsp, Seq::empty());
        lemma_u64_le(v.rbp, Seq::empty());
        lemma_u64_le(v.r8, Seq::empty());
        lemma_u64_le(v.r9, Seq::empty());
        lemma_u64_le(v.r10, Seq::empty());
        lemma_u64_le(v.r11, Seq::empty());
        lemma_u64_le(v.r12, Seq::empty());
        lemma_u64_le(v.r13, Seq::empty());
        lemma_u64_le(v.r14, Seq::empty());
        lemma_u64_le(v.r15, Seq::empty());
        lemma_u64_le(v.rip, Seq::empty());
        lemma_u64_le(v.rflags, Seq::empty());
        lemma_kvm_regs_parts(
            u64_le(v.rax),
            u64_le(v.rbx),
            u64_le(v.rcx),
            u64_le(v.rdx),
            u64_le(v.rsi),
            u64_le(v.rdi),
            u64_le(v.rsp),
            u64_le(v.rbp),
            u64_le(v.r8),
            u64_le(v.r9),
            u64_le(v.r10),
            u64_le(v.r11),
            u64_le(v.r12),
            u64_le(v.r13),
            u64_le(v.r14),
            u64_le(v.r15),
            u64_le(v.rip),
            u64_le(v.rflags),
        );
        lemma_read_within(bytes, 0, 8);
        assert(u64_at(bytes, 0) == u64_at(bytes.subrange(0, 8), 0));
        lemma_read_within(bytes, 8, 16);
        assert(u64_at(bytes, 8) == u64_at(bytes.subrange(8, 16), 0));
        lemma_read_within(bytes, 16, 24);
        assert(u64_at(bytes, 16) == u64_at(bytes.subrange(16, 24), 0));
        lemma_read_within(bytes, 24, 32);
        assert(u64_at(bytes, 24) == u64_at(bytes.subrange(24, 32), 0));
        lemma_read_within(bytes, 32, 40);
        assert(u64_at(bytes, 32) == u64_at(bytes.subrange(32, 40), 0));
        lemma_read_within(bytes, 40, 48);
        assert(u64_at(bytes, 40) == u64_at(bytes.subrange(40, 48), 0));
        lemma_read_within(bytes, 48, 56);
        assert(u64_at(bytes, 48) == u64_at(bytes.subrange(48, 56), 0));
        lemma_read_within(bytes, 56, 64);
        assert(u64_at(bytes, 56) == u64_at(bytes.subrange(56, 64), 0));
        lemma_read_within(bytes, 64, 72);
        assert(u64_at(bytes, 64) == u64_at(bytes.subrange(64, 72), 0));
        lemma_read_within(bytes, 72, 80);
        assert(u64_at(bytes, 72) == u64_at(bytes.subrange(72, 80), 0));
        lemma_read_within(bytes, 80, 88);
        assert(u64_at(bytes, 80) == u64_at(bytes.subrange(80, 88), 0));
        lemma_read_within(bytes, 88, 96);
        assert(u64_at(bytes, 88) == u64_at(bytes.subrange(88, 96), 0));
        lemma_read_within(bytes, 96, 104);
        assert(u64_at(bytes, 96) == u64_at(bytes.subrange(96, 104), 0));
        lemma_read_within(bytes, 104, 112);
        assert(u64_at(bytes, 104) == u64_at(bytes.subrange(104, 112), 0));
        lemma_read_within(bytes, 112, 120);
        assert(u64_at(bytes, 112) == u64_at(bytes.subrange(112, 120), 0));
        lemma_read_within(bytes, 120, 128);
        assert(u64_at(bytes, 120) == u64_at(bytes.subrange(120, 128), 0));
        lemma_read_within(bytes, 128, 136);
        assert(u64_at(bytes, 128) == u64_at(bytes.subrange(128, 136), 0));
        lemma_read_within(bytes, 136, 144);
        assert(u64_at(bytes, 136) == u64_at(bytes.subrange(136, 144), 0));
    }

    proof fn lemma_decode(bytes: Seq<u8>) {
        let v = Self::decode(bytes);
        lemma_u64_le(0, bytes.subrange(0, 8));
        lemma_read_within(bytes, 0, 8);
        assert(u64_at(bytes, 0) == u64_at(bytes.subrange(0, 8), 0));
        assert(u64_le(v.rax) == bytes.subrange(0, 8));
        lemma_u64_le(0, bytes.subrange(8, 16));
        lemma_read_within(bytes, 8, 16);
        assert(u64_at(bytes, 8) == u64_at(bytes.subrange(8, 16), 0));
        assert(u64_le(v.rbx) == bytes.subrange(8, 16));
        lemma_subrange_join(bytes, 0, 8, 16);
        lemma_u64_le(0, bytes.subrange(16, 24));
        lemma_read_within(bytes, 16, 24);
        assert(u64_at(bytes, 16) == u64_at(bytes.subrange(16, 24), 0));
        assert(u64_le(v.rcx) == bytes.subrange(16, 24));
        lemma_subrange_join(bytes, 0, 16, 24);
        lemma_u64_le(0, bytes.subrange(24, 32));
        lemma_read_within(bytes, 24, 32);
        assert(u64_at(bytes, 24) == u64_at(bytes.subrange(24, 32), 0));
        assert(u64_le(v.rdx) == bytes.subrange(24, 32));
        lemma_subrange_join(bytes, 0, 24, 32);
        lemma_u64_le(0, bytes.subrange(32, 40));
        lemma_read_within(bytes, 32, 40);
        assert(u64_at(bytes, 32) == u64_at(bytes.subrange(32, 40), 0));
        assert(u64_le(v.rsi) == bytes.subrange(32, 40));
        lemma_subrange_join(bytes, 0, 32, 40);
        lemma_u64_le(0, bytes.subrange(40, 48));
        lemma_read_within(bytes, 40, 48);
        assert(u64_at(bytes, 40) == u64_at(bytes.subrange(40, 48), 0));
        assert(u64_le(v.rdi) == bytes.subrange(40, 48));
        lemma_subrange_join(bytes, 0, 40, 48);
        lemma_u64_le(0, bytes.subrange(48, 56));
        lemma_read_within(bytes, 48, 56);
        assert(u64_at(bytes, 48) == u64_at(bytes.subrange(48, 56), 0));
        assert(u64_le(v.rsp) == bytes.subrange(48, 56));
        lemma_subrange_join(bytes, 0, 48, 56);
        lemma_u64_le(0, bytes.subrange(56, 64));
        lemma_read_within(bytes, 56, 64);
        assert(u64_at(bytes, 56) == u64_at(bytes.subrange(56, 64), 0));
        assert(u64_le(v.rbp) == bytes.subrange(56, 64));
        lemma_subrange_join(bytes, 0, 56, 64);
        lemma_u64_le(0, bytes.subrange(64, 72));
        lemma_read_within(bytes, 64, 72);
        assert(u64_at(bytes, 64) == u64_at(bytes.subrange(64, 72), 0));
        assert(u64_le(v.r8) == bytes.subrange(64, 72));
        lemma_subrange_join(bytes, 0, 64, 72);
        lemma_u64_le(0, bytes.subrange(72, 80));
        lemma_read_within(bytes, 72, 80);
        assert(u64_at(bytes, 72) == u64_at(bytes.subrange(72, 80), 0));
        assert(u64_le(v.r9) == bytes.subrange(72, 80));
        lemma_subrange_join(bytes, 0, 72, 80);
        lemma_u64_le(0, bytes.subrange(80, 88));
        lemma_read_within(bytes, 80, 88);
        assert(u64_at(bytes, 80) == u64_at(bytes.subrange(80, 88), 0));
        assert(u64_le(v.r10) == bytes.subrange(80, 88));
        lemma_subrange_join(bytes, 0, 80, 88);
        lemma_u64_le(0, bytes.subrange(88, 96));
        lemma_read_within(bytes, 88, 96);
        assert(u64_at(bytes, 88) == u64_at(bytes.subrange(88, 96), 0));
        assert(u64_le(v.r11) == bytes.subrange(88, 96));
        lemma_subrange_join(bytes, 0, 88, 96);
        lemma_u64_le(0, bytes.subrange(96, 104));
        lemma_read_within(bytes, 96, 104);
        assert(u64_at(bytes, 96) == u64_at(bytes.subrange(96, 104), 0));
        assert(u64_le(v.r12) == bytes.subrange(96, 104));
        lemma_subrange_join(bytes, 0, 96, 104);
        lemma_u64_le(0, bytes.subrange(104, 112));
        lemma_read_within(bytes, 104, 112);
        assert(u64_at(bytes, 104) == u64_at(bytes.subrange(104, 112), 0));
        assert(u64_le(v.r13) == bytes.subrange(104, 112));
        lemma_subrange_join(bytes, 0, 104, 112);
        lemma_u64_le(0, bytes.subrange(112, 120));
        lemma_read_within(bytes, 112, 120);
        assert(u64_at(bytes, 112) == u64_at(bytes.subrange(112, 120), 0));
        assert(u64_le(v.r14) == bytes.subrange(112, 120));
        lemma_subrange_join(bytes, 0, 112, 120);
        lemma_u64_le(0, bytes.subrange(120, 128));
        lemma_read_within(bytes, 120, 128);
        assert(u64_at(bytes, 120) == u64_at(bytes.subrange(120, 128), 0));
        assert(u64_le(v.r15) == bytes.subrange(120, 128));
        lemma_subrange_join(bytes, 0, 120, 128);
        lemma_u64_le(0, bytes.subrange(128, 136));
        lemma_read_within(bytes, 128, 136);
        assert(u64_at(bytes, 128) == u64_at(bytes.subrange(128, 136), 0));
        assert(u64_le(v.rip) == bytes.subrange(128, 136));
        lemma_subrange_join(bytes, 0, 128, 136);
        lemma_u64_le(0, bytes.subrange(136, 144));
        lemma_read_within(bytes, 136, 144);
        assert(u64_at(bytes, 136) == u64_at(bytes.subrange(136, 144), 0));
        assert(u64_le(v.rflags) == bytes.subrange(136, 144));
        lemma_subrange_join(bytes, 0, 136, 144);
        lemma_subrange_join(bytes, 0, 0, 0);
        assert(v.encode() == bytes.subrange(0, KVM_REGS_SIZE as int));
    }

    proof fn lemma_zeroed() {
        let v = Self::zeroed();
        lemma_u64_le(0, Seq::empty());
        assert(u64_le(v.rax) == zeros(8));
        assert(u64_le(v.rbx) == zeros(8));
        lemma_zeros_join(8, 8);
        assert(u64_le(v.rcx) == zeros(8));
        lemma_zeros_join(16, 8);
        assert(u64_le(v.rdx) == zeros(8));
        lemma_zeros_join(24, 8);
        assert(u64_le(v.rsi) == zeros(8));
        lemma_zeros_join(32, 8);
        assert(u64_le(v.rdi) == zeros(8));
        lemma_zeros_join(40, 8);
        assert(u64_le(v.rsp) == zeros(8));
        lemma_zeros_join(48, 8);
        assert(u64_le(v.rbp) == zeros(8));
        lemma_zeros_join(56, 8);
        assert(u64_le(v.r8) == zeros(8));
        lemma_zeros_join(64, 8);
        assert(u64_le(v.r9) == zeros(8));
        lemma_zeros_join(72, 8);
        assert(u64_le(v.r10) == zeros(8));
        lemma_zeros_join(80, 8);
        assert(u64_le(v.r11) == zeros(8));
        lemma_zeros_join(88, 8);
        assert(u64_le(v.r12) == zeros(8));
        lemma_zeros_join(96, 8);
        assert(u64_le(v.r13) == zeros(8));
        lemma_zeros_join(104, 8);
        assert(u64_le(v.r14) == zeros(8));
        lemma_zeros_join(112, 8);
        assert(u64_le(v.r15) == zeros(8));
        lemma_zeros_join(120, 8);
        assert(u64_le(v.rip) == zeros(8));
        lemma_zeros_join(128, 8);
        assert(u64_le(v.rflags) == zeros(8));
        lemma_zeros_join(136, 8);
        assert(v.encode() == zeros(KVM_REGS_SIZE as nat));
    }

    fn size() -> usize {
        KVM_REGS_SIZE
    }

    fn put(&self, out: &mut Vec<u8>) {
        put_u64(out, self.rax);
        let ghost c0 = u64_le(self.rax);
        assert(out@ == old(out)@ + c0);
        put_u64(out, self.rbx);
        let ghost c1 = c0 + u64_le(self.rbx);
        proof {
            lemma_append_twice(old(out)@, c0, u64_le(self.rbx));
        }
        assert(out@ == old(out)@ + c1);
        put_u64(out, self.rcx);
        let ghost c2 = c1 + u64_le(self.rcx);
        proof {
            lemma_append_twice(old(out)@, c1, u64_le(self.rcx));
        }
        assert(out@ == old(out)@ + c2);
        put_u64(out, self.rdx);
        let ghost c3 = c2 + u64_le(self.rdx);
        proof {
            lemma_append_twice(old(out)@, c2, u64_le(self.rdx));
        }
        assert(out@ == old(out)@ + c3);
        put_u64(out, self.rsi);
        let ghost c4 = c3 + u64_le(self.rsi);
        proof {
            lemma_append_twice(old(out)@, c3, u64_le(self.rsi));
        }
        assert(out@ == old(out)@ + c4);
        put_u64(out, self.rdi);
        let ghost c5 = c4 + u64_le(self.rdi);
        proof {
            lemma_append_twice(old(out)@, c4, u64_le(self.rdi));
        }
        assert(out@ == old(out)@ + c5);
        put_u64(out, self.rsp);
        let ghost c6 = c5 + u64_le(self.rsp);
        proof {
            lemma_append_twice(old(out)@, c5, u64_le(self.rsp));
        }
        assert(out@ == old(out)@ + c6);
        put_u64(out, self.rbp);
        let ghost c7 = c6 + u64_le(self.rbp);
        proof {
            lemma_append_twice(old(out)@, c6, u64_le(self.rbp));
        }
        assert(out@ == old(out)@ + c7);
        put_u64(out, self.r8);
        let ghost c8 = c7 + u64_le(self.r8);
        proof {
            lemma_append_twice(old(out)@, c7, u64_le(self.r8));
        }
        assert(out@ == old(out)@ + c8);
        put_u64(out, self.r9);
        let ghost c9 = c8 + u64_le(self.r9);
        proof {
            lemma_append_twice(old(out)@, c8, u64_le(self.r9));
        }
        assert(out@ == old(out)@ + c9);
        put_u64(out, self.r10);
        let ghost c10 = c9 + u64_le(self.r10);
        proof {
            lemma_append_twice(old(out)@, c9, u64_le(self.r10));
        }
        assert(out@ == old(out)@ + c10);
        put_u64(out, self.r11);
        let ghost c11 = c10 + u64_le(self.r11);
        proof {
            lemma_append_twice(old(out)@, c10, u64_le(self.r11));
        }
        assert(out@ == old(out)@ + c11);
        put_u64(out, self.r12);
        let ghost c12 = c11 + u64_le(self.r12);
        proof {
            lemma_append_twice(old(out)@, c11, u64_le(self.r12));
        }
        assert(out@ == old(out)@ + c12);
        put_u64(out, self.r13);
        let ghost c13 = c12 + u64_le(self.r13);
        proof {
            lemma_append_twice(old(out)@, c12, u64_le(self.r13));
        }
        assert(out@ == old(out)@ + c13);
        put_u64(out, self.r14);
        let ghost c14 = c13 + u64_le(self.r14);
        proof {
            lemma_append_twice(old(out)@, c13, u64_le(self.r14));
        }
        assert(out@ == old(out)@ + c14);
        put_u64(out, self.r15);
        let ghost c15 = c14 + u64_le(self.r15);
        proof {
            lemma_append_twice(old(out)@, c14, u64_le(self.r15));
        }
        assert(out@ == old(out)@ + c15);
        put_u64(out, self.rip);
        let ghost c16 = c15 + u64_le(self.rip);
        proof {
            lemma_append_twice(old(out)@, c15, u64_le(self.rip));
        }
        assert(out@ == old(out)@ + c16);
        put_u64(out, self.rflags);
        let ghost c17 = c16 + u64_le(self.rflags);
        proof {
            lemma_append_twice(old(out)@, c16, u64_le(self.rflags));
        }
        assert(out@ == old(out)@ + c17);
    }

    fn get(bytes: &[u8], at: usize) -> Self {
        proof {
            lemma_read_within(bytes@, at as int, at + KVM_REGS_SIZE);
        }
        kvm_regs {
            rax: get_u64(bytes, at),
            rbx: get_u64(bytes, at + 8),
            rcx: get_u64(bytes, at + 16),
            rdx: get_u64(bytes, at + 24),
            rsi: get_u64(bytes, at + 32),
            rdi: get_u64(bytes, at + 40),
            rsp: get_u64(bytes, at + 48),
            rbp: get_u64(bytes, at + 56),
            r8: get_u64(bytes, at + 64),
            r9: get_u64(bytes, at + 72),
            r10: get_u64(bytes, at + 80),
            r11: get_u64(bytes, at + 88),
            r12: get_u64(bytes, at + 96),
            r13: get_u64(bytes, at + 104),
            r14: get_u64(bytes, at + 112),
            r15: get_u64(bytes, at + 120),
            rip: get_u64(bytes, at + 128),
            rflags: get_u64(bytes, at + 136),
        }
    }
}

impl Default for kvm_regs {
    /// The value all of whose fields are zero.
    fn default() -> (v: Self)
        ensures
            v == Self::zeroed(),
    {
        kvm_regs {
            rax: 0u64,
            rbx: 0u64,
            rcx: 0u64,
            rdx: 0u64,
            rsi: 0u64,
            rdi: 0u64,
            rsp: 0u64,
            rbp: 0u64,
            r8: 0u64,
            r9: 0u64,
            r10: 0u64,
            r11: 0u64,
            r12: 0u64,
            r13: 0u64,
            r14: 0u64,
            r15: 0u64,
            rip: 0u64,
            rflags: 0u64,
        }
    }
}

/// A segment register with its descriptor.
#[derive(Clone, Copy, Debug, PartialEq, Eq, Structural)]
pub struct kvm_segment {
    pub base: u64,
    pub limit: u32,
    pub selector: u16,
    pub type_: u8,
    pub present: u8,
    pub dpl: u8,
    pub db: u8,
    pub s: u8,
    pub l: u8,
    pub g: u8,
    pub avl: u8,
    pub unusable: u8,
    pub padding: u8,
}

/// Where the parts of a `kvm_segment` lie in its bytes.
proof fn lemma_kvm_segment_parts(
    e0: Seq<u8>,
    e1: Seq<u8>,
    e2: Seq<u8>,
    e3: Seq<u8>,
    e4: Seq<u8>,
    e5: Seq<u8>,
    e6: Seq<u8>,
    e7: Seq<u8>,
    e8: Seq<u8>,
    e9: Seq<u8>,
    e10: Seq<u8>,
    e11: Seq<u8>,
    e12: Seq<u8>,
)
    requires
        e0.len() == 8,
        e1.len() == 4,
        e2.len() == 2,
        e3.len() == 1,
        e4.len() == 1,
        e5.len() == 1,
        e6.len() == 1,
        e7.len() == 1,
        e8.len() == 1,
        e9.len() == 1,
        e10.len() == 1,
        e11.len() == 1,
        e12.len() == 1,
    ensures
        ({
            let bytes = e0 + e1 + e2 + e3 + e4 + e5 + e6 + e7 + e8 + e9 + e10 + e11 + e12;
            &&& bytes.len() == 24
            &&& bytes.subrange(0, 8) == e0
            &&& bytes.subrange(8, 12) == e1
            &&& bytes.subrange(12, 14) == e2
            &&& bytes.subrange(14, 15) == e3
            &&& bytes.subrange(15, 16) == e4
            &&& bytes.subrange(16, 17) == e5
            &&& bytes.subrange(17, 18) == e6
            &&& bytes.subrange(18, 19) == e7
            &&& bytes.subrange(19, 20) == e8
            &&& bytes.subrange(20, 21) == e9
            &&& bytes.subrange(21, 22) == e10
            &&& bytes.subrange(22, 23) == e11
            &&& bytes.subrange(23, 24) == e12
        }),
{
    let upto0 = e0;
    lemma_subrange_join(e0, 0, 0, 0);
    let upto1 = upto0 + e1;
    lemma_append_keeps(upto0, e1);
    let upto2 = upto1 + e2;
    lemma_append_keeps(upto1, e2);
    let upto3 = upto2 + e3;
    lemma_append_keeps(upto2, e3);
    let upto4 = upto3 + e4;
    lemma_append_keeps(upto3, e4);
    let upto5 = upto4 + e5;
    lemma_append_keeps(upto4, e5);
    let upto6 = upto5 + e6;
    lemma_append_keeps(upto5, e6);
    let upto7 = upto6 + e7;
    lemma_append_keeps(upto6, e7);
    let upto8 = upto7 + e8;
    lemma_append_keeps(upto7, e8);
    let upto9 = upto8 + e9;
    lemma_append_keeps(upto8, e9);
    let upto10 = upto9 + e10;
    lemma_append_keeps(upto9, e10);
    let upto11 = upto10 + e11;
    lemma_append_keeps(upto10, e11);
    let upto12 = upto11 + e12;
    lemma_append_keeps(upto11, e12);
}

impl Layout for kvm_segment {
    open spec fn spec_size() -> nat {
        KVM_SEGMENT_SIZE as nat
    }

    open spec fn encode(&self) -> Seq<u8> {
        u64_le(self.base) + u32_le(self.limit) + u16_le(self.selector) + seq![self.type_]
            + seq![self.present] + seq![self.dpl] + seq![self.db] + seq![self.s] + seq![self.l]
            + seq![self.g] + seq![self.avl] + seq![self.unusable] + seq![self.padding]
    }

    open spec fn decode(bytes: Seq<u8>) -> Self {
        kvm_segment {
            base: u64_at(bytes, 0),
            limit: u32_at(bytes, 8),
            selector: u16_at(bytes, 12),
            type_: bytes[14],
            present: bytes[15],
            dpl: bytes[16],
            db: bytes[17],
            s: bytes[18],
            l: bytes[19],
            g: bytes[20],
            avl: bytes[21],
            unusable: bytes[22],
            padding: bytes[23],
        }
    }

    open spec fn zeroed() -> Self {
        kvm_segment {
            base: 0u64,
            limit: 0u32,
            selector: 0u16,
            type_: 0u8,
            present: 0u8,
            dpl: 0u8,
            db: 0u8,
            s: 0u8,
            l: 0u8,
            g: 0u8,
            avl: 0u8,
            unusable: 0u8,
            padding: 0u8,
        }
    }

    proof fn lemma_size() {
    }

    proof fn lemma_encode(v: Self) {
        let bytes = v.encode();
        lemma_u64_le(v.base, Seq::empty());
        lemma_u32_le(v.limit, Seq::empty());
        lemma_u16_le(v.selector, Seq::empty());
        lemma_u8_le(v.type_, Seq::empty());
        lemma_u8_le(v.present, Seq::empty());
        lemma_u8_le(v.dpl, Seq::empty());
        lemma_u8_le(v.db, Seq::empty());
        lemma_u8_le(v.s, Seq::empty());
        lemma_u8_le(v.l, Seq::empty());
        lemma_u8_le(v.g, Seq::empty());
        lemma_u8_le(v.avl, Seq::empty());
        lemma_u8_le(v.unusable, Seq::empty());
        lemma_u8_le(v.padding, Seq::empty());
        lemma_kvm_segment_parts(
            u64_le(v.base),
            u32_le(v.limit),
            u16_le(v.selector),
            seq![v.type_],
            seq![v.present],
            seq![v.dpl],
            seq![v.db],
            seq![v.s],
            seq![v.l],
            seq![v.g],
            seq![v.avl],
            seq![v.unusable],
            seq![v.padding],
        );
        lemma_read_within(bytes, 0, 8);
        assert(u64_at(bytes, 0) == u64_at(bytes.subrange(0, 8), 0));
        lemma_read_within(bytes, 8, 12);
        assert(u32_at(bytes, 8) == u32_at(bytes.subrange(8, 12), 0));
        lemma_read_within(bytes, 12, 14);
        assert(u16_at(bytes, 12) == u16_at(bytes.subrange(12, 14), 0));
        assert(bytes[14] == bytes.subrange(14, 15)[0]);
        assert(bytes[15] == bytes.subrange(15, 16)[0]);
        assert(bytes[16] == bytes.subrange(16, 17)[0]);
        assert(bytes[17] == bytes.subrange(17, 18)[0]);
        assert(bytes[18] == bytes.subrange(18, 19)[0]);
        assert(bytes[19] == bytes.subrange(19, 20)[0]);
        assert(bytes[20] == bytes.subrange(20, 21)[0]);
        assert(bytes[21] == bytes.subrange(21, 22)[0]);
        assert(bytes[22] == bytes.subrange(22, 23)[0]);
        assert(bytes[23] == bytes.subrange(23, 24)[0]);
    }

    proof fn lemma_decode(bytes: Seq<u8>) {
        let v = Self::decode(bytes);
        lemma_u64_le(0, bytes.subrange(0, 8));
        lemma_read_within(bytes, 0, 8);
        assert(u64_at(bytes, 0) == u64_at(bytes.subrange(0, 8), 0));
        assert(u64_le(v.base) == bytes.subrange(0, 8));
        lemma_u32_le(0, bytes.subrange(8, 12));
        lemma_read_within(bytes, 8, 12);
        assert(u32_at(bytes, 8) == u32_at(bytes.subrange(8, 12), 0));
        assert(u32_le(v.limit) == bytes.subrange(8, 12));
        lemma_subrange_join(bytes, 0, 8, 12);
        lemma_u16_le(0, bytes.subrange(12, 14));
        lemma_read_within(bytes, 12, 14);
        assert(u16_at(bytes, 12) == u16_at(bytes.subrange(12, 14), 0));
        assert(u16_le(v.selector) == bytes.subrange(12, 14));
        lemma_subrange_join(bytes, 0, 12, 14);
        lemma_u8_le(0, bytes.subrange(14, 15));
        assert(bytes.subrange(14, 15)[0] == bytes[14]);
        assert(seq![v.type_] == bytes.subrange(14, 15));
        lemma_subrange_join(bytes, 0, 14, 15);
        lemma_u8_le(0, bytes.subrange(15, 16));
        assert(bytes.subrange(15, 16)[0] == bytes[15]);
        assert(seq![v.present] == bytes.subrange(15, 16));
        lemma_subrange_join(bytes, 0, 15, 16);
        lemma_u8_le(0, bytes.subrange(16, 17));
        assert(bytes.subrange(16, 17)[0] == bytes[16]);
        assert(seq![v.dpl] == bytes.subrange(16, 17));
        lemma_subrange_join(bytes, 0, 16, 17);
        lemma_u8_le(0, bytes.subrange(17, 18));
        assert(bytes.subrange(17, 18)[0] == bytes[17]);
        assert(seq![v.db] == bytes.subrange(17, 18));
        lemma_subrange_join(bytes, 0, 17, 18);
        lemma_u8_le(0, bytes.subrange(18, 19));
        assert(bytes.subrange(18, 19)[0] == bytes[18]);
        assert(seq![v.s] == bytes.subrange(18, 19));
        lemma_subrange_join(bytes, 0, 18, 19);
        lemma_u8_le(0, bytes.subrange(19, 20));
        assert(bytes.subrange(19, 20)[0] == bytes[19]);
        assert(seq![v.l] == bytes.subrange(19, 20));
        lemma_subrange_join(bytes, 0, 19, 20);
        lemma_u8_le(0, bytes.subrange(20, 21));
        assert(bytes.subrange(20, 21)[0] == bytes[20]);
        assert(seq![v.g] == bytes.subrange(20, 21));
        lemma_subrange_join(bytes, 0, 20, 21);
        lemma_u8_le(0, bytes.subrange(21, 22));
        assert(bytes.subrange(21, 22)[0] == bytes[21]);
        assert(seq![v.avl] == bytes.subrange(21, 22));
        lemma_subrange_join(bytes, 0, 21, 22);
        lemma_u8_le(0, bytes.subrange(22, 23));
        assert(bytes.subrange(22, 23)[0] == bytes[22]);
        assert(seq![v.unusable] == bytes.subrange(22, 23));
        lemma_subrange_join(bytes, 0, 22, 23);
        lemma_u8_le(0, bytes.subrange(23, 24));
        assert(bytes.subrange(23, 24)[0] == bytes[23]);
        assert(seq![v.padding] == bytes.subrange(23, 24));
        lemma_subrange_join(bytes, 0, 23, 24);
        lemma_subrange_join(bytes, 0, 0, 0);
        assert(v.encode() == bytes.subrange(0, KVM_SEGMENT_SIZE as int));
    }

    proof fn lemma_zeroed() {
        let v = Self::zeroed();
        lemma_u64_le(0, Seq::empty());
        assert(u64_le(v.base) == zeros(8));
        lemma_u32_le(0, Seq::empty());
        assert(u32_le(v.limit) == zeros(4));
        lemma_zeros_join(8, 4);
        lemma_u16_le(0, Seq::empty());
        assert(u16_le(v.selector) == zeros(2));
        lemma_zeros_join(12, 2);
        lemma_u8_le(0, Seq::empty());
        assert(seq![v.type_] == zeros(1));
        lemma_zeros_join(14, 1);
        assert(seq![v.present] == zeros(1));
        lemma_zeros_join(15, 1);
        assert(seq![v.dpl] == zeros(1));
        lemma_zeros_join(16, 1);
        assert(seq![v.db] == zeros(1));
        lemma_zeros_join(17, 1);
        assert(seq![v.s] == zeros(1));
        lemma_zeros_join(18, 1);
        assert(seq![v.l] == zeros(1));
        lemma_zeros_join(19, 1);
        assert(seq![v.g] == zeros(1));
        lemma_zeros_join(20, 1);
        assert(seq![v.avl] == zeros(1));
        lemma_zeros_join(21, 1);
        assert(seq![v.unusable] == zeros(1));
        lemma_zeros_join(22, 1);
        assert(seq![v.padding] == zeros(1));
        lemma_zeros_join(23, 1);
        assert(v.encode() == zeros(KVM_SEGMENT_SIZE as nat));
    }

    fn size() -> usize {
        KVM_SEGMENT_SIZE
    }

    fn put(&self, out: &mut Vec<u8>) {
        put_u64(out, self.base);
        let ghost c0 = u64_le(self.base);
        assert(out@ == old(out)@ + c0);
        put_u32(out, self.limit);
        let ghost c1 = c0 + u32_le(self.limit);
        proof {
            lemma_append_twice(old(out)@, c0, u32_le(self.limit));
        }
        assert(out@ == old(out)@ + c1);
        put_u16(out, self.selector);
        let ghost c2 = c1 + u16_le(self.selector);
        proof {
            lemma_append_twice(old(out)@, c1, u16_le(self.selector));
        }
        assert(out@ == old(out)@ + c2);
        put_u8(out, self.type_);
        let ghost c3 = c2 + seq![self.type_];
        proof {
            lemma_append_twice(old(out)@, c2, seq![self.type_]);
        }
        assert(out@ == old(out)@ + c3);
        put_u8(out, self.present);
        let ghost c4 = c3 + seq![self.present];
        proof {
            lemma_append_twice(old(out)@, c3, seq![self.present]);
        }
        assert(out@ == old(out)@ + c4);
        put_u8(out, self.dpl);
        let ghost c5 = c4 + seq![self.dpl];
        proof {
            lemma_append_twice(old(out)@, c4, seq![self.dpl]);
        }
        assert(out@ == old(out)@ + c5);
        put_u8(out, self.db);
        let ghost c6 = c5 + seq![self.db];
        proof {
            lemma_append_twice(old(out)@, c5, seq![self.db]);
        }
        assert(out@ == old(out)@ + c6);
        put_u8(out, self.s);
        let ghost c7 = c6 + seq![self.s];
        proof {
            lemma_append_twice(old(out)@, c6, seq![self.s]);
        }
        assert(out@ == old(out)@ + c7);
        put_u8(out, self.l);
        let ghost c8 = c7 + seq![self.l];
        proof {
            lemma_append_twice(old(out)@, c7, seq![self.l]);
        }
        assert(out@ == old(out)@ + c8);
        put_u8(out, self.g);
        let ghost c9 = c8 + seq![self.g];
        proof {
            lemma_append_twice(old(out)@, c8, seq![self.g]);
        }
        assert(out@ == old(out)@ + c9);
        put_u8(out, self.avl);
        let ghost c10 = c9 + seq![self.avl];
        proof {
            lemma_append_twice(old(out)@, c9, seq![self.avl]);
        }
        assert(out@ == old(out)@ + c10);
        put_u8(out, self.unusable);
        let ghost c11 = c10 + seq![self.unusable];
        proof {
            lemma_append_twice(old(out)@, c10, seq![self.unusable]);
        }
        assert(out@ == old(out)@ + c11);
        put_u8(out, self.padding);
        let ghost c12 = c11 + seq![self.padding];
        proof {
            lemma_append_twice(old(out)@, c11, seq![self.padding]);
        }
        assert(out@ == old(out)@ + c12);
    }

    fn get(bytes: &[u8], at: usize) -> Self {
        proof {
            lemma_read_within(bytes@, at as int, at + KVM_SEGMENT_SIZE);
        }
        kvm_segment {
            base: get_u64(bytes, at),
            limit: get_u32(bytes, at + 8),
            selector: get_u16(bytes, at + 12),
            type_: get_u8(bytes, at + 14),
            present: get_u8(bytes, at + 15),
            dpl: get_u8(bytes, at + 16),
            db: get_u8(bytes, at + 17),
            s: get_u8(bytes, at + 18),
            l: get_u8(bytes, at + 19),
            g: get_u8(bytes, at + 20),
            avl: get_u8(bytes, at + 21),
            unusable: get_u8(bytes, at + 22),
            padding: get_u8(bytes, at + 23),
        }
    }
}

impl Default for kvm_segment {
    /// The value all of whose fields are zero.
    fn default() -> (v: Self)
        ensures
            v == Self::zeroed(),
    {
        kvm_segment {
            base: 0u64,
            limit: 0u32,
            selector: 0u16,
            type_: 0u8,
            present: 0u8,
            dpl: 0u8,
            db: 0u8,
            s: 0u8,
            l: 0u8,
            g: 0u8,
            avl: 0u8,
            unusable: 0u8,
            padding: 0u8,
        }
    }
}

/// A descriptor table register.
#[derive(Clone, Copy, Debug, PartialEq, Eq)]
pub struct kvm_dtable {
    pub base: u64,
    pub limit: u16,
    pub padding: [u16; 3],
}

/// Where the parts of a `kvm_dtable` lie in its bytes.
proof fn lemma_kvm_dtable_parts(
    e0: Seq<u8>,
    e1: Seq<u8>,
    e2: Seq<u8>,
    e3: Seq<u8>,
    e4: Seq<u8>,
)
    requires
        e0.len() == 8,
        e1.len() == 2,
        e2.len() == 2,
        e3.len() == 2,
        e4.len() == 2,
    ensures
        ({
            let bytes = e0 + e1 + e2 + e3 + e4;
            &&& bytes.len() == 16
            &&& bytes.subrange(0, 8) == e0
            &&& bytes.subrange(8, 10) == e1
            &&& bytes.subrange(10, 12) == e2
            &&& bytes.subrange(12, 14) == e3
            &&& bytes.subrange(14, 16) == e4
        }),
{
    let upto0 = e0;
    lemma_subrange_join(e0, 0, 0, 0);
    let upto1 = upto0 + e1;
    lemma_append_keeps(upto0, e1);
    let upto2 = upto1 + e2;
    lemma_append_keeps(upto1, e2);
    let upto3 = upto2 + e3;
    lemma_append_keeps(upto2, e3);
    let upto4 = upto3 + e4;
    lemma_append_keeps(upto3, e4);
}

impl Layout for kvm_dtable {
    open spec fn spec_size() -> nat {
        KVM_DTABLE_SIZE as nat
    }

    open spec fn encode(&self) -> Seq<u8> {
        u64_le(self.base) + u16_le(self.limit) + u16_le(self.padding[0])
            + u16_le(self.padding[1]) + u16_le(self.padding[2])
    }

    open spec fn decode(bytes: Seq<u8>) -> Self {
        kvm_dtable {
            base: u64_at(bytes, 0),
            limit: u16_at(bytes, 8),
            padding: [u16_at(bytes, 10), u16_at(bytes, 12), u16_at(bytes, 14)],
        }
    }

    open spec fn zeroed() -> Self {
        kvm_dtable {
            base: 0u64,
            limit: 0u16,
            padding: [0u16, 0u16, 0u16],
        }
    }

    proof fn lemma_size() {
    }

    proof fn lemma_encode(v: Self) {
        let bytes = v.encode();
        lemma_u64_le(v.base, Seq::empty());
        lemma_u16_le(v.limit, Seq::empty());
        lemma_u16_le(v.padding[0], Seq::empty());
        lemma_u16_le(v.padding[1], Seq::empty());
        lemma_u16_le(v.padding[2], Seq::empty());
        lemma_kvm_dtable_parts(
            u64_le(v.base),
            u16_le(v.limit),
            u16_le(v.padding[0]),
            u16_le(v.padding[1]),
            u16_le(v.padding[2]),
        );
        lemma_read_within(bytes, 0, 8);
        assert(u64_at(bytes, 0) == u64_at(bytes.subrange(0, 8), 0));
        lemma_read_within(bytes, 8, 10);
        assert(u16_at(bytes, 8) == u16_at(bytes.subrange(8, 10), 0));
        lemma_read_within(bytes, 10, 12);
        assert(u16_at(bytes, 10) == u16_at(bytes.subrange(10, 12), 0));
        lemma_read_within(bytes, 12, 14);
        assert(u16_at(bytes, 12) == u16_at(bytes.subrange(12, 14), 0));
        lemma_read_within(bytes, 14, 16);
        assert(u16_at(bytes, 14) == u16_at(bytes.subrange(14, 16), 0));
        assert(Self::decode(bytes).padding =~= v.padding);
    }

    proof fn lemma_decode(bytes: Seq<u8>) {
        let v = Self::decode(bytes);
        lemma_u64_le(0, bytes.subrange(0, 8));
        lemma_read_within(bytes, 0, 8);
        assert(u64_at(bytes, 0) == u64_at(bytes.subrange(0, 8), 0));
        assert(u64_le(v.base) == bytes.subrange(0, 8));
        lemma_u16_le(0, bytes.subrange(8, 10));
        lemma_read_within(bytes, 8, 10);
        assert(u16_at(bytes, 8) == u16_at(bytes.subrange(8, 10), 0));
        assert(u16_le(v.limit) == bytes.subrange(8, 10));
        lemma_subrange_join(bytes, 0, 8, 10);
        lemma_u16_le(0, bytes.subrange(10, 12));
        lemma_read_within(bytes, 10, 12);
        assert(u16_at(bytes, 10) == u16_at(bytes.subrange(10, 12), 0));
        assert(u16_le(v.padding[0]) == bytes.subrange(10, 12));
        lemma_subrange_join(bytes, 0, 10, 12);
        lemma_u16_le(0, bytes.subrange(12, 14));
        lemma_read_within(bytes, 12, 14);
        assert(u16_at(bytes, 12) == u16_at(bytes.subrange(12, 14), 0));
        assert(u16_le(v.padding[1]) == bytes.subrange(12, 14));
        lemma_subrange_join(bytes, 0, 12, 14);
        lemma_u16_le(0, bytes.subrange(14, 16));
        lemma_read_within(bytes, 14, 16);
        assert(u16_at(bytes, 14) == u16_at(bytes.subrange(14, 16), 0));
        assert(u16_le(v.padding[2]) == bytes.subrange(14, 16));
        lemma_subrange_join(bytes, 0, 14, 16);
        lemma_subrange_join(bytes, 0, 0, 0);
        assert(v.encode() == bytes.subrange(0, KVM_DTABLE_SIZE as int));
    }

    proof fn lemma_zeroed() {
        let v = Self::zeroed();
        lemma_u64_le(0, Seq::empty());
        assert(u64_le(v.base) == zeros(8));
        lemma_u16_le(0, Seq::empty());
        assert(u16_le(v.limit) == zeros(2));
        lemma_zeros_join(8, 2);
        assert(u16_le(v.padding[0]) == zeros(2));
        lemma_zeros_join(10, 2);
        assert(u16_le(v.padding[1]) == zeros(2));
        lemma_zeros_join(12, 2);
        assert(u16_le(v.padding[2]) == zeros(2));
        lemma_zeros_join(14, 2);
        assert(v.encode() == zeros(KVM_DTABLE_SIZE as nat));
    }

    fn size() -> usize {
        KVM_DTABLE_SIZE
    }

    fn put(&self, out: &mut Vec<u8>) {
        put_u64(out, self.base);
        let ghost c0 = u64_le(self.base);
        assert(out@ == old(out)@ + c0);
        put_u16(out, self.limit);
        let ghost c1 = c0 + u16_le(self.limit);
        proof {
            lemma_append_twice(old(out)@, c0, u16_le(self.limit));
        }
        assert(out@ == old(out)@ + c1);
        put_u16(out, self.padding[0]);
        let ghost c2 = c1 + u16_le(self.padding[0]);
        proof {
            lemma_append_twice(old(out)@, c1, u16_le(self.padding[0]));
        }
        assert(out@ == old(out)@ + c2);
        put_u16(out, self.padding[1]);
        let ghost c3 = c2 + u16_le(self.padding[1]);
        proof {
            lemma_append_twice(old(out)@, c2, u16_le(self.padding[1]));
        }
        assert(out@ == old(out)@ + c3);
        put_u16(out, self.padding[2]);
        let ghost c4 = c3 + u16_le(self.padding[2]);
        proof {
            lemma_append_twice(old(out)@, c3, u16_le(self.padding[2]));
        }
        assert(out@ == old(out)@ + c4);
    }

    fn get(bytes: &[u8], at: usize) -> Self {
        proof {
            lemma_read_within(bytes@, at as int, at + KVM_DTABLE_SIZE);
        }
        kvm_dtable {
            base: get_u64(bytes, at),
            limit: get_u16(bytes, at + 8),
            padding: [get_u16(bytes, at + 10), get_u16(bytes, at + 12), get_u16(bytes, at + 14)],
        }
    }
}

impl Default for kvm_dtable {
    /// The value all of whose fields are zero.
    fn default() -> (v: Self)
        ensures
            v == Self::zeroed(),
    {
        kvm_dtable {
            base: 0u64,
            limit: 0u16,
            padding: [0u16, 0u16, 0u16],
        }
    }
}

/// The special registers of a virtual CPU: segments, descriptor tables, control
/// registers and the interrupts that are pending.
#[derive(Clone, Copy, Debug, PartialEq, Eq)]
pub struct kvm_sregs {
    pub cs: kvm_segment,
    pub ds: kvm_segment,
    pub es: kvm_segment,
    pub fs: kvm_segment,
    pub gs: kvm_segment,
    pub ss: kvm_segment,
    pub tr: kvm_segment,
    pub ldt: kvm_segment,
    pub gdt: kvm_dtable,
    pub idt: kvm_dtable,
    pub cr0: u64,
    pub cr2: u64,
    pub cr3: u64,
    pub cr4: u64,
    pub cr8: u64,
    pub efer: u64,
    pub apic_base: u64,
    pub interrupt_bitmap: [u64; 4],
}

/// Where the parts of a `kvm_sregs` lie in its bytes.
proof fn lemma_kvm_sregs_parts(
    e0: Seq<u8>,
    e1: Seq<u8>,
    e2: Seq<u8>,
    e3: Seq<u8>,
    e4: Seq<u8>,
    e5: Seq<u8>,
    e6: Seq<u8>,
    e7: Seq<u8>,
    e8: Seq<u8>,
    e9: Seq<u8>,
    e10: Seq<u8>,
    e11: Seq<u8>,
    e12: Seq<u8>,
    e13: Seq<u8>,
    e14: Seq<u8>,
    e15: Seq<u8>,
    e16: Seq<u8>,
    e17: Seq<u8>,
    e18: Seq<u8>,
    e19: Seq<u8>,
    e20: Seq<u8>,
)
    requires
        e0.len() == 24,
        e1.len() == 24,
        e2.len() == 24,
        e3.len() == 24,
        e4.len() == 24,
        e5.len() == 24,
        e6.len() == 24,
        e7.len() == 24,
        e8.len() == 16,
        e9.len() == 16,
        e10.len() == 8,
        e11.len() == 8,
        e12.len() == 8,
        e13.len() == 8,
        e14.len() == 8,
        e15.len() == 8,
        e16.len() == 8,
        e17.len() == 8,
        e18.len() == 8,
        e19.len() == 8,
        e20.len() == 8,
    ensures
        ({
            let bytes = e0 + e1 + e2 + e3 + e4 + e5 + e6 + e7 + e8 + e9 + e10 + e11 + e12 + e13 + e14 + e15
                + e16 + e17 + e18 + e19 + e20;
            &&& bytes.len() == 312
            &&& bytes.subrange(0, 24) == e0
            &&& bytes.subrange(24, 48) == e1
            &&& bytes.subrange(48, 72) == e2
            &&& bytes.subrange(72, 96) == e3
            &&& bytes.subrange(96, 120) == e4
            &&& bytes.subrange(120, 144) == e5
            &&& bytes.subrange(144, 168) == e6
            &&& bytes.subrange(168, 192) == e7
            &&& bytes.subrange(192, 208) == e8
            &&& bytes.subrange(208, 224) == e9
            &&& bytes.subrange(224, 232) == e10
            &&& bytes.subrange(232, 240) == e11
            &&& bytes.subrange(240, 248) == e12
            &&& bytes.subrange(248, 256) == e13
            &&& bytes.subrange(256, 264) == e14
            &&& bytes.subrange(264, 272) == e15
            &&& bytes.subrange(272, 280) == e16
            &&& bytes.subrange(280, 288) == e17
            &&& bytes.subrange(288, 296) == e18
            &&& bytes.subrange(296, 304) == e19
            &&& bytes.subrange(304, 312) == e20
        }),
{
    let upto0 = e0;
    lemma_subrange_join(e0, 0, 0, 0);
    let upto1 = upto0 + e1;
    lemma_append_keeps(upto0, e1);
    let upto2 = upto1 + e2;
    lemma_append_keeps(upto1, e2);
    let upto3 = upto2 + e3;
    lemma_append_keeps(upto2, e3);
    let upto4 = upto3 + e4;
    lemma_append_keeps(upto3, e4);
    let upto5 = upto4 + e5;
    lemma_append_keeps(upto4, e5);
    let upto6 = upto5 + e6;
    lemma_append_keeps(upto5, e6);
    let upto7 = upto6 + e7;
    lemma_append_keeps(upto6, e7);
    let upto8 = upto7 + e8;
    lemma_append_keeps(upto7, e8);
    let upto9 = upto8 + e9;
    lemma_append_keeps(upto8, e9);
    let upto10 = upto9 + e10;
    lemma_append_keeps(upto9, e10);
    let upto11 = upto10 + e11;
    lemma_append_keeps(upto10, e11);
    let upto12 = upto11 + e12;
    lemma_append_keeps(upto11, e12);
    let upto13 = upto12 + e13;
    lemma_append_keeps(upto12, e13);
    let upto14 = upto13 + e14;
    lemma_append_keeps(upto13, e14);
    let upto15 = upto14 + e15;
    lemma_append_keeps(upto14, e15);
    let upto16 = upto15 + e16;
    lemma_append_keeps(upto15, e16);
    let upto17 = upto16 + e17;
    lemma_append_keeps(upto16, e17);
    let upto18 = upto17 + e18;
    lemma_append_keeps(upto17, e18);
    let upto19 = upto18 + e19;
    lemma_append_keeps(upto18, e19);
    let upto20 = upto19 + e20;
    lemma_append_keeps(upto19, e20);
}

impl Layout for kvm_sregs {
    open spec fn spec_size() -> nat {
        KVM_SREGS_SIZE as nat
    }

    open spec fn encode(&self) -> Seq<u8> {
        self.cs.encode() + self.ds.encode() + self.es.encode() + self.fs.encode()
            + self.gs.encode() + self.ss.encode() + self.tr.encode() + self.ldt.encode()
            + self.gdt.encode() + self.idt.encode() + u64_le(self.cr0) + u64_le(self.cr2)
            + u64_le(self.cr3) + u64_le(self.cr4) + u64_le(self.cr8) + u64_le(self.efer)
            + u64_le(self.apic_base) + u64_le(self.interrupt_bitmap[0])
            + u64_le(self.interrupt_bitmap[1]) + u64_le(self.interrupt_bitmap[2])
            + u64_le(self.interrupt_bitmap[3])
    }

    open spec fn decode(bytes: Seq<u8>) -> Self {
        kvm_sregs {
            cs: kvm_segment::decode(bytes.subrange(0, 24)),
            ds: kvm_segment::decode(bytes.subrange(24, 48)),
            es: kvm_segment::decode(bytes.subrange(48, 72)),
            fs: kvm_segment::decode(bytes.subrange(72, 96)),
            gs: kvm_segment::decode(bytes.subrange(96, 120)),
            ss: kvm_segment::decode(bytes.subrange(120, 144)),
            tr: kvm_segment::decode(bytes.subrange(144, 168)),
            ldt: kvm_segment::decode(bytes.subrange(168, 192)),
            gdt: kvm_dtable::decode(bytes.subrange(192, 208)),
            idt: kvm_dtable::decode(bytes.subrange(208, 224)),
            cr0: u64_at(bytes, 224),
            cr2: u64_at(bytes, 232),
            cr3: u64_at(bytes, 240),
            cr4: u64_at(bytes, 248),
            cr8: u64_at(bytes, 256),
            efer: u64_at(bytes, 264),
            apic_base: u64_at(bytes, 272),
            interrupt_bitmap: [
                u64_at(bytes, 280),
                u64_at(bytes, 288),
                u64_at(bytes, 296),
                u64_at(bytes, 304),
            ],
        }
    }

    open spec fn zeroed() -> Self {
        kvm_sregs {
            cs: kvm_segment::zeroed(),
            ds: kvm_segment::zeroed(),
            es: kvm_segment::zeroed(),
            fs: kvm_segment::zeroed(),
            gs: kvm_segment::zeroed(),
            ss: kvm_segment::zeroed(),
            tr: kvm_segment::zeroed(),
            ldt: kvm_segment::zeroed(),
            gdt: kvm_dtable::zeroed(),
            idt: kvm_dtable::zeroed(),
            cr0: 0u64,
            cr2: 0u64,
            cr3: 0u64,
            cr4: 0u64,
            cr8: 0u64,
            efer: 0u64,
            apic_base: 0u64,
            interrupt_bitmap: [0u64, 0u64, 0u64, 0u64],
        }
    }

    proof fn lemma_size() {
    }

    proof fn lemma_encode(v: Self) {
        let bytes = v.encode();
        kvm_segment::lemma_encode(v.cs);
        kvm_segment::lemma_encode(v.ds);
        kvm_segment::lemma_encode(v.es);
        kvm_segment::lemma_encode(v.fs);
        kvm_segment::lemma_encode(v.gs);
        kvm_segment::lemma_encode(v.ss);
        kvm_segment::lemma_encode(v.tr);
        kvm_segment::lemma_encode(v.ldt);
        kvm_dtable::lemma_encode(v.gdt);
        kvm_dtable::lemma_encode(v.idt);
        lemma_u64_le(v.cr0, Seq::empty());
        lemma_u64_le(v.cr2, Seq::empty());
        lemma_u64_le(v.cr3, Seq::empty());
        lemma_u64_le(v.cr4, Seq::empty());
        lemma_u64_le(v.cr8, Seq::empty());
        lemma_u64_le(v.efer, Seq::empty());
        lemma_u64_le(v.apic_base, Seq::empty());
        lemma_u64_le(v.interrupt_bitmap[0], Seq::empty());
        lemma_u64_le(v.interrupt_bitmap[1], Seq::empty());
        lemma_u64_le(v.interrupt_bitmap[2], Seq::empty());
        lemma_u64_le(v.interrupt_bitmap[3], Seq::empty());
        lemma_kvm_sregs_parts(
            v.cs.encode(),
            v.ds.encode(),
            v.es.encode(),
            v.fs.encode(),
            v.gs.encode(),
            v.ss.encode(),
            v.tr.encode(),
            v.ldt.encode(),
            v.gdt.encode(),
            v.idt.encode(),
            u64_le(v.cr0),
            u64_le(v.cr2),
            u64_le(v.cr3),
            u64_le(v.cr4),
            u64_le(v.cr8),
            u64_le(v.efer),
            u64_le(v.apic_base),
            u64_le(v.interrupt_bitmap[0]),
            u64_le(v.interrupt_bitmap[1]),
            u64_le(v.interrupt_bitmap[2]),
            u64_le(v.interrupt_bitmap[3]),
        );
        lemma_read_within(bytes, 224, 232);
        assert(u64_at(bytes, 224) == u64_at(bytes.subrange(224, 232), 0));
        lemma_read_within(bytes, 232, 240);
        assert(u64_at(bytes, 232) == u64_at(bytes.subrange(232, 240), 0));
        lemma_read_within(bytes, 240, 248);
        assert(u64_at(bytes, 240) == u64_at(bytes.subrange(240, 248), 0));
        lemma_read_within(bytes, 248, 256);
        assert(u64_at(bytes, 248) == u64_at(bytes.subrange(248, 256), 0));
        lemma_read_within(bytes, 256, 264);
        assert(u64_at(bytes, 256) == u64_at(bytes.subrange(256, 264), 0));
        lemma_read_within(bytes, 264, 272);
        assert(u64_at(bytes, 264) == u64_at(bytes.subrange(264, 272), 0));
        lemma_read_within(bytes, 272, 280);
        assert(u64_at(bytes, 272) == u64_at(bytes.subrange(272, 280), 0));
        lemma_read_within(bytes, 280, 288);
        assert(u64_at(bytes, 280) == u64_at(bytes.subrange(280, 288), 0));
        lemma_read_within(bytes, 288, 296);
        assert(u64_at(bytes, 288) == u64_at(bytes.subrange(288, 296), 0));
        lemma_read_within(bytes, 296, 304);
        assert(u64_at(bytes, 296) == u64_at(bytes.subrange(296, 304), 0));
        lemma_read_within(bytes, 304, 312);
        assert(u64_at(bytes, 304) == u64_at(bytes.subrange(304, 312), 0));
        assert(Self::decode(bytes).interrupt_bitmap =~= v.interrupt_bitmap);
    }

    proof fn lemma_decode(bytes: Seq<u8>) {
        let v = Self::decode(bytes);
        kvm_segment::lemma_decode(bytes.subrange(0, 24));
        assert(v.cs.encode() == bytes.subrange(0, 24));
        kvm_segment::lemma_decode(bytes.subrange(24, 48));
        assert(v.ds.encode() == bytes.subrange(24, 48));
        lemma_subrange_join(bytes, 0, 24, 48);
        kvm_segment::lemma_decode(bytes.subrange(48, 72));
        assert(v.es.encode() == bytes.subrange(48, 72));
        lemma_subrange_join(bytes, 0, 48, 72);
        kvm_segment::lemma_decode(bytes.subrange(72, 96));
        assert(v.fs.encode() == bytes.subrange(72, 96));
        lemma_subrange_join(bytes, 0, 72, 96);
        kvm_segment::lemma_decode(bytes.subrange(96, 120));
        assert(v.gs.encode() == bytes.subrange(96, 120));
        lemma_subrange_join(bytes, 0, 96, 120);
        kvm_segment::lemma_decode(bytes.subrange(120, 144));
        assert(v.ss.encode() == bytes.subrange(120, 144));
        lemma_subrange_join(bytes, 0, 120, 144);
        kvm_segment::lemma_decode(bytes.subrange(144, 168));
        assert(v.tr.encode() == bytes.subrange(144, 168));
        lemma_subrange_join(bytes, 0, 144, 168);
        kvm_segment::lemma_decode(bytes.subrange(168, 192));
        assert(v.ldt.encode() == bytes.subrange(168, 192));
        lemma_subrange_join(bytes, 0, 168, 192);
        kvm_dtable::lemma_decode(bytes.subrange(192, 208));
        assert(v.gdt.encode() == bytes.subrange(192, 208));
        lemma_subrange_join(bytes, 0, 192, 208);
        kvm_dtable::lemma_decode(bytes.subrange(208, 224));
        assert(v.idt.encode() == bytes.subrange(208, 224));
        lemma_subrange_join(bytes, 0, 208, 224);
        lemma_u64_le(0, bytes.subrange(224, 232));
        lemma_read_within(bytes, 224, 232);
        assert(u64_at(bytes, 224) == u64_at(bytes.subrange(224, 232), 0));
        assert(u64_le(v.cr0) == bytes.subrange(224, 232));
        lemma_subrange_join(bytes, 0, 224, 232);
        lemma_u64_le(0, bytes.subrange(232, 240));
        lemma_read_within(bytes, 232, 240);
        assert(u64_at(bytes, 232) == u64_at(bytes.subrange(232, 240), 0));
        assert(u64_le(v.cr2) == bytes.subrange(232, 240));
        lemma_subrange_join(bytes, 0, 232, 240);
        lemma_u64_le(0, bytes.subrange(240, 248));
        lemma_read_within(bytes, 240, 248);
        assert(u64_at(bytes, 240) == u64_at(bytes.subrange(240, 248), 0));
        assert(u64_le(v.cr3) == bytes.subrange(240, 248));
        lemma_subrange_join(bytes, 0, 240, 248);
        lemma_u64_le(0, bytes.subrange(248, 256));
        lemma_read_within(bytes, 248, 256);
        assert(u64_at(bytes, 248) == u64_at(bytes.subrange(248, 256), 0));
        assert(u64_le(v.cr4) == bytes.subrange(248, 256));
        lemma_subrange_join(bytes, 0, 248, 256);
        lemma_u64_le(0, bytes.subrange(256, 264));
        lemma_read_within(bytes, 256, 264);
        assert(u64_at(bytes, 256) == u64_at(bytes.subrange(256, 264), 0));
        assert(u64_le(v.cr8) == bytes.subrange(256, 264));
        lemma_subrange_join(bytes, 0, 256, 264);
        lemma_u64_le(0, bytes.subrange(264, 272));
        lemma_read_within(bytes, 264, 272);
        assert(u64_at(bytes, 264) == u64_at(bytes.subrange(264, 272), 0));
        assert(u64_le(v.efer) == bytes.subrange(264, 272));
        lemma_subrange_join(bytes, 0, 264, 272);
        lemma_u64_le(0, bytes.subrange(272, 280));
        lemma_read_within(bytes, 272, 280);
        assert(u64_at(bytes, 272) == u64_at(bytes.subrange(272, 280), 0));
        assert(u64_le(v.apic_base) == bytes.subrange(272, 280));
        lemma_subrange_join(bytes, 0, 272, 280);
        lemma_u64_le(0, bytes.subrange(280, 288));
        lemma_read_within(bytes, 280, 288);
        assert(u64_at(bytes, 280) == u64_at(bytes.subrange(280, 288), 0));
        assert(u64_le(v.interrupt_bitmap[0]) == bytes.subrange(280, 288));
        lemma_subrange_join(bytes, 0, 280, 288);
        lemma_u64_le(0, bytes.subrange(288, 296));
        lemma_read_within(bytes, 288, 296);
        assert(u64_at(bytes, 288) == u64_at(bytes.subrange(288, 296), 0));
        assert(u64_le(v.interrupt_bitmap[1]) == bytes.subrange(288, 296));
        lemma_subrange_join(bytes, 0, 288, 296);
        lemma_u64_le(0, bytes.subrange(296, 304));
        lemma_read_within(bytes, 296, 304);
        assert(u64_at(bytes, 296) == u64_at(bytes.subrange(296, 304), 0));
        assert(u64_le(v.interrupt_bitmap[2]) == bytes.subrange(296, 304));
        lemma_subrange_join(bytes, 0, 296, 304);
        lemma_u64_le(0, bytes.subrange(304, 312));
        lemma_read_within(bytes, 304, 312);
        assert(u64_at(bytes, 304) == u64_at(bytes.subrange(304, 312), 0));
        assert(u64_le(v.interrupt_bitmap[3]) == bytes.subrange(304, 312));
        lemma_subrange_join(bytes, 0, 304, 312);
        lemma_subrange_join(bytes, 0, 0, 0);
        assert(v.encode() == bytes.subrange(0, KVM_SREGS_SIZE as int));
    }

    proof fn lemma_zeroed() {
        let v = Self::zeroed();
        kvm_segment::lemma_zeroed();
        assert(v.cs.encode() == zeros(24));
        assert(v.ds.encode() == zeros(24));
        lemma_zeros_join(24, 24);
        assert(v.es.encode() == zeros(24));
        lemma_zeros_join(48, 24);
        assert(v.fs.encode() == zeros(24));
        lemma_zeros_join(72, 24);
        assert(v.gs.encode() == zeros(24));
        lemma_zeros_join(96, 24);
        assert(v.ss.encode() == zeros(24));
        lemma_zeros_join(120, 24);
        assert(v.tr.encode() == zeros(24));
        lemma_zeros_join(144, 24);
        assert(v.ldt.encode() == zeros(24));
        lemma_zeros_join(168, 24);
        kvm_dtable::lemma_zeroed();
        assert(v.gdt.encode() == zeros(16));
        lemma_zeros_join(192, 16);
        assert(v.idt.encode() == zeros(16));
        lemma_zeros_join(208, 16);
        lemma_u64_le(0, Seq::empty());
        assert(u64_le(v.cr0) == zeros(8));
        lemma_zeros_join(224, 8);
        assert(u64_le(v.cr2) == zeros(8));
        lemma_zeros_join(232, 8);
        assert(u64_le(v.cr3) == zeros(8));
        lemma_zeros_join(240, 8);
        assert(u64_le(v.cr4) == zeros(8));
        lemma_zeros_join(248, 8);
        assert(u64_le(v.cr8) == zeros(8));
        lemma_zeros_join(256, 8);
        assert(u64_le(v.efer) == zeros(8));
        lemma_zeros_join(264, 8);
        assert(u64_le(v.apic_base) == zeros(8));
        lemma_zeros_join(272, 8);
        assert(u64_le(v.interrupt_bitmap[0]) == zeros(8));
        lemma_zeros_join(280, 8);
        assert(u64_le(v.interrupt_bitmap[1]) == zeros(8));
        lemma_zeros_join(288, 8);
        assert(u64_le(v.interrupt_bitmap[2]) == zeros(8));
        lemma_zeros_join(296, 8);
        assert(u64_le(v.interrupt_bitmap[3]) == zeros(8));
        lemma_zeros_join(304, 8);
        assert(v.encode() == zeros(KVM_SREGS_SIZE as nat));
    }

    fn size() -> usize {
        KVM_SREGS_SIZE
    }

    fn put(&self, out: &mut Vec<u8>) {
        self.cs.put(out);
        let ghost c0 = self.cs.encode();
        assert(out@ == old(out)@ + c0);
        self.ds.put(out);
        let ghost c1 = c0 + self.ds.encode();
        proof {
            lemma_append_twice(old(out)@, c0, self.ds.encode());
        }
        assert(out@ == old(out)@ + c1);
        self.es.put(out);
        let ghost c2 = c1 + self.es.encode();
        proof {
            lemma_append_twice(old(out)@, c1, self.es.encode());
        }
        assert(out@ == old(out)@ + c2);
        self.fs.put(out);
        let ghost c3 = c2 + self.fs.encode();
        proof {
            lemma_append_twice(old(out)@, c2, self.fs.encode());
        }
        assert(out@ == old(out)@ + c3);
        self.gs.put(out);
        let ghost c4 = c3 + self.gs.encode();
        proof {
            lemma_append_twice(old(out)@, c3, self.gs.encode());
        }
        assert(out@ == old(out)@ + c4);
        self.ss.put(out);
        let ghost c5 = c4 + self.ss.encode();
        proof {
            lemma_append_twice(old(out)@, c4, self.ss.encode());
        }
        assert(out@ == old(out)@ + c5);
        self.tr.put(out);
        let ghost c6 = c5 + self.tr.encode();
        proof {
            lemma_append_twice(old(out)@, c5, self.tr.encode());
        }
        assert(out@ == old(out)@ + c6);
        self.ldt.put(out);
        let ghost c7 = c6 + self.ldt.encode();
        proof {
            lemma_append_twice(old(out)@, c6, self.ldt.encode());
        }
        assert(out@ == old(out)@ + c7);
        self.gdt.put(out);
        let ghost c8 = c7 + self.gdt.encode();
        proof {
            lemma_append_twice(old(out)@, c7, self.gdt.encode());
        }
        assert(out@ == old(out)@ + c8);
        self.idt.put(out);
        let ghost c9 = c8 + self.idt.encode();
        proof {
            lemma_append_twice(old(out)@, c8, self.idt.encode());
        }
        assert(out@ == old(out)@ + c9);
        put_u64(out, self.cr0);
        let ghost c10 = c9 + u64_le(self.cr0);
        proof {
            lemma_append_twice(old(out)@, c9, u64_le(self.cr0));
        }
        assert(out@ == old(out)@ + c10);
        put_u64(out, self.cr2);
        let ghost c11 = c10 + u64_le(self.cr2);
        proof {
            lemma_append_twice(old(out)@, c10, u64_le(self.cr2));
        }
        assert(out@ == old(out)@ + c11);
        put_u64(out, self.cr3);
        let ghost c12 = c11 + u64_le(self.cr3);
        proof {
            lemma_append_twice(old(out)@, c11, u64_le(self.cr3));
        }
        assert(out@ == old(out)@ + c12);
        put_u64(out, self.cr4);
        let ghost c13 = c12 + u64_le(self.cr4);
        proof {
            lemma_append_twice(old(out)@, c12, u64_le(self.cr4));
        }
        assert(out@ == old(out)@ + c13);
        put_u64(out, self.cr8);
        let ghost c14 = c13 + u64_le(self.cr8);
        proof {
            lemma_append_twice(old(out)@, c13, u64_le(self.cr8));
        }
        assert(out@ == old(out)@ + c14);
        put_u64(out, self.efer);
        let ghost c15 = c14 + u64_le(self.efer);
        proof {
            lemma_append_twice(old(out)@, c14, u64_le(self.efer));
        }
        assert(out@ == old(out)@ + c15);
        put_u64(out, self.apic_base);
        let ghost c16 = c15 + u64_le(self.apic_base);
        proof {
            lemma_append_twice(old(out)@, c15, u64_le(self.apic_base));
        }
        assert(out@ == old(out)@ + c16);
        put_u64(out, self.interrupt_bitmap[0]);
        let ghost c17 = c16 + u64_le(self.interrupt_bitmap[0]);
        proof {
            lemma_append_twice(old(out)@, c16, u64_le(self.interrupt_bitmap[0]));
        }
        assert(out@ == old(out)@ + c17);
        put_u64(out, self.interrupt_bitmap[1]);
        let ghost c18 = c17 + u64_le(self.interrupt_bitmap[1]);
        proof {
            lemma_append_twice(old(out)@, c17, u64_le(self.interrupt_bitmap[1]));
        }
        assert(out@ == old(out)@ + c18);
        put_u64(out, self.interrupt_bitmap[2]);
        let ghost c19 = c18 + u64_le(self.interrupt_bitmap[2]);
        proof {
            lemma_append_twice(old(out)@, c18, u64_le(self.interrupt_bitmap[2]));
        }
        assert(out@ == old(out)@ + c19);
        put_u64(out, self.interrupt_bitmap[3]);
        let ghost c20 = c19 + u64_le(self.interrupt_bitmap[3]);
        proof {
            lemma_append_twice(old(out)@, c19, u64_le(self.interrupt_bitmap[3]));
        }
        assert(out@ == old(out)@ + c20);
    }

    fn get(bytes: &[u8], at: usize) -> Self {
        proof {
            lemma_read_within(bytes@, at as int, at + KVM_SREGS_SIZE);
            lemma_subrange_within(bytes@, at as int, at + KVM_SREGS_SIZE, 0, 24);
            lemma_subrange_within(bytes@, at as int, at + KVM_SREGS_SIZE, 24, 48);
            lemma_subrange_within(bytes@, at as int, at + KVM_SREGS_SIZE, 48, 72);
            lemma_subrange_within(bytes@, at as int, at + KVM_SREGS_SIZE, 72, 96);
            lemma_subrange_within(bytes@, at as int, at + KVM_SREGS_SIZE, 96, 120);
            lemma_subrange_within(bytes@, at as int, at + KVM_SREGS_SIZE, 120, 144);
            lemma_subrange_within(bytes@, at as int, at + KVM_SREGS_SIZE, 144, 168);
            lemma_subrange_within(bytes@, at as int, at + KVM_SREGS_SIZE, 168, 192);
            lemma_subrange_within(bytes@, at as int, at + KVM_SREGS_SIZE, 192, 208);
            lemma_subrange_within(bytes@, at as int, at + KVM_SREGS_SIZE, 208, 224);
        }
        kvm_sregs {
            cs: kvm_segment::get(bytes, at),
            ds: kvm_segment::get(bytes, at + 24),
            es: kvm_segment::get(bytes, at + 48),
            fs: kvm_segment::get(bytes, at + 72),
            gs: kvm_segment::get(bytes, at + 96),
            ss: kvm_segment::get(bytes, at + 120),
            tr: kvm_segment::get(bytes, at + 144),
            ldt: kvm_segment::get(bytes, at + 168),
            gdt: kvm_dtable::get(bytes, at + 192),
            idt: kvm_dtable::get(bytes, at + 208),
            cr0: get_u64(bytes, at + 224),
            cr2: get_u64(bytes, at + 232),
            cr3: get_u64(bytes, at + 240),
            cr4: get_u64(bytes, at + 248),
            cr8: get_u64(bytes, at + 256),
            efer: get_u64(bytes, at + 264),
            apic_base: get_u64(bytes, at + 272),
            interrupt_bitmap: [
                get_u64(bytes, at + 280),
                get_u64(bytes, at + 288),
                get_u64(bytes, at + 296),
                get_u64(bytes, at + 304),
            ],
        }
    }
}

impl Default for kvm_sregs {
    /// The value all of whose fields are zero.
    fn default() -> (v: Self)
        ensures
            v == Self::zeroed(),
    {
        kvm_sregs {
            cs: kvm_segment::default(),
            ds: kvm_segment::default(),
            es: kvm_segment::default(),
            fs: kvm_segment::default(),
            gs: kvm_segment::default(),
            ss: kvm_segment::default(),
            tr: kvm_segment::default(),
            ldt: kvm_segment::default(),
            gdt: kvm_dtable::default(),
            idt: kvm_dtable::default(),
            cr0: 0u64,
            cr2: 0u64,
            cr3: 0u64,
            cr4: 0u64,
            cr8: 0u64,
            efer: 0u64,
            apic_base: 0u64,
            interrupt_bitmap: [0u64, 0u64, 0u64, 0u64],
        }
    }
}

/// The floating-point state of a virtual CPU.
#[derive(Clone, Copy, Debug, PartialEq, Eq)]
pub struct kvm_fpu {
    pub fpr: [[u8; 16]; 8],
    pub fcw: u16,
    pub fsw: u16,
    pub ftwx: u8,
    pub pad1: u8,
    pub last_opcode: u16,
    pub last_ip: u64,
    pub last_dp: u64,
    pub xmm: [[u8; 16]; 16],
    pub mxcsr: u32,
    pub pad2: u32,
}

/// Where the parts of a `kvm_fpu` lie in its bytes.
proof fn lemma_kvm_fpu_parts(
    e0: Seq<u8>,
    e1: Seq<u8>,
    e2: Seq<u8>,
    e3: Seq<u8>,
    e4: Seq<u8>,
    e5: Seq<u8>,
    e6: Seq<u8>,
    e7: Seq<u8>,
    e8: Seq<u8>,
    e9: Seq<u8>,
    e10: Seq<u8>,
    e11: Seq<u8>,
    e12: Seq<u8>,
    e13: Seq<u8>,
    e14: Seq<u8>,
    e15: Seq<u8>,
    e16: Seq<u8>,
    e17: Seq<u8>,
    e18: Seq<u8>,
    e19: Seq<u8>,
    e20: Seq<u8>,
    e21: Seq<u8>,
    e22: Seq<u8>,
    e23: Seq<u8>,
    e24: Seq<u8>,
    e25: Seq<u8>,
    e26: Seq<u8>,
    e27: Seq<u8>,
    e28: Seq<u8>,
    e29: Seq<u8>,
    e30: Seq<u8>,
    e31: Seq<u8>,
    e32: Seq<u8>,
)
    requires
        e0.len() == 16,
        e1.len() == 16,
        e2.len() == 16,
        e3.len() == 16,
        e4.len() == 16,
        e5.len() == 16,
        e6.len() == 16,
        e7.len() == 16,
        e8.len() == 2,
        e9.len() == 2,
        e10.len() == 1,
        e11.len() == 1,
        e12.len() == 2,
        e13.len() == 8,
        e14.len() == 8,
        e15.len() == 16,
        e16.len() == 16,
        e17.len() == 16,
        e18.len() == 16,
        e19.len() == 16,
        e20.len() == 16,
        e21.len() == 16,
        e22.len() == 16,
        e23.len() == 16,
        e24.len() == 16,
        e25.len() == 16,
        e26.len() == 16,
        e27.len() == 16,
        e28.len() == 16,
        e29.len() == 16,
        e30.len() == 16,
        e31.len() == 4,
        e32.len() == 4,
    ensures
        ({
            let bytes = e0 + e1 + e2 + e3 + e4 + e5 + e6 + e7 + e8 + e9 + e10 + e11 + e12 + e13 + e14 + e15
                + e16 + e17 + e18 + e19 + e20 + e21 + e22 + e23 + e24 + e25 + e26 + e27 + e28
                + e29 + e30 + e31 + e32;
            &&& bytes.len() == 416
            &&& bytes.subrange(0, 16) == e0
            &&& bytes.subrange(16, 32) == e1
            &&& bytes.subrange(32, 48) == e2
            &&& bytes.subrange(48, 64) == e3
            &&& bytes.subrange(64, 80) == e4
            &&& bytes.subrange(80, 96) == e5
            &&& bytes.subrange(96, 112) == e6
            &&& bytes.subrange(112, 128) == e7
            &&& bytes.subrange(128, 130) == e8
            &&& bytes.subrange(130, 132) == e9
            &&& bytes.subrange(132, 133) == e10
            &&& bytes.subrange(133, 134) == e11
            &&& bytes.subrange(134, 136) == e12
            &&& bytes.subrange(136, 144) == e13
            &&& bytes.subrange(144, 152) == e14
            &&& bytes.subrange(152, 168) == e15
            &&& bytes.subrange(168, 184) == e16
            &&& bytes.subrange(184, 200) == e17
            &&& bytes.subrange(200, 216) == e18
            &&& bytes.subrange(216, 232) == e19
            &&& bytes.subrange(232, 248) == e20
            &&& bytes.subrange(248, 264) == e21
            &&& bytes.subrange(264, 280) == e22
            &&& bytes.subrange(280, 296) == e23
            &&& bytes.subrange(296, 312) == e24
            &&& bytes.subrange(312, 328) == e25
            &&& bytes.subrange(328, 344) == e26
            &&& bytes.subrange(344, 360) == e27
            &&& bytes.subrange(360, 376) == e28
            &&& bytes.subrange(376, 392) == e29
            &&& bytes.subrange(392, 408) == e30
            &&& bytes.subrange(408, 412) == e31
            &&& bytes.subrange(412, 416) == e32
        }),
{
    let upto0 = e0;
    lemma_subrange_join(e0, 0, 0, 0);
    let upto1 = upto0 + e1;
    lemma_append_keeps(upto0, e1);
    let upto2 = upto1 + e2;
    lemma_append_keeps(upto1, e2);
    let upto3 = upto2 + e3;
    lemma_append_keeps(upto2, e3);
    let upto4 = upto3 + e4;
    lemma_append_keeps(upto3, e4);
    let upto5 = upto4 + e5;
    lemma_append_keeps(upto4, e5);
    let upto6 = upto5 + e6;
    lemma_append_keeps(upto5, e6);
    let upto7 = upto6 + e7;
    lemma_append_keeps(upto6, e7);
    let upto8 = upto7 + e8;
    lemma_append_keeps(upto7, e8);
    let upto9 = upto8 + e9;
    lemma_append_keeps(upto8, e9);
    let upto10 = upto9 + e10;
    lemma_append_keeps(upto9, e10);
    let upto11 = upto10 + e11;
    lemma_append_keeps(upto10, e11);
    let upto12 = upto11 + e12;
    lemma_append_keeps(upto11, e12);
    let upto13 = upto12 + e13;
    lemma_append_keeps(upto12, e13);
    let upto14 = upto13 + e14;
    lemma_append_keeps(upto13, e14);
    let upto15 = upto14 + e15;
    lemma_append_keeps(upto14, e15);
    let upto16 = upto15 + e16;
    lemma_append_keeps(upto15, e16);
    let upto17 = upto16 + e17;
    lemma_append_keeps(upto16, e17);
    let upto18 = upto17 + e18;
    lemma_append_keeps(upto17, e18);
    let upto19 = upto18 + e19;
    lemma_append_keeps(upto18, e19);
    let upto20 = upto19 + e20;
    lemma_append_keeps(upto19, e20);
    let upto21 = upto20 + e21;
    lemma_append_keeps(upto20, e21);
    let upto22 = upto21 + e22;
    lemma_append_keeps(upto21, e22);
    let upto23 = upto22 + e23;
    lemma_append_keeps(upto22, e23);
    let upto24 = upto23 + e24;
    lemma_append_keeps(upto23, e24);
    let upto25 = upto24 + e25;
    lemma_append_keeps(upto24, e25);
    let upto26 = upto25 + e26;
    lemma_append_keeps(upto25, e26);
    let upto27 = upto26 + e27;
    lemma_append_keeps(upto26, e27);
    let upto28 = upto27 + e28;
    lemma_append_keeps(upto27, e28);
    let upto29 = upto28 + e29;
    lemma_append_keeps(upto28, e29);
    let upto30 = upto29 + e30;
    lemma_append_keeps(upto29, e30);
    let upto31 = upto30 + e31;
    lemma_append_keeps(upto30, e31);
    let upto32 = upto31 + e32;
    lemma_append_keeps(upto31, e32);
}

impl Layout for kvm_fpu {
    open spec fn spec_size() -> nat {
        KVM_FPU_SIZE as nat
    }

    open spec fn encode(&self) -> Seq<u8> {
        self.fpr[0]@ + self.fpr[1]@ + self.fpr[2]@ + self.fpr[3]@ + self.fpr[4]@ + self.fpr[5]@
            + self.fpr[6]@ + self.fpr[7]@ + u16_le(self.fcw) + u16_le(self.fsw)
            + seq![self.ftwx] + seq![self.pad1] + u16_le(self.last_opcode)
            + u64_le(self.last_ip) + u64_le(self.last_dp) + self.xmm[0]@ + self.xmm[1]@
            + self.xmm[2]@ + self.xmm[3]@ + self.xmm[4]@ + self.xmm[5]@ + self.xmm[6]@
            + self.xmm[7]@ + self.xmm[8]@ + self.xmm[9]@ + self.xmm[10]@ + self.xmm[11]@
            + self.xmm[12]@ + self.xmm[13]@ + self.xmm[14]@ + self.xmm[15]@ + u32_le(self.mxcsr)
            + u32_le(self.pad2)
    }

    open spec fn decode(bytes: Seq<u8>) -> Self {
        kvm_fpu {
            fpr: [
                array_of::<16>(bytes.subrange(0, 16)),
                array_of::<16>(bytes.subrange(16, 32)),
                array_of::<16>(bytes.subrange(32, 48)),
                array_of::<16>(bytes.subrange(48, 64)),
                array_of::<16>(bytes.subrange(64, 80)),
                array_of::<16>(bytes.subrange(80, 96)),
                array_of::<16>(bytes.subrange(96, 112)),
                array_of::<16>(bytes.subrange(112, 128)),
            ],
            fcw: u16_at(bytes, 128),
            fsw: u16_at(bytes, 130),
            ftwx: bytes[132],
            pad1: bytes[133],
            last_opcode: u16_at(bytes, 134),
            last_ip: u64_at(bytes, 136),
            last_dp: u64_at(bytes, 144),
            xmm: [
                array_of::<16>(bytes.subrange(152, 168)),
                array_of::<16>(bytes.subrange(168, 184)),
                array_of::<16>(bytes.subrange(184, 200)),
                array_of::<16>(bytes.subrange(200, 216)),
                array_of::<16>(bytes.subrange(216, 232)),
                array_of::<16>(bytes.subrange(232, 248)),
                array_of::<16>(bytes.subrange(248, 264)),
                array_of::<16>(bytes.subrange(264, 280)),
                array_of::<16>(bytes.subrange(280, 296)),
                array_of::<16>(bytes.subrange(296, 312)),
                array_of::<16>(bytes.subrange(312, 328)),
                array_of::<16>(bytes.subrange(328, 344)),
                array_of::<16>(bytes.subrange(344, 360)),
                array_of::<16>(bytes.subrange(360, 376)),
                array_of::<16>(bytes.subrange(376, 392)),
                array_of::<16>(bytes.subrange(392, 408)),
            ],
            mxcsr: u32_at(bytes, 408),
            pad2: u32_at(bytes, 412),
        }
    }

    open spec fn zeroed() -> Self {
        kvm_fpu {
            fpr: [
                array_of::<16>(zeros(16)),
                array_of::<16>(zeros(16)),
                array_of::<16>(zeros(16)),
                array_of::<16>(zeros(16)),
                array_of::<16>(zeros(16)),
                array_of::<16>(zeros(16)),
                array_of::<16>(zeros(16)),
                array_of::<16>(zeros(16)),
            ],
            fcw: 0u16,
            fsw: 0u16,
            ftwx: 0u8,
            pad1: 0u8,
            last_opcode: 0u16,
            last_ip: 0u64,
            last_dp: 0u64,
            xmm: [
                array_of::<16>(zeros(16)),
                array_of::<16>(zeros(16)),
                array_of::<16>(zeros(16)),
                array_of::<16>(zeros(16)),
                array_of::<16>(zeros(16)),
                array_of::<16>(zeros(16)),
                array_of::<16>(zeros(16)),
                array_of::<16>(zeros(16)),
                array_of::<16>(zeros(16)),
                array_of::<16>(zeros(16)),
                array_of::<16>(zeros(16)),
                array_of::<16>(zeros(16)),
                array_of::<16>(zeros(16)),
                array_of::<16>(zeros(16)),
                array_of::<16>(zeros(16)),
                array_of::<16>(zeros(16)),
            ],
            mxcsr: 0u32,
            pad2: 0u32,
        }
    }

    proof fn lemma_size() {
    }

    proof fn lemma_encode(v: Self) {
        let bytes = v.encode();
        lemma_array_of_view::<16>(v.fpr[0]);
        lemma_array_of_view::<16>(v.fpr[1]);
        lemma_array_of_view::<16>(v.fpr[2]);
        lemma_array_of_view::<16>(v.fpr[3]);
        lemma_array_of_view::<16>(v.fpr[4]);
        lemma_array_of_view::<16>(v.fpr[5]);
        lemma_array_of_view::<16>(v.fpr[6]);
        lemma_array_of_view::<16>(v.fpr[7]);
        lemma_u16_le(v.fcw, Seq::empty());
        lemma_u16_le(v.fsw, Seq::empty());
        lemma_u8_le(v.ftwx, Seq::empty());
        lemma_u8_le(v.pad1, Seq::empty());
        lemma_u16_le(v.last_opcode, Seq::empty());
        lemma_u64_le(v.last_ip, Seq::empty());
        lemma_u64_le(v.last_dp, Seq::empty());
        lemma_array_of_view::<16>(v.xmm[0]);
        lemma_array_of_view::<16>(v.xmm[1]);
        lemma_array_of_view::<16>(v.xmm[2]);
        lemma_array_of_view::<16>(v.xmm[3]);
        lemma_array_of_view::<16>(v.xmm[4]);
        lemma_array_of_view::<16>(v.xmm[5]);
        lemma_array_of_view::<16>(v.xmm[6]);
        lemma_array_of_view::<16>(v.xmm[7]);
        lemma_array_of_view::<16>(v.xmm[8]);
        lemma_array_of_view::<16>(v.xmm[9]);
        lemma_array_of_view::<16>(v.xmm[10]);
        lemma_array_of_view::<16>(v.xmm[11]);
        lemma_array_of_view::<16>(v.xmm[12]);
        lemma_array_of_view::<16>(v.xmm[13]);
        lemma_array_of_view::<16>(v.xmm[14]);
        lemma_array_of_view::<16>(v.xmm[15]);
        lemma_u32_le(v.mxcsr, Seq::empty());
        lemma_u32_le(v.pad2, Seq::empty());
        lemma_kvm_fpu_parts(
            v.fpr[0]@,
            v.fpr[1]@,
            v.fpr[2]@,
            v.fpr[3]@,
            v.fpr[4]@,
            v.fpr[5]@,
            v.fpr[6]@,
            v.fpr[7]@,
            u16_le(v.fcw),
            u16_le(v.fsw),
            seq![v.ftwx],
            seq![v.pad1],
            u16_le(v.last_opcode),
            u64_le(v.last_ip),
            u64_le(v.last_dp),
            v.xmm[0]@,
            v.xmm[1]@,
            v.xmm[2]@,
            v.xmm[3]@,
            v.xmm[4]@,
            v.xmm[5]@,
            v.xmm[6]@,
            v.xmm[7]@,
            v.xmm[8]@,
            v.xmm[9]@,
            v.xmm[10]@,
            v.xmm[11]@,
            v.xmm[12]@,
            v.xmm[13]@,
            v.xmm[14]@,
            v.xmm[15]@,
            u32_le(v.mxcsr),
            u32_le(v.pad2),
        );
        lemma_read_within(bytes, 128, 130);
        assert(u16_at(bytes, 128) == u16_at(bytes.subrange(128, 130), 0));
        lemma_read_within(bytes, 130, 132);
        assert(u16_at(bytes, 130) == u16_at(bytes.subrange(130, 132), 0));
        assert(bytes[132] == bytes.subrange(132, 133)[0]);
        assert(bytes[133] == bytes.subrange(133, 134)[0]);
        lemma_read_within(bytes, 134, 136);
        assert(u16_at(bytes, 134) == u16_at(bytes.subrange(134, 136), 0));
        lemma_read_within(bytes, 136, 144);
        assert(u64_at(bytes, 136) == u64_at(bytes.subrange(136, 144), 0));
        lemma_read_within(bytes, 144, 152);
        assert(u64_at(bytes, 144) == u64_at(bytes.subrange(144, 152), 0));
        lemma_read_within(bytes, 408, 412);
        assert(u32_at(bytes, 408) == u32_at(bytes.subrange(408, 412), 0));
        lemma_read_within(bytes, 412, 416);
        assert(u32_at(bytes, 412) == u32_at(bytes.subrange(412, 416), 0));
        assert(Self::decode(bytes).fpr =~= v.fpr);
        assert(Self::decode(bytes).xmm =~= v.xmm);
    }

    proof fn lemma_decode(bytes: Seq<u8>) {
        let v = Self::decode(bytes);
        lemma_array_of::<16>(bytes.subrange(0, 16));
        lemma_subrange_join(bytes.subrange(0, 16), 0, 0, 0);
        assert(v.fpr[0]@ == bytes.subrange(0, 16));
        lemma_array_of::<16>(bytes.subrange(16, 32));
        lemma_subrange_join(bytes.subrange(16, 32), 0, 0, 0);
        assert(v.fpr[1]@ == bytes.subrange(16, 32));
        lemma_subrange_join(bytes, 0, 16, 32);
        lemma_array_of::<16>(bytes.subrange(32, 48));
        lemma_subrange_join(bytes.subrange(32, 48), 0, 0, 0);
        assert(v.fpr[2]@ == bytes.subrange(32, 48));
        lemma_subrange_join(bytes, 0, 32, 48);
        lemma_array_of::<16>(bytes.subrange(48, 64));
        lemma_subrange_join(bytes.subrange(48, 64), 0, 0, 0);
        assert(v.fpr[3]@ == bytes.subrange(48, 64));
        lemma_subrange_join(bytes, 0, 48, 64);
        lemma_array_of::<16>(bytes.subrange(64, 80));
        lemma_subrange_join(bytes.subrange(64, 80), 0, 0, 0);
        assert(v.fpr[4]@ == bytes.subrange(64, 80));
        lemma_subrange_join(bytes, 0, 64, 80);
        lemma_array_of::<16>(bytes.subrange(80, 96));
        lemma_subrange_join(bytes.subrange(80, 96), 0, 0, 0);
        assert(v.fpr[5]@ == bytes.subrange(80, 96));
        lemma_subrange_join(bytes, 0, 80, 96);
        lemma_array_of::<16>(bytes.subrange(96, 112));
        lemma_subrange_join(bytes.subrange(96, 112), 0, 0, 0);
        assert(v.fpr[6]@ == bytes.subrange(96, 112));
        lemma_subrange_join(bytes, 0, 96, 112);
        lemma_array_of::<16>(bytes.subrange(112, 128));
        lemma_subrange_join(bytes.subrange(112, 128), 0, 0, 0);
        assert(v.fpr[7]@ == bytes.subrange(112, 128));
        lemma_subrange_join(bytes, 0, 112, 128);
        lemma_u16_le(0, bytes.subrange(128, 130));
        lemma_read_within(bytes, 128, 130);
        assert(u16_at(bytes, 128) == u16_at(bytes.subrange(128, 130), 0));
        assert(u16_le(v.fcw) == bytes.subrange(128, 130));
        lemma_subrange_join(bytes, 0, 128, 130);
        lemma_u16_le(0, bytes.subrange(130, 132));
        lemma_read_within(bytes, 130, 132);
        assert(u16_at(bytes, 130) == u16_at(bytes.subrange(130, 132), 0));
        assert(u16_le(v.fsw) == bytes.subrange(130, 132));
        lemma_subrange_join(bytes, 0, 130, 132);
        lemma_u8_le(0, bytes.subrange(132, 133));
        assert(bytes.subrange(132, 133)[0] == bytes[132]);
        assert(seq![v.ftwx] == bytes.subrange(132, 133));
        lemma_subrange_join(bytes, 0, 132, 133);
        lemma_u8_le(0, bytes.subrange(133, 134));
        assert(bytes.subrange(133, 134)[0] == bytes[133]);
        assert(seq![v.pad1] == bytes.subrange(133, 134));
        lemma_subrange_join(bytes, 0, 133, 134);
        lemma_u16_le(0, bytes.subrange(134, 136));
        lemma_read_within(bytes, 134, 136);
        assert(u16_at(bytes, 134) == u16_at(bytes.subrange(134, 136), 0));
        assert(u16_le(v.last_opcode) == bytes.subrange(134, 136));
        lemma_subrange_join(bytes, 0, 134, 136);
        lemma_u64_le(0, bytes.subrange(136, 144));
        lemma_read_within(bytes, 136, 144);
        assert(u64_at(bytes, 136) == u64_at(bytes.subrange(136, 144), 0));
        assert(u64_le(v.last_ip) == bytes.subrange(136, 144));
        lemma_subrange_join(bytes, 0, 136, 144);
        lemma_u64_le(0, bytes.subrange(144, 152));
        lemma_read_within(bytes, 144, 152);
        assert(u64_at(bytes, 144) == u64_at(bytes.subrange(144, 152), 0));
        assert(u64_le(v.last_dp) == bytes.subrange(144, 152));
        lemma_subrange_join(bytes, 0, 144, 152);
        lemma_array_of::<16>(bytes.subrange(152, 168));
        lemma_subrange_join(bytes.subrange(152, 168), 0, 0, 0);
        assert(v.xmm[0]@ == bytes.subrange(152, 168));
        lemma_subrange_join(bytes, 0, 152, 168);
        lemma_array_of::<16>(bytes.subrange(168, 184));
        lemma_subrange_join(bytes.subrange(168, 184), 0, 0, 0);
        assert(v.xmm[1]@ == bytes.subrange(168, 184));
        lemma_subrange_join(bytes, 0, 168, 184);
        lemma_array_of::<16>(bytes.subrange(184, 200));
        lemma_subrange_join(bytes.subrange(184, 200), 0, 0, 0);
        assert(v.xmm[2]@ == bytes.subrange(184, 200));
        lemma_subrange_join(bytes, 0, 184, 200);
        lemma_array_of::<16>(bytes.subrange(200, 216));
        lemma_subrange_join(bytes.subrange(200, 216), 0, 0, 0);
        assert(v.xmm[3]@ == bytes.subrange(200, 216));
        lemma_subrange_join(bytes, 0, 200, 216);
        lemma_array_of::<16>(bytes.subrange(216, 232));
        lemma_subrange_join(bytes.subrange(216, 232), 0, 0, 0);
        assert(v.xmm[4]@ == bytes.subrange(216, 232));
        lemma_subrange_join(bytes, 0, 216, 232);
        lemma_array_of::<16>(bytes.subrange(232, 248));
        lemma_subrange_join(bytes.subrange(232, 248), 0, 0, 0);
        assert(v.xmm[5]@ == bytes.subrange(232, 248));
        lemma_subrange_join(bytes, 0, 232, 248);
        lemma_array_of::<16>(bytes.subrange(248, 264));
        lemma_subrange_join(bytes.subrange(248, 264), 0, 0, 0);
        assert(v.xmm[6]@ == bytes.subrange(248, 264));
        lemma_subrange_join(bytes, 0, 248, 264);
        lemma_array_of::<16>(bytes.subrange(264, 280));
        lemma_subrange_join(bytes.subrange(264, 280), 0, 0, 0);
        assert(v.xmm[7]@ == bytes.subrange(264, 280));
        lemma_subrange_join(bytes, 0, 264, 280);
        lemma_array_of::<16>(bytes.subrange(280, 296));
        lemma_subrange_join(bytes.subrange(280, 296), 0, 0, 0);
        assert(v.xmm[8]@ == bytes.subrange(280, 296));
        lemma_subrange_join(bytes, 0, 280, 296);
        lemma_array_of::<16>(bytes.subrange(296, 312));
        lemma_subrange_join(bytes.subrange(296, 312), 0, 0, 0);
        assert(v.xmm[9]@ == bytes.subrange(296, 312));
        lemma_subrange_join(bytes, 0, 296, 312);
        lemma_array_of::<16>(bytes.subrange(312, 328));
        lemma_subrange_join(bytes.subrange(312, 328), 0, 0, 0);
        assert(v.xmm[10]@ == bytes.subrange(312, 328));
        lemma_subrange_join(bytes, 0, 312, 328);
        lemma_array_of::<16>(bytes.subrange(328, 344));
        lemma_subrange_join(bytes.subrange(328, 344), 0, 0, 0);
        assert(v.xmm[11]@ == bytes.subrange(328, 344));
        lemma_subrange_join(bytes, 0, 328, 344);
        lemma_array_of::<16>(bytes.subrange(344, 360));
        lemma_subrange_join(bytes.subrange(344, 360), 0, 0, 0);
        assert(v.xmm[12]@ == bytes.subrange(344, 360));
        lemma_subrange_join(bytes, 0, 344, 360);
        lemma_array_of::<16>(bytes.subrange(360, 376));
        lemma_subrange_join(bytes.subrange(360, 376), 0, 0, 0);
        assert(v.xmm[13]@ == bytes.subrange(360, 376));
        lemma_subrange_join(bytes, 0, 360, 376);
        lemma_array_of::<16>(bytes.subrange(376, 392));
        lemma_subrange_join(bytes.subrange(376, 392), 0, 0, 0);
        assert(v.xmm[14]@ == bytes.subrange(376, 392));
        lemma_subrange_join(bytes, 0, 376, 392);
        lemma_array_of::<16>(bytes.subrange(392, 408));
        lemma_subrange_join(bytes.subrange(392, 408), 0, 0, 0);
        assert(v.xmm[15]@ == bytes.subrange(392, 408));
        lemma_subrange_join(bytes, 0, 392, 408);
        lemma_u32_le(0, bytes.subrange(408, 412));
        lemma_read_within(bytes, 408, 412);
        assert(u32_at(bytes, 408) == u32_at(bytes.subrange(408, 412), 0));
        assert(u32_le(v.mxcsr) == bytes.subrange(408, 412));
        lemma_subrange_join(bytes, 0, 408, 412);
        lemma_u32_le(0, bytes.subrange(412, 416));
        lemma_read_within(bytes, 412, 416);
        assert(u32_at(bytes, 412) == u32_at(bytes.subrange(412, 416), 0));
        assert(u32_le(v.pad2) == bytes.subrange(412, 416));
        lemma_subrange_join(bytes, 0, 412, 416);
        lemma_subrange_join(bytes, 0, 0, 0);
        assert(v.encode() == bytes.subrange(0, KVM_FPU_SIZE as int));
    }

    proof fn lemma_zeroed() {
        let v = Self::zeroed();
        lemma_array_of::<16>(zeros(16));
        lemma_subrange_join(zeros(16), 0, 0, 0);
        assert(v.fpr[0]@ == zeros(16));
        assert(v.fpr[1]@ == zeros(16));
        lemma_zeros_join(16, 16);
        assert(v.fpr[2]@ == zeros(16));
        lemma_zeros_join(32, 16);
        assert(v.fpr[3]@ == zeros(16));
        lemma_zeros_join(48, 16);
        assert(v.fpr[4]@ == zeros(16));
        lemma_zeros_join(64, 16);
        assert(v.fpr[5]@ == zeros(16));
        lemma_zeros_join(80, 16);
        assert(v.fpr[6]@ == zeros(16));
        lemma_zeros_join(96, 16);
        assert(v.fpr[7]@ == zeros(16));
        lemma_zeros_join(112, 16);
        lemma_u16_le(0, Seq::empty());
        assert(u16_le(v.fcw) == zeros(2));
        lemma_zeros_join(128, 2);
        assert(u16_le(v.fsw) == zeros(2));
        lemma_zeros_join(130, 2);
        lemma_u8_le(0, Seq::empty());
        assert(seq![v.ftwx] == zeros(1));
        lemma_zeros_join(132, 1);
        assert(seq![v.pad1] == zeros(1));
        lemma_zeros_join(133, 1);
        assert(u16_le(v.last_opcode) == zeros(2));
        lemma_zeros_join(134, 2);
        lemma_u64_le(0, Seq::empty());
        assert(u64_le(v.last_ip) == zeros(8));
        lemma_zeros_join(136, 8);
        assert(u64_le(v.last_dp) == zeros(8));
        lemma_zeros_join(144, 8);
        assert(v.xmm[0]@ == zeros(16));
        lemma_zeros_join(152, 16);
        assert(v.xmm[1]@ == zeros(16));
        lemma_zeros_join(168, 16);
        assert(v.xmm[2]@ == zeros(16));
        lemma_zeros_join(184, 16);
        assert(v.xmm[3]@ == zeros(16));
        lemma_zeros_join(200, 16);
        assert(v.xmm[4]@ == zeros(16));
        lemma_zeros_join(216, 16);
        assert(v.xmm[5]@ == zeros(16));
        lemma_zeros_join(232, 16);
        assert(v.xmm[6]@ == zeros(16));
        lemma_zeros_join(248, 16);
        assert(v.xmm[7]@ == zeros(16));
        lemma_zeros_join(264, 16);
        assert(v.xmm[8]@ == zeros(16));
        lemma_zeros_join(280, 16);
        assert(v.xmm[9]@ == zeros(16));
        lemma_zeros_join(296, 16);
        assert(v.xmm[10]@ == zeros(16));
        lemma_zeros_join(312, 16);
        assert(v.xmm[11]@ == zeros(16));
        lemma_zeros_join(328, 16);
        assert(v.xmm[12]@ == zeros(16));
        lemma_zeros_join(344, 16);
        assert(v.xmm[13]@ == zeros(16));
        lemma_zeros_join(360, 16);
        assert(v.xmm[14]@ == zeros(16));
        lemma_zeros_join(376, 16);
        assert(v.xmm[15]@ == zeros(16));
        lemma_zeros_join(392, 16);
        lemma_u32_le(0, Seq::empty());
        assert(u32_le(v.mxcsr) == zeros(4));
        lemma_zeros_join(408, 4);
        assert(u32_le(v.pad2) == zeros(4));
        lemma_zeros_join(412, 4);
        assert(v.encode() == zeros(KVM_FPU_SIZE as nat));
    }

    fn size() -> usize {
        KVM_FPU_SIZE
    }

    fn put(&self, out: &mut Vec<u8>) {
        put_bytes(out, self.fpr[0].as_slice());
        let ghost c0 = self.fpr[0]@;
        assert(out@ == old(out)@ + c0);
        put_bytes(out, self.fpr[1].as_slice());
        let ghost c1 = c0 + self.fpr[1]@;
        proof {
            lemma_append_twice(old(out)@, c0, self.fpr[1]@);
        }
        assert(out@ == old(out)@ + c1);
        put_bytes(out, self.fpr[2].as_slice());
        let ghost c2 = c1 + self.fpr[2]@;
        proof {
            lemma_append_twice(old(out)@, c1, self.fpr[2]@);
        }
        assert(out@ == old(out)@ + c2);
        put_bytes(out, self.fpr[3].as_slice());
        let ghost c3 = c2 + self.fpr[3]@;
        proof {
            lemma_append_twice(old(out)@, c2, self.fpr[3]@);
        }
        assert(out@ == old(out)@ + c3);
        put_bytes(out, self.fpr[4].as_slice());
        let ghost c4 = c3 + self.fpr[4]@;
        proof {
            lemma_append_twice(old(out)@, c3, self.fpr[4]@);
        }
        assert(out@ == old(out)@ + c4);
        put_bytes(out, self.fpr[5].as_slice());
        let ghost c5 = c4 + self.fpr[5]@;
        proof {
            lemma_append_twice(old(out)@, c4, self.fpr[5]@);
        }
        assert(out@ == old(out)@ + c5);
        put_bytes(out, self.fpr[6].as_slice());
        let ghost c6 = c5 + self.fpr[6]@;
        proof {
            lemma_append_twice(old(out)@, c5, self.fpr[6]@);
        }
        assert(out@ == old(out)@ + c6);
        put_bytes(out, self.fpr[7].as_slice());
        let ghost c7 = c6 + self.fpr[7]@;
        proof {
            lemma_append_twice(old(out)@, c6, self.fpr[7]@);
        }
        assert(out@ == old(out)@ + c7);
        put_u16(out, self.fcw);
        let ghost c8 = c7 + u16_le(self.fcw);
        proof {
            lemma_append_twice(old(out)@, c7, u16_le(self.fcw));
        }
        assert(out@ == old(out)@ + c8);
        put_u16(out, self.fsw);
        let ghost c9 = c8 + u16_le(self.fsw);
        proof {
            lemma_append_twice(old(out)@, c8, u16_le(self.fsw));
        }
        assert(out@ == old(out)@ + c9);
        put_u8(out, self.ftwx);
        let ghost c10 = c9 + seq![self.ftwx];
        proof {
            lemma_append_twice(old(out)@, c9, seq![self.ftwx]);
        }
        assert(out@ == old(out)@ + c10);
        put_u8(out, self.pad1);
        let ghost c11 = c10 + seq![self.pad1];
        proof {
            lemma_append_twice(old(out)@, c10, seq![self.pad1]);
        }
        assert(out@ == old(out)@ + c11);
        put_u16(out, self.last_opcode);
        let ghost c12 = c11 + u16_le(self.last_opcode);
        proof {
            lemma_append_twice(old(out)@, c11, u16_le(self.last_opcode));
        }
        assert(out@ == old(out)@ + c12);
        put_u64(out, self.last_ip);
        let ghost c13 = c12 + u64_le(self.last_ip);
        proof {
            lemma_append_twice(old(out)@, c12, u64_le(self.last_ip));
        }
        assert(out@ == old(out)@ + c13);
        put_u64(out, self.last_dp);
        let ghost c14 = c13 + u64_le(self.last_dp);
        proof {
            lemma_append_twice(old(out)@, c13, u64_le(self.last_dp));
        }
        assert(out@ == old(out)@ + c14);
        put_bytes(out, self.xmm[0].as_slice());
        let ghost c15 = c14 + self.xmm[0]@;
        proof {
            lemma_append_twice(old(out)@, c14, self.xmm[0]@);
        }
        assert(out@ == old(out)@ + c15);
        put_bytes(out, self.xmm[1].as_slice());
        let ghost c16 = c15 + self.xmm[1]@;
        proof {
            lemma_append_twice(old(out)@, c15, self.xmm[1]@);
        }
        assert(out@ == old(out)@ + c16);
        put_bytes(out, self.xmm[2].as_slice());
        let ghost c17 = c16 + self.xmm[2]@;
        proof {
            lemma_append_twice(old(out)@, c16, self.xmm[2]@);
        }
        assert(out@ == old(out)@ + c17);
        put_bytes(out, self.xmm[3].as_slice());
        let ghost c18 = c17 + self.xmm[3]@;
        proof {
            lemma_append_twice(old(out)@, c17, self.xmm[3]@);
        }
        assert(out@ == old(out)@ + c18);
        put_bytes(out, self.xmm[4].as_slice());
        let ghost c19 = c18 + self.xmm[4]@;
        proof {
            lemma_append_twice(old(out)@, c18, self.xmm[4]@);
        }
        assert(out@ == old(out)@ + c19);
        put_bytes(out, self.xmm[5].as_slice());
        let ghost c20 = c19 + self.xmm[5]@;
        proof {
            lemma_append_twice(old(out)@, c19, self.xmm[5]@);
        }
        assert(out@ == old(out)@ + c20);
        put_bytes(out, self.xmm[6].as_slice());
        let ghost c21 = c20 + self.xmm[6]@;
        proof {
            lemma_append_twice(old(out)@, c20, self.xmm[6]@);
        }
        assert(out@ == old(out)@ + c21);
        put_bytes(out, self.xmm[7].as_slice());
        let ghost c22 = c21 + self.xmm[7]@;
        proof {
            lemma_append_twice(old(out)@, c21, self.xmm[7]@);
        }
        assert(out@ == old(out)@ + c22);
        put_bytes(out, self.xmm[8].as_slice());
        let ghost c23 = c22 + self.xmm[8]@;
        proof {
            lemma_append_twice(old(out)@, c22, self.xmm[8]@);
        }
        assert(out@ == old(out)@ + c23);
        put_bytes(out, self.xmm[9].as_slice());
        let ghost c24 = c23 + self.xmm[9]@;
        proof {
            lemma_append_twice(old(out)@, c23, self.xmm[9]@);
        }
        assert(out@ == old(out)@ + c24);
        put_bytes(out, self.xmm[10].as_slice());
        let ghost c25 = c24 + self.xmm[10]@;
        proof {
            lemma_append_twice(old(out)@, c24, self.xmm[10]@);
        }
        assert(out@ == old(out)@ + c25);
        put_bytes(out, self.xmm[11].as_slice());
        let ghost c26 = c25 + self.xmm[11]@;
        proof {
            lemma_append_twice(old(out)@, c25, self.xmm[11]@);
        }
        assert(out@ == old(out)@ + c26);
        put_bytes(out, self.xmm[12].as_slice());
        let ghost c27 = c26 + self.xmm[12]@;
        proof {
            lemma_append_twice(old(out)@, c26, self.xmm[12]@);
        }
        assert(out@ == old(out)@ + c27);
        put_bytes(out, self.xmm[13].as_slice());
        let ghost c28 = c27 + self.xmm[13]@;
        proof {
            lemma_append_twice(old(out)@, c27, self.xmm[13]@);
        }
        assert(out@ == old(out)@ + c28);
        put_bytes(out, self.xmm[14].as_slice());
        let ghost c29 = c28 + self.xmm[14]@;
        proof {
            lemma_append_twice(old(out)@, c28, self.xmm[14]@);
        }
        assert(out@ == old(out)@ + c29);
        put_bytes(out, self.xmm[15].as_slice());
        let ghost c30 = c29 + self.xmm[15]@;
        proof {
            lemma_append_twice(old(out)@, c29, self.xmm[15]@);
        }
        assert(out@ == old(out)@ + c30);
        put_u32(out, self.mxcsr);
        let ghost c31 = c30 + u32_le(self.mxcsr);
        proof {
            lemma_append_twice(old(out)@, c30, u32_le(self.mxcsr));
        }
        assert(out@ == old(out)@ + c31);
        put_u32(out, self.pad2);
        let ghost c32 = c31 + u32_le(self.pad2);
        proof {
            lemma_append_twice(old(out)@, c31, u32_le(self.pad2));
        }
        assert(out@ == old(out)@ + c32);
    }

    fn get(bytes: &[u8], at: usize) -> Self {
        proof {
            lemma_read_within(bytes@, at as int, at + KVM_FPU_SIZE);
            lemma_subrange_within(bytes@, at as int, at + KVM_FPU_SIZE, 0, 16);
            lemma_subrange_within(bytes@, at as int, at + KVM_FPU_SIZE, 16, 32);
            lemma_subrange_within(bytes@, at as int, at + KVM_FPU_SIZE, 32, 48);
            lemma_subrange_within(bytes@, at as int, at + KVM_FPU_SIZE, 48, 64);
            lemma_subrange_within(bytes@, at as int, at + KVM_FPU_SIZE, 64, 80);
            lemma_subrange_within(bytes@, at as int, at + KVM_FPU_SIZE, 80, 96);
            lemma_subrange_within(bytes@, at as int, at + KVM_FPU_SIZE, 96, 112);
            lemma_subrange_within(bytes@, at as int, at + KVM_FPU_SIZE, 112, 128);
            lemma_subrange_within(bytes@, at as int, at + KVM_FPU_SIZE, 152, 168);
            lemma_subrange_within(bytes@, at as int, at + KVM_FPU_SIZE, 168, 184);
            lemma_subrange_within(bytes@, at as int, at + KVM_FPU_SIZE, 184, 200);
            lemma_subrange_within(bytes@, at as int, at + KVM_FPU_SIZE, 200, 216);
            lemma_subrange_within(bytes@, at as int, at + KVM_FPU_SIZE, 216, 232);
            lemma_subrange_within(bytes@, at as int, at + KVM_FPU_SIZE, 232, 248);
            lemma_subrange_within(bytes@, at as int, at + KVM_FPU_SIZE, 248, 264);
            lemma_subrange_within(bytes@, at as int, at + KVM_FPU_SIZE, 264, 280);
            lemma_subrange_within(bytes@, at as int, at + KVM_FPU_SIZE, 280, 296);
            lemma_subrange_within(bytes@, at as int, at + KVM_FPU_SIZE, 296, 312);
            lemma_subrange_within(bytes@, at as int, at + KVM_FPU_SIZE, 312, 328);
            lemma_subrange_within(bytes@, at as int, at + KVM_FPU_SIZE, 328, 344);
            lemma_subrange_within(bytes@, at as int, at + KVM_FPU_SIZE, 344, 360);
            lemma_subrange_within(bytes@, at as int, at + KVM_FPU_SIZE, 360, 376);
            lemma_subrange_within(bytes@, at as int, at + KVM_FPU_SIZE, 376, 392);
            lemma_subrange_within(bytes@, at as int, at + KVM_FPU_SIZE, 392, 408);
        }
        kvm_fpu {
            fpr: [
                get_bytes::<16>(bytes, at),
                get_bytes::<16>(bytes, at + 16),
                get_bytes::<16>(bytes, at + 32),
                get_bytes::<16>(bytes, at + 48),
                get_bytes::<16>(bytes, at + 64),
                get_bytes::<16>(bytes, at + 80),
                get_bytes::<16>(bytes, at + 96),
                get_bytes::<16>(bytes, at + 112),
            ],
            fcw: get_u16(bytes, at + 128),
            fsw: get_u16(bytes, at + 130),
            ftwx: get_u8(bytes, at + 132),
            pad1: get_u8(bytes, at + 133),
            last_opcode: get_u16(bytes, at + 134),
            last_ip: get_u64(bytes, at + 136),
            last_dp: get_u64(bytes, at + 144),
            xmm: [
                get_bytes::<16>(bytes, at + 152),
                get_bytes::<16>(bytes, at + 168),
                get_bytes::<16>(bytes, at + 184),
                get_bytes::<16>(bytes, at + 200),
                get_bytes::<16>(bytes, at + 216),
                get_bytes::<16>(bytes, at + 232),
                get_bytes::<16>(bytes, at + 248),
                get_bytes::<16>(bytes, at + 264),
                get_bytes::<16>(bytes, at + 280),
                get_bytes::<16>(bytes, at + 296),
                get_bytes::<16>(bytes, at + 312),
                get_bytes::<16>(bytes, at + 328),
                get_bytes::<16>(bytes, at + 344),
                get_bytes::<16>(bytes, at + 360),
                get_bytes::<16>(bytes, at + 376),
                get_bytes::<16>(bytes, at + 392),
            ],
            mxcsr: get_u32(bytes, at + 408),
            pad2: get_u32(bytes, at + 412),
        }
    }
}

impl Default for kvm_fpu {
    /// The value all of whose fields are zero.
    fn default() -> (v: Self)
        ensures
            v == Self::zeroed(),
    {
        let v = kvm_fpu {
            fpr: [
                [0u8; 16],
                [0u8; 16],
                [0u8; 16],
                [0u8; 16],
                [0u8; 16],
                [0u8; 16],
                [0u8; 16],
                [0u8; 16],
            ],
            fcw: 0u16,
            fsw: 0u16,
            ftwx: 0u8,
            pad1: 0u8,
            last_opcode: 0u16,
            last_ip: 0u64,
            last_dp: 0u64,
            xmm: [
                [0u8; 16],
                [0u8; 16],
                [0u8; 16],
                [0u8; 16],
                [0u8; 16],
                [0u8; 16],
                [0u8; 16],
                [0u8; 16],
                [0u8; 16],
                [0u8; 16],
                [0u8; 16],
                [0u8; 16],
                [0u8; 16],
                [0u8; 16],
                [0u8; 16],
                [0u8; 16],
            ],
            mxcsr: 0u32,
            pad2: 0u32,
        };
        proof {
            broadcast use group_array_axioms;

            lemma_array_of::<16>(zeros(16));
            assert(v.fpr[0] =~= array_of::<16>(zeros(16)));
            assert(v.fpr[1] =~= array_of::<16>(zeros(16)));
            assert(v.fpr[2] =~= array_of::<16>(zeros(16)));
            assert(v.fpr[3] =~= array_of::<16>(zeros(16)));
            assert(v.fpr[4] =~= array_of::<16>(zeros(16)));
            assert(v.fpr[5] =~= array_of::<16>(zeros(16)));
            assert(v.fpr[6] =~= array_of::<16>(zeros(16)));
            assert(v.fpr[7] =~= array_of::<16>(zeros(16)));
            assert(v.xmm[0] =~= array_of::<16>(zeros(16)));
            assert(v.xmm[1] =~= array_of::<16>(zeros(16)));
            assert(v.xmm[2] =~= array_of::<16>(zeros(16)));
            assert(v.xmm[3] =~= array_of::<16>(zeros(16)));
            assert(v.xmm[4] =~= array_of::<16>(zeros(16)));
            assert(v.xmm[5] =~= array_of::<16>(zeros(16)));
            assert(v.xmm[6] =~= array_of::<16>(zeros(16)));
            assert(v.xmm[7] =~= array_of::<16>(zeros(16)));
            assert(v.xmm[8] =~= array_of::<16>(zeros(16)));
            assert(v.xmm[9] =~= array_of::<16>(zeros(16)));
            assert(v.xmm[10] =~= array_of::<16>(zeros(16)));
            assert(v.xmm[11] =~= array_of::<16>(zeros(16)));
            assert(v.xmm[12] =~= array_of::<16>(zeros(16)));
            assert(v.xmm[13] =~= array_of::<16>(zeros(16)));
            assert(v.xmm[14] =~= array_of::<16>(zeros(16)));
            assert(v.xmm[15] =~= array_of::<16>(zeros(16)));
            assert(v.fpr =~= Self::zeroed().fpr);
            assert(v.xmm =~= Self::zeroed().xmm);
        }
        v
    }
}

/// The registers of the local interrupt controller of a virtual CPU.
#[derive(Clone, Copy, Debug, PartialEq, Eq)]
pub struct kvm_lapic_state {
    pub regs: [u8; 1024],
}

/// Where the parts of a `kvm_lapic_state` lie in its bytes.
proof fn lemma_kvm_lapic_state_parts(
    e0: Seq<u8>,
)
    requires
        e0.len() == 1024,
    ensures
        ({
            let bytes = e0;
            &&& bytes.len() == 1024
            &&& bytes.subrange(0, 1024) == e0
        }),
{
    let upto0 = e0;
    lemma_subrange_join(e0, 0, 0, 0);
}

impl Layout for kvm_lapic_state {
    open spec fn spec_size() -> nat {
        KVM_LAPIC_STATE_SIZE as nat
    }

    open spec fn encode(&self) -> Seq<u8> {
        self.regs@
    }

    open spec fn decode(bytes: Seq<u8>) -> Self {
        kvm_lapic_state {
            regs: array_of::<1024>(bytes.subrange(0, 1024)),
        }
    }

    open spec fn zeroed() -> Self {
        kvm_lapic_state {
            regs: array_of::<1024>(zeros(1024)),
        }
    }

    proof fn lemma_size() {
    }

    proof fn lemma_encode(v: Self) {
        let bytes = v.encode();
        lemma_array_of_view::<1024>(v.regs);
        lemma_kvm_lapic_state_parts(
            v.regs@,
        );
    }

    proof fn lemma_decode(bytes: Seq<u8>) {
        let v = Self::decode(bytes);
        lemma_array_of::<1024>(bytes.subrange(0, 1024));
        lemma_subrange_join(bytes.subrange(0, 1024), 0, 0, 0);
        assert(v.regs@ == bytes.subrange(0, 1024));
        lemma_subrange_join(bytes, 0, 0, 0);
        assert(v.encode() == bytes.subrange(0, KVM_LAPIC_STATE_SIZE as int));
    }

    proof fn lemma_zeroed() {
        let v = Self::zeroed();
        lemma_array_of::<1024>(zeros(1024));
        lemma_subrange_join(zeros(1024), 0, 0, 0);
        assert(v.regs@ == zeros(1024));
        assert(v.encode() == zeros(KVM_LAPIC_STATE_SIZE as nat));
    }

    fn size() -> usize {
        KVM_LAPIC_STATE_SIZE
    }

    fn put(&self, out: &mut Vec<u8>) {
        put_bytes(out, self.regs.as_slice());
        let ghost c0 = self.regs@;
        assert(out@ == old(out)@ + c0);
    }

    fn get(bytes: &[u8], at: usize) -> Self {
        proof {
            lemma_read_within(bytes@, at as int, at + KVM_LAPIC_STATE_SIZE);
            lemma_subrange_within(bytes@, at as int, at + KVM_LAPIC_STATE_SIZE, 0, 1024);
        }
        kvm_lapic_state {
            regs: get_bytes::<1024>(bytes, at),
        }
    }
}

impl Default for kvm_lapic_state {
    /// The value all of whose fields are zero.
    fn default() -> (v: Self)
        ensures
            v == Self::zeroed(),
    {
        let v = kvm_lapic_state {
            regs: [0u8; 1024],
        };
        proof {
            broadcast use group_array_axioms;

            lemma_array_of::<1024>(zeros(1024));
            assert(v.regs =~= array_of::<1024>(zeros(1024)));
        }
        v
    }
}

/// One model-specific register: its index and its value.
#[derive(Clone, Copy, Debug, PartialEq, Eq, Structural)]
pub struct kvm_msr_entry {
    pub index: u32,
    pub reserved: u32,
    pub data: u64,
}

/// Where the parts of a `kvm_msr_entry` lie in its bytes.
proof fn lemma_kvm_msr_entry_parts(
    e0: Seq<u8>,
    e1: Seq<u8>,
    e2: Seq<u8>,
)
    requires
        e0.len() == 4,
        e1.len() == 4,
        e2.len() == 8,
    ensures
        ({
            let bytes = e0 + e1 + e2;
            &&& bytes.len() == 16
            &&& bytes.subrange(0, 4) == e0
            &&& bytes.subrange(4, 8) == e1
            &&& bytes.subrange(8, 16) == e2
        }),
{
    let upto0 = e0;
    lemma_subrange_join(e0, 0, 0, 0);
    let upto1 = upto0 + e1;
    lemma_append_keeps(upto0, e1);
    let upto2 = upto1 + e2;
    lemma_append_keeps(upto1, e2);
}

impl Layout for kvm_msr_entry {
    open spec fn spec_size() -> nat {
        KVM_MSR_ENTRY_SIZE as nat
    }

    open spec fn encode(&self) -> Seq<u8> {
        u32_le(self.index) + u32_le(self.reserved) + u64_le(self.data)
    }

    open spec fn decode(bytes: Seq<u8>) -> Self {
        kvm_msr_entry {
            index: u32_at(bytes, 0),
            reserved: u32_at(bytes, 4),
            data: u64_at(bytes, 8),
        }
    }

    open spec fn zeroed() -> Self {
        kvm_msr_entry {
            index: 0u32,
            reserved: 0u32,
            data: 0u64,
        }
    }

    proof fn lemma_size() {
    }

    proof fn lemma_encode(v: Self) {
        let bytes = v.encode();
        lemma_u32_le(v.index, Seq::empty());
        lemma_u32_le(v.reserved, Seq::empty());
        lemma_u64_le(v.data, Seq::empty());
        lemma_kvm_msr_entry_parts(
            u32_le(v.index),
            u32_le(v.reserved),
            u64_le(v.data),
        );
        lemma_read_within(bytes, 0, 4);
        assert(u32_at(bytes, 0) == u32_at(bytes.subrange(0, 4), 0));
        lemma_read_within(bytes, 4, 8);
        assert(u32_at(bytes, 4) == u32_at(bytes.subrange(4, 8), 0));
        lemma_read_within(bytes, 8, 16);
        assert(u64_at(bytes, 8) == u64_at(bytes.subrange(8, 16), 0));
    }

    proof fn lemma_decode(bytes: Seq<u8>) {
        let v = Self::decode(bytes);
        lemma_u32_le(0, bytes.subrange(0, 4));
        lemma_read_within(bytes, 0, 4);
        assert(u32_at(bytes, 0) == u32_at(bytes.subrange(0, 4), 0));
        assert(u32_le(v.index) == bytes.subrange(0, 4));
        lemma_u32_le(0, bytes.subrange(4, 8));
        lemma_read_within(bytes, 4, 8);
        assert(u32_at(bytes, 4) == u32_at(bytes.subrange(4, 8), 0));
        assert(u32_le(v.reserved) == bytes.subrange(4, 8));
        lemma_subrange_join(bytes, 0, 4, 8);
        lemma_u64_le(0, bytes.subrange(8, 16));
        lemma_read_within(bytes, 8, 16);
        assert(u64_at(bytes, 8) == u64_at(bytes.subrange(8, 16), 0));
        assert(u64_le(v.data) == bytes.subrange(8, 16));
        lemma_subrange_join(bytes, 0, 8, 16);
        lemma_subrange_join(bytes, 0, 0, 0);
        assert(v.encode() == bytes.subrange(0, KVM_MSR_ENTRY_SIZE as int));
    }

    proof fn lemma_zeroed() {
        let v = Self::zeroed();
        lemma_u32_le(0, Seq::empty());
        assert(u32_le(v.index) == zeros(4));
        assert(u32_le(v.reserved) == zeros(4));
        lemma_zeros_join(4, 4);
        lemma_u64_le(0, Seq::empty());
        assert(u64_le(v.data) == zeros(8));
        lemma_zeros_join(8, 8);
        assert(v.encode() == zeros(KVM_MSR_ENTRY_SIZE as nat));
    }

    fn size() -> usize {
        KVM_MSR_ENTRY_SIZE
    }

    fn put(&self, out: &mut Vec<u8>) {
        put_u32(out, self.index);
        let ghost c0 = u32_le(self.index);
        assert(out@ == old(out)@ + c0);
        put_u32(out, self.reserved);
        let ghost c1 = c0 + u32_le(self.reserved);
        proof {
            lemma_append_twice(old(out)@, c0, u32_le(self.reserved));
        }
        assert(out@ == old(out)@ + c1);
        put_u64(out, self.data);
        let ghost c2 = c1 + u64_le(self.data);
        proof {
            lemma_append_twice(old(out)@, c1, u64_le(self.data));
        }
        assert(out@ == old(out)@ + c2);
    }

    fn get(bytes: &[u8], at: usize) -> Self {
        proof {
            lemma_read_within(bytes@, at as int, at + KVM_MSR_ENTRY_SIZE);
        }
        kvm_msr_entry {
            index: get_u32(bytes, at),
            reserved: get_u32(bytes, at + 4),
            data: get_u64(bytes, at + 8),
        }
    }
}

impl Default for kvm_msr_entry {
    /// The value all of whose fields are zero.
    fn default() -> (v: Self)
        ensures
            v == Self::zeroed(),
    {
        kvm_msr_entry {
            index: 0u32,
            reserved: 0u32,
            data: 0u64,
        }
    }
}

/// One CPUID leaf as the guest is to see it.
#[derive(Clone, Copy, Debug, PartialEq, Eq)]
pub struct kvm_cpuid_entry2 {
    pub function: u32,
    pub index: u32,
    pub flags: u32,
    pub eax: u32,
    pub ebx: u32,
    pub ecx: u32,
    pub edx: u32,
    pub padding: [u32; 3],
}

/// Where the parts of a `kvm_cpuid_entry2` lie in its bytes.
proof fn lemma_kvm_cpuid_entry2_parts(
    e0: Seq<u8>,
    e1: Seq<u8>,
    e2: Seq<u8>,
    e3: Seq<u8>,
    e4: Seq<u8>,
    e5: Seq<u8>,
    e6: Seq<u8>,
    e7: Seq<u8>,
    e8: Seq<u8>,
    e9: Seq<u8>,
)
    requires
        e0.len() == 4,
        e1.len() == 4,
        e2.len() == 4,
        e3.len() == 4,
        e4.len() == 4,
        e5.len() == 4,
        e6.len() == 4,
        e7.len() == 4,
        e8.len() == 4,
        e9.len() == 4,
    ensures
        ({
            let bytes = e0 + e1 + e2 + e3 + e4 + e5 + e6 + e7 + e8 + e9;
            &&& bytes.len() == 40
            &&& bytes.subrange(0, 4) == e0
            &&& bytes.subrange(4, 8) == e1
            &&& bytes.subrange(8, 12) == e2
            &&& bytes.subrange(12, 16) == e3
            &&& bytes.subrange(16, 20) == e4
            &&& bytes.subrange(20, 24) == e5
            &&& bytes.subrange(24, 28) == e6
            &&& bytes.subrange(28, 32) == e7
            &&& bytes.subrange(32, 36) == e8
            &&& bytes.subrange(36, 40) == e9
        }),
{
    let upto0 = e0;
    lemma_subrange_join(e0, 0, 0, 0);
    let upto1 = upto0 + e1;
    lemma_append_keeps(upto0, e1);
    let upto2 = upto1 + e2;
    lemma_append_keeps(upto1, e2);
    let upto3 = upto2 + e3;
    lemma_append_keeps(upto2, e3);
    let upto4 = upto3 + e4;
    lemma_append_keeps(upto3, e4);
    let upto5 = upto4 + e5;
    lemma_append_keeps(upto4, e5);
    let upto6 = upto5 + e6;
    lemma_append_keeps(upto5, e6);
    let upto7 = upto6 + e7;
    lemma_append_keeps(upto6, e7);
    let upto8 = upto7 + e8;
    lemma_append_keeps(upto7, e8);
    let upto9 = upto8 + e9;
    lemma_append_keeps(upto8, e9);
}

impl Layout for kvm_cpuid_entry2 {
    open spec fn spec_size() -> nat {
        KVM_CPUID_ENTRY2_SIZE as nat
    }

    open spec fn encode(&self) -> Seq<u8> {
        u32_le(self.function) + u32_le(self.index) + u32_le(self.flags) + u32_le(self.eax)
            + u32_le(self.ebx) + u32_le(self.ecx) + u32_le(self.edx) + u32_le(self.padding[0])
            + u32_le(self.padding[1]) + u32_le(self.padding[2])
    }

    open spec fn decode(bytes: Seq<u8>) -> Self {
        kvm_cpuid_entry2 {
            function: u32_at(bytes, 0),
            index: u32_at(bytes, 4),
            flags: u32_at(bytes, 8),
            eax: u32_at(bytes, 12),
            ebx: u32_at(bytes, 16),
            ecx: u32_at(bytes, 20),
            edx: u32_at(bytes, 24),
            padding: [u32_at(bytes, 28), u32_at(bytes, 32), u32_at(bytes, 36)],
        }
    }

    open spec fn zeroed() -> Self {
        kvm_cpuid_entry2 {
            function: 0u32,
            index: 0u32,
            flags: 0u32,
            eax: 0u32,
            ebx: 0u32,
            ecx: 0u32,
            edx: 0u32,
            padding: [0u32, 0u32, 0u32],
        }
    }

    proof fn lemma_size() {
    }

    proof fn lemma_encode(v: Self) {
        let bytes = v.encode();
        lemma_u32_le(v.function, Seq::empty());
        lemma_u32_le(v.index, Seq::empty());
        lemma_u32_le(v.flags, Seq::empty());
        lemma_u32_le(v.eax, Seq::empty());
        lemma_u32_le(v.ebx, Seq::empty());
        lemma_u32_le(v.ecx, Seq::empty());
        lemma_u32_le(v.edx, Seq::empty());
        lemma_u32_le(v.padding[0], Seq::empty());
        lemma_u32_le(v.padding[1], Seq::empty());
        lemma_u32_le(v.padding[2], Seq::empty());
        lemma_kvm_cpuid_entry2_parts(
            u32_le(v.function),
            u32_le(v.index),
            u32_le(v.flags),
            u32_le(v.eax),
            u32_le(v.ebx),
            u32_le(v.ecx),
            u32_le(v.edx),
            u32_le(v.padding[0]),
            u32_le(v.padding[1]),
            u32_le(v.padding[2]),
        );
        lemma_read_within(bytes, 0, 4);
        assert(u32_at(bytes, 0) == u32_at(bytes.subrange(0, 4), 0));
        lemma_read_within(bytes, 4, 8);
        assert(u32_at(bytes, 4) == u32_at(bytes.subrange(4, 8), 0));
        lemma_read_within(bytes, 8, 12);
        assert(u32_at(bytes, 8) == u32_at(bytes.subrange(8, 12), 0));
        lemma_read_within(bytes, 12, 16);
        assert(u32_at(bytes, 12) == u32_at(bytes.subrange(12, 16), 0));
        lemma_read_within(bytes, 16, 20);
        assert(u32_at(bytes, 16) == u32_at(bytes.subrange(16, 20), 0));
        lemma_read_within(bytes, 20, 24);
        assert(u32_at(bytes, 20) == u32_at(bytes.subrange(20, 24), 0));
        lemma_read_within(bytes, 24, 28);
        assert(u32_at(bytes, 24) == u32_at(bytes.subrange(24, 28), 0));
        lemma_read_within(bytes, 28, 32);
        assert(u32_at(bytes, 28) == u32_at(bytes.subrange(28, 32), 0));
        lemma_read_within(bytes, 32, 36);
        assert(u32_at(bytes, 32) == u32_at(bytes.subrange(32, 36), 0));
        lemma_read_within(bytes, 36, 40);
        assert(u32_at(bytes, 36) == u32_at(bytes.subrange(36, 40), 0));
        assert(Self::decode(bytes).padding =~= v.padding);
    }

    proof fn lemma_decode(bytes: Seq<u8>) {
        let v = Self::decode(bytes);
        lemma_u32_le(0, bytes.subrange(0, 4));
        lemma_read_within(bytes, 0, 4);
        assert(u32_at(bytes, 0) == u32_at(bytes.subrange(0, 4), 0));
        assert(u32_le(v.function) == bytes.subrange(0, 4));
        lemma_u32_le(0, bytes.subrange(4, 8));
        lemma_read_within(bytes, 4, 8);
        assert(u32_at(bytes, 4) == u32_at(bytes.subrange(4, 8), 0));
        assert(u32_le(v.index) == bytes.subrange(4, 8));
        lemma_subrange_join(bytes, 0, 4, 8);
        lemma_u32_le(0, bytes.subrange(8, 12));
        lemma_read_within(bytes, 8, 12);
        assert(u32_at(bytes, 8) == u32_at(bytes.subrange(8, 12), 0));
        assert(u32_le(v.flags) == bytes.subrange(8, 12));
        lemma_subrange_join(bytes, 0, 8, 12);
        lemma_u32_le(0, bytes.subrange(12, 16));
        lemma_read_within(bytes, 12, 16);
        assert(u32_at(bytes, 12) == u32_at(bytes.subrange(12, 16), 0));
        assert(u32_le(v.eax) == bytes.subrange(12, 16));
        lemma_subrange_join(bytes, 0, 12, 16);
        lemma_u32_le(0, bytes.subrange(16, 20));
        lemma_read_within(bytes, 16, 20);
        assert(u32_at(bytes, 16) == u32_at(bytes.subrange(16, 20), 0));
        assert(u32_le(v.ebx) == bytes.subrange(16, 20));
        lemma_subrange_join(bytes, 0, 16, 20);
        lemma_u32_le(0, bytes.subrange(20, 24));
        lemma_read_within(bytes, 20, 24);
        assert(u32_at(bytes, 20) == u32_at(bytes.subrange(20, 24), 0));
        assert(u32_le(v.ecx) == bytes.subrange(20, 24));
        lemma_subrange_join(bytes, 0, 20, 24);
        lemma_u32_le(0, bytes.subrange(24, 28));
        lemma_read_within(bytes, 24, 28);
        assert(u32_at(bytes, 24) == u32_at(bytes.subrange(24, 28), 0));
        assert(u32_le(v.edx) == bytes.subrange(24, 28));
        lemma_subrange_join(bytes, 0, 24, 28);
        lemma_u32_le(0, bytes.subrange(28, 32));
        lemma_read_within(bytes, 28, 32);
        assert(u32_at(bytes, 28) == u32_at(bytes.subrange(28, 32), 0));
        assert(u32_le(v.padding[0]) == bytes.subrange(28, 32));
        lemma_subrange_join(bytes, 0, 28, 32);
        lemma_u32_le(0, bytes.subrange(32, 36));
        lemma_read_within(bytes, 32, 36);
        assert(u32_at(bytes, 32) == u32_at(bytes.subrange(32, 36), 0));
        assert(u32_le(v.padding[1]) == bytes.subrange(32, 36));
        lemma_subrange_join(bytes, 0, 32, 36);
        lemma_u32_le(0, bytes.subrange(36, 40));
        lemma_read_within(bytes, 36, 40);
        assert(u32_at(bytes, 36) == u32_at(bytes.subrange(36, 40), 0));
        assert(u32_le(v.padding[2]) == bytes.subrange(36, 40));
        lemma_subrange_join(bytes, 0, 36, 40);
        lemma_subrange_join(bytes, 0, 0, 0);
        assert(v.encode() == bytes.subrange(0, KVM_CPUID_ENTRY2_SIZE as int));
    }

    proof fn lemma_zeroed() {
        let v = Self::zeroed();
        lemma_u32_le(0, Seq::empty());
        assert(u32_le(v.function) == zeros(4));
        assert(u32_le(v.index) == zeros(4));
        lemma_zeros_join(4, 4);
        assert(u32_le(v.flags) == zeros(4));
        lemma_zeros_join(8, 4);
        assert(u32_le(v.eax) == zeros(4));
        lemma_zeros_join(12, 4);
        assert(u32_le(v.ebx) == zeros(4));
        lemma_zeros_join(16, 4);
        assert(u32_le(v.ecx) == zeros(4));
        lemma_zeros_join(20, 4);
        assert(u32_le(v.edx) == zeros(4));
        lemma_zeros_join(24, 4);
        assert(u32_le(v.padding[0]) == zeros(4));
        lemma_zeros_join(28, 4);
        assert(u32_le(v.padding[1]) == zeros(4));
        lemma_zeros_join(32, 4);
        assert(u32_le(v.padding[2]) == zeros(4));
        lemma_zeros_join(36, 4);
        assert(v.encode() == zeros(KVM_CPUID_ENTRY2_SIZE as nat));
    }

    fn size() -> usize {
        KVM_CPUID_ENTRY2_SIZE
    }

    fn put(&self, out: &mut Vec<u8>) {
        put_u32(out, self.function);
        let ghost c0 = u32_le(self.function);
        assert(out@ == old(out)@ + c0);
        put_u32(out, self.index);
        let ghost c1 = c0 + u32_le(self.index);
        proof {
            lemma_append_twice(old(out)@, c0, u32_le(self.index));
        }
        assert(out@ == old(out)@ + c1);
        put_u32(out, self.flags);
        let ghost c2 = c1 + u32_le(self.flags);
        proof {
            lemma_append_twice(old(out)@, c1, u32_le(self.flags));
        }
        assert(out@ == old(out)@ + c2);
        put_u32(out, self.eax);
        let ghost c3 = c2 + u32_le(self.eax);
        proof {
            lemma_append_twice(old(out)@, c2, u32_le(self.eax));
        }
        assert(out@ == old(out)@ + c3);
        put_u32(out, self.ebx);
        let ghost c4 = c3 + u32_le(self.ebx);
        proof {
            lemma_append_twice(old(out)@, c3, u32_le(self.ebx));
        }
        assert(out@ == old(out)@ + c4);
        put_u32(out, self.ecx);
        let ghost c5 = c4 + u32_le(self.ecx);
        proof {
            lemma_append_twice(old(out)@, c4, u32_le(self.ecx));
        }
        assert(out@ == old(out)@ + c5);
        put_u32(out, self.edx);
        let ghost c6 = c5 + u32_le(self.edx);
        proof {
            lemma_append_twice(old(out)@, c5, u32_le(self.edx));
        }
        assert(out@ == old(out)@ + c6);
        put_u32(out, self.padding[0]);
        let ghost c7 = c6 + u32_le(self.padding[0]);
        proof {
            lemma_append_twice(old(out)@, c6, u32_le(self.padding[0]));
        }
        assert(out@ == old(out)@ + c7);
        put_u32(out, self.padding[1]);
        let ghost c8 = c7 + u32_le(self.padding[1]);
        proof {
            lemma_append_twice(old(out)@, c7, u32_le(self.padding[1]));
        }
        assert(out@ == old(out)@ + c8);
        put_u32(out, self.padding[2]);
        let ghost c9 = c8 + u32_le(self.padding[2]);
        proof {
            lemma_append_twice(old(out)@, c8, u32_le(self.padding[2]));
        }
        assert(out@ == old(out)@ + c9);
    }

    fn get(bytes: &[u8], at: usize) -> Self {
        proof {
            lemma_read_within(bytes@, at as int, at + KVM_CPUID_ENTRY2_SIZE);
        }
        kvm_cpuid_entry2 {
            function: get_u32(bytes, at),
            index: get_u32(bytes, at + 4),
            flags: get_u32(bytes, at + 8),
            eax: get_u32(bytes, at + 12),
            ebx: get_u32(bytes, at + 16),
            ecx: get_u32(bytes, at + 20),
            edx: get_u32(bytes, at + 24),
            padding: [get_u32(bytes, at + 28), get_u32(bytes, at + 32), get_u32(bytes, at + 36)],
        }
    }
}

impl Default for kvm_cpuid_entry2 {
    /// The value all of whose fields are zero.
    fn default() -> (v: Self)
        ensures
            v == Self::zeroed(),
    {
        kvm_cpuid_entry2 {
            function: 0u32,
            index: 0u32,
            flags: 0u32,
            eax: 0u32,
            ebx: 0u32,
            ecx: 0u32,
            edx: 0u32,
            padding: [0u32, 0u32, 0u32],
        }
    }
}

} // verus!
