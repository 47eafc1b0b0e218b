//! The region that a virtual CPU shares with the kernel.

use crate::layout::{
    array_of, get_bytes, get_u16, get_u32, get_u64, get_u8, lemma_append_keeps,
    lemma_append_twice, lemma_array_of, lemma_array_of_view, lemma_read_within,
    lemma_subrange_join, lemma_subrange_within, lemma_u16_le, lemma_u32_le, lemma_u64_le,
    lemma_u8_le, lemma_zeros_join, put_bytes, put_u16, put_u32, put_u64, put_u8, u16_at, u16_le,
    u32_at, u32_le, u64_at, u64_le, zeros, Layout,
};
use vstd::array::group_array_axioms;
use vstd::prelude::*;

verus! {

/// Bytes of the head of the shared region.
pub const KVM_RUN_SIZE: usize = 32;

/// Bytes of the description of a port access.
pub const KVM_RUN_IO_SIZE: usize = 16;

/// Bytes of the description of a memory-mapped access.
pub const KVM_RUN_MMIO_SIZE: usize = 24;

/// The head of the region that a virtual CPU shares with the kernel: what the
/// caller asks of the next run, and why the last run stopped. What lies behind
/// the head depends on `exit_reason`.
#[derive(Clone, Copy, Debug, PartialEq, Eq)]
pub struct kvm_run {
    pub request_interrupt_window: u8,
    pub immediate_exit: u8,
    pub padding1: [u8; 6],
    pub exit_reason: u32,
    pub ready_for_interrupt_injection: u8,
    pub if_flag: u8,
    pub flags: u16,
    pub cr8: u64,
    pub apic_base: u64,
}

/// Where the parts of a `kvm_run` lie in its bytes.
proof fn lemma_kvm_run_parts(
    e0: Seq<u8>,
    e1: Seq<u8>,
    e2: Seq<u8>,
    e3: Seq<u8>,
    e4: Seq<u8>,
    e5: Seq<u8>,
    e6: Seq<u8>,
    e7: Seq<u8>,
    e8: Seq<u8>,
)
    requires
        e0.len() == 1,
        e1.len() == 1,
        e2.len() == 6,
        e3.len() == 4,
        e4.len() == 1,
        e5.len() == 1,
        e6.len() == 2,
        e7.len() == 8,
        e8.len() == 8,
    ensures
        ({
            let bytes = e0 + e1 + e2 + e3 + e4 + e5 + e6 + e7 + e8;
            &&& bytes.len() == 32
            &&& bytes.subrange(0, 1) == e0
            &&& bytes.subrange(1, 2) == e1
            &&& bytes.subrange(2, 8) == e2
            &&& bytes.subrange(8, 12) == e3
            &&& bytes.subrange(12, 13) == e4
            &&& bytes.subrange(13, 14) == e5
            &&& bytes.subrange(14, 16) == e6
            &&& bytes.subrange(16, 24) == e7
            &&& bytes.subrange(24, 32) == e8
        }),
{
    let upto0 = e0;
    lemma_subrange_join(e0, 0, 0, 0);
    let upto1 = upto0 + e1;
    lemma_append_keeps(upto0, e1);
    let upto2 = upto1 + e2;
    lemma_append_keeps(upto1, e2);
    let upto3 = upto2 + e3;
    lemma_append_keeps(upto2, e3);
    let upto4 = upto3 + e4;
    lemma_append_keeps(upto3, e4);
    let upto5 = upto4 + e5;
    lemma_append_keeps(upto4, e5);
    let upto6 = upto5 + e6;
    lemma_append_keeps(upto5, e6);
    let upto7 = upto6 + e7;
    lemma_append_keeps(upto6, e7);
    let upto8 = upto7 + e8;
    lemma_append_keeps(upto7, e8);
}

impl Layout for kvm_run {
    open spec fn spec_size() -> nat {
        KVM_RUN_SIZE as nat
    }

    open spec fn encode(&self) -> Seq<u8> {
        seq![self.request_interrupt_window] + seq![self.immediate_exit] + self.padding1@
            + u32_le(self.exit_reason) + seq![self.ready_for_interrupt_injection]
            + seq![self.if_flag] + u16_le(self.flags) + u64_le(self.cr8)
            + u64_le(self.apic_base)
    }

    open spec fn decode(bytes: Seq<u8>) -> Self {
        kvm_run {
            request_interrupt_window: bytes[0],
            immediate_exit: bytes[1],
            padding1: array_of::<6>(bytes.subrange(2, 8)),
            exit_reason: u32_at(bytes, 8),
            ready_for_interrupt_injection: bytes[12],
            if_flag: bytes[13],
            flags: u16_at(bytes, 14),
            cr8: u64_at(bytes, 16),
            apic_base: u64_at(bytes, 24),
        }
    }

    open spec fn zeroed() -> Self {
        kvm_run {
            request_interrupt_window: 0u8,
            immediate_exit: 0u8,
            padding1: array_of::<6>(zeros(6)),
            exit_reason: 0u32,
            ready_for_interrupt_injection: 0u8,
            if_flag: 0u8,
            flags: 0u16,
            cr8: 0u64,
            apic_base: 0u64,
        }
    }

    proof fn lemma_size() {
    }

    proof fn lemma_encode(v: Self) {
        let bytes = v.encode();
        lemma_u8_le(v.request_interrupt_window, Seq::empty());
        lemma_u8_le(v.immediate_exit, Seq::empty());
        lemma_array_of_view::<6>(v.padding1);
        lemma_u32_le(v.exit_reason, Seq::empty());
        lemma_u8_le(v.ready_for_interrupt_injection, Seq::empty());
        lemma_u8_le(v.if_flag, Seq::empty());
        lemma_u16_le(v.flags, Seq::empty());
        lemma_u64_le(v.cr8, Seq::empty());
        lemma_u64_le(v.apic_base, Seq::empty());
        lemma_kvm_run_parts(
            seq![v.request_interrupt_window],
            seq![v.immediate_exit],
            v.padding1@,
            u32_le(v.exit_reason),
            seq![v.ready_for_interrupt_injection],
            seq![v.if_flag],
            u16_le(v.flags),
            u64_le(v.cr8),
            u64_le(v.apic_base),
        );
        assert(bytes[0] == bytes.subrange(0, 1)[0]);
        assert(bytes[1] == bytes.subrange(1, 2)[0]);
        lemma_read_within(bytes, 8, 12);
        assert(u32_at(bytes, 8) == u32_at(bytes.subrange(8, 12), 0));
        assert(bytes[12] == bytes.subrange(12, 13)[0]);
        assert(bytes[13] == bytes.subrange(13, 14)[0]);
        lemma_read_within(bytes, 14, 16);
        assert(u16_at(bytes, 14) == u16_at(bytes.subrange(14, 16), 0));
        lemma_read_within(bytes, 16, 24);
        assert(u64_at(bytes, 16) == u64_at(bytes.subrange(16, 24), 0));
        lemma_read_within(bytes, 24, 32);
        assert(u64_at(bytes, 24) == u64_at(bytes.subrange(24, 32), 0));
    }

    proof fn lemma_decode(bytes: Seq<u8>) {
        let v = Self::decode(bytes);
        lemma_u8_le(0, bytes.subrange(0, 1));
        assert(bytes.subrange(0, 1)[0] == bytes[0]);
        assert(seq![v.request_interrupt_window] == bytes.subrange(0, 1));
        lemma_u8_le(0, bytes.subrange(1, 2));
        assert(bytes.subrange(1, 2)[0] == bytes[1]);
        assert(seq![v.immediate_exit] == bytes.subrange(1, 2));
        lemma_subrange_join(bytes, 0, 1, 2);
        lemma_array_of::<6>(bytes.subrange(2, 8));
        lemma_subrange_join(bytes.subrange(2, 8), 0, 0, 0);
        assert(v.padding1@ == bytes.subrange(2, 8));
        lemma_subrange_join(bytes, 0, 2, 8);
        lemma_u32_le(0, bytes.subrange(8, 12));
        lemma_read_within(bytes, 8, 12);
        assert(u32_at(bytes, 8) == u32_at(bytes.subrange(8, 12), 0));
        assert(u32_le(v.exit_reason) == bytes.subrange(8, 12));
        lemma_subrange_join(bytes, 0, 8, 12);
        lemma_u8_le(0, bytes.subrange(12, 13));
        assert(bytes.subrange(12, 13)[0] == bytes[12]);
        assert(seq![v.ready_for_interrupt_injection] == bytes.subrange(12, 13));
        lemma_subrange_join(bytes, 0, 12, 13);
        lemma_u8_le(0, bytes.subrange(13, 14));
        assert(bytes.subrange(13, 14)[0] == bytes[13]);
        assert(seq![v.if_flag] == bytes.subrange(13, 14));
        lemma_subrange_join(bytes, 0, 13, 14);
        lemma_u16_le(0, bytes.subrange(14, 16));
        lemma_read_within(bytes, 14, 16);
        assert(u16_at(bytes, 14) == u16_at(bytes.subrange(14, 16), 0));
        assert(u16_le(v.flags) == bytes.subrange(14, 16));
        lemma_subrange_join(bytes, 0, 14, 16);
        lemma_u64_le(0, bytes.subrange(16, 24));
        lemma_read_within(bytes, 16, 24);
        assert(u64_at(bytes, 16) == u64_at(bytes.subrange(16, 24), 0));
        assert(u64_le(v.cr8) == bytes.subrange(16, 24));
        lemma_subrange_join(bytes, 0, 16, 24);
        lemma_u64_le(0, bytes.subrange(24, 32));
        lemma_read_within(bytes, 24, 32);
        assert(u64_at(bytes, 24) == u64_at(bytes.subrange(24, 32), 0));
        assert(u64_le(v.apic_base) == bytes.subrange(24, 32));
        lemma_subrange_join(bytes, 0, 24, 32);
        lemma_subrange_join(bytes, 0, 0, 0);
        assert(v.encode() == bytes.subrange(0, KVM_RUN_SIZE as int));
    }

    proof fn lemma_zeroed() {
        let v = Self::zeroed();
        lemma_u8_le(0, Seq::empty());
        assert(seq![v.request_interrupt_window] == zeros(1));
        assert(seq![v.immediate_exit] == zeros(1));
        lemma_zeros_join(1, 1);
        lemma_array_of::<6>(zeros(6));
        lemma_subrange_join(zeros(6), 0, 0, 0);
        assert(v.padding1@ == zeros(6));
        lemma_zeros_join(2, 6);
        lemma_u32_le(0, Seq::empty());
        assert(u32_le(v.exit_reason) == zeros(4));
        lemma_zeros_join(8, 4);
        assert(seq![v.ready_for_interrupt_injection] == zeros(1));
        lemma_zeros_join(12, 1);
        assert(seq![v.if_flag] == zeros(1));
        lemma_zeros_join(13, 1);
        lemma_u16_le(0, Seq::empty());
        assert(u16_le(v.flags) == zeros(2));
        lemma_zeros_join(14, 2);
        lemma_u64_le(0, Seq::empty());
        assert(u64_le(v.cr8) == zeros(8));
        lemma_zeros_join(16, 8);
        assert(u64_le(v.apic_base) == zeros(8));
        lemma_zeros_join(24, 8);
        assert(v.encode() == zeros(KVM_RUN_SIZE as nat));
    }

    fn size() -> usize {
        KVM_RUN_SIZE
    }

    fn put(&self, out: &mut Vec<u8>) {
        put_u8(out, self.request_interrupt_window);
        let ghost c0 = seq![self.request_interrupt_window];
        assert(out@ == old(out)@ + c0);
        put_u8(out, self.immediate_exit);
        let ghost c1 = c0 + seq![self.immediate_exit];
        proof {
            lemma_append_twice(old(out)@, c0, seq![self.immediate_exit]);
        }
        assert(out@ == old(out)@ + c1);
        put_bytes(out, self.padding1.as_slice());
        let ghost c2 = c1 + self.padding1@;
        proof {
            lemma_append_twice(old(out)@, c1, self.padding1@);
        }
        assert(out@ == old(out)@ + c2);
        put_u32(out, self.exit_reason);
        let ghost c3 = c2 + u32_le(self.exit_reason);
        proof {
            lemma_append_twice(old(out)@, c2, u32_le(self.exit_reason));
        }
        assert(out@ == old(out)@ + c3);
        put_u8(out, self.ready_for_interrupt_injection);
        let ghost c4 = c3 + seq![self.ready_for_interrupt_injection];
        proof {
            lemma_append_twice(old(out)@, c3, seq![self.ready_for_interrupt_injection]);
        }
        assert(out@ == old(out)@ + c4);
        put_u8(out, self.if_flag);
        let ghost c5 = c4 + seq![self.if_flag];
        proof {
            lemma_append_twice(old(out)@, c4, seq![self.if_flag]);
        }
        assert(out@ == old(out)@ + c5);
        put_u16(out, self.flags);
        let ghost c6 = c5 + u16_le(self.flags);
        proof {
            lemma_append_twice(old(out)@, c5, u16_le(self.flags));
        }
        assert(out@ == old(out)@ + c6);
        put_u64(out, self.cr8);
        let ghost c7 = c6 + u64_le(self.cr8);
        proof {
            lemma_append_twice(old(out)@, c6, u64_le(self.cr8));
        }
        assert(out@ == old(out)@ + c7);
        put_u64(out, self.apic_base);
        let ghost c8 = c7 + u64_le(self.apic_base);
        proof {
            lemma_append_twice(old(out)@, c7, u64_le(self.apic_base));
        }
        assert(out@ == old(out)@ + c8);
    }

    fn get(bytes: &[u8], at: usize) -> Self {
        proof {
            lemma_read_within(bytes@, at as int, at + KVM_RUN_SIZE);
            lemma_subrange_within(bytes@, at as int, at + KVM_RUN_SIZE, 2, 8);
        }
        kvm_run {
            request_interrupt_window: get_u8(bytes, at),
            immediate_exit: get_u8(bytes, at + 1),
            padding1: get_bytes::<6>(bytes, at + 2),
            exit_reason: get_u32(bytes, at + 8),
            ready_for_interrupt_injection: get_u8(bytes, at + 12),
            if_flag: get_u8(bytes, at + 13),
            flags: get_u16(bytes, at + 14),
            cr8: get_u64(bytes, at + 16),
            apic_base: get_u64(bytes, at + 24),
        }
    }
}

impl Default for kvm_run {
    /// The value all of whose fields are zero.
    fn default() -> (v: Self)
        ensures
            v == Self::zeroed(),
    {
        let v = kvm_run {
            request_interrupt_window: 0u8,
            immediate_exit: 0u8,
            padding1: [0u8; 6],
            exit_reason: 0u32,
            ready_for_interrupt_injection: 0u8,
            if_flag: 0u8,
            flags: 0u16,
            cr8: 0u64,
            apic_base: 0u64,
        };
        proof {
            broadcast use group_array_axioms;

            lemma_array_of::<6>(zeros(6));
            assert(v.padding1 =~= array_of::<6>(zeros(6)));
        }
        v
    }
}

/// What the region holds behind its head after the guest accessed an I/O port:
/// the port, the direction, the size of one datum, how many there are, and where
/// in the region the data lie.
#[derive(Clone, Copy, Debug, PartialEq, Eq, Structural)]
pub struct kvm_run_io {
    pub direction: u8,
    pub size: u8,
    pub port: u16,
    pub count: u32,
    pub data_offset: u64,
}

/// Where the parts of a `kvm_run_io` lie in its bytes.
proof fn lemma_kvm_run_io_parts(
    e0: Seq<u8>,
    e1: Seq<u8>,
    e2: Seq<u8>,
    e3: Seq<u8>,
    e4: Seq<u8>,
)
    requires
        e0.len() == 1,
        e1.len() == 1,
        e2.len() == 2,
        e3.len() == 4,
        e4.len() == 8,
    ensures
        ({
            let bytes = e0 + e1 + e2 + e3 + e4;
            &&& bytes.len() == 16
            &&& bytes.subrange(0, 1) == e0
            &&& bytes.subrange(1, 2) == e1
            &&& bytes.subrange(2, 4) == e2
            &&& bytes.subrange(4, 8) == e3
            &&& bytes.subrange(8, 16) == e4
        }),
{
    let upto0 = e0;
    lemma_subrange_join(e0, 0, 0, 0);
    let upto1 = upto0 + e1;
    lemma_append_keeps(upto0, e1);
    let upto2 = upto1 + e2;
    lemma_append_keeps(upto1, e2);
    let upto3 = upto2 + e3;
    lemma_append_keeps(upto2, e3);
    let upto4 = upto3 + e4;
    lemma_append_keeps(upto3, e4);
}

impl Layout for kvm_run_io {
    open spec fn spec_size() -> nat {
        KVM_RUN_IO_SIZE as nat
    }

    open spec fn encode(&self) -> Seq<u8> {
        seq![self.direction] + seq![self.size] + u16_le(self.port) + u32_le(self.count)
            + u64_le(self.data_offset)
    }

    open spec fn decode(bytes: Seq<u8>) -> Self {
        kvm_run_io {
            direction: bytes[0],
            size: bytes[1],
            port: u16_at(bytes, 2),
            count: u32_at(bytes, 4),
            data_offset: u64_at(bytes, 8),
        }
    }

    open spec fn zeroed() -> Self {
        kvm_run_io {
            direction: 0u8,
            size: 0u8,
            port: 0u16,
            count: 0u32,
            data_offset: 0u64,
        }
    }

    proof fn lemma_size() {
    }

    proof fn lemma_encode(v: Self) {
        let bytes = v.encode();
        lemma_u8_le(v.direction, Seq::empty());
        lemma_u8_le(v.size, Seq::empty());
        lemma_u16_le(v.port, Seq::empty());
        lemma_u32_le(v.count, Seq::empty());
        lemma_u64_le(v.data_offset, Seq::empty());
        lemma_kvm_run_io_parts(
            seq![v.direction],
            seq![v.size],
            u16_le(v.port),
            u32_le(v.count),
            u64_le(v.data_offset),
        );
        assert(bytes[0] == bytes.subrange(0, 1)[0]);
        assert(bytes[1] == bytes.subrange(1, 2)[0]);
        lemma_read_within(bytes, 2, 4);
        assert(u16_at(bytes, 2) == u16_at(bytes.subrange(2, 4), 0));
        lemma_read_within(bytes, 4, 8);
        assert(u32_at(bytes, 4) == u32_at(bytes.subrange(4, 8), 0));
        lemma_read_within(bytes, 8, 16);
        assert(u64_at(bytes, 8) == u64_at(bytes.subrange(8, 16), 0));
    }

    proof fn lemma_decode(bytes: Seq<u8>) {
        let v = Self::decode(bytes);
        lemma_u8_le(0, bytes.subrange(0, 1));
        assert(bytes.subrange(0, 1)[0] == bytes[0]);
        assert(seq![v.direction] == bytes.subrange(0, 1));
        lemma_u8_le(0, bytes.subrange(1, 2));
        assert(bytes.subrange(1, 2)[0] == bytes[1]);
        assert(seq![v.size] == bytes.subrange(1, 2));
        lemma_subrange_join(bytes, 0, 1, 2);
        lemma_u16_le(0, bytes.subrange(2, 4));
        lemma_read_within(bytes, 2, 4);
        assert(u16_at(bytes, 2) == u16_at(bytes.subrange(2, 4), 0));
        assert(u16_le(v.port) == bytes.subrange(2, 4));
        lemma_subrange_join(bytes, 0, 2, 4);
        lemma_u32_le(0, bytes.subrange(4, 8));
        lemma_read_within(bytes, 4, 8);
        assert(u32_at(bytes, 4) == u32_at(bytes.subrange(4, 8), 0));
        assert(u32_le(v.count) == bytes.subrange(4, 8));
        lemma_subrange_join(bytes, 0, 4, 8);
        lemma_u64_le(0, bytes.subrange(8, 16));
        lemma_read_within(bytes, 8, 16);
        assert(u64_at(bytes, 8) == u64_at(bytes.subrange(8, 16), 0));
        assert(u64_le(v.data_offset) == bytes.subrange(8, 16));
        lemma_subrange_join(bytes, 0, 8, 16);
        lemma_subrange_join(bytes, 0, 0, 0);
        assert(v.encode() == bytes.subrange(0, KVM_RUN_IO_SIZE as int));
    }

    proof fn lemma_zeroed() {
        let v = Self::zeroed();
        lemma_u8_le(0, Seq::empty());
        assert(seq![v.direction] == zeros(1));
        assert(seq![v.size] == zeros(1));
        lemma_zeros_join(1, 1);
        lemma_u16_le(0, Seq::empty());
        assert(u16_le(v.port) == zeros(2));
        lemma_zeros_join(2, 2);
        lemma_u32_le(0, Seq::empty());
        assert(u32_le(v.count) == zeros(4));
        lemma_zeros_join(4, 4);
        lemma_u64_le(0, Seq::empty());
        assert(u64_le(v.data_offset) == zeros(8));
        lemma_zeros_join(8, 8);
        assert(v.encode() == zeros(KVM_RUN_IO_SIZE as nat));
    }

    fn size() -> usize {
        KVM_RUN_IO_SIZE
    }

    fn put(&self, out: &mut Vec<u8>) {
        put_u8(out, self.direction);
        let ghost c0 = seq![self.direction];
        assert(out@ == old(out)@ + c0);
        put_u8(out, self.size);
        let ghost c1 = c0 + seq![self.size];
        proof {
            lemma_append_twice(old(out)@, c0, seq![self.size]);
        }
        assert(out@ == old(out)@ + c1);
        put_u16(out, self.port);
        let ghost c2 = c1 + u16_le(self.port);
        proof {
            lemma_append_twice(old(out)@, c1, u16_le(self.port));
        }
        assert(out@ == old(out)@ + c2);
        put_u32(out, self.count);
        let ghost c3 = c2 + u32_le(self.count);
        proof {
            lemma_append_twice(old(out)@, c2, u32_le(self.count));
        }
        assert(out@ == old(out)@ + c3);
        put_u64(out, self.data_offset);
        let ghost c4 = c3 + u64_le(self.data_offset);
        proof {
            lemma_append_twice(old(out)@, c3, u64_le(self.data_offset));
        }
        assert(out@ == old(out)@ + c4);
    }

    fn get(bytes: &[u8], at: usize) -> Self {
        proof {
            lemma_read_within(bytes@, at as int, at + KVM_RUN_IO_SIZE);
        }
        kvm_run_io {
            direction: get_u8(bytes, at),
            size: get_u8(bytes, at + 1),
            port: get_u16(bytes, at + 2),
            count: get_u32(bytes, at + 4),
            data_offset: get_u64(bytes, at + 8),
        }
    }
}

impl Default for kvm_run_io {
    /// The value all of whose fields are zero.
    fn default() -> (v: Self)
        ensures
            v == Self::zeroed(),
    {
        kvm_run_io {
            direction: 0u8,
            size: 0u8,
            port: 0u16,
            count: 0u32,
            data_offset: 0u64,
        }
    }
}

/// What the region holds behind its head after the guest accessed memory-mapped
/// I/O: the guest address, the data, their length and the direction.
#[derive(Clone, Copy, Debug, PartialEq, Eq)]
pub struct kvm_run_mmio {
    pub phys_addr: u64,
    pub data: [u8; 8],
    pub len: u32,
    pub is_write: u8,
    pub padding: [u8; 3],
}

/// Where the parts of a `kvm_run_mmio` lie in its bytes.
proof fn lemma_kvm_run_mmio_parts(
    e0: Seq<u8>,
    e1: Seq<u8>,
    e2: Seq<u8>,
    e3: Seq<u8>,
    e4: Seq<u8>,
)
    requires
        e0.len() == 8,
        e1.len() == 8,
        e2.len() == 4,
        e3.len() == 1,
        e4.len() == 3,
    ensures
        ({
            let bytes = e0 + e1 + e2 + e3 + e4;
            &&& bytes.len() == 24
            &&& bytes.subrange(0, 8) == e0
            &&& bytes.subrange(8, 16) == e1
            &&& bytes.subrange(16, 20) == e2
            &&& bytes.subrange(20, 21) == e3
            &&& bytes.subrange(21, 24) == e4
        }),
{
    let upto0 = e0;
    lemma_subrange_join(e0, 0, 0, 0);
    let upto1 = upto0 + e1;
    lemma_append_keeps(upto0, e1);
    let upto2 = upto1 + e2;
    lemma_append_keeps(upto1, e2);
    let upto3 = upto2 + e3;
    lemma_append_keeps(upto2, e3);
    let upto4 = upto3 + e4;
    lemma_append_keeps(upto3, e4);
}

impl Layout for kvm_run_mmio {
    open spec fn spec_size() -> nat {
        KVM_RUN_MMIO_SIZE as nat
    }

    open spec fn encode(&self) -> Seq<u8> {
        u64_le(self.phys_addr) + self.data@ + u32_le(self.len) + seq![self.is_write]
            + self.padding@
    }

    open spec fn decode(bytes: Seq<u8>) -> Self {
        kvm_run_mmio {
            phys_addr: u64_at(bytes, 0),
            data: array_of::<8>(bytes.subrange(8, 16)),
            len: u32_at(bytes, 16),
            is_write: bytes[20],
            padding: array_of::<3>(bytes.subrange(21, 24)),
        }
    }

    open spec fn zeroed() -> Self {
        kvm_run_mmio {
            phys_addr: 0u64,
            data: array_of::<8>(zeros(8)),
            len: 0u32,
            is_write: 0u8,
            padding: array_of::<3>(zeros(3)),
        }
    }

    proof fn lemma_size() {
    }

    proof fn lemma_encode(v: Self) {
        let bytes = v.encode();
        lemma_u64_le(v.phys_addr, Seq::empty());
        lemma_array_of_view::<8>(v.data);
        lemma_u32_le(v.len, Seq::empty());
        lemma_u8_le(v.is_write, Seq::empty());
        lemma_array_of_view::<3>(v.padding);
        lemma_kvm_run_mmio_parts(
            u64_le(v.phys_addr),
            v.data@,
            u32_le(v.len),
            seq![v.is_write],
            v.padding@,
        );
        lemma_read_within(bytes, 0, 8);
        assert(u64_at(bytes, 0) == u64_at(bytes.subrange(0, 8), 0));
        lemma_read_within(bytes, 16, 20);
        assert(u32_at(bytes, 16) == u32_at(bytes.subrange(16, 20), 0));
        assert(bytes[20] == bytes.subrange(20, 21)[0]);
    }

    proof fn lemma_decode(bytes: Seq<u8>) {
        let v = Self::decode(bytes);
        lemma_u64_le(0, bytes.subrange(0, 8));
        lemma_read_within(bytes, 0, 8);
        assert(u64_at(bytes, 0) == u64_at(bytes.subrange(0, 8), 0));
        assert(u64_le(v.phys_addr) == bytes.subrange(0, 8));
        lemma_array_of::<8>(bytes.subrange(8, 16));
        lemma_subrange_join(bytes.subrange(8, 16), 0, 0, 0);
        assert(v.data@ == bytes.subrange(8, 16));
        lemma_subrange_join(bytes, 0, 8, 16);
        lemma_u32_le(0, bytes.subrange(16, 20));
        lemma_read_within(bytes, 16, 20);
        assert(u32_at(bytes, 16) == u32_at(bytes.subrange(16, 20), 0));
        assert(u32_le(v.len) == bytes.subrange(16, 20));
        lemma_subrange_join(bytes, 0, 16, 20);
        lemma_u8_le(0, bytes.subrange(20, 21));
        assert(bytes.subrange(20, 21)[0] == bytes[20]);
        assert(seq![v.is_write] == bytes.subrange(20, 21));
        lemma_subrange_join(bytes, 0, 20, 21);
        lemma_array_of::<3>(bytes.subrange(21, 24));
        lemma_subrange_join(bytes.subrange(21, 24), 0, 0, 0);
        assert(v.padding@ == bytes.subrange(21, 24));
        lemma_subrange_join(bytes, 0, 21, 24);
        lemma_subrange_join(bytes, 0, 0, 0);
        assert(v.encode() == bytes.subrange(0, KVM_RUN_MMIO_SIZE as int));
    }

    proof fn lemma_zeroed() {
        let v = Self::zeroed();
        lemma_u64_le(0, Seq::empty());
        assert(u64_le(v.phys_addr) == zeros(8));
        lemma_array_of::<8>(zeros(8));
        lemma_subrange_join(zeros(8), 0, 0, 0);
        assert(v.data@ == zeros(8));
        lemma_zeros_join(8, 8);
        lemma_u32_le(0, Seq::empty());
        assert(u32_le(v.len) == zeros(4));
        lemma_zeros_join(16, 4);
        lemma_u8_le(0, Seq::empty());
        assert(seq![v.is_write] == zeros(1));
        lemma_zeros_join(20, 1);
        lemma_array_of::<3>(zeros(3));
        lemma_subrange_join(zeros(3), 0, 0, 0);
        assert(v.padding@ == zeros(3));
        lemma_zeros_join(21, 3);
        assert(v.encode() == zeros(KVM_RUN_MMIO_SIZE as nat));
    }

    fn size() -> usize {
        KVM_RUN_MMIO_SIZE
    }

    fn put(&self, out: &mut Vec<u8>) {
        put_u64(out, self.phys_addr);
        let ghost c0 = u64_le(self.phys_addr);
        assert(out@ == old(out)@ + c0);
        put_bytes(out, self.data.as_slice());
        let ghost c1 = c0 + self.data@;
        proof {
            lemma_append_twice(old(out)@, c0, self.data@);
        }
        assert(out@ == old(out)@ + c1);
        put_u32(out, self.len);
        let ghost c2 = c1 + u32_le(self.len);
        proof {
            lemma_append_twice(old(out)@, c1, u32_le(self.len));
        }
        assert(out@ == old(out)@ + c2);
        put_u8(out, self.is_write);
        let ghost c3 = c2 + seq![self.is_write];
        proof {
            lemma_append_twice(old(out)@, c2, seq![self.is_write]);
        }
        assert(out@ == old(out)@ + c3);
        put_bytes(out, self.padding.as_slice());
        let ghost c4 = c3 + self.padding@;
        proof {
            lemma_append_twice(old(out)@, c3, self.padding@);
        }
        assert(out@ == old(out)@ + c4);
    }

    fn get(bytes: &[u8], at: usize) -> Self {
        proof {
            lemma_read_within(bytes@, at as int, at + KVM_RUN_MMIO_SIZE);
            lemma_subrange_within(bytes@, at as int, at + KVM_RUN_MMIO_SIZE, 8, 16);
            lemma_subrange_within(bytes@, at as int, at + KVM_RUN_MMIO_SIZE, 21, 24);
        }
        kvm_run_mmio {
            phys_addr: get_u64(bytes, at),
            data: get_bytes::<8>(bytes, at + 8),
            len: get_u32(bytes, at + 16),
            is_write: get_u8(bytes, at + 20),
            padding: get_bytes::<3>(bytes, at + 21),
        }
    }
}

impl Default for kvm_run_mmio {
    /// The value all of whose fields are zero.
    fn default() -> (v: Self)
        ensures
            v == Self::zeroed(),
    {
        let v = kvm_run_mmio {
            phys_addr: 0u64,
            data: [0u8; 8],
            len: 0u32,
            is_write: 0u8,
            padding: [0u8; 3],
        };
        proof {
            broadcast use group_array_axioms;

            lemma_array_of::<3>(zeros(3));
            lemma_array_of::<8>(zeros(8));
            assert(v.data =~= array_of::<8>(zeros(8)));
            assert(v.padding =~= array_of::<3>(zeros(3)));
        }
        v
    }
}

} // verus!
