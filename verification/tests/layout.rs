use libkvm::layout::{
    from_bytes, get_bytes, get_u16, get_u32, get_u64, get_u8, put_bytes, put_u16, put_u32,
    put_u64, put_u8, put_zeros, to_bytes, Layout,
};
use libkvm::linux::kvm_structs::{
    kvm_cpuid_entry2, kvm_dtable, kvm_fpu, kvm_lapic_state, kvm_msr_entry, kvm_regs, kvm_segment,
    kvm_sregs, kvm_userspace_memory_region, KVM_CPUID2_SIZE, KVM_MSRS_SIZE, KVM_MSR_LIST_SIZE,
};

#[test]
fn sizes_are_the_kernel_sizes() {
    assert_eq!(kvm_userspace_memory_region::size(), 32);
    assert_eq!(kvm_regs::size(), 144);
    assert_eq!(kvm_segment::size(), 24);
    assert_eq!(kvm_dtable::size(), 16);
    assert_eq!(kvm_sregs::size(), 312);
    assert_eq!(kvm_fpu::size(), 416);
    assert_eq!(kvm_lapic_state::size(), 1024);
    assert_eq!(kvm_msr_entry::size(), 16);
    assert_eq!(kvm_cpuid_entry2::size(), 40);
    assert_eq!(<u32 as Layout>::size(), 4);
    assert_eq!(KVM_CPUID2_SIZE, 8);
    assert_eq!(KVM_MSRS_SIZE, 8);
    assert_eq!(KVM_MSR_LIST_SIZE, 4);
}

#[test]
fn defaults_are_zero_bytes() {
    assert_eq!(to_bytes(&kvm_regs::default()), vec![0u8; 144]);
    assert_eq!(to_bytes(&kvm_sregs::default()), vec![0u8; 312]);
    assert_eq!(to_bytes(&kvm_fpu::default()), vec![0u8; 416]);
    assert_eq!(to_bytes(&kvm_lapic_state::default()), vec![0u8; 1024]);
    assert_eq!(to_bytes(&kvm_segment::default()), vec![0u8; 24]);
    assert_eq!(to_bytes(&kvm_dtable::default()), vec![0u8; 16]);
    assert_eq!(to_bytes(&kvm_msr_entry::default()), vec![0u8; 16]);
    assert_eq!(to_bytes(&kvm_cpuid_entry2::default()), vec![0u8; 40]);
    assert_eq!(to_bytes(&kvm_userspace_memory_region::default()), vec![0u8; 32]);
    assert_eq!(from_bytes::<kvm_regs>(&[0u8; 144]), Some(kvm_regs::default()));
    assert_eq!(from_bytes::<kvm_lapic_state>(&[0u8; 1024]), Some(kvm_lapic_state::default()));
}

#[test]
fn integers_are_little_endian() {
    let mut out = vec![0xffu8];
    put_u8(&mut out, 0x01);
    put_u16(&mut out, 0x0302);
    put_u32(&mut out, 0x0706_0504);
    put_u64(&mut out, 0x0f0e_0d0c_0b0a_0908);
    put_zeros(&mut out, 2);
    put_bytes(&mut out, &[0xaa, 0xbb]);
    assert_eq!(out, vec![0xff, 1, 2, 3, 4, 5, 6, 7, 8, 9, 10, 11, 12, 13, 14, 15, 0, 0, 0xaa, 0xbb]);
    assert_eq!(get_u8(&out, 1), 0x01);
    assert_eq!(get_u16(&out, 2), 0x0302);
    assert_eq!(get_u32(&out, 4), 0x0706_0504);
    assert_eq!(get_u64(&out, 8), 0x0f0e_0d0c_0b0a_0908);
    assert_eq!(get_bytes::<3>(&out, 17), [0, 0xaa, 0xbb]);
    let mut max = Vec::new();
    put_u16(&mut max, u16::MAX);
    put_u32(&mut max, u32::MAX);
    put_u64(&mut max, u64::MAX);
    assert_eq!(max, vec![0xffu8; 14]);
    assert_eq!(get_u16(&max, 0), u16::MAX);
    assert_eq!(get_u32(&max, 2), u32::MAX);
    assert_eq!(get_u64(&max, 6), u64::MAX);
}

#[test]
fn registers_lie_in_kernel_order() {
    let mut regs = kvm_regs::default();
    regs.rax = 1;
    regs.rsp = 0x10_0000;
    regs.rip = 0x1122_3344_5566_7788;
    regs.rflags = 2;
    let bytes = to_bytes(&regs);
    assert_eq!(bytes.len(), 144);
    assert_eq!(bytes[0], 1);
    assert_eq!(bytes[48..56], 0x10_0000u64.to_le_bytes());
    assert_eq!(bytes[128..136], [0x88, 0x77, 0x66, 0x55, 0x44, 0x33, 0x22, 0x11]);
    assert_eq!(bytes[136], 2);
    assert_eq!(from_bytes::<kvm_regs>(&bytes), Some(regs));
    assert_eq!(from_bytes::<kvm_regs>(&bytes[1..]), None);
}

#[test]
fn special_registers_round_trip() {
    let mut sregs = kvm_sregs::default();
    sregs.cs = kvm_segment {
        base: 0,
        limit: 0xffff_ffff,
        selector: 1 << 3,
        type_: 11,
        present: 1,
        dpl: 0,
        db: 0,
        s: 1,
        l: 1,
        g: 1,
        avl: 0,
        unusable: 0,
        padding: 0,
    };
    sregs.ldt.unusable = 1;
    sregs.gdt = kvm_dtable { base: 0x1000, limit: 0x17, padding: [0, 0, 0] };
    sregs.idt.limit = 0xfff;
    sregs.cr0 = 0x8005_0033;
    sregs.cr3 = 0x2000;
    sregs.cr4 = 1 << 5;
    sregs.efer = 0x500;
    sregs.apic_base = 0xfee0_0900;
    sregs.interrupt_bitmap = [1, 2, 3, u64::MAX];
    let bytes = to_bytes(&sregs);
    assert_eq!(bytes.len(), 312);
    assert_eq!(bytes[8..12], [0xff; 4]);
    assert_eq!(bytes[12..14], [8, 0]);
    assert_eq!(bytes[14], 11);
    assert_eq!(bytes[7 * 24 + 22], 1);
    assert_eq!(bytes[192..200], 0x1000u64.to_le_bytes());
    assert_eq!(bytes[200..202], [0x17, 0]);
    assert_eq!(bytes[216..218], [0xff, 0x0f]);
    assert_eq!(bytes[224..232], 0x8005_0033u64.to_le_bytes());
    assert_eq!(bytes[240..248], 0x2000u64.to_le_bytes());
    assert_eq!(bytes[264..272], 0x500u64.to_le_bytes());
    assert_eq!(bytes[272..280], 0xfee0_0900u64.to_le_bytes());
    assert_eq!(bytes[304..312], [0xff; 8]);
    assert_eq!(from_bytes::<kvm_sregs>(&bytes), Some(sregs));
}

#[test]
fn floating_point_state_round_trips() {
    let mut fpu = kvm_fpu::default();
    fpu.fpr[0] = [1; 16];
    fpu.fpr[7][15] = 0x7f;
    fpu.fcw = 0x37f;
    fpu.fsw = 0x1234;
    fpu.ftwx = 0xff;
    fpu.last_opcode = 0xbeef;
    fpu.last_ip = 0x1000;
    fpu.last_dp = 0x2000;
    fpu.xmm[15] = [9; 16];
    fpu.mxcsr = 0x1f80;
    let bytes = to_bytes(&fpu);
    assert_eq!(bytes.len(), 416);
    assert_eq!(bytes[0..16], [1; 16]);
    assert_eq!(bytes[127], 0x7f);
    assert_eq!(bytes[128..130], [0x7f, 0x03]);
    assert_eq!(bytes[130..132], [0x34, 0x12]);
    assert_eq!(bytes[132], 0xff);
    assert_eq!(bytes[134..136], [0xef, 0xbe]);
    assert_eq!(bytes[136..144], 0x1000u64.to_le_bytes());
    assert_eq!(bytes[144..152], 0x2000u64.to_le_bytes());
    assert_eq!(bytes[392..408], [9; 16]);
    assert_eq!(bytes[408..412], [0x80, 0x1f, 0, 0]);
    assert_eq!(from_bytes::<kvm_fpu>(&bytes), Some(fpu));
}

#[test]
fn every_byte_belongs_to_a_field() {
    let bytes: Vec<u8> = (0..312u32).map(|i| (i * 7 + 3) as u8).collect();
    let sregs = from_bytes::<kvm_sregs>(&bytes).unwrap();
    assert_eq!(to_bytes(&sregs), bytes);
    let fpu = from_bytes::<kvm_fpu>(&bytes[..]);
    assert_eq!(fpu, None);
    let bytes: Vec<u8> = (0..416u32).map(|i| (i * 5 + 1) as u8).collect();
    let fpu = from_bytes::<kvm_fpu>(&bytes).unwrap();
    assert_eq!(to_bytes(&fpu), bytes);
    let bytes: Vec<u8> = (0..1024u32).map(|i| (i * 3) as u8).collect();
    let lapic = from_bytes::<kvm_lapic_state>(&bytes).unwrap();
    assert_eq!(lapic.regs[5], 15);
    assert_eq!(to_bytes(&lapic), bytes);
    let bytes: Vec<u8> = (0..40u8).collect();
    let entry = from_bytes::<kvm_cpuid_entry2>(&bytes).unwrap();
    assert_eq!(entry.padding, [0x1f1e_1d1c, 0x2322_2120, 0x2726_2524]);
    assert_eq!(to_bytes(&entry), bytes);
}

#[test]
fn values_are_read_in_place() {
    let mut buffer = vec![0xeeu8; 5];
    let entry = kvm_msr_entry { index: 0x10, reserved: 0, data: 77 };
    entry.put(&mut buffer);
    buffer.push(0xee);
    assert_eq!(buffer.len(), 22);
    assert_eq!(kvm_msr_entry::get(&buffer, 5), entry);
    assert_eq!(<u32 as Layout>::get(&buffer, 5), 0x10);
}
