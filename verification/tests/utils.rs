use libkvm::error::Error;
use libkvm::linux::kvm_structs::{kvm_cpuid_entry2, kvm_msr_entry};
use libkvm::payload::{allocate, pack, unpack};
use libkvm::system::{KVMSystem, MAX_KVM_CPUID_ENTRIES, MAX_KVM_MSR_ENTRIES};
use libkvm::utils::{KVMCpuid2Wrapper, KVMMSRListWrapper, KVMMSRSWrapper};

fn leaf(function: u32) -> kvm_cpuid_entry2 {
    kvm_cpuid_entry2 {
        function,
        index: function + 1,
        flags: 1,
        eax: 0x11,
        ebx: 0x22,
        ecx: 0x33,
        edx: 0x8000_0044,
        padding: [0, 0, 0],
    }
}

#[test]
fn allocated_cpuid_list_is_zeroed() {
    for capacity in [0u32, 1, 3, 256] {
        let w = KVMCpuid2Wrapper::new(capacity);
        let bytes = w.as_ptr();
        assert_eq!(bytes.len(), 8 + 40 * capacity as usize);
        assert_eq!(bytes[0..4], capacity.to_le_bytes());
        assert!(bytes[4..].iter().all(|b| *b == 0));
        let entries = w.to_entries_vec().unwrap();
        assert_eq!(entries.len(), capacity as usize);
        assert!(entries.iter().all(|e| *e == kvm_cpuid_entry2::default()));
    }
}

#[test]
fn allocated_msr_lists_are_zeroed() {
    let w = KVMMSRSWrapper::new(5);
    assert_eq!(w.as_ptr().len(), 8 + 16 * 5);
    assert_eq!(w.as_ptr()[0..8], [5, 0, 0, 0, 0, 0, 0, 0]);
    assert_eq!(w.to_entries_vec(), Ok(vec![kvm_msr_entry::default(); 5]));
    let mut l = KVMMSRListWrapper::new(3);
    assert_eq!(l.as_mut_ptr().len(), 4 + 4 * 3);
    assert_eq!(l.to_indices_vec(), Ok(vec![0, 0, 0]));
    assert_eq!(KVMMSRListWrapper::new(0).to_indices_vec(), Ok(vec![]));
}

#[test]
fn cpuid_entries_round_trip_in_order() {
    let entries = vec![leaf(0x4000_0000), leaf(1), leaf(7), leaf(1)];
    let w = KVMCpuid2Wrapper::from_cpuid_entries(&entries);
    assert_eq!(w.as_ptr().len(), 8 + 40 * 4);
    assert_eq!(w.to_entries_vec(), Ok(entries));
    assert_eq!(KVMCpuid2Wrapper::from_cpuid_entries(&[]).to_entries_vec(), Ok(vec![]));
}

#[test]
fn cpuid_entry_bytes_are_the_kernel_layout() {
    let w = KVMCpuid2Wrapper::from_cpuid_entries(&[leaf(0x0102_0304)]);
    let bytes = w.as_ptr();
    assert_eq!(bytes[0..8], [1, 0, 0, 0, 0, 0, 0, 0]);
    assert_eq!(bytes[8..12], [4, 3, 2, 1]);
    assert_eq!(bytes[12..16], [5, 3, 2, 1]);
    assert_eq!(bytes[16..20], [1, 0, 0, 0]);
    assert_eq!(bytes[20..24], [0x11, 0, 0, 0]);
    assert_eq!(bytes[32..36], [0x44, 0, 0, 0x80]);
    assert_eq!(bytes[36..48], [0; 12]);
}

#[test]
fn msr_entries_round_trip_in_order() {
    let entries = vec![
        kvm_msr_entry { index: 0xc000_0080, reserved: 0, data: 0x500 },
        kvm_msr_entry { index: 0x10, reserved: 0, data: 0x0123_4567_89ab_cdef },
        kvm_msr_entry { index: 0x174, reserved: 9, data: u64::MAX },
    ];
    let w = KVMMSRSWrapper::from_msr_entries(&entries);
    assert_eq!(w.to_entries_vec(), Ok(entries));
    let bytes = w.as_ptr();
    assert_eq!(bytes[24..28], [0x10, 0, 0, 0]);
    assert_eq!(bytes[32..40], [0xef, 0xcd, 0xab, 0x89, 0x67, 0x45, 0x23, 0x01]);
}

#[test]
fn msr_indices_become_queries() {
    let w = KVMMSRSWrapper::from_msr_indices(&[0x174, 0x10, 0xc000_0100]);
    assert_eq!(
        w.to_entries_vec(),
        Ok(vec![
            kvm_msr_entry { index: 0x174, reserved: 0, data: 0 },
            kvm_msr_entry { index: 0x10, reserved: 0, data: 0 },
            kvm_msr_entry { index: 0xc000_0100, reserved: 0, data: 0 },
        ])
    );
}

#[test]
fn kernel_may_reduce_the_count() {
    let mut w = KVMCpuid2Wrapper::new(4);
    {
        let bytes = w.as_mut_ptr();
        bytes[0] = 2;
        bytes[8] = 7;
        bytes[48] = 9;
    }
    let entries = w.to_entries_vec().unwrap();
    assert_eq!(entries.len(), 2);
    assert_eq!(entries[0].function, 7);
    assert_eq!(entries[1].function, 9);
}

#[test]
fn count_beyond_capacity_is_refused() {
    let mut w = KVMCpuid2Wrapper::new(2);
    w.as_mut_ptr()[0] = 3;
    assert_eq!(w.to_entries_vec(), Err(Error::CountExceedsCapacity { count: 3, capacity: 2 }));

    let mut m = KVMMSRSWrapper::from_msr_indices(&[1, 2]);
    m.as_mut_ptr()[0..4].copy_from_slice(&u32::MAX.to_le_bytes());
    assert_eq!(
        m.to_entries_vec(),
        Err(Error::CountExceedsCapacity { count: u32::MAX, capacity: 2 })
    );

    let mut l = KVMMSRListWrapper::new(0);
    l.as_mut_ptr()[0] = 1;
    assert_eq!(l.to_indices_vec(), Err(Error::CountExceedsCapacity { count: 1, capacity: 0 }));
}

#[test]
fn short_buffers_are_refused() {
    assert_eq!(
        unpack::<u32>(4, &[1, 0, 0]),
        Err(Error::BufferLength { expected: 4, actual: 3 })
    );
    assert_eq!(
        unpack::<kvm_msr_entry>(8, &[0, 0, 0, 0]),
        Err(Error::BufferLength { expected: 8, actual: 4 })
    );
    // room is counted in whole entries
    let mut bytes = vec![0u8; 8 + 16 + 15];
    bytes[0] = 2;
    assert_eq!(
        unpack::<kvm_msr_entry>(8, &bytes),
        Err(Error::CountExceedsCapacity { count: 2, capacity: 1 })
    );
}

#[test]
fn pack_and_allocate_agree_with_the_wrappers() {
    assert_eq!(allocate::<u32>(4, 2), vec![2, 0, 0, 0, 0, 0, 0, 0, 0, 0, 0, 0]);
    assert_eq!(pack::<u32>(4, &[0x0a0b_0c0d, 1]), vec![2, 0, 0, 0, 0x0d, 0x0c, 0x0b, 0x0a, 1, 0, 0, 0]);
    assert_eq!(unpack::<u32>(4, &[2, 0, 0, 0, 0x0d, 0x0c, 0x0b, 0x0a, 1, 0, 0, 0]), Ok(vec![0x0a0b_0c0d, 1]));
}

#[test]
fn msr_index_list_from_the_kernel() {
    let sys = KVMSystem::new(3, 0).unwrap();
    let mut list = KVMSystem::msr_list_buffer();
    assert_eq!(list.as_mut_ptr().len(), 4 + 4 * MAX_KVM_MSR_ENTRIES as usize);
    {
        let bytes = list.as_mut_ptr();
        bytes[0..4].copy_from_slice(&3u32.to_le_bytes());
        bytes[4..8].copy_from_slice(&0x174u32.to_le_bytes());
        bytes[8..12].copy_from_slice(&0x175u32.to_le_bytes());
        bytes[12..16].copy_from_slice(&0xc000_0081u32.to_le_bytes());
    }
    assert_eq!(sys.get_msr_index_list(0, 0, &list), Ok(vec![0x174, 0x175, 0xc000_0081]));
    assert_eq!(sys.get_msr_feature_index_list(0, 0, &list), Ok(vec![0x174, 0x175, 0xc000_0081]));
    assert_eq!(sys.get_msr_index_list(-1, 7, &list), Err(Error::System { errno: 7 }));
    list.as_mut_ptr()[0..4].copy_from_slice(&257u32.to_le_bytes());
    assert_eq!(
        sys.get_msr_index_list(0, 0, &list),
        Err(Error::CountExceedsCapacity { count: 257, capacity: 256 })
    );
}

#[test]
fn supported_cpuid_from_the_kernel() {
    let sys = KVMSystem::new(3, 0).unwrap();
    let mut cpuid = KVMSystem::cpuid_buffer();
    assert_eq!(cpuid.as_ptr().len(), 8 + 40 * MAX_KVM_CPUID_ENTRIES as usize);
    {
        let bytes = cpuid.as_mut_ptr();
        bytes[0..4].copy_from_slice(&1u32.to_le_bytes());
        bytes[8..12].copy_from_slice(&0x4000_0000u32.to_le_bytes());
    }
    let entries = sys.get_supported_cpuid(0, 0, &cpuid).unwrap();
    assert_eq!(entries.len(), 1);
    assert_eq!(entries[0].function, 0x4000_0000);
    assert_eq!(sys.get_supported_cpuid(-1, 7, &cpuid), Err(Error::System { errno: 7 }));
    cpuid.as_mut_ptr()[0..4].copy_from_slice(&1000u32.to_le_bytes());
    assert_eq!(
        sys.get_supported_cpuid(0, 0, &cpuid),
        Err(Error::CountExceedsCapacity { count: 1000, capacity: 256 })
    );
}
