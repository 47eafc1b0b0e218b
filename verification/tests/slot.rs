use libkvm::error::Error;
use libkvm::layout::{from_bytes, to_bytes};
use libkvm::linux::kvm_structs::kvm_userspace_memory_region;
use libkvm::mem::MemorySlot;
use libkvm::slot::Slot;
use libkvm::vcpu::MAP_FAILED;

#[test]
fn create_kvm_memory_region() {
    let backing = vec![0u8; 500];
    let slot = Slot::new(500, backing.as_ptr() as u64);
    let region = slot.as_kvm_memory_region();
    assert_eq!(region.memory_size, 500);
    assert_eq!(region.slot, 0);
    assert_eq!(region.flags, 0);
    assert_eq!(region.guest_phys_addr, 0);
}

#[test]
fn region_keeps_the_host_address() {
    let slot = Slot::new(0x10_0000, 0xdead_b000);
    let region = slot.as_kvm_memory_region();
    assert_eq!(region.userspace_addr, 0xdead_b000);
    assert_eq!(region.memory_size, 0x10_0000);
}

#[test]
fn slot_answers_for_itself() {
    let slot = Slot { slot_id: 7, flags: 2, memory_size: 4096, guest_addr: 0x8000, host_addr: 0x1234 };
    assert_eq!(slot.slot_id(), 7);
    assert_eq!(slot.flags(), 2);
    assert_eq!(slot.memory_size(), 4096);
    assert_eq!(slot.guest_address(), 0x8000);
    assert_eq!(slot.host_address(), 0x1234);
}

#[test]
fn region_bytes_are_the_kernel_layout() {
    let region = kvm_userspace_memory_region {
        slot: 0x0403_0201,
        flags: 1,
        guest_phys_addr: 0x1000,
        memory_size: 500,
        userspace_addr: 0x0807_0605_0403_0201,
    };
    let bytes = to_bytes(&region);
    assert_eq!(
        bytes,
        vec![
            1, 2, 3, 4, 1, 0, 0, 0, 0, 0x10, 0, 0, 0, 0, 0, 0, 0xf4, 1, 0, 0, 0, 0, 0, 0, 1, 2, 3,
            4, 5, 6, 7, 8
        ]
    );
    assert_eq!(from_bytes::<kvm_userspace_memory_region>(&bytes), Some(region));
}

#[test]
fn slot_from_a_mapping() {
    assert_eq!(
        Slot::from_mapping(500, 0x7f00_0000_0000, 0),
        Ok(Slot { slot_id: 0, flags: 0, memory_size: 500, guest_addr: 0, host_addr: 0x7f00_0000_0000 })
    );
    // address 0 is an address like any other
    assert_eq!(Slot::from_mapping(4096, 0, 12), Ok(Slot::new(4096, 0)));
    assert_eq!(
        Slot::from_mapping(500, MAP_FAILED - 1, 12).map(|s| s.host_addr),
        Ok((MAP_FAILED - 1) as u64)
    );
}

#[test]
fn failed_mapping_gives_no_slot() {
    assert_eq!(Slot::from_mapping(500, MAP_FAILED, 12), Err(Error::System { errno: 12 }));
    assert_eq!(Slot::from_mapping(0, MAP_FAILED, 22), Err(Error::System { errno: 22 }));
}
