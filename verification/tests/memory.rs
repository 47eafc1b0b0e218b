use libkvm::linux::kvm_structs::kvm_userspace_memory_region;
use libkvm::mem::MemorySlot;
use libkvm::system::KVMSystem;
use libkvm::vm::memory_region;

pub struct MockSlot {
    size: usize,
}

impl MockSlot {
    pub fn new() -> Self {
        MockSlot { size: 55 }
    }
}

impl MemorySlot for MockSlot {
    fn slot_id(&self) -> u32 {
        11
    }
    fn flags(&self) -> u32 {
        22
    }
    fn memory_size(&self) -> usize {
        self.size
    }
    fn guest_address(&self) -> u64 {
        33
    }
    fn host_address(&self) -> u64 {
        44
    }
}

#[test]
fn create_kvm_memory_slot() {
    let slot = MockSlot::new();
    assert_eq!(slot.memory_size(), 55);
    assert_eq!(slot.slot_id(), 11);
    assert_eq!(slot.flags(), 22);
    assert_eq!(slot.guest_address(), 33);
    assert_eq!(slot.host_address(), 44);
}

#[test]
fn region_is_built_from_the_slot() {
    let vm = KVMSystem::new(3, 0).unwrap().create_vm(4, 0).unwrap();
    let region = vm.user_memory_region(&MockSlot::new());
    assert_eq!(
        region,
        kvm_userspace_memory_region {
            slot: 11,
            flags: 22,
            guest_phys_addr: 33,
            memory_size: 55,
            userspace_addr: 44,
        }
    );
}

#[test]
fn region_from_five_values() {
    let region = memory_region(1, 2, 0x1000, 0x20_0000, 0x7f00_0000_0000);
    assert_eq!(region.slot, 1);
    assert_eq!(region.flags, 2);
    assert_eq!(region.guest_phys_addr, 0x1000);
    assert_eq!(region.memory_size, 0x20_0000);
    assert_eq!(region.userspace_addr, 0x7f00_0000_0000);
}

#[test]
fn region_is_built_from_a_trait_object() {
    let vm = KVMSystem::new(3, 0).unwrap().create_vm(4, 0).unwrap();
    let mock = MockSlot::new();
    let slot: &dyn MemorySlot = &mock;
    let region = vm.user_memory_region(slot);
    assert_eq!(region.slot, 11);
    assert_eq!(region.flags, 22);
    assert_eq!(region.guest_phys_addr, 33);
    assert_eq!(region.memory_size, 55);
    assert_eq!(region.userspace_addr, 44);
}
