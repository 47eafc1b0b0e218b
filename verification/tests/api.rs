use libkvm::error::Error;
use libkvm::mem::MemorySlot;
use libkvm::system::KVMSystem;
use libkvm::vcpu::{VirtualCPU, MAP_FAILED};

pub struct MockSlot {
    id: u32,
    flags: u32,
    size: usize,
    guest_addr: u64,
    host_addr: u64,
}

impl MockSlot {
    pub fn new(memory_size: usize) -> Result<MockSlot, Error> {
        Ok(MockSlot { size: memory_size, id: 0, flags: 0, guest_addr: 0, host_addr: 0x7f00_0000_0000 })
    }
}

impl MemorySlot for MockSlot {
    fn slot_id(&self) -> u32 {
        self.id
    }
    fn flags(&self) -> u32 {
        self.flags
    }
    fn memory_size(&self) -> usize {
        self.size
    }
    fn guest_address(&self) -> u64 {
        self.guest_addr
    }
    fn host_address(&self) -> u64 {
        self.host_addr
    }
}

// The kernel's answers are played back: descriptors 3, 4 and 5, version 12,
// both capabilities present, a shared region of three pages.
#[test]
fn create_vm() {
    let sys = KVMSystem::new(3, 0).expect("failed to create KVM system ioctl");
    let version = sys.api_version(12, 0).expect("failed to read API version");
    assert_eq!(version, 12);
    let irqchip_cap = sys.check_cap_irqchip(1, 0).expect("failed to check IRQCHIP capability");
    assert!(irqchip_cap > 0);
    let user_memory_cap =
        sys.check_cap_user_memory(1, 0).expect("failed to check user memory capability");
    assert!(user_memory_cap > 0);
    let vm = sys.create_vm(4, 0).expect("failed to create VM");
    let vcpu_fd = vm.create_vcpu(5, 0).expect("failed to create VCPU");
    let map_size = sys.get_vcpu_mmap_size(0x3000, 0).expect("failed to create VCPU");
    let vcpu =
        VirtualCPU::from_file(vcpu_fd, map_size, 0x7f11_0000_0000, 0).expect("failed to create VCPU");
    let slot = MockSlot::new(0x20000000).expect("failed to create memory region");
    let region = vm.user_memory_region(&slot);
    assert_eq!(region.memory_size, 0x20000000);
    let set_mem_region =
        vm.set_user_memory_region(0, 0).expect("failed to set user memory region");
    assert!(set_mem_region);
    let running = vcpu.run(0, 0).expect("failed to run VCPU");
    assert!(running)
}

#[test]
fn open_failure_is_a_system_error() {
    assert!(matches!(KVMSystem::new(-1, 13), Err(Error::System { errno: 13 })));
    let sys = KVMSystem::new(0, 0).unwrap();
    assert_eq!(sys.as_raw_fd(), 0);
}

#[test]
fn only_version_12_is_accepted() {
    let sys = KVMSystem::new(3, 0).unwrap();
    assert_eq!(sys.api_version(12, 0), Ok(12));
    // a code left by an earlier call is of no account once the request succeeds
    assert_eq!(sys.api_version(12, 9), Ok(12));
    assert_eq!(sys.api_version(11, 0), Err(Error::VersionMismatch { reported: 11 }));
    assert_eq!(sys.api_version(13, 0), Err(Error::VersionMismatch { reported: 13 }));
    assert_eq!(sys.api_version(0, 0), Err(Error::VersionMismatch { reported: 0 }));
    assert_eq!(sys.api_version(i32::MAX, 0), Err(Error::VersionMismatch { reported: i32::MAX }));
}

#[test]
fn failed_version_request_keeps_its_code() {
    let sys = KVMSystem::new(3, 0).unwrap();
    assert_eq!(sys.api_version(-1, 9), Err(Error::System { errno: 9 }));
    assert_eq!(sys.api_version(-1, 25), Err(Error::System { errno: 25 }));
    assert_eq!(sys.api_version(i32::MIN, 13), Err(Error::System { errno: 13 }));
}

#[test]
fn capability_values_pass_through() {
    let sys = KVMSystem::new(3, 0).unwrap();
    assert_eq!(sys.check_cap_irqchip(0, 0), Ok(0));
    assert_eq!(sys.check_cap_user_memory(1, 0), Ok(1));
    assert_eq!(sys.check_cap_set_tss_address(7, 0), Ok(7));
    assert_eq!(sys.check_cap_set_tss_address(-1, 22), Err(Error::System { errno: 22 }));
}

#[test]
fn mmap_size_must_be_positive() {
    let sys = KVMSystem::new(3, 0).unwrap();
    assert_eq!(sys.get_vcpu_mmap_size(12288, 0), Ok(12288));
    assert_eq!(sys.get_vcpu_mmap_size(0, 5), Err(Error::System { errno: 5 }));
    assert_eq!(sys.get_vcpu_mmap_size(-1, 9), Err(Error::System { errno: 9 }));
}

#[test]
fn descriptors_are_checked() {
    let sys = KVMSystem::new(3, 0).unwrap();
    assert!(matches!(sys.create_vm(-1, 12), Err(Error::System { errno: 12 })));
    let vm = sys.create_vm(4, 0).unwrap();
    assert_eq!(vm.as_raw_fd(), 4);
    assert_eq!(vm.create_vcpu(-1, 17), Err(Error::System { errno: 17 }));
    assert_eq!(vm.create_vcpu(9, 0), Ok(9));
}

#[test]
fn vm_requests_report_the_kernel_code() {
    let vm = KVMSystem::new(3, 0).unwrap().create_vm(4, 0).unwrap();
    assert_eq!(vm.set_user_memory_region(0, 0), Ok(true));
    assert_eq!(vm.set_user_memory_region(-1, 22), Err(Error::System { errno: 22 }));
    assert_eq!(vm.set_tss_address(0, 0), Ok(()));
    assert_eq!(vm.set_tss_address(-1, 14), Err(Error::System { errno: 14 }));
}

#[test]
fn no_vcpu_without_a_mapping() {
    assert!(matches!(
        VirtualCPU::from_file(5, 0x3000, MAP_FAILED, 12),
        Err(Error::System { errno: 12 })
    ));
    let vcpu = VirtualCPU::from_file(5, 0x3000, 0x7f00_0000_1000, 0).unwrap();
    assert_eq!(vcpu.as_raw_fd(), 5);
    assert_eq!(vcpu.vcpu_map_size(), 0x3000);
    assert_eq!(vcpu.kvm_run_address(), 0x7f00_0000_1000);
    assert_eq!(VirtualCPU::map_kvm_run(MAP_FAILED, 1), Err(Error::System { errno: 1 }));
    assert_eq!(VirtualCPU::map_kvm_run(4096, 1), Ok(4096));
}
