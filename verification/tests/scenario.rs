use libkvm::error::Error;
use libkvm::layout::{from_bytes, to_bytes};
use libkvm::linux::kvm_consts::{
    KVM_CAP_USER_MEMORY, KVM_EXIT_HLT, KVM_EXIT_IO, KVM_EXIT_IO_OUT, KVM_EXIT_MMIO,
};
use libkvm::linux::kvm_ioctl::{
    KVM_CHECK_EXTENSION, KVM_CREATE_VCPU, KVM_CREATE_VM, KVM_GET_API_VERSION,
    KVM_GET_VCPU_MMAP_SIZE, KVM_RUN, KVM_SET_REGS, KVM_SET_USER_MEMORY_REGION,
};
use libkvm::linux::kvm_run::{kvm_run, kvm_run_io, kvm_run_mmio};
use libkvm::linux::kvm_structs::{kvm_regs, kvm_userspace_memory_region};
use libkvm::slot::Slot;
use libkvm::system::KVMSystem;
use libkvm::vcpu::{VcpuExit, VirtualCPU};

const EINVAL: i32 = 22;

// A stand-in for the kernel: it hands out descriptors, keeps the one memory
// slot and the registers it is given, and "runs" the guest by looking at the
// byte under the instruction pointer.
struct FakeKernel {
    next_fd: i32,
    memory: Vec<u8>,
    region: Option<kvm_userspace_memory_region>,
    regs: kvm_regs,
    shared: Vec<u8>,
}

impl FakeKernel {
    fn new(memory: Vec<u8>) -> Self {
        FakeKernel { next_fd: 3, memory, region: None, regs: kvm_regs::default(), shared: vec![0; 0x3000] }
    }

    fn open(&mut self) -> (i32, i32) {
        self.next_fd += 1;
        (self.next_fd - 1, 0)
    }

    fn ioctl(&mut self, request: u64, value: u64, argument: &[u8]) -> (i32, i32) {
        if request == KVM_GET_API_VERSION {
            (12, 0)
        } else if request == KVM_CHECK_EXTENSION {
            (if value == KVM_CAP_USER_MEMORY as u64 { 1 } else { 0 }, 0)
        } else if request == KVM_CREATE_VM || request == KVM_CREATE_VCPU {
            self.open()
        } else if request == KVM_GET_VCPU_MMAP_SIZE {
            (self.shared.len() as i32, 0)
        } else if request == KVM_SET_USER_MEMORY_REGION {
            match from_bytes::<kvm_userspace_memory_region>(argument) {
                Some(region) if region.memory_size as usize == self.memory.len() => {
                    self.region = Some(region);
                    (0, 0)
                }
                _ => (-1, EINVAL),
            }
        } else if request == KVM_SET_REGS {
            match from_bytes::<kvm_regs>(argument) {
                Some(regs) => {
                    self.regs = regs;
                    (0, 0)
                }
                None => (-1, EINVAL),
            }
        } else if request == KVM_RUN {
            let region = match self.region {
                Some(region) => region,
                None => return (-1, EINVAL),
            };
            let at = (self.regs.rip - region.guest_phys_addr) as usize;
            let reason = if self.memory[at] == 0xf4 { KVM_EXIT_HLT } else { 0 };
            self.shared[8..12].copy_from_slice(&reason.to_le_bytes());
            (0, 0)
        } else {
            (-1, EINVAL)
        }
    }
}

#[test]
fn guest_with_a_halt_instruction_halts() {
    let mut memory = vec![0u8; 0x100000];
    memory[0] = 0xf4;
    let host_addr = memory.as_ptr() as u64;
    let mut kernel = FakeKernel::new(memory);

    let (fd, errno) = kernel.open();
    let sys = KVMSystem::new(fd, errno).unwrap();
    let (result, errno) = kernel.ioctl(KVM_GET_API_VERSION, 0, &[]);
    assert_eq!(sys.api_version(result, errno), Ok(12));
    let (result, errno) = kernel.ioctl(KVM_CHECK_EXTENSION, KVM_CAP_USER_MEMORY as u64, &[]);
    assert!(sys.check_cap_user_memory(result, errno).unwrap() >= 0);

    let (fd, errno) = kernel.ioctl(KVM_CREATE_VM, 0, &[]);
    let vm = sys.create_vm(fd, errno).unwrap();

    let slot = Slot::new(0x100000, host_addr);
    let region = vm.user_memory_region(&slot);
    assert_eq!(region.memory_size, 0x100000);
    assert_eq!(region.guest_phys_addr, 0);
    let (result, errno) = kernel.ioctl(KVM_SET_USER_MEMORY_REGION, 0, &to_bytes(&region));
    assert_eq!(vm.set_user_memory_region(result, errno), Ok(true));

    let (fd, errno) = kernel.ioctl(KVM_CREATE_VCPU, 0, &[]);
    let fd = vm.create_vcpu(fd, errno).unwrap();
    let (result, errno) = kernel.ioctl(KVM_GET_VCPU_MMAP_SIZE, 0, &[]);
    let map_size = sys.get_vcpu_mmap_size(result, errno).unwrap();
    assert_eq!(map_size, 0x3000);
    let vcpu = VirtualCPU::from_file(fd, map_size, kernel.shared.as_ptr() as usize, 0).unwrap();

    let mut regs = kvm_regs::default();
    regs.rip = 0;
    regs.rsp = 0x100000;
    let (result, errno) = kernel.ioctl(KVM_SET_REGS, 0, &to_bytes(&regs));
    assert_eq!(vcpu.set_kvm_regs(result, errno), Ok(()));

    let (result, errno) = kernel.ioctl(KVM_RUN, 0, &[]);
    assert_eq!(vcpu.run(result, errno), Ok(true));
    assert_eq!(vcpu.kvm_run(&kernel.shared).unwrap().exit_reason, KVM_EXIT_HLT);
    assert_eq!(vcpu.exit(&kernel.shared), Ok(VcpuExit::Hlt));
}

#[test]
fn run_without_memory_is_refused() {
    let mut kernel = FakeKernel::new(vec![0xf4]);
    let vcpu = VirtualCPU::from_file(5, 0x3000, kernel.shared.as_ptr() as usize, 0).unwrap();
    let (result, errno) = kernel.ioctl(KVM_RUN, 0, &[]);
    assert_eq!(vcpu.run(result, errno), Err(Error::System { errno: EINVAL }));
}

fn vcpu() -> VirtualCPU {
    VirtualCPU::from_file(5, 0x3000, 0x7f00_0000_0000, 0).unwrap()
}

#[test]
fn head_of_the_region_is_read_and_written() {
    let mut region = vec![0u8; 64];
    region[8..12].copy_from_slice(&KVM_EXIT_HLT.to_le_bytes());
    region[13] = 1;
    region[16..24].copy_from_slice(&7u64.to_le_bytes());
    region[40] = 0xab;
    let head = vcpu().kvm_run(&region).unwrap();
    assert_eq!(head.exit_reason, 5);
    assert_eq!(head.if_flag, 1);
    assert_eq!(head.cr8, 7);
    assert_eq!(head.request_interrupt_window, 0);

    let mut next = head;
    next.request_interrupt_window = 1;
    next.immediate_exit = 1;
    next.apic_base = 0xfee0_0000;
    assert_eq!(vcpu().kvm_run_mut(&mut region, &next), Ok(()));
    assert_eq!(region[0], 1);
    assert_eq!(region[1], 1);
    assert_eq!(region[24..32], 0xfee0_0000u64.to_le_bytes());
    assert_eq!(region[40], 0xab);
    assert_eq!(region.len(), 64);
    assert_eq!(vcpu().kvm_run(&region), Ok(next));

    let mut short = vec![9u8; 31];
    assert_eq!(
        vcpu().kvm_run(&short),
        Err(Error::BufferLength { expected: 32, actual: 31 })
    );
    assert_eq!(
        vcpu().kvm_run_mut(&mut short, &kvm_run::default()),
        Err(Error::BufferLength { expected: 32, actual: 31 })
    );
    assert_eq!(short, vec![9u8; 31]);
}

#[test]
fn exit_reason_selects_what_is_read() {
    let mut region = vec![0u8; 0x3000];
    region[8..12].copy_from_slice(&KVM_EXIT_IO.to_le_bytes());
    region[32] = KVM_EXIT_IO_OUT;
    region[33] = 1;
    region[34..36].copy_from_slice(&42u16.to_le_bytes());
    region[36..40].copy_from_slice(&3u32.to_le_bytes());
    region[40..48].copy_from_slice(&0x1000u64.to_le_bytes());
    region[0x1000..0x1003].copy_from_slice(b"abc");
    let io = kvm_run_io { direction: 1, size: 1, port: 42, count: 3, data_offset: 0x1000 };
    assert_eq!(vcpu().exit(&region), Ok(VcpuExit::Io(io)));
    assert_eq!(vcpu().io_data(&region, &io), Some(&b"abc"[..]));

    region[8..12].copy_from_slice(&KVM_EXIT_MMIO.to_le_bytes());
    region[32..40].copy_from_slice(&0xfee0_0000u64.to_le_bytes());
    region[40..48].copy_from_slice(&[1, 2, 3, 4, 5, 6, 7, 8]);
    region[48..52].copy_from_slice(&8u32.to_le_bytes());
    region[52] = 1;
    assert_eq!(
        vcpu().exit(&region),
        Ok(VcpuExit::Mmio(kvm_run_mmio {
            phys_addr: 0xfee0_0000,
            data: [1, 2, 3, 4, 5, 6, 7, 8],
            len: 8,
            is_write: 1,
            padding: [0, 0, 0],
        }))
    );

    region[8..12].copy_from_slice(&17u32.to_le_bytes());
    assert_eq!(vcpu().exit(&region), Ok(VcpuExit::Other { reason: 17 }));

    region[8..12].copy_from_slice(&KVM_EXIT_IO.to_le_bytes());
    assert_eq!(
        vcpu().exit(&region[..47]),
        Err(Error::BufferLength { expected: 48, actual: 47 })
    );
    region[8..12].copy_from_slice(&KVM_EXIT_MMIO.to_le_bytes());
    assert_eq!(
        vcpu().exit(&region[..55]),
        Err(Error::BufferLength { expected: 56, actual: 55 })
    );
    assert_eq!(vcpu().exit(&[]), Err(Error::BufferLength { expected: 32, actual: 0 }));
}

#[test]
fn port_data_stay_within_the_region() {
    let region: Vec<u8> = (0..100u8).collect();
    let io = |size, count, data_offset| kvm_run_io { direction: 0, size, port: 1, count, data_offset };
    assert_eq!(vcpu().io_data(&region, &io(2, 3, 10)), Some(&region[10..16]));
    assert_eq!(vcpu().io_data(&region, &io(4, 25, 0)), Some(&region[..]));
    assert_eq!(vcpu().io_data(&region, &io(1, 0, 100)), Some(&region[100..]));
    assert_eq!(vcpu().io_data(&region, &io(1, 1, 100)), None);
    assert_eq!(vcpu().io_data(&region, &io(4, 25, 1)), None);
    assert_eq!(vcpu().io_data(&region, &io(255, u32::MAX, 0)), None);
    assert_eq!(vcpu().io_data(&region, &io(1, 1, u64::MAX)), None);
}
