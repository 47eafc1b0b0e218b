use libkvm::error::{expect_value, expect_zero, Error};
use libkvm::layout::to_bytes;
use libkvm::linux::kvm_structs::{kvm_fpu, kvm_lapic_state, kvm_msr_entry, kvm_regs, kvm_sregs};
use libkvm::utils::{KVMCpuid2Wrapper, KVMMSRSWrapper};
use libkvm::vcpu::VirtualCPU;

fn vcpu() -> VirtualCPU {
    VirtualCPU::from_file(5, 0x3000, 0x7f00_0000_0000, 0).unwrap()
}

#[test]
fn results_become_outcomes() {
    assert_eq!(expect_zero(0, 3), Ok(()));
    assert_eq!(expect_zero(1, 3), Err(Error::System { errno: 3 }));
    assert_eq!(expect_zero(-1, 3), Err(Error::System { errno: 3 }));
    assert_eq!(expect_value(0, 3), Ok(0));
    assert_eq!(expect_value(i32::MAX, 3), Ok(i32::MAX));
    assert_eq!(expect_value(-1, 3), Err(Error::System { errno: 3 }));
}

#[test]
fn run_reports_the_kernel_answer() {
    assert_eq!(vcpu().run(0, 0), Ok(true));
    assert_eq!(vcpu().run(-1, 4), Err(Error::System { errno: 4 }));
}

#[test]
fn registers_come_from_the_reply() {
    let mut regs = kvm_regs::default();
    regs.rip = 0;
    regs.rsp = 0x10_0000;
    regs.rflags = 2;
    let reply = to_bytes(&regs);
    assert_eq!(vcpu().get_kvm_regs(0, 0, &reply), Ok(regs));
    assert_eq!(vcpu().get_kvm_regs(-1, 14, &reply), Err(Error::System { errno: 14 }));
    assert_eq!(
        vcpu().get_kvm_regs(0, 0, &reply[..143]),
        Err(Error::BufferLength { expected: 144, actual: 143 })
    );
    assert_eq!(vcpu().set_kvm_regs(0, 0), Ok(()));
    assert_eq!(vcpu().set_kvm_regs(-1, 22), Err(Error::System { errno: 22 }));
}

#[test]
fn other_state_comes_from_the_reply() {
    let mut sregs = kvm_sregs::default();
    sregs.cr3 = 0x2000;
    assert_eq!(vcpu().get_kvm_sregs(0, 0, &to_bytes(&sregs)), Ok(sregs));
    assert_eq!(vcpu().get_kvm_sregs(1, 5, &to_bytes(&sregs)), Err(Error::System { errno: 5 }));
    assert_eq!(vcpu().set_kvm_sregs(0, 0), Ok(()));
    assert_eq!(vcpu().set_kvm_sregs(-1, 5), Err(Error::System { errno: 5 }));

    let mut fpu = kvm_fpu::default();
    fpu.mxcsr = 0x1f80;
    assert_eq!(vcpu().get_fpu(0, 0, &to_bytes(&fpu)), Ok(fpu));
    assert_eq!(vcpu().get_fpu(0, 0, &[]), Err(Error::BufferLength { expected: 416, actual: 0 }));
    assert_eq!(vcpu().set_fpu(0, 0), Ok(()));
    assert_eq!(vcpu().set_fpu(-1, 5), Err(Error::System { errno: 5 }));

    let mut lapic = kvm_lapic_state::default();
    lapic.regs[0x20] = 1;
    assert_eq!(vcpu().get_lapic(0, 0, &to_bytes(&lapic)), Ok(lapic));
    assert_eq!(vcpu().get_lapic(3, 0, &to_bytes(&lapic)), Ok(lapic));
    assert_eq!(vcpu().get_lapic(-1, 5, &to_bytes(&lapic)), Err(Error::System { errno: 5 }));
    assert_eq!(vcpu().set_lapic(0, 0), Ok(()));
    assert_eq!(vcpu().set_lapic(-1, 5), Err(Error::System { errno: 5 }));
}

#[test]
fn lists_come_from_the_filled_buffer() {
    let mut cpuid = KVMCpuid2Wrapper::new(256);
    cpuid.as_mut_ptr()[0..4].copy_from_slice(&2u32.to_le_bytes());
    cpuid.as_mut_ptr()[8] = 1;
    let entries = vcpu().get_cpuid(0, 0, &cpuid).unwrap();
    assert_eq!(entries.len(), 2);
    assert_eq!(entries[0].function, 1);
    assert_eq!(vcpu().get_cpuid(-1, 2, &cpuid), Err(Error::System { errno: 2 }));
    assert_eq!(vcpu().get_cpuid(1, 2, &cpuid), Err(Error::System { errno: 2 }));
    assert_eq!(vcpu().set_cpuid(0, 0), Ok(()));
    assert_eq!(vcpu().set_cpuid(-1, 2), Err(Error::System { errno: 2 }));

    let mut msrs = KVMMSRSWrapper::from_msr_indices(&[0x174, 0x10]);
    msrs.as_mut_ptr()[16..24].copy_from_slice(&0xabcdu64.to_le_bytes());
    assert_eq!(
        vcpu().get_msrs(2, 0, &msrs),
        Ok(vec![
            kvm_msr_entry { index: 0x174, reserved: 0, data: 0xabcd },
            kvm_msr_entry { index: 0x10, reserved: 0, data: 0 },
        ])
    );
    assert_eq!(vcpu().get_msrs(-1, 2, &msrs), Err(Error::System { errno: 2 }));
    assert_eq!(vcpu().set_msrs(2, 0), Ok(()));
    assert_eq!(vcpu().set_msrs(0, 0), Ok(()));
    assert_eq!(vcpu().set_msrs(-1, 2), Err(Error::System { errno: 2 }));
}
