use libkvm::linux::ioctl::{define_ioctl_op, _IOC_NONE, _IOC_READ, _IOC_WRITE};
use libkvm::linux::kvm_ioctl::{
    KVMIO, KVM_CHECK_EXTENSION, KVM_CREATE_IRQCHIP, KVM_CREATE_PIT2, KVM_CREATE_VCPU,
    KVM_CREATE_VM, KVM_GET_API_VERSION, KVM_GET_CPUID2, KVM_GET_EMULATED_CPUID, KVM_GET_FPU,
    KVM_GET_LAPIC, KVM_GET_MSRS, KVM_GET_MSR_FEATURE_INDEX_LIST, KVM_GET_MSR_INDEX_LIST,
    KVM_GET_REGS, KVM_GET_SREGS, KVM_GET_SUPPORTED_CPUID, KVM_GET_VCPU_MMAP_SIZE, KVM_RUN,
    KVM_SET_CPUID2, KVM_SET_FPU, KVM_SET_LAPIC, KVM_SET_MSRS, KVM_SET_REGS, KVM_SET_SREGS,
    KVM_SET_TSS_ADDR, KVM_SET_USER_MEMORY_REGION,
};

#[test]
fn codes_are_the_documented_numbers() {
    assert_eq!(KVM_GET_API_VERSION, 0xAE00);
    assert_eq!(KVM_CREATE_VM, 0xAE01);
    assert_eq!(KVM_GET_MSR_INDEX_LIST, 0xC004_AE02);
    assert_eq!(KVM_CHECK_EXTENSION, 0xAE03);
    assert_eq!(KVM_GET_VCPU_MMAP_SIZE, 0xAE04);
    assert_eq!(KVM_GET_SUPPORTED_CPUID, 0xC008_AE05);
    assert_eq!(KVM_GET_EMULATED_CPUID, 0xC008_AE09);
    assert_eq!(KVM_GET_MSR_FEATURE_INDEX_LIST, 0xC004_AE0A);
    assert_eq!(KVM_CREATE_VCPU, 0xAE41);
    assert_eq!(KVM_SET_USER_MEMORY_REGION, 0x4020_AE46);
    assert_eq!(KVM_SET_TSS_ADDR, 0xAE47);
    assert_eq!(KVM_CREATE_IRQCHIP, 0xAE60);
    assert_eq!(KVM_CREATE_PIT2, 0x4040_AE77);
    assert_eq!(KVM_RUN, 0xAE80);
    assert_eq!(KVM_GET_REGS, 0x8090_AE81);
    assert_eq!(KVM_SET_REGS, 0x4090_AE82);
    assert_eq!(KVM_GET_SREGS, 0x8138_AE83);
    assert_eq!(KVM_SET_SREGS, 0x4138_AE84);
    assert_eq!(KVM_GET_MSRS, 0xC008_AE88);
    assert_eq!(KVM_SET_MSRS, 0x4008_AE89);
    assert_eq!(KVM_GET_FPU, 0x81A0_AE8C);
    assert_eq!(KVM_SET_FPU, 0x41A0_AE8D);
    assert_eq!(KVM_GET_LAPIC, 0x8400_AE8E);
    assert_eq!(KVM_SET_LAPIC, 0x4400_AE8F);
    assert_eq!(KVM_SET_CPUID2, 0x4008_AE90);
    assert_eq!(KVM_GET_CPUID2, 0xC008_AE91);
}

#[test]
fn builder_gives_the_documented_numbers() {
    assert_eq!(define_ioctl_op(_IOC_NONE, KVMIO, 0x00, 0), KVM_GET_API_VERSION);
    assert_eq!(define_ioctl_op(_IOC_NONE, KVMIO, 0x80, 0), KVM_RUN);
    assert_eq!(define_ioctl_op(_IOC_READ, KVMIO, 0x81, 144), KVM_GET_REGS);
    assert_eq!(define_ioctl_op(_IOC_WRITE, KVMIO, 0x84, 312), KVM_SET_SREGS);
    assert_eq!(define_ioctl_op(_IOC_WRITE, KVMIO, 0x46, 32), KVM_SET_USER_MEMORY_REGION);
    assert_eq!(define_ioctl_op(_IOC_READ | _IOC_WRITE, KVMIO, 0x05, 8), KVM_GET_SUPPORTED_CPUID);
    assert_eq!(define_ioctl_op(_IOC_READ | _IOC_WRITE, KVMIO, 0x02, 4), KVM_GET_MSR_INDEX_LIST);
    assert_eq!(define_ioctl_op(_IOC_READ, KVMIO, 0x8e, 1024), KVM_GET_LAPIC);
}

#[test]
fn builder_places_each_field() {
    assert_eq!(define_ioctl_op(0, 0, 0, 0), 0);
    assert_eq!(define_ioctl_op(0, 0, 0xff, 0), 0xff);
    assert_eq!(define_ioctl_op(0, 0xff, 0, 0), 0xff00);
    assert_eq!(define_ioctl_op(0, 0, 0, 0x3fff), 0x3fff_0000);
    assert_eq!(define_ioctl_op(3, 0, 0, 0), 0xC000_0000);
    assert_eq!(define_ioctl_op(2, 0xAE, 0x81, 0x90), 2 * 0x4000_0000 + 0x90 * 0x1_0000 + 0xAE * 0x100 + 0x81);
    // bits that do not fit their field are dropped at 32 bits, not carried on
    assert_eq!(define_ioctl_op(4, 0, 0, 0), 0);
}
