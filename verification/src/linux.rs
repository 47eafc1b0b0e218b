//! The kernel's side of the interface: request codes, constants and structures.

pub mod ioctl;
pub mod kvm_consts;
pub mod kvm_ioctl;
pub mod kvm_run;
pub mod kvm_structs;
