//! A verified core for driving the Linux KVM interface from userspace.

#![allow(non_camel_case_types)]
#![allow(non_upper_case_globals)]

pub mod error;
pub mod layout;
pub mod linux;
pub mod mem;
pub mod payload;
pub mod slot;
pub mod system;
pub mod utils;
pub mod vcpu;
pub mod vm;
