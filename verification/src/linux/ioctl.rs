//! Numbering of ioctl requests.
//!
//! A request code packs four fields into 32 bits: the operation number in
//! bits 0 to 7, a type tag in bits 8 to 15, the size of the argument in bits
//! 16 to 29 and the direction of the transfer in bits 30 and 31.

use vstd::prelude::*;

verus! {

/// Shift of the operation number within a request code.
pub const _IOC_NRSHIFT: u32 = 0;

/// Shift of the type tag within a request code.
pub const _IOC_TYPESHIFT: u32 = 8;

/// Shift of the argument size within a request code.
pub const _IOC_SIZESHIFT: u32 = 16;

/// Shift of the transfer direction within a request code.
pub const _IOC_DIRSHIFT: u32 = 30;

/// Direction of a request that transfers no data.
pub const _IOC_NONE: u32 = 0;

/// Direction of a request whose argument the kernel reads.
pub const _IOC_WRITE: u32 = 1;

/// Direction of a request whose argument the kernel fills in.
pub const _IOC_READ: u32 = 2;

/// The request code for the four fields: each shifted to its place in 32 bits,
/// the four joined, the result widened.
pub open spec fn ioctl_code(direction: u32, ioctl_type: u32, number: u32, size: u32) -> u64 {
    ((direction << 30u32) | (ioctl_type << 8u32) | (number << 0u32) | (size << 16u32)) as u64
}

/// The direction field of a request code.
pub open spec fn ioctl_direction(code: u64) -> u64 {
    (code >> 30u64) & 0x3
}

/// The argument size field of a request code.
pub open spec fn ioctl_size(code: u64) -> u64 {
    (code >> 16u64) & 0x3fff
}

/// The type tag field of a request code.
pub open spec fn ioctl_type_tag(code: u64) -> u64 {
    (code >> 8u64) & 0xff
}

/// The operation number field of a request code.
pub open spec fn ioctl_number(code: u64) -> u64 {
    code & 0xff
}

/// Whether each field fits the bits that a request code has for it.
pub open spec fn ioctl_fields_fit(direction: u32, ioctl_type: u32, number: u32, size: u32) -> bool {
    direction < 4 && ioctl_type < 0x100 && number < 0x100 && size < 0x4000
}

/// Packs direction, type tag, operation number and argument size into a
/// request code.
pub fn define_ioctl_op(direction: u32, ioctl_type: u32, number: u32, size: u32) -> (code: u64)
    ensures
        code == ioctl_code(direction, ioctl_type, number, size),
{
    ((direction << _IOC_DIRSHIFT) | (ioctl_type << _IOC_TYPESHIFT) | (number << _IOC_NRSHIFT) | (size
        << _IOC_SIZESHIFT)) as u64
}

/// For fields that fit, the code is the sum of the fields, each scaled to its
/// place, and every field can be read back from the code. Two requests that
/// differ in any field therefore differ in their code.
pub proof fn lemma_ioctl_code_fields(direction: u32, ioctl_type: u32, number: u32, size: u32)
    by (bit_vector)
    requires
        ioctl_fields_fit(direction, ioctl_type, number, size),
    ensures
        ioctl_code(direction, ioctl_type, number, size) == (direction as u64) * 0x4000_0000 + (
        size as u64) * 0x1_0000 + (ioctl_type as u64) * 0x100 + (number as u64),
        ioctl_direction(ioctl_code(direction, ioctl_type, number, size)) == direction,
        ioctl_size(ioctl_code(direction, ioctl_type, number, size)) == size,
        ioctl_type_tag(ioctl_code(direction, ioctl_type, number, size)) == ioctl_type,
        ioctl_number(ioctl_code(direction, ioctl_type, number, size)) == number,
{
}

} // verus!
