//! What can go wrong between this process and the kernel.

use vstd::prelude::*;

verus! {

/// Why an operation did not succeed.
#[derive(Clone, Copy, Debug, PartialEq, Eq, Structural)]
pub enum Error {
    /// The kernel refused or failed the operation; `errno` is the code it left.
    System { errno: i32 },
    /// The interface reported a version other than the one supported.
    VersionMismatch { reported: i32 },
    /// A payload's header declares more entries than its buffer has room for.
    CountExceedsCapacity { count: u32, capacity: usize },
    /// A buffer is not of the length that its contents call for.
    BufferLength { expected: usize, actual: usize },
}

/// What a call that reports success by zero came to.
pub open spec fn zero_or_error(result: i32, errno: i32) -> Result<(), Error> {
    if result == 0 {
        Ok(())
    } else {
        Err(Error::System { errno })
    }
}

/// What a call that reports failure by a negative number came to.
pub open spec fn value_or_error(result: i32, errno: i32) -> Result<i32, Error> {
    if result >= 0 {
        Ok(result)
    } else {
        Err(Error::System { errno })
    }
}

/// What a call came to that reports failure by a negative number and whose
/// value is of no further use.
pub open spec fn done_or_error(result: i32, errno: i32) -> Result<(), Error> {
    if result >= 0 {
        Ok(())
    } else {
        Err(Error::System { errno })
    }
}

/// What a call came to that reports success by zero, where success is
/// reported on as `true`.
pub open spec fn true_or_error(result: i32, errno: i32) -> Result<bool, Error> {
    if result == 0 {
        Ok(true)
    } else {
        Err(Error::System { errno })
    }
}

/// Success if the kernel returned zero, else the system error with the code
/// that the kernel left.
pub fn expect_zero(result: i32, errno: i32) -> (r: Result<(), Error>)
    ensures
        r == zero_or_error(result, errno),
{
    if result == 0 {
        Ok(())
    } else {
        Err(Error::System { errno })
    }
}

/// The value that the kernel returned if it is not negative, else the system
/// error with the code that the kernel left.
pub fn expect_value(result: i32, errno: i32) -> (r: Result<i32, Error>)
    ensures
        r == value_or_error(result, errno),
{
    if result >= 0 {
        Ok(result)
    } else {
        Err(Error::System { errno })
    }
}

} // verus!
