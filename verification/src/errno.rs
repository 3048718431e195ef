//! Linux error numbers, as the C library publishes them.
//!
//! The numbers are part of the kernel interface: a request is completed
//! towards the block layer with the negated error number. Contracts speak of
//! the Linux values; the code reads them from `libc`.

use vstd::prelude::*;

verus! {

/// `ENOENT`: no such file or directory.
pub open spec fn enoent() -> int {
    2
}

/// `EAGAIN`: the resource is temporarily unavailable.
pub open spec fn eagain() -> int {
    11
}

/// `ENODEV`: no such device.
pub open spec fn enodev() -> int {
    19
}

/// `EINVAL`: invalid argument.
pub open spec fn einval() -> int {
    22
}

/// Reads `libc::ENOENT`. Trusted: on Linux the constant is 2.
#[verifier::external_body]
pub(crate) fn no_entry() -> (code: i32)
    ensures
        code == enoent(),
{
    libc::ENOENT
}

/// Reads `libc::EAGAIN`. Trusted: on Linux the constant is 11.
#[verifier::external_body]
pub(crate) fn try_again() -> (code: i32)
    ensures
        code == eagain(),
{
    libc::EAGAIN
}

/// Reads `libc::ENODEV`. Trusted: on Linux the constant is 19.
#[verifier::external_body]
pub(crate) fn no_device() -> (code: i32)
    ensures
        code == enodev(),
{
    libc::ENODEV
}

/// Reads `libc::EINVAL`. Trusted: on Linux the constant is 22.
#[verifier::external_body]
pub(crate) fn invalid_argument() -> (code: i32)
    ensures
        code == einval(),
{
    libc::EINVAL
}

} // verus!
