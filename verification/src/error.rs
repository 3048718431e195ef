//! The error taxonomy of the device.
//!
//! Per-request errors are reported to the kernel for one tag and leave the
//! queue running. Device-level errors end the lifecycle of the device.

use vstd::prelude::*;
use crate::errno::{eagain, einval, enodev, enoent, invalid_argument, no_device, no_entry, try_again};

verus! {

/// Why one request could not be served.
#[derive(Clone, Copy, Debug, PartialEq, Eq, Structural)]
pub enum IoError {
    /// The operation is one that the target does not implement.
    Unsupported,
    /// The request reaches beyond the last byte of the device.
    OutOfRange,
    /// The request is longer than the I/O buffer of its tag, or longer than
    /// a completion code can report.
    TooLarge,
    /// The backing resource was temporarily unavailable; the request is
    /// submitted again.
    Transient,
    /// The lock around the content could not be taken.
    LockAcquisition,
    /// Descriptor memory holds no record for the tag.
    BadTag,
}

impl IoError {
    /// The error number that stands for this error.
    pub open spec fn errno(self) -> int {
        match self {
            IoError::Transient => eagain(),
            _ => einval(),
        }
    }

    /// True for the one error that ends the queue's loop rather than one
    /// request.
    pub open spec fn is_fatal(self) -> bool {
        self == IoError::LockAcquisition
    }

    /// The negative code with which a request that failed this way is
    /// completed.
    pub fn completion_code(self) -> (code: i32)
        ensures
            code == -self.errno(),
            code < 0,
    {
        match self {
            IoError::Transient => -try_again(),
            _ => -invalid_argument(),
        }
    }

    /// Whether the error ends the queue's loop.
    pub fn fatal(self) -> (b: bool)
        ensures
            b == self.is_fatal(),
    {
        match self {
            IoError::LockAcquisition => true,
            _ => false,
        }
    }
}

/// Why the content could not be loaded. Always fatal, and always before a
/// device exists.
#[derive(Clone, Copy, Debug, PartialEq, Eq, Structural)]
pub enum FetchError {
    /// The object store or the byte stream failed.
    Transport,
    /// The object store reported a negative object size.
    InvalidSize,
    /// The object does not fit into one contiguous buffer on this machine.
    TooLarge,
}

/// Why a control operation on the device failed.
#[derive(Clone, Copy, Debug, PartialEq, Eq, Structural)]
pub enum ControlError {
    /// The operation is not allowed in the state the device is in.
    InvalidState,
    /// The device does not exist. Recoverable: nothing was there to act on.
    NotFound,
    /// The kernel refused the operation with this code, a negated error
    /// number.
    Kernel(i32),
}

impl ControlError {
    /// The error that a code of the kernel stands for: the two codes with
    /// which the kernel says that a device or its node is missing mean
    /// `NotFound`; every other code is kept as it is.
    pub open spec fn of_code(code: i32) -> ControlError {
        if code == -enoent() || code == -enodev() {
            ControlError::NotFound
        } else {
            ControlError::Kernel(code)
        }
    }

    /// Classifies the code with which the kernel refused an operation.
    pub fn from_code(code: i32) -> (e: ControlError)
        ensures
            e == ControlError::of_code(code),
    {
        if code == -no_entry() || code == -no_device() {
            ControlError::NotFound
        } else {
            ControlError::Kernel(code)
        }
    }

    /// Only a missing device is recoverable; every other failure of the
    /// control plane is fatal.
    pub open spec fn is_recoverable(self) -> bool {
        self == ControlError::NotFound
    }

    /// Whether the caller may go on after this error.
    pub fn recoverable(self) -> (b: bool)
        ensures
            b == self.is_recoverable(),
    {
        match self {
            ControlError::NotFound => true,
            _ => false,
        }
    }
}

/// Why a session on a device ended in failure.
#[derive(Clone, Copy, Debug, PartialEq, Eq, Structural)]
pub enum Failure {
    Fetch(FetchError),
    Control(ControlError),
}

} // verus!
