//! Exit codes shared by the filesystem and the shell.

use vstd::prelude::*;

verus! {

/// Outcome of a kernel or shell operation.
#[derive(Debug, Clone, Copy, PartialEq, Eq, Structural)]
pub enum Status {
    Success,
    NotFound,
    WrongType,
    FailedToWrite,
    FailedToRead,
    AlreadyExists,
    NotEmpty,
}

impl Status {
    /// The numeric code of this status.
    pub open spec fn spec_code(self) -> u8 {
        match self {
            Status::Success => 0,
            Status::NotFound => 1,
            Status::WrongType => 2,
            Status::FailedToWrite => 3,
            Status::FailedToRead => 4,
            Status::AlreadyExists => 5,
            Status::NotEmpty => 6,
        }
    }
}

/// How a status is reported to the host or the hardware.
pub trait Termination: Sized {
    /// The code reported to the system, as one byte.
    fn sys_report(self) -> u8;

    /// The code reported to a caller expecting a wide integer.
    fn report(self) -> i32;
}

impl Termination for Status {
    fn sys_report(self) -> (r: u8)
        ensures
            r == self.spec_code(),
    {
        match self {
            Status::Success => 0,
            Status::NotFound => 1,
            Status::WrongType => 2,
            Status::FailedToWrite => 3,
            Status::FailedToRead => 4,
            Status::AlreadyExists => 5,
            Status::NotEmpty => 6,
        }
    }

    fn report(self) -> (r: i32)
        ensures
            r == self.spec_code(),
    {
        self.sys_report() as i32
    }
}

} // verus!
