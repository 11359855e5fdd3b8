//! The errors that the system calls report.
use vstd::prelude::*;

verus! {

/// Why a system call failed; each is reported to user space as the Linux
/// error of the same name.
#[derive(Debug, Clone, Copy, PartialEq, Eq, Structural)]
pub enum SysError {
    /// `EINVAL`: an argument is invalid.
    Inval,
    /// `ECHILD`: there is no such child to wait for.
    Child,
    /// `ENOMEM`: not enough memory.
    NoMem,
    /// `ENODEV`: the operation is not supported by the device.
    NoDev,
    /// `ENOSYS`: the operation is not implemented.
    NoSys,
}

/// What a system call returns: a value, or an error.
pub type SysResult = Result<isize, SysError>;

} // verus!
