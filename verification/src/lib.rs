//! System-call logic of a small Unix-like kernel: signal masks and actions,
//! process time accounting, and the decisions that the system calls make on
//! their arguments and on what the kernel reports back.

pub mod ctypes;
pub mod errno;
pub mod flags;
pub mod syscall_imp;
