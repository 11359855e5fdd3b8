//! The system calls, grouped as the kernel groups them.
pub mod signal;
pub mod socket;
pub mod sys;
pub mod task;
