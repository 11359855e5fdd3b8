//! System calls on tasks.
pub mod thread;
