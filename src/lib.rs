//! Interrupt-safe spin locks for a single-CPU kernel, and the syscall
//! handlers that read state through them.

pub mod interrupts;
pub mod lock;
pub mod laws;
pub mod syscalls;
