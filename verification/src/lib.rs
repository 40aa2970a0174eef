//! A cooperative, interrupt-driven task-scheduling runtime for a constrained
//! embedded process that talks to a privileged kernel through four syscall
//! primitives (subscribe, command, allow, yield).
//!
//! This crate holds the verified substrate: the per-resource callback cells,
//! the byte-counted resource state machines for the console, the button event
//! stream, the fixed-capacity arenas and the boxed-task registry used to place
//! suspended computations, the race/join combinators, and the executor's wake
//! protocol.  The raw syscalls themselves and the loop that parks the hardware
//! thread live outside the library: callers issue the [`syscalls::KernelOp`]
//! plans this crate builds and feed the resulting callbacks back in.

pub mod arena;
pub mod button;
pub mod callback;
pub mod combinators;
pub mod console_read;
pub mod console_write;
pub mod executor;
pub mod futures;
pub mod led;
pub mod result;
pub mod syscalls;
pub mod transfer;
