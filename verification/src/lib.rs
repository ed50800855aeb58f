//! The unprivileged runtime of one task that talks to a microkernel through a
//! single system call.
//!
//! The kernel invokes the task with a message buffer or with none and expects a
//! 32-bit request word in return. The task is a computation that suspends at
//! message sources and at delays; the runtime keeps it between invocations,
//! resumes it once per invocation, and turns the suspension point at which it
//! stopped into the request word. It allocates nothing and starts no thread.
//!
//! The runtime decides; it performs no system call and reads no kernel memory.
//! Whoever embeds it hands it what the kernel passed and hands the kernel the
//! words that it returns.

pub mod channel;
pub mod executor;
pub mod linear;
pub mod mailbox;
pub mod message;
pub mod storage;
pub mod syscall;
pub mod timer;
pub mod violation;
