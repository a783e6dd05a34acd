//! Process and thread lifecycle core of a Linux-ABI personality.
//!
//! The library models the kernel's process state as an explicit value of
//! type [`kernel::Kernel`]: tables of threads, processes, process groups,
//! sessions and address spaces, keyed by integer identifiers. The
//! `clone`/`fork`/`vfork` orchestration, the exit protocol, the identity
//! registry and the credential rules are implemented and verified against
//! that model; the scheduler, signal delivery and the futex wait table are
//! external collaborators, reached through actions that the verified
//! transitions emit.

pub mod cred;
pub mod error;
pub mod flags;
pub mod signo;
pub mod table;
pub mod aspace;
pub mod task;
pub mod kernel;
pub mod registry;
pub mod procops;
pub mod clone;
pub mod exit;
pub mod wait;
pub mod api;
pub mod timeapi;
pub mod stat;
pub mod laws;
