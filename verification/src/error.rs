//! Typed failures of the process core.
//!
//! Every fallible entry point returns one of these kinds; nothing in the
//! core panics on user-triggerable input.

use vstd::prelude::*;

verus! {

/// Error kinds surfaced at the syscall boundary, under their Linux names.
#[derive(Debug, Clone, Copy, PartialEq, Eq, Structural)]
pub enum LinuxError {
    /// Malformed flag combination, or `PARENT` requested without a parent.
    EINVAL,
    /// A user-supplied pointer could not be validated or written.
    EFAULT,
    /// A lookup by pid/tid/pgid/sid found no live handle.
    ESRCH,
    /// An internal invariant failed: required process data is missing.
    EPERM,
    /// Address-space cloning or allocation failed.
    ENOMEM,
    /// A wait found no matching child to reap.
    ECHILD,
    /// A wait found matching children, but none has exited yet.
    EAGAIN,
    /// A blocking call was interrupted.
    EINTR,
}

} // verus!
