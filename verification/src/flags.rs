//! Clone flags: one `u32` whose low byte is the exit-signal number and
//! whose remaining bits select which resources parent and child share.

use vstd::prelude::*;

verus! {

/// Parent and child run in the same address space.
pub const CLONE_VM: u32 = 0x100;

/// Parent and child share filesystem information (working directory).
pub const CLONE_FS: u32 = 0x200;

/// Parent and child share the file descriptor table.
pub const CLONE_FILES: u32 = 0x400;

/// Parent and child share the table of signal handlers.
pub const CLONE_SIGHAND: u32 = 0x800;

/// If the parent is being traced, trace the child too.
pub const CLONE_PTRACE: u32 = 0x2000;

/// The caller is suspended until the child exits or replaces its program
/// image.
pub const CLONE_VFORK: u32 = 0x4000;

/// The child's parent is the caller's own parent, not the caller.
pub const CLONE_PARENT: u32 = 0x8000;

/// The child joins the caller's thread group (same process).
pub const CLONE_THREAD: u32 = 0x10000;

/// The child starts in a new mount namespace (a no-op in this core).
pub const CLONE_NEWNS: u32 = 0x20000;

/// Parent and child share System V semaphore adjustments (a no-op here).
pub const CLONE_SYSVSEM: u32 = 0x40000;

/// Install the given value as the child's thread-local-storage descriptor.
pub const CLONE_SETTLS: u32 = 0x80000;

/// Write the child's tid into the parent's memory.
pub const CLONE_PARENT_SETTID: u32 = 0x100000;

/// On child exit, zero the child-tid word and wake a futex waiter there.
pub const CLONE_CHILD_CLEARTID: u32 = 0x200000;

/// A tracer cannot force `CLONE_PTRACE` on this child.
pub const CLONE_UNTRACED: u32 = 0x800000;

/// Write the child's tid into the child's memory before it first runs.
pub const CLONE_CHILD_SETTID: u32 = 0x1000000;

/// New cgroup namespace (a no-op in this core).
pub const CLONE_NEWCGROUP: u32 = 0x2000000;

/// New UTS namespace (a no-op in this core).
pub const CLONE_NEWUTS: u32 = 0x4000000;

/// New IPC namespace (a no-op in this core).
pub const CLONE_NEWIPC: u32 = 0x8000000;

/// New user namespace (a no-op in this core).
pub const CLONE_NEWUSER: u32 = 0x10000000;

/// New PID namespace (a no-op in this core).
pub const CLONE_NEWPID: u32 = 0x20000000;

/// New network namespace (a no-op in this core).
pub const CLONE_NEWNET: u32 = 0x40000000;

/// Child shares an I/O context with the caller (a no-op in this core).
pub const CLONE_IO: u32 = 0x80000000;

/// Low byte of the raw flag word: the exit-signal number.
pub const CLONE_SIGNAL_MASK: u32 = 0xFF;

/// Every resource or behavior bit this core recognizes.
pub const CLONE_KNOWN_MASK: u32 = CLONE_VM | CLONE_FS | CLONE_FILES | CLONE_SIGHAND | CLONE_PTRACE
    | CLONE_VFORK | CLONE_PARENT | CLONE_THREAD | CLONE_NEWNS | CLONE_SYSVSEM | CLONE_SETTLS
    | CLONE_PARENT_SETTID | CLONE_CHILD_CLEARTID | CLONE_UNTRACED | CLONE_CHILD_SETTID
    | CLONE_NEWCGROUP | CLONE_NEWUTS | CLONE_NEWIPC | CLONE_NEWUSER | CLONE_NEWPID | CLONE_NEWNET
    | CLONE_IO;

/// The resource-sharing and behavior bits of a clone request, with the
/// exit-signal byte and unrecognized bits already masked off.
#[derive(Debug, Clone, Copy, PartialEq, Eq, Structural)]
pub struct CloneFlags(pub u32);

impl CloneFlags {
    /// True iff every bit of `bits` is set in the flag word.
    pub open spec fn spec_contains(self, bits: u32) -> bool {
        self.0 & bits == bits
    }

    /// True iff every bit of `bits` is set in the flag word.
    pub fn contains(&self, bits: u32) -> (r: bool)
        ensures
            r == self.spec_contains(bits),
    {
        self.0 & bits == bits
    }

    /// The flag bits of a raw clone argument word.
    pub open spec fn spec_from_raw(raw: u32) -> CloneFlags {
        CloneFlags(raw & !CLONE_SIGNAL_MASK & CLONE_KNOWN_MASK)
    }

    /// Extract the flag bits from a raw clone argument word, dropping the
    /// exit-signal byte and any bit this core does not recognize.
    pub fn from_raw(raw: u32) -> (r: CloneFlags)
        ensures
            r == Self::spec_from_raw(raw),
    {
        CloneFlags(raw & !CLONE_SIGNAL_MASK & CLONE_KNOWN_MASK)
    }
}

/// The exit-signal number of a raw clone argument word: its low byte.
pub open spec fn spec_exit_signal_byte(raw: u32) -> u32 {
    raw & CLONE_SIGNAL_MASK
}

/// Extract the exit-signal number from a raw clone argument word.
pub fn exit_signal_byte(raw: u32) -> (r: u32)
    ensures
        r == spec_exit_signal_byte(raw),
        r <= 0xFF,
{
    let r = raw & CLONE_SIGNAL_MASK;
    assert(raw & CLONE_SIGNAL_MASK <= 0xFF) by (bit_vector);
    r
}

} // verus!
