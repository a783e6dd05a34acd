//! Threads, processes, process groups and sessions, with their resource
//! bundles.
//!
//! A `Thread` belongs to exactly one `Process`; a `Process` belongs to one
//! `ProcessGroup`, which belongs to one `Session`. Parent links are weak:
//! a process stores its parent's pid and resolves it through lookup, so a
//! dead parent is simply a pid whose record is gone. Shared resources —
//! address space, signal managers, futex table, file-descriptor table,
//! working directory — are integer handles: two holders share a resource
//! exactly when they hold the same handle.

use vstd::prelude::*;

use crate::cred::Credentials;
use crate::signo::{Signo, SIGCHLD};
use crate::table::Keyed;

verus! {

/// A thread or process identifier.
pub type Pid = u32;

/// Base of the user heap, fixed by platform configuration.
pub const USER_HEAP_BASE: usize = 0x4000_0000;

/// The scheduling-relevant state of a task, as far as this core decides
/// it. The run-queue itself belongs to the external scheduler.
#[derive(Debug, Clone, Copy, PartialEq, Eq, Structural)]
pub enum TaskState {
    /// Schedulable (running or ready to run).
    Ready,
    /// Suspended by `vfork` until the child process `child` exits or
    /// replaces its program image.
    BlockedVfork { child: Pid },
    /// Suspended by `pause` until a signal arrives.
    BlockedPause,
    /// Terminated; the record lingers until its process is reaped.
    Exited,
}

/// The user-visible register context this core manipulates: instruction
/// and stack pointers, the thread-local-storage descriptor, and the
/// return-value register.
#[derive(Debug, Clone, Copy, PartialEq, Eq, Structural)]
pub struct Context {
    /// Instruction pointer.
    pub ip: usize,
    /// Stack pointer.
    pub sp: usize,
    /// Thread-local-storage descriptor.
    pub tls: usize,
    /// Return-value register.
    pub retval: usize,
}

/// Per-thread resource bundle.
#[derive(Debug, Clone, Copy, PartialEq, Eq, Structural)]
pub struct ThreadData {
    /// Address of the word to zero (and futex-wake) when the thread
    /// exits, or 0 for none.
    pub clear_child_tid: usize,
    /// Handle of the process-level signal manager this thread's signal
    /// manager was derived from.
    pub signal: u64,
}

impl ThreadData {
    /// Build the per-thread bundle for a thread joining the process that
    /// owns `proc_data`: no clear-child-tid word, and a thread signal
    /// manager derived from the process-level one.
    pub fn new(proc_data: &ProcessData) -> (r: ThreadData)
        ensures
            r.clear_child_tid == 0,
            r.signal == proc_data.signal,
    {
        ThreadData { clear_child_tid: 0, signal: proc_data.signal }
    }

    /// The clear-child-tid word's address.
    pub fn clear_child_tid(&self) -> (r: usize)
        ensures
            r == self.clear_child_tid,
    {
        self.clear_child_tid
    }

    /// Set the clear-child-tid word's address.
    pub fn set_clear_child_tid(&mut self, clear_child_tid: usize)
        ensures
            *final(self) == (ThreadData { clear_child_tid, ..*old(self) }),
    {
        self.clear_child_tid = clear_child_tid;
    }
}

/// One thread: identity, owning process, scheduling state, register
/// context and per-thread resources.
#[derive(Debug)]
pub struct Thread {
    /// The thread's identifier, unique for the record's lifetime.
    pub tid: Pid,
    /// The owning process's identifier.
    pub pid: Pid,
    /// Scheduling state.
    pub state: TaskState,
    /// Register context.
    pub ctx: Context,
    /// Per-thread resources.
    pub data: ThreadData,
}

impl Keyed for Thread {
    open spec fn spec_key(&self) -> u64 {
        self.tid as u64
    }

    fn key(&self) -> u64 {
        self.tid as u64
    }
}

/// Per-process resource bundle.
#[derive(Debug)]
pub struct ProcessData {
    /// Path of the executable image.
    pub exe_path: String,
    /// Handle of the address space; shared with every holder of the same
    /// handle.
    pub aspace: u64,
    /// Bottom of the user heap.
    pub heap_bottom: usize,
    /// Top of the user heap.
    pub heap_top: usize,
    /// Signal to deliver to the parent when this process exits; `None`
    /// makes this a "clone child" that reports nothing by default.
    pub exit_signal: Option<Signo>,
    /// Handle of the process-level signal manager, one per process.
    pub signal: u64,
    /// Handle of the signal-action table; shared under `CLONE_SIGHAND`.
    pub signal_actions: u64,
    /// Handle of the futex table, one per process, never shared across
    /// process boundaries.
    pub futex_table: u64,
    /// Handle of the file-descriptor table; shared under `CLONE_FILES`.
    pub fd_table: u64,
    /// Handle of the working-directory state; shared under `CLONE_FS`.
    pub cwd: u64,
    /// The process's credentials, value-copied on fork.
    pub cred: Credentials,
    /// `Some(parent_tid)` exactly while this process is a vfork child
    /// that has not yet released the named waiting parent.
    pub vfork_completion: Option<Pid>,
}

/// The fresh resource handles a new `ProcessData` consumes; allocated by
/// the kernel state, since handles must be globally fresh.
#[derive(Debug, Clone, Copy, PartialEq, Eq, Structural)]
pub struct FreshHandles {
    /// Handle for the process-level signal manager.
    pub signal: u64,
    /// Handle for the futex table.
    pub futex_table: u64,
}

impl ProcessData {
    /// Build the resource bundle of a brand-new (initial) process: heap
    /// at the platform base, root credentials, no vfork obligation.
    pub fn new(
        exe_path: String,
        aspace: u64,
        signal_actions: u64,
        exit_signal: Option<Signo>,
        fresh: FreshHandles,
        fd_table: u64,
        cwd: u64,
    ) -> (r: ProcessData)
        ensures
            r == (ProcessData {
                exe_path,
                aspace,
                heap_bottom: USER_HEAP_BASE,
                heap_top: USER_HEAP_BASE,
                exit_signal,
                signal: fresh.signal,
                signal_actions,
                futex_table: fresh.futex_table,
                fd_table,
                cwd,
                cred: Credentials { uid: 0, euid: 0, gid: 0, egid: 0 },
                vfork_completion: None::<Pid>,
            }),
    {
        ProcessData {
            exe_path,
            aspace,
            heap_bottom: USER_HEAP_BASE,
            heap_top: USER_HEAP_BASE,
            exit_signal,
            signal: fresh.signal,
            signal_actions,
            futex_table: fresh.futex_table,
            fd_table,
            cwd,
            cred: Credentials::default(),
            vfork_completion: None,
        }
    }

    /// Build a child's resource bundle from its parent's: executable
    /// path, heap bounds and credentials are copied by value; the address
    /// space, signal-action, fd-table and working-directory handles are
    /// whatever the share-vs-copy decision passed in; the signal manager
    /// and futex table are brand new.
    pub fn fork_from(
        parent: &ProcessData,
        aspace: u64,
        signal_actions: u64,
        exit_signal: Option<Signo>,
        fresh: FreshHandles,
        fd_table: u64,
        cwd: u64,
    ) -> (r: ProcessData)
        ensures
            r == (ProcessData {
                exe_path: parent.exe_path,
                aspace,
                heap_bottom: parent.heap_bottom,
                heap_top: parent.heap_top,
                exit_signal,
                signal: fresh.signal,
                signal_actions,
                futex_table: fresh.futex_table,
                fd_table,
                cwd,
                cred: parent.cred,
                vfork_completion: None::<Pid>,
            }),
    {
        ProcessData {
            exe_path: parent.exe_path.clone(),
            aspace,
            heap_bottom: parent.heap_bottom,
            heap_top: parent.heap_top,
            exit_signal,
            signal: fresh.signal,
            signal_actions,
            futex_table: fresh.futex_table,
            fd_table,
            cwd,
            cred: parent.cred,
            vfork_completion: None,
        }
    }

    /// Bottom address of the user heap.
    pub fn get_heap_bottom(&self) -> (r: usize)
        ensures
            r == self.heap_bottom,
    {
        self.heap_bottom
    }

    /// Set the bottom address of the user heap.
    pub fn set_heap_bottom(&mut self, bottom: usize)
        ensures
            *final(self) == (ProcessData { heap_bottom: bottom, ..*old(self) }),
    {
        self.heap_bottom = bottom;
    }

    /// Top address of the user heap.
    pub fn get_heap_top(&self) -> (r: usize)
        ensures
            r == self.heap_top,
    {
        self.heap_top
    }

    /// Set the top address of the user heap.
    pub fn set_heap_top(&mut self, top: usize)
        ensures
            *final(self) == (ProcessData { heap_top: top, ..*old(self) }),
    {
        self.heap_top = top;
    }

    /// A "clone child" delivers no signal, or a signal other than
    /// `SIGCHLD`, to its parent on termination.
    pub open spec fn spec_is_clone_child(self) -> bool {
        self.exit_signal != Some(Signo(SIGCHLD))
    }

    /// True iff this process is a "clone child": its exit signal is
    /// anything but the default `SIGCHLD`.
    pub fn is_clone_child(&self) -> (r: bool)
        ensures
            r == self.spec_is_clone_child(),
    {
        match self.exit_signal {
            Some(s) => s.0 != SIGCHLD,
            None => true,
        }
    }
}

/// One process: identity, weak parent link, group membership, exit
/// status and the owned resource bundle.
#[derive(Debug)]
pub struct Process {
    /// The process's identifier, unique for the record's lifetime.
    pub pid: Pid,
    /// The parent's pid, resolved through lookup; `None` for the initial
    /// process.
    pub parent: Option<Pid>,
    /// The owning process group's identifier.
    pub pgid: Pid,
    /// True once the last thread has exited.
    pub exited: bool,
    /// True once `exit_group` has forced the whole thread group down.
    pub group_exited: bool,
    /// The wait-status word left for the parent to reap.
    pub exit_code: i32,
    /// The owned resource bundle.
    pub data: ProcessData,
}

impl Keyed for Process {
    open spec fn spec_key(&self) -> u64 {
        self.pid as u64
    }

    fn key(&self) -> u64 {
        self.pid as u64
    }
}

/// A process group: lazily created alongside its first member.
#[derive(Debug)]
pub struct ProcessGroup {
    /// The group's identifier.
    pub pgid: Pid,
    /// The owning session's identifier.
    pub sid: Pid,
}

impl Keyed for ProcessGroup {
    open spec fn spec_key(&self) -> u64 {
        self.pgid as u64
    }

    fn key(&self) -> u64 {
        self.pgid as u64
    }
}

/// A session of process groups: lazily created alongside its first group.
#[derive(Debug)]
pub struct Session {
    /// The session's identifier.
    pub sid: Pid,
}

impl Keyed for Session {
    open spec fn spec_key(&self) -> u64 {
        self.sid as u64
    }

    fn key(&self) -> u64 {
        self.sid as u64
    }
}

} // verus!
