//! Syscall-shaped entry points: the fixed-flag sugar around `clone` and
//! the exit protocol, plus the thin aliases other subsystems call.

use vstd::prelude::*;

use crate::clone::{clone_flag_error, clone_ctid_fault, clone_parent_missing, clone_ptid_fault,
    CloneArgs};
use crate::error::LinuxError;
use crate::exit::{exit_post, Action};
use crate::flags::{CloneFlags, CLONE_CHILD_SETTID, CLONE_PARENT, CLONE_PARENT_SETTID,
    CLONE_THREAD, CLONE_VFORK, CLONE_VM};
use crate::kernel::{Kernel, HANDLE_MAX, PID_MAX};
use crate::task::{Pid, TaskState, Thread};

verus! {

/// The raw flag word of `fork`: only the exit-signal byte, set to
/// `SIGCHLD`; every resource is copied.
pub const FORK_RAW_FLAGS: u32 = 17;

/// The raw flag word of `vfork`: share the address space, suspend the
/// caller, report `SIGCHLD`.
pub const VFORK_RAW_FLAGS: u32 = 0x4000 | 0x100 | 17;

/// Both sugar flag words pass validation and demand no tid writes.
pub proof fn lemma_sugar_flags()
    ensures
        !clone_flag_error(FORK_RAW_FLAGS),
        !CloneFlags::spec_from_raw(FORK_RAW_FLAGS).spec_contains(CLONE_THREAD),
        !CloneFlags::spec_from_raw(FORK_RAW_FLAGS).spec_contains(CLONE_PARENT),
        !CloneFlags::spec_from_raw(FORK_RAW_FLAGS).spec_contains(CLONE_CHILD_SETTID),
        !CloneFlags::spec_from_raw(FORK_RAW_FLAGS).spec_contains(CLONE_PARENT_SETTID),
        !CloneFlags::spec_from_raw(FORK_RAW_FLAGS).spec_contains(CLONE_VM),
        !CloneFlags::spec_from_raw(FORK_RAW_FLAGS).spec_contains(CLONE_VFORK),
        !clone_flag_error(VFORK_RAW_FLAGS),
        !CloneFlags::spec_from_raw(VFORK_RAW_FLAGS).spec_contains(CLONE_THREAD),
        !CloneFlags::spec_from_raw(VFORK_RAW_FLAGS).spec_contains(CLONE_PARENT),
        !CloneFlags::spec_from_raw(VFORK_RAW_FLAGS).spec_contains(CLONE_CHILD_SETTID),
        !CloneFlags::spec_from_raw(VFORK_RAW_FLAGS).spec_contains(CLONE_PARENT_SETTID),
        CloneFlags::spec_from_raw(VFORK_RAW_FLAGS).spec_contains(CLONE_VM),
        CloneFlags::spec_from_raw(VFORK_RAW_FLAGS).spec_contains(CLONE_VFORK),
{
    assert(0x100u32 | 0x200u32 | 0x400u32 | 0x800u32 | 0x2000u32 | 0x4000u32 | 0x8000u32
        | 0x10000u32 | 0x20000u32 | 0x40000u32 | 0x80000u32 | 0x100000u32 | 0x200000u32
        | 0x800000u32 | 0x1000000u32 | 0x2000000u32 | 0x4000000u32 | 0x8000000u32 | 0x10000000u32
        | 0x20000000u32 | 0x40000000u32 | 0x80000000u32 == 0xFFBF_EF00u32) by (bit_vector);
    assert(crate::flags::CLONE_KNOWN_MASK == 0xFFBF_EF00u32);
    assert(17u32 & !0xFFu32 & 0xFFBF_EF00u32 == 0u32) by (bit_vector);
    assert(CloneFlags::spec_from_raw(FORK_RAW_FLAGS).0 == 0u32);
    assert((0x4000u32 | 0x100u32 | 17u32) & !0xFFu32 & 0xFFBF_EF00u32 == 0x4100u32)
        by (bit_vector);
    assert(VFORK_RAW_FLAGS == 0x4000u32 | 0x100u32 | 17u32);
    assert(CloneFlags::spec_from_raw(VFORK_RAW_FLAGS).0 == 0x4100u32);
    assert(0u32 & 0x10000u32 != 0x10000u32) by (bit_vector);
    assert(0u32 & 0x8000u32 != 0x8000u32) by (bit_vector);
    assert(0u32 & 0x1000000u32 != 0x1000000u32) by (bit_vector);
    assert(0u32 & 0x100000u32 != 0x100000u32) by (bit_vector);
    assert(0u32 & 0x100u32 != 0x100u32) by (bit_vector);
    assert(0u32 & 0x4000u32 != 0x4000u32) by (bit_vector);
    assert(0u32 & 0x18000u32 != 0x18000u32) by (bit_vector);
    assert(0x4100u32 & 0x10000u32 != 0x10000u32) by (bit_vector);
    assert(0x4100u32 & 0x8000u32 != 0x8000u32) by (bit_vector);
    assert(0x4100u32 & 0x1000000u32 != 0x1000000u32) by (bit_vector);
    assert(0x4100u32 & 0x100000u32 != 0x100000u32) by (bit_vector);
    assert(0x4100u32 & 0x100u32 == 0x100u32) by (bit_vector);
    assert(0x4100u32 & 0x4000u32 == 0x4000u32) by (bit_vector);
    assert(0x4100u32 & 0x18000u32 != 0x18000u32) by (bit_vector);
    assert(0x10000u32 | 0x8000u32 == 0x18000u32) by (bit_vector);
}

impl Kernel {
    /// `fork`: clone with only the exit-signal byte set to `SIGCHLD` and
    /// no resource-sharing bits. It always succeeds (up to machine
    /// limits), and the child copies every resource.
    pub fn sys_fork(&mut self, caller: Pid) -> (r: Result<Pid, LinuxError>)
        requires
            old(self).wf(),
            old(self).caller_ok(caller),
            old(self).next_task_id < PID_MAX,
            old(self).next_handle + 6 < HANDLE_MAX,
        ensures
            final(self).wf(),
            r == Ok::<Pid, LinuxError>(old(self).next_task_id),
            final(self).clone_ok_post(
                *old(self),
                caller,
                CloneArgs { flags: FORK_RAW_FLAGS, stack: 0, parent_tid: 0, child_tid: 0, tls: 0 },
            ),
    {
        let a = CloneArgs { flags: FORK_RAW_FLAGS, stack: 0, parent_tid: 0, child_tid: 0, tls: 0 };
        proof {
            lemma_sugar_flags();
            assert(!clone_ctid_fault(*old(self), caller, a));
            assert(!clone_ptid_fault(*old(self), caller, a));
            assert(!clone_parent_missing(*old(self), caller, a.flags));
        }
        let r = self.sys_clone(caller, a);
        proof {
            assert(r is Ok);
        }
        r
    }

    /// `vfork`: clone sharing the address space, with the caller
    /// suspended until the child exits or replaces its program image.
    pub fn sys_vfork(&mut self, caller: Pid) -> (r: Result<Pid, LinuxError>)
        requires
            old(self).wf(),
            old(self).caller_ok(caller),
            old(self).next_task_id < PID_MAX,
            old(self).next_handle + 6 < HANDLE_MAX,
        ensures
            final(self).wf(),
            r == Ok::<Pid, LinuxError>(old(self).next_task_id),
            final(self).clone_ok_post(
                *old(self),
                caller,
                CloneArgs { flags: VFORK_RAW_FLAGS, stack: 0, parent_tid: 0, child_tid: 0, tls: 0 },
            ),
            final(self).thread_of(caller).state == (TaskState::BlockedVfork {
                child: old(self).next_task_id,
            }),
            final(self).proc_of(old(self).next_task_id).data.vfork_completion == Some(caller),
    {
        let a = CloneArgs {
            flags: VFORK_RAW_FLAGS,
            stack: 0,
            parent_tid: 0,
            child_tid: 0,
            tls: 0,
        };
        proof {
            lemma_sugar_flags();
            assert(!clone_ctid_fault(*old(self), caller, a));
            assert(!clone_ptid_fault(*old(self), caller, a));
            assert(!clone_parent_missing(*old(self), caller, a.flags));
        }
        let r = self.sys_clone(caller, a);
        proof {
            assert(r is Ok);
        }
        r
    }

    /// `fork`, under the name user code calls.
    pub fn fork(&mut self, caller: Pid) -> (r: Result<Pid, LinuxError>)
        requires
            old(self).wf(),
            old(self).caller_ok(caller),
            old(self).next_task_id < PID_MAX,
            old(self).next_handle + 6 < HANDLE_MAX,
        ensures
            final(self).wf(),
            r == Ok::<Pid, LinuxError>(old(self).next_task_id),
            final(self).clone_ok_post(
                *old(self),
                caller,
                CloneArgs { flags: FORK_RAW_FLAGS, stack: 0, parent_tid: 0, child_tid: 0, tls: 0 },
            ),
    {
        self.sys_fork(caller)
    }

    /// `vfork`, under the name user code calls.
    pub fn vfork(&mut self, caller: Pid) -> (r: Result<Pid, LinuxError>)
        requires
            old(self).wf(),
            old(self).caller_ok(caller),
            old(self).next_task_id < PID_MAX,
            old(self).next_handle + 6 < HANDLE_MAX,
        ensures
            final(self).wf(),
            r == Ok::<Pid, LinuxError>(old(self).next_task_id),
            final(self).thread_of(caller).state == (TaskState::BlockedVfork {
                child: old(self).next_task_id,
            }),
            final(self).clone_ok_post(
                *old(self),
                caller,
                CloneArgs { flags: VFORK_RAW_FLAGS, stack: 0, parent_tid: 0, child_tid: 0, tls: 0 },
            ),
    {
        self.sys_vfork(caller)
    }

    /// `exit`, under the name user code calls; in the running system the
    /// calling task never resumes.
    pub fn exit(&mut self, caller: Pid, exit_code: i32) -> (r: Vec<Action>)
        requires
            old(self).wf(),
            old(self).caller_ok(caller),
        ensures
            final(self).wf(),
            exit_post(
                *old(self),
                *final(self),
                caller,
                ((exit_code as u32) << 8u32) as i32,
                false,
                r@,
            ),
    {
        self.sys_exit(caller, exit_code)
    }

    /// `getpid`, under the name user code calls.
    pub fn getpid(&self, caller: Pid) -> (r: Pid)
        requires
            self.wf(),
            self.caller_ok(caller),
        ensures
            r == self.thread_of(caller).pid,
    {
        self.sys_getpid(caller)
    }

    /// `sched_yield`, under the name user code calls: the processor goes
    /// back to the external scheduler and no process state moves.
    pub fn sched_yield(&self) -> (r: isize)
        ensures
            r == 0,
    {
        self.sys_sched_yield()
    }

    /// The yield syscall stub; identical to [`Kernel::sched_yield`].
    pub fn sys_yield(&self) -> (r: isize)
        ensures
            r == 0,
    {
        self.sys_sched_yield()
    }

    /// `pause`, under the name user code calls.
    pub fn pause(&mut self, caller: Pid) -> (r: LinuxError)
        requires
            old(self).wf(),
            old(self).caller_ok(caller),
        ensures
            final(self).wf(),
            final(self).thread_of(caller).state == TaskState::BlockedPause,
            r == LinuxError::EINTR,
    {
        self.sys_pause(caller)
    }

    /// `exec`, under the name user code calls.
    pub fn exec(&mut self, caller: Pid, path: String) -> (r: isize)
        requires
            old(self).wf(),
            old(self).caller_ok(caller),
        ensures
            final(self).wf(),
            r == 0,
            ({
                let pid = old(self).thread_of(caller).pid;
                let p0 = old(self).proc_of(pid);
                &&& final(self).proc_of(pid).data.exe_path == path
                &&& final(self).proc_of(pid).data.vfork_completion == None::<Pid>
                &&& match p0.data.vfork_completion {
                    Some(w) => (w != caller && old(self).has_thread(w) && old(self).thread_of(
                        w,
                    ).state == (TaskState::BlockedVfork { child: pid })) ==> final(self).thread_of(
                        w,
                    ) == (Thread { state: TaskState::Ready, ..old(self).thread_of(w) }),
                    None => true,
                }
                &&& forall|q: Pid|
                    q != pid && old(self).has_proc(q) ==> final(self).proc_of(q) == old(
                        self,
                    ).proc_of(q)
                &&& forall|q: Pid| final(self).has_proc(q) == old(self).has_proc(q)
                &&& forall|q: Pid| final(self).has_thread(q) == old(self).has_thread(q)
            }),
    {
        self.sys_exec(caller, path)
    }
}

} // verus!
