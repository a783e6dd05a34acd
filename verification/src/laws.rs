//! The laws of the process model, proved once and for all from the
//! transition contracts.

use vstd::prelude::*;

use crate::clone::{clone_flag_error, CloneArgs};
use crate::flags::{spec_exit_signal_byte, CloneFlags, CLONE_PARENT, CLONE_SIGHAND, CLONE_THREAD,
    CLONE_VM};
use crate::kernel::Kernel;
use crate::procops::{apply_proc_update, ProcUpdate};
use crate::task::{Pid, TaskState};

verus! {

/// A clone request with `THREAD` set but `VM` and `SIGHAND` not both set
/// is an invalid flag combination, so — by `sys_clone`'s contract — such
/// a request fails `EINVAL` for every flag value, with nothing created.
pub proof fn lemma_clone_rejects_bare_thread(raw: u32)
    requires
        CloneFlags::spec_from_raw(raw).spec_contains(CLONE_THREAD),
        !CloneFlags::spec_from_raw(raw).spec_contains(CLONE_VM | CLONE_SIGHAND),
    ensures
        clone_flag_error(raw),
{
}

/// A clone request with a nonzero exit signal and both `THREAD` and
/// `PARENT` set is an invalid flag combination, so — by `sys_clone`'s
/// contract — such a request fails `EINVAL` for every flag value.
pub proof fn lemma_clone_rejects_signaled_thread_parent(raw: u32)
    requires
        spec_exit_signal_byte(raw) != 0,
        CloneFlags::spec_from_raw(raw).spec_contains(CLONE_THREAD | CLONE_PARENT),
    ensures
        clone_flag_error(raw),
{
}

/// Fork copies the heap bounds instead of sharing them: after a clone on
/// the process path, a later heap-top write in the parent leaves the
/// child's heap top at the value it copied.
///
/// `k0` is the pre-clone state, `k1` the post-clone state, and `k2` the
/// state after the parent moved its own heap top, in the exact shape of
/// `set_heap_top`'s contract.
pub proof fn lemma_fork_heap_isolated(
    k0: Kernel,
    k1: Kernel,
    k2: Kernel,
    caller: Pid,
    a: CloneArgs,
    top: usize,
)
    requires
        k0.wf(),
        k0.caller_ok(caller),
        k1.clone_ok_process(k0, caller, a),
        k1.clone_ok_threads(k0, caller, a),
        !CloneFlags::spec_from_raw(a.flags).spec_contains(CLONE_THREAD),
        !CloneFlags::spec_from_raw(a.flags).spec_contains(CLONE_PARENT),
        ({
            let parent_pid = k0.thread_of(caller).pid;
            &&& k2.proc_of(parent_pid) == apply_proc_update(
                ProcUpdate::HeapTop(top),
                k1.proc_of(parent_pid),
            )
            &&& forall|q: Pid|
                q != parent_pid && k1.has_proc(q) ==> k2.proc_of(q) == k1.proc_of(q)
            &&& forall|q: Pid| k2.has_proc(q) == k1.has_proc(q)
        }),
    ensures
        ({
            let child = k0.next_task_id;
            let parent_pid = k0.thread_of(caller).pid;
            &&& k2.has_proc(child)
            &&& k2.proc_of(child).data.heap_top == k0.proc_of(parent_pid).data.heap_top
        }),
{
    let child = k0.next_task_id;
    let parent_pid = k0.thread_of(caller).pid;
    assert(k0.has_thread(caller));
    assert(child != parent_pid) by {
        if child == parent_pid {
            assert(k0.thread_wf(k0.thread_of(caller))) by {
                let i = crate::table::key_idx(k0.threads@, caller as u64);
                assert(0 <= i < k0.threads@.len() && k0.threads@[i].tid == caller);
                assert(k0.threads@[i] == k0.thread_of(caller));
            }
            assert(k0.has_proc(parent_pid));
            assert(!k0.has_proc(child));
        }
    }
    assert(k2.proc_of(child) == k1.proc_of(child));
}

/// Two live threads of one process observe the same process-level
/// resource singletons: identical futex-table identity and identical
/// signal-manager identity.
pub proof fn lemma_threads_share_process_singletons(k: Kernel, t1: Pid, t2: Pid)
    requires
        k.wf(),
        k.thread_live(t1),
        k.thread_live(t2),
        k.thread_of(t1).pid == k.thread_of(t2).pid,
    ensures
        k.thread_of(t1).data.signal == k.thread_of(t2).data.signal,
        k.proc_of_thread(t1).data.futex_table == k.proc_of_thread(t2).data.futex_table,
        k.proc_of_thread(t1).data.signal == k.proc_of_thread(t2).data.signal,
{
    let i1 = crate::table::key_idx(k.threads@, t1 as u64);
    assert(0 <= i1 < k.threads@.len() && k.threads@[i1].tid == t1);
    assert(k.threads@[i1] == k.thread_of(t1));
    assert(k.thread_wf(k.threads@[i1]));
    let i2 = crate::table::key_idx(k.threads@, t2 as u64);
    assert(0 <= i2 < k.threads@.len() && k.threads@[i2].tid == t2);
    assert(k.threads@[i2] == k.thread_of(t2));
    assert(k.thread_wf(k.threads@[i2]));
}

/// A vfork parent stays suspended across an exit performed by a thread
/// of any process that does not owe it a release: the only transition
/// that can wake it is the exit (or program replacement) of the child
/// process whose completion slot names it.
///
/// `k1` is the pre-exit state, `k2` the post-exit state in the exact
/// shape of `do_exit`'s thread clauses for the exiting thread `e`.
pub proof fn lemma_vfork_parent_stays_blocked(k1: Kernel, k2: Kernel, p: Pid, c: Pid, e: Pid)
    requires
        k1.wf(),
        k1.has_thread(p),
        k1.thread_of(p).state == (TaskState::BlockedVfork { child: c }),
        e != p,
        k1.caller_ok(e),
        k1.has_proc(k1.thread_of(e).pid),
        // the exiting process does not owe `p` a release
        k1.proc_of(k1.thread_of(e).pid).data.vfork_completion != Some(p),
        // `do_exit`'s guarantees for threads other than the exiter and
        // the thread named in the exiting process's completion slot
        forall|q: Pid|
            q != e && (match k1.proc_of(k1.thread_of(e).pid).data.vfork_completion {
                Some(w) => q != w,
                None => true,
            }) && k1.has_thread(q) ==> k2.thread_of(q) == k1.thread_of(q),
    ensures
        k2.thread_of(p).state == (TaskState::BlockedVfork { child: c }),
{
    assert(k2.thread_of(p) == k1.thread_of(p));
}

/// The release half: when the last obligation holder exits, the named
/// parent — still suspended on this child — becomes schedulable, by
/// `do_exit`'s (and `sys_exec`'s) wake clause.
pub proof fn lemma_vfork_parent_released(k1: Kernel, k2: Kernel, p: Pid, c: Pid, e: Pid)
    requires
        k1.wf(),
        k1.has_thread(p),
        e != p,
        k1.caller_ok(e),
        k1.thread_of(e).pid == c,
        k1.has_proc(c),
        k1.proc_of(c).data.vfork_completion == Some(p),
        k1.thread_of(p).state == (TaskState::BlockedVfork { child: c }),
        // `do_exit`'s wake clause for the named parent
        (match k1.proc_of(c).data.vfork_completion {
            Some(w) => (w != e && k1.has_thread(w) && k1.thread_of(w).state
                == (TaskState::BlockedVfork { child: c })) ==> k2.thread_of(w).state
                == TaskState::Ready,
            None => true,
        }),
    ensures
        k2.thread_of(p).state == TaskState::Ready,
{
}

/// Once a child process's record is gone — reaped by its parent — every
/// registry lookup of its threads fails `NoSuchEntity`, by
/// `get_thread`'s contract.
pub proof fn lemma_reaped_threads_unreachable(k: Kernel, tid: Pid)
    requires
        k.wf(),
        k.has_thread(tid),
        !k.has_proc(k.thread_of(tid).pid),
    ensures
        !k.thread_gettable(tid),
{
}

/// Registering a thread whose process, group and session are already
/// present changes no registry table, by `add_thread_to_table`'s
/// contract: re-registration is idempotent and creates no duplicates.
pub proof fn lemma_register_idempotent(k1: Kernel, k2: Kernel, tid: Pid)
    requires
        k1.wf(),
        k1.has_thread(tid),
        k1.registered_thread(tid),
        k1.registered_proc(k1.thread_of(tid).pid),
        // `add_thread_to_table`'s guarantees
        k2.thread_table@ == if k1.registered_thread(tid) {
            k1.thread_table@
        } else {
            k1.thread_table@.push(tid)
        },
        (if k1.registered_proc(k1.thread_of(tid).pid) {
            k2.process_table@ == k1.process_table@ && k2.process_group_table@
                == k1.process_group_table@ && k2.session_table@ == k1.session_table@
        } else {
            true
        }),
    ensures
        Kernel::same_registry(k2, k1),
{
}

} // verus!
