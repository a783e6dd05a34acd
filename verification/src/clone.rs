//! The clone orchestrator: `clone`, `fork` and `vfork`.
//!
//! Given the caller's context and a raw flag word — exit-signal byte plus
//! resource bits — the orchestrator validates the combination, decides
//! thread-vs-process creation and per-resource share-vs-copy, writes the
//! requested tid words, wires up the new task and, for `vfork`, suspends
//! the caller until the child releases it.

use vstd::prelude::*;

use crate::aspace::AddrSpace;
use crate::error::LinuxError;
use crate::flags::{exit_signal_byte, spec_exit_signal_byte, CloneFlags, CLONE_CHILD_CLEARTID,
    CLONE_CHILD_SETTID, CLONE_FILES, CLONE_FS, CLONE_PARENT, CLONE_PARENT_SETTID, CLONE_SETTLS,
    CLONE_SIGHAND, CLONE_THREAD, CLONE_VFORK, CLONE_VM};
use crate::kernel::Kernel;
use crate::procops::ThreadUpdate;
use crate::signo::Signo;
use crate::table::lemma_push_fresh_key;
use crate::task::{Context, FreshHandles, Pid, Process, ProcessData, TaskState, Thread,
    ThreadData};

verus! {

/// The plain-value arguments of a clone request.
#[derive(Debug, Clone, Copy, PartialEq, Eq, Structural)]
pub struct CloneArgs {
    /// Raw flag word: exit-signal byte plus resource bits.
    pub flags: u32,
    /// New stack pointer for the child, or 0 to inherit the caller's.
    pub stack: usize,
    /// Address in the caller's memory for `CLONE_PARENT_SETTID`.
    pub parent_tid: usize,
    /// Address in the child's memory for `CLONE_CHILD_SETTID` and
    /// `CLONE_CHILD_CLEARTID`.
    pub child_tid: usize,
    /// Thread-local-storage value for `CLONE_SETTLS`.
    pub tls: usize,
}

/// The flag combinations `clone` rejects outright: a nonzero exit signal
/// together with `THREAD | PARENT`, or `THREAD` without both `VM` and
/// `SIGHAND`.
pub open spec fn clone_flag_error(raw: u32) -> bool {
    let f = CloneFlags::spec_from_raw(raw);
    ||| (spec_exit_signal_byte(raw) != 0 && f.spec_contains(CLONE_THREAD | CLONE_PARENT))
    ||| (f.spec_contains(CLONE_THREAD) && !f.spec_contains(CLONE_VM | CLONE_SIGHAND))
}

/// The child-tid address is demanded but not mapped in the caller's
/// address space.
pub open spec fn clone_ctid_fault(k: Kernel, caller: Pid, a: CloneArgs) -> bool {
    CloneFlags::spec_from_raw(a.flags).spec_contains(CLONE_CHILD_SETTID) && !k.aspace_of(
        k.proc_of_thread(caller).data.aspace,
    ).spec_has_word(a.child_tid)
}

/// The parent-tid address is demanded but not mapped in the caller's
/// address space.
pub open spec fn clone_ptid_fault(k: Kernel, caller: Pid, a: CloneArgs) -> bool {
    CloneFlags::spec_from_raw(a.flags).spec_contains(CLONE_PARENT_SETTID) && !k.aspace_of(
        k.proc_of_thread(caller).data.aspace,
    ).spec_has_word(a.parent_tid)
}

/// `CLONE_PARENT` is demanded on the process path but the caller's
/// process has no live parent.
pub open spec fn clone_parent_missing(k: Kernel, caller: Pid, raw: u32) -> bool {
    let f = CloneFlags::spec_from_raw(raw);
    f.spec_contains(CLONE_PARENT) && !f.spec_contains(CLONE_THREAD) && match k.proc_of_thread(
        caller,
    ).parent {
        None => true,
        Some(pp) => !k.has_proc(pp),
    }
}

/// The register context the child starts with: the caller's snapshot,
/// with the stack pointer replaced if one was given, the TLS descriptor
/// installed under `CLONE_SETTLS`, and the return-value register zeroed
/// so the child sees 0 from the clone call.
pub open spec fn spec_child_ctx(parent_ctx: Context, a: CloneArgs) -> Context {
    Context {
        ip: parent_ctx.ip,
        sp: if a.stack != 0 {
            a.stack
        } else {
            parent_ctx.sp
        },
        tls: if CloneFlags::spec_from_raw(a.flags).spec_contains(CLONE_SETTLS) {
            a.tls
        } else {
            parent_ctx.tls
        },
        retval: 0,
    }
}

/// The exit signal recorded for the child: the low byte, accepted only
/// when recognized, anything else meaning "no signal".
pub open spec fn spec_child_exit_signal(raw: u32) -> Option<Signo> {
    if Signo::spec_valid(spec_exit_signal_byte(raw) as u8) {
        Some(Signo(spec_exit_signal_byte(raw) as u8))
    } else {
        None
    }
}

impl Kernel {
    /// Append a fresh address space. Nothing else in the state moves.
    pub(crate) fn push_aspace(&mut self, space: AddrSpace)
        requires
            old(self).wf(),
            space.wf(),
            !old(self).has_aspace(space.id),
            space.id < old(self).next_handle,
        ensures
            final(self).wf(),
            final(self).threads@ == old(self).threads@,
            final(self).processes@ == old(self).processes@,
            final(self).groups@ == old(self).groups@,
            final(self).sessions@ == old(self).sessions@,
            final(self).aspaces@ == old(self).aspaces@.push(space),
            Kernel::same_registry(*final(self), *old(self)),
            final(self).next_task_id == old(self).next_task_id,
            final(self).next_handle == old(self).next_handle,
            final(self).has_aspace(space.id),
            final(self).aspace_of(space.id) == space,
            forall|h: u64| h != space.id ==> final(self).has_aspace(h) == old(self).has_aspace(h),
            forall|h: u64|
                h != space.id && old(self).has_aspace(h) ==> final(self).aspace_of(h) == old(self).aspace_of(h),
    {
        proof {
            lemma_push_fresh_key(self.aspaces@, space);
        }
        self.aspaces.push(space);
        proof {
            let k0 = *old(self);
            let k1 = *self;
            assert forall|i: int|
                0 <= i < k1.threads@.len() implies k1.thread_wf(#[trigger] k1.threads@[i]) by {
                assert(k0.thread_wf(k0.threads@[i]));
            }
            assert forall|i: int|
                0 <= i < k1.processes@.len() implies k1.proc_wf(#[trigger] k1.processes@[i]) by {
                assert(k0.proc_wf(k0.processes@[i]));
            }
            assert(k1.wf());
        }
    }

    /// Append a fresh process record. Nothing else in the state moves.
    pub(crate) fn push_process(&mut self, p: Process)
        requires
            old(self).wf(),
            !old(self).has_proc(p.pid),
            old(self).proc_wf(p),
        ensures
            final(self).wf(),
            final(self).threads@ == old(self).threads@,
            final(self).processes@ == old(self).processes@.push(p),
            final(self).groups@ == old(self).groups@,
            final(self).sessions@ == old(self).sessions@,
            final(self).aspaces@ == old(self).aspaces@,
            Kernel::same_registry(*final(self), *old(self)),
            final(self).next_task_id == old(self).next_task_id,
            final(self).next_handle == old(self).next_handle,
            final(self).has_proc(p.pid),
            final(self).proc_of(p.pid) == p,
            forall|q: Pid| q != p.pid ==> final(self).has_proc(q) == old(self).has_proc(q),
            forall|q: Pid|
                q != p.pid && old(self).has_proc(q) ==> final(self).proc_of(q) == old(self).proc_of(
                    q,
                ),
    {
        proof {
            lemma_push_fresh_key(self.processes@, p);
        }
        self.processes.push(p);
        proof {
            let k0 = *old(self);
            let k1 = *self;
            assert forall|i: int|
                0 <= i < k1.threads@.len() implies k1.thread_wf(#[trigger] k1.threads@[i]) by {
                let t = k0.threads@[i];
                assert(k0.thread_wf(t));
                if t.state != TaskState::Exited {
                    assert(t.pid as u64 != p.pid as u64);
                }
            }
            assert forall|i: int|
                0 <= i < k1.processes@.len() implies k1.proc_wf(#[trigger] k1.processes@[i]) by {
                if i < k0.processes@.len() {
                    assert(k0.proc_wf(k0.processes@[i]));
                } else {
                    assert(k1.processes@[i] == p);
                }
            }
            assert(k1.wf());
        }
    }

    /// Append a fresh thread record. Nothing else in the state moves.
    pub(crate) fn push_thread(&mut self, t: Thread)
        requires
            old(self).wf(),
            !old(self).has_thread(t.tid),
            old(self).thread_wf(t),
        ensures
            final(self).wf(),
            final(self).threads@ == old(self).threads@.push(t),
            final(self).processes@ == old(self).processes@,
            final(self).groups@ == old(self).groups@,
            final(self).sessions@ == old(self).sessions@,
            final(self).aspaces@ == old(self).aspaces@,
            Kernel::same_registry(*final(self), *old(self)),
            final(self).next_task_id == old(self).next_task_id,
            final(self).next_handle == old(self).next_handle,
            final(self).has_thread(t.tid),
            final(self).thread_of(t.tid) == t,
            forall|q: Pid| q != t.tid ==> final(self).has_thread(q) == old(self).has_thread(q),
            forall|q: Pid|
                q != t.tid && old(self).has_thread(q) ==> final(self).thread_of(q) == old(self).thread_of(q),
    {
        proof {
            lemma_push_fresh_key(self.threads@, t);
        }
        self.threads.push(t);
        proof {
            let k0 = *old(self);
            let k1 = *self;
            assert forall|i: int|
                0 <= i < k1.threads@.len() implies k1.thread_wf(#[trigger] k1.threads@[i]) by {
                if i < k0.threads@.len() {
                    assert(k0.thread_wf(k0.threads@[i]));
                } else {
                    assert(k1.threads@[i] == t);
                }
            }
            assert forall|i: int|
                0 <= i < k1.processes@.len() implies k1.proc_wf(#[trigger] k1.processes@[i]) by {
                assert(k0.proc_wf(k0.processes@[i]));
            }
            assert(k1.wf());
        }
    }
}


impl Kernel {
    /// The `clone` orchestrator.
    ///
    /// Validates the flag word, writes the requested tid words, decides
    /// thread-vs-process creation and per-resource share-vs-copy, wires
    /// up the new task as schedulable, registers it, and — for `vfork` —
    /// suspends the caller until the child releases it.
    ///
    /// Failures mirror the checking order: impossible flag combinations
    /// are rejected before anything is created; an unmapped child-tid
    /// address is rejected next, still with nothing created; an unmapped
    /// parent-tid address is found only after the new task id has been
    /// taken; and a missing parent under `CLONE_PARENT` is found after
    /// the parent-tid word has already been written.
    /// The state relation between the original pre-clone state `k0` and
    /// the state after the new task id was taken and the parent-tid word
    /// (if requested) was written: everything else is untouched.
    pub open spec fn clone_prefix_rel(self, k0: Kernel, caller: Pid, a: CloneArgs, tid: Pid) -> bool {
        let f = CloneFlags::spec_from_raw(a.flags);
        let parent_space = k0.proc_of_thread(caller).data.aspace;
        &&& self.threads@ == k0.threads@
        &&& self.processes@ == k0.processes@
        &&& self.groups@ == k0.groups@
        &&& self.sessions@ == k0.sessions@
        &&& Kernel::same_registry(self, k0)
        &&& self.next_task_id == k0.next_task_id + 1
        &&& self.next_handle == k0.next_handle
        &&& tid == k0.next_task_id
        &&& forall|h: u64| self.has_aspace(h) == k0.has_aspace(h)
        &&& forall|h: u64|
            h != parent_space && k0.has_aspace(h) ==> self.aspace_of(h) == k0.aspace_of(h)
        &&& self.aspace_of(parent_space).id == k0.aspace_of(parent_space).id
        &&& self.aspace_of(parent_space).kernel_mapped == k0.aspace_of(parent_space).kernel_mapped
        &&& forall|x: usize|
            self.aspace_of(parent_space).spec_has_word(x) == k0.aspace_of(
                parent_space,
            ).spec_has_word(x)
        &&& f.spec_contains(CLONE_PARENT_SETTID) ==> self.aspace_of(parent_space).spec_has_word(
            a.parent_tid,
        ) && self.aspace_of(parent_space).spec_word(a.parent_tid) == tid
        &&& forall|x: usize|
            (x != a.parent_tid || !f.spec_contains(CLONE_PARENT_SETTID)) && k0.aspace_of(
                parent_space,
            ).spec_has_word(x) ==> self.aspace_of(parent_space).spec_word(x) == k0.aspace_of(
                parent_space,
            ).spec_word(x)
    }

    /// What `clone` guarantees of the state after a successful request:
    /// the new thread, the caller's suspension under `CLONE_VFORK`, the
    /// registry entries, the new process (on the process path) with every
    /// share-vs-copy decision, and the exact effect on user memory.
    /// Success guarantees of `clone`, thread-record part: the new
    /// thread's identity, state, context and per-thread data, the
    /// caller's suspension under `CLONE_VFORK`, and every other thread
    /// untouched.
    pub open spec fn clone_ok_threads(self, k0: Kernel, caller: Pid, a: CloneArgs) -> bool {
        let f = CloneFlags::spec_from_raw(a.flags);
        let tid = k0.next_task_id;
        let caller_pid = k0.thread_of(caller).pid;
        let child_pid = if f.spec_contains(CLONE_THREAD) {
            caller_pid
        } else {
            tid
        };
        let nt = self.thread_of(tid);
        &&& tid != caller && !k0.has_thread(tid)
        &&& self.has_thread(tid)
        &&& nt.tid == tid && nt.pid == child_pid && nt.state == TaskState::Ready
        &&& nt.ctx == spec_child_ctx(k0.thread_of(caller).ctx, a)
        &&& nt.data.clear_child_tid == if f.spec_contains(CLONE_CHILD_CLEARTID) {
            a.child_tid
        } else {
            0
        }
        &&& nt.data.signal == self.proc_of(child_pid).data.signal
        &&& self.thread_of(caller) == (Thread {
            state: if f.spec_contains(CLONE_VFORK) {
                TaskState::BlockedVfork { child: tid }
            } else {
                TaskState::Ready
            },
            ..k0.thread_of(caller)
        })
        &&& forall|q: Pid| q != tid ==> self.has_thread(q) == k0.has_thread(q)
        &&& forall|q: Pid|
            q != tid && q != caller && k0.has_thread(q) ==> self.thread_of(q) == k0.thread_of(q)
    }

    /// Success guarantees of `clone`, registry-and-counter part.
    pub open spec fn clone_ok_registry(self, k0: Kernel, caller: Pid, a: CloneArgs) -> bool {
        let f = CloneFlags::spec_from_raw(a.flags);
        let tid = k0.next_task_id;
        let child_pid = if f.spec_contains(CLONE_THREAD) {
            k0.thread_of(caller).pid
        } else {
            tid
        };
        &&& self.registered_thread(tid)
        &&& self.registered_proc(child_pid)
        &&& self.groups@ == k0.groups@
        &&& self.sessions@ == k0.sessions@
        &&& self.next_task_id == k0.next_task_id + 1
        &&& self.next_handle >= k0.next_handle
    }

    /// Success guarantees of `clone`, process-record part: on the thread
    /// path nothing; on the process path the new process under the
    /// chosen parent, every share-vs-copy decision, and every other
    /// process untouched.
    pub open spec fn clone_ok_process(self, k0: Kernel, caller: Pid, a: CloneArgs) -> bool {
        let f = CloneFlags::spec_from_raw(a.flags);
        let tid = k0.next_task_id;
        let caller_pid = k0.thread_of(caller).pid;
        let cp = k0.proc_of(caller_pid);
        let parent_space = cp.data.aspace;
        &&& f.spec_contains(CLONE_THREAD) ==> self.processes@ == k0.processes@
        &&& !f.spec_contains(CLONE_THREAD) ==> ({
            let pp_pid = if f.spec_contains(CLONE_PARENT) {
                cp.parent->0
            } else {
                caller_pid
            };
            let pp = k0.proc_of(pp_pid);
            let np = self.proc_of(tid);
            &&& !k0.has_proc(tid)
            &&& self.has_proc(tid)
            &&& np.pid == tid
            &&& np.parent == Some(pp_pid)
            &&& np.pgid == pp.pgid
            &&& !np.exited && !np.group_exited
            &&& np.data.exe_path == pp.data.exe_path
            &&& np.data.heap_bottom == pp.data.heap_bottom
            &&& np.data.heap_top == pp.data.heap_top
            &&& np.data.cred == pp.data.cred
            &&& np.data.exit_signal == spec_child_exit_signal(a.flags)
            &&& np.data.vfork_completion == if f.spec_contains(CLONE_VFORK) {
                Some(caller)
            } else {
                None::<Pid>
            }
            &&& np.data.signal >= k0.next_handle
            &&& np.data.futex_table >= k0.next_handle
            &&& np.data.futex_table != np.data.signal
            &&& if f.spec_contains(CLONE_VM) {
                np.data.aspace == parent_space
            } else {
                np.data.aspace >= k0.next_handle && self.aspace_of(np.data.aspace).kernel_mapped
            }
            &&& if f.spec_contains(CLONE_SIGHAND) {
                np.data.signal_actions == pp.data.signal_actions
            } else {
                np.data.signal_actions >= k0.next_handle
            }
            &&& if f.spec_contains(CLONE_FILES) {
                np.data.fd_table == cp.data.fd_table
            } else {
                np.data.fd_table >= k0.next_handle
            }
            &&& if f.spec_contains(CLONE_FS) {
                np.data.cwd == cp.data.cwd
            } else {
                np.data.cwd >= k0.next_handle
            }
            &&& forall|q: Pid| q != tid ==> self.has_proc(q) == k0.has_proc(q)
            &&& forall|q: Pid|
                q != tid && k0.has_proc(q) ==> self.proc_of(q) == k0.proc_of(q)
        })
    }

    /// Success guarantees of `clone`, user-memory part: the tid words
    /// written, and nothing else in any address space moved.
    pub open spec fn clone_ok_memory(self, k0: Kernel, caller: Pid, a: CloneArgs) -> bool {
        let f = CloneFlags::spec_from_raw(a.flags);
        let tid = k0.next_task_id;
        let caller_pid = k0.thread_of(caller).pid;
        let cp = k0.proc_of(caller_pid);
        let parent_space = cp.data.aspace;
        let child_pid = if f.spec_contains(CLONE_THREAD) {
            caller_pid
        } else {
            tid
        };
        let child_space = self.proc_of(child_pid).data.aspace;
        &&& f.spec_contains(CLONE_PARENT_SETTID) ==> self.aspace_of(parent_space).spec_word(
            a.parent_tid,
        ) == tid
        &&& f.spec_contains(CLONE_CHILD_SETTID) ==> self.aspace_of(child_space).spec_word(
            a.child_tid,
        ) == tid
        &&& forall|h: u64| k0.has_aspace(h) ==> self.has_aspace(h)
        &&& forall|h: u64|
            h != parent_space && h != child_space && k0.has_aspace(h) ==> self.aspace_of(h)
                == k0.aspace_of(h)
        &&& forall|x: usize|
            self.aspace_of(parent_space).spec_has_word(x) == k0.aspace_of(
                parent_space,
            ).spec_has_word(x)
        &&& forall|x: usize|
            (x != a.parent_tid || !f.spec_contains(CLONE_PARENT_SETTID)) && (x != a.child_tid
                || !f.spec_contains(CLONE_CHILD_SETTID) || child_space != parent_space)
                && k0.aspace_of(parent_space).spec_has_word(x) ==> self.aspace_of(
                parent_space,
            ).spec_word(x) == k0.aspace_of(parent_space).spec_word(x)
        &&& (!f.spec_contains(CLONE_THREAD) && !f.spec_contains(CLONE_VM)) ==> ({
            &&& forall|x: usize|
                self.aspace_of(child_space).spec_has_word(x) == k0.aspace_of(
                    parent_space,
                ).spec_has_word(x)
            &&& forall|x: usize|
                (x != a.child_tid || !f.spec_contains(CLONE_CHILD_SETTID)) && (x != a.parent_tid
                    || !f.spec_contains(CLONE_PARENT_SETTID)) && k0.aspace_of(
                    parent_space,
                ).spec_has_word(x) ==> self.aspace_of(child_space).spec_word(x) == k0.aspace_of(
                    parent_space,
                ).spec_word(x)
            &&& (f.spec_contains(CLONE_PARENT_SETTID) && (a.parent_tid != a.child_tid
                || !f.spec_contains(CLONE_CHILD_SETTID)) && k0.aspace_of(
                parent_space,
            ).spec_has_word(a.parent_tid)) ==> self.aspace_of(child_space).spec_word(a.parent_tid)
                == tid
        })
    }

    /// What `clone` guarantees of the state after a successful request.
    pub open spec fn clone_ok_post(self, k0: Kernel, caller: Pid, a: CloneArgs) -> bool {
        &&& self.clone_ok_threads(k0, caller, a)
        &&& self.clone_ok_registry(k0, caller, a)
        &&& self.clone_ok_process(k0, caller, a)
        &&& self.clone_ok_memory(k0, caller, a)
    }

    /// Finish a clone on the thread path: the new task joins the
    /// caller's process, sharing its address space directly.
    #[verifier::rlimit(100)]
    #[verifier::spinoff_prover]
    fn clone_finish_thread(
        &mut self,
        k0: Ghost<Kernel>,
        caller: Pid,
        a: CloneArgs,
        tid: Pid,
        caller_pid: Pid,
        parent_space_id: u64,
    ) -> (r: Pid)
        requires
            old(self).wf(),
            k0@.wf(),
            k0@.caller_ok(caller),
            old(self).clone_prefix_rel(k0@, caller, a, tid),
            caller_pid == k0@.thread_of(caller).pid,
            parent_space_id == k0@.proc_of(caller_pid).data.aspace,
            CloneFlags::spec_from_raw(a.flags).spec_contains(CLONE_THREAD),
            CloneFlags::spec_from_raw(a.flags).spec_contains(CLONE_CHILD_SETTID) ==> k0@.aspace_of(
                parent_space_id,
            ).spec_has_word(a.child_tid),
        ensures
            final(self).wf(),
            r == tid,
            final(self).clone_ok_threads(k0@, caller, a),
            final(self).clone_ok_registry(k0@, caller, a),
            final(self).clone_ok_process(k0@, caller, a),
            final(self).clone_ok_memory(k0@, caller, a),
    {
        let f = CloneFlags::from_raw(a.flags);
        proof {
            k0@.lemma_counter_fresh();
            assert(k0@.thread_wf(k0@.thread_of(caller))) by {
                let i = crate::table::key_idx(k0@.threads@, caller as u64);
                assert(k0@.threads@[i] == k0@.thread_of(caller));
                assert(k0@.thread_wf(k0@.threads@[i]));
            }
            assert(caller < tid);
            assert(self.has_proc(caller_pid)) by {
                assert(k0@.has_proc(caller_pid));
            }
        }
        let ci = match self.find_thread(caller) {
            Some(i) => i,
            None => {
                proof {
                    assert(false);
                }
                0
            },
        };
        let caller_ctx = self.threads[ci].ctx;
        if f.contains(CLONE_CHILD_SETTID) {
            let ok = self.write_aspace_word(parent_space_id, a.child_tid, tid);
            proof {
                assert(ok);
            }
        }
        let ghost s1 = *self;
        let cj = match self.find_process(caller_pid) {
            Some(j) => j,
            None => {
                proof {
                    assert(false);
                }
                0
            },
        };
        let signal = self.processes[cj].data.signal;
        let child_ctx = Context {
            ip: caller_ctx.ip,
            sp: if a.stack != 0 {
                a.stack
            } else {
                caller_ctx.sp
            },
            tls: if f.contains(CLONE_SETTLS) {
                a.tls
            } else {
                caller_ctx.tls
            },
            retval: 0,
        };
        let clear_tid: usize = if f.contains(CLONE_CHILD_CLEARTID) {
            a.child_tid
        } else {
            0
        };
        let t = Thread {
            tid,
            pid: caller_pid,
            state: TaskState::Ready,
            ctx: child_ctx,
            data: ThreadData { clear_child_tid: clear_tid, signal },
        };
        proof {
            assert(!self.has_thread(tid));
            assert(self.thread_wf(t));
        }
        self.push_thread(t);
        let ghost s2 = *self;
        proof {
            assert(caller != tid);
            assert(self.has_thread(caller));
            assert(self.thread_of(caller) == k0@.thread_of(caller));
        }
        self.add_thread_to_table(tid);
        let ghost s3 = *self;
        proof {
            assert(self.has_thread(caller));
            assert(self.thread_of(caller) == k0@.thread_of(caller));
        }
        if f.contains(CLONE_VFORK) {
            self.update_thread(caller, ThreadUpdate::State(TaskState::BlockedVfork { child: tid }));
            proof {
                assert(self.thread_of(caller) == (Thread {
                    state: TaskState::BlockedVfork { child: tid },
                    ..k0@.thread_of(caller)
                }));
            }
        } else {
            proof {
                assert(k0@.thread_of(caller).state == TaskState::Ready);
                assert(self.thread_of(caller) == (Thread {
                    state: TaskState::Ready,
                    ..k0@.thread_of(caller)
                }));
            }
        }
        proof {
            assert forall|q: Pid| q != tid implies self.has_thread(q) == k0@.has_thread(q) by {
                assert(s1.has_thread(q) == k0@.has_thread(q));
                assert(s2.has_thread(q) == s1.has_thread(q));
                assert(s3.has_thread(q) == s2.has_thread(q));
                assert(self.has_thread(q) == s3.has_thread(q));
            }
            assert forall|q: Pid|
                q != tid && q != caller && k0@.has_thread(q) implies self.thread_of(q)
                == k0@.thread_of(q) by {
                assert(s1.has_thread(q) && s1.thread_of(q) == k0@.thread_of(q));
                assert(s2.thread_of(q) == s1.thread_of(q));
                assert(s3.thread_of(q) == s2.thread_of(q));
                assert(self.thread_of(q) == s3.thread_of(q));
            }
            assert(self.thread_of(tid) == t) by {
                assert(s2.thread_of(tid) == t);
                assert(s3.thread_of(tid) == s2.thread_of(tid));
                assert(self.thread_of(tid) == s3.thread_of(tid));
            }
            assert forall|h: u64| k0@.has_aspace(h) implies self.has_aspace(h) by {
                assert(s1.has_aspace(h) == k0@.has_aspace(h));
            }
            assert forall|h: u64|
                h != parent_space_id && k0@.has_aspace(h) implies self.aspace_of(h)
                == k0@.aspace_of(h) by {
                assert(s1.has_aspace(h));
                assert(s1.aspace_of(h) == k0@.aspace_of(h));
            }
            assert forall|x: usize|
                self.aspace_of(parent_space_id).spec_has_word(x) == k0@.aspace_of(
                    parent_space_id,
                ).spec_has_word(x) by {
                assert(s1.aspace_of(parent_space_id).spec_has_word(x) == k0@.aspace_of(
                    parent_space_id,
                ).spec_has_word(x));
            }
            let fl = CloneFlags::spec_from_raw(a.flags);
            assert forall|x: usize|
                (x != a.parent_tid || !fl.spec_contains(CLONE_PARENT_SETTID)) && (x != a.child_tid
                    || !fl.spec_contains(CLONE_CHILD_SETTID)) && k0@.aspace_of(
                    parent_space_id,
                ).spec_has_word(x) implies self.aspace_of(parent_space_id).spec_word(x)
                == k0@.aspace_of(parent_space_id).spec_word(x) by {
                assert(s1.aspace_of(parent_space_id).spec_word(x) == k0@.aspace_of(
                    parent_space_id,
                ).spec_word(x));
            }
            assert(self.proc_of(caller_pid) == k0@.proc_of(caller_pid));
            if fl.spec_contains(CLONE_PARENT_SETTID) {
                assert(s1.aspace_of(parent_space_id).spec_word(a.parent_tid) == tid) by {
                    if fl.spec_contains(CLONE_CHILD_SETTID) && a.child_tid == a.parent_tid {
                    } else {
                    }
                }
                assert(self.aspace_of(parent_space_id).spec_word(a.parent_tid) == tid);
            }
            if fl.spec_contains(CLONE_CHILD_SETTID) {
                assert(s1.aspace_of(parent_space_id).spec_word(a.child_tid) == tid);
                assert(self.aspace_of(parent_space_id).spec_word(a.child_tid) == tid);
            }
        }
        tid
    }

    /// Build the child's address space on the process path: share the
    /// caller's under `CLONE_VM`, else deep-copy it with the kernel's own
    /// mappings; then write the child-tid word into it if requested.
    #[verifier::rlimit(100)]
    #[verifier::spinoff_prover]
    fn clone_build_child_space(
        &mut self,
        k0: Ghost<Kernel>,
        caller: Pid,
        a: CloneArgs,
        tid: Pid,
        caller_pid: Pid,
        parent_space_id: u64,
    ) -> (r: u64)
        requires
            old(self).wf(),
            k0@.wf(),
            k0@.caller_ok(caller),
            old(self).clone_prefix_rel(k0@, caller, a, tid),
            caller_pid == k0@.thread_of(caller).pid,
            parent_space_id == k0@.proc_of(caller_pid).data.aspace,
            CloneFlags::spec_from_raw(a.flags).spec_contains(CLONE_CHILD_SETTID) ==> k0@.aspace_of(
                parent_space_id,
            ).spec_has_word(a.child_tid),
            old(self).next_handle < crate::kernel::HANDLE_MAX,
        ensures
            final(self).wf(),
            final(self).threads@ == old(self).threads@,
            final(self).processes@ == old(self).processes@,
            final(self).groups@ == old(self).groups@,
            final(self).sessions@ == old(self).sessions@,
            Kernel::same_registry(*final(self), *old(self)),
            final(self).next_task_id == old(self).next_task_id,
            old(self).next_handle <= final(self).next_handle <= old(self).next_handle + 1,
            final(self).has_aspace(r),
            if CloneFlags::spec_from_raw(a.flags).spec_contains(CLONE_VM) {
                r == parent_space_id && final(self).next_handle == old(self).next_handle
            } else {
                r >= k0@.next_handle && !k0@.has_aspace(r) && final(self).aspace_of(
                    r,
                ).kernel_mapped
            },
            forall|h: u64| k0@.has_aspace(h) ==> final(self).has_aspace(h),
            forall|h: u64|
                h != parent_space_id && h != r && k0@.has_aspace(h) ==> final(self).aspace_of(h)
                    == k0@.aspace_of(h),
            forall|x: usize|
                final(self).aspace_of(parent_space_id).spec_has_word(x) == k0@.aspace_of(
                    parent_space_id,
                ).spec_has_word(x),
            CloneFlags::spec_from_raw(a.flags).spec_contains(CLONE_PARENT_SETTID) ==> final(self).aspace_of(parent_space_id).spec_word(a.parent_tid) == tid,
            CloneFlags::spec_from_raw(a.flags).spec_contains(CLONE_CHILD_SETTID) ==> final(self).aspace_of(r).spec_word(a.child_tid) == tid,
            forall|x: usize|
                (x != a.parent_tid || !CloneFlags::spec_from_raw(a.flags).spec_contains(
                    CLONE_PARENT_SETTID,
                )) && (x != a.child_tid || !CloneFlags::spec_from_raw(a.flags).spec_contains(
                    CLONE_CHILD_SETTID,
                ) || r != parent_space_id) && k0@.aspace_of(parent_space_id).spec_has_word(x)
                    ==> final(self).aspace_of(parent_space_id).spec_word(x) == k0@.aspace_of(
                    parent_space_id,
                ).spec_word(x),
            !CloneFlags::spec_from_raw(a.flags).spec_contains(CLONE_VM) ==> ({
                let fl = CloneFlags::spec_from_raw(a.flags);
                &&& forall|x: usize|
                    final(self).aspace_of(r).spec_has_word(x) == k0@.aspace_of(
                        parent_space_id,
                    ).spec_has_word(x)
                &&& forall|x: usize|
                    (x != a.child_tid || !fl.spec_contains(CLONE_CHILD_SETTID)) && (x
                        != a.parent_tid || !fl.spec_contains(CLONE_PARENT_SETTID))
                        && k0@.aspace_of(parent_space_id).spec_has_word(x) ==> final(self).aspace_of(r).spec_word(x) == k0@.aspace_of(parent_space_id).spec_word(x)
                &&& (fl.spec_contains(CLONE_PARENT_SETTID) && (a.parent_tid != a.child_tid
                    || !fl.spec_contains(CLONE_CHILD_SETTID)) && k0@.aspace_of(
                    parent_space_id,
                ).spec_has_word(a.parent_tid)) ==> final(self).aspace_of(r).spec_word(a.parent_tid)
                    == tid
            }),
    {
        let f = CloneFlags::from_raw(a.flags);
        let ghost ps1 = self.aspace_of(parent_space_id);
        proof {
            k0@.lemma_counter_fresh();
        }
        let child_space_id: u64 = if f.contains(CLONE_VM) {
            parent_space_id
        } else {
            let new_id = self.alloc_handle();
            let psi = match self.find_aspace(parent_space_id) {
                Some(i) => i,
                None => {
                    proof {
                        assert(false);
                    }
                    0
                },
            };
            proof {
                assert(self.aspaces@[psi as int].wf());
            }
            let space = self.aspaces[psi].deep_clone(new_id);
            proof {
                assert(!self.has_aspace(new_id)) by {
                    assert(!k0@.has_aspace(new_id));
                }
                assert(space.same_words(ps1));
            }
            self.push_aspace(space);
            new_id
        };

        if f.contains(CLONE_CHILD_SETTID) {
            let ok = self.write_aspace_word(child_space_id, a.child_tid, tid);
            proof {
                assert(ok);
            }
        }
        proof {
            let fl = CloneFlags::spec_from_raw(a.flags);
            let ps0 = k0@.aspace_of(parent_space_id);
            assert forall|x: usize|
                self.aspace_of(parent_space_id).spec_has_word(x) == ps0.spec_has_word(x) by {
                assert(ps1.spec_has_word(x) == ps0.spec_has_word(x));
            }
            assert forall|x: usize|
                (x != a.parent_tid || !fl.spec_contains(CLONE_PARENT_SETTID)) && (x != a.child_tid
                    || !fl.spec_contains(CLONE_CHILD_SETTID) || child_space_id != parent_space_id)
                    && ps0.spec_has_word(x) implies self.aspace_of(parent_space_id).spec_word(x)
                == ps0.spec_word(x) by {
                assert(ps1.spec_has_word(x));
                assert(ps1.spec_word(x) == ps0.spec_word(x));
            }
            if fl.spec_contains(CLONE_PARENT_SETTID) {
                assert(self.aspace_of(parent_space_id).spec_word(a.parent_tid) == tid) by {
                    if fl.spec_contains(CLONE_CHILD_SETTID) && child_space_id == parent_space_id
                        && a.child_tid == a.parent_tid {
                    } else {
                    }
                }
            }
            if !fl.spec_contains(CLONE_VM) {
                let fin_cs = self.aspace_of(child_space_id);
                assert forall|x: usize| fin_cs.spec_has_word(x) == ps0.spec_has_word(x) by {
                    assert(ps1.spec_has_word(x) == ps0.spec_has_word(x));
                }
                assert forall|x: usize|
                    (x != a.child_tid || !fl.spec_contains(CLONE_CHILD_SETTID)) && (x
                        != a.parent_tid || !fl.spec_contains(CLONE_PARENT_SETTID))
                        && ps0.spec_has_word(x) implies fin_cs.spec_word(x) == ps0.spec_word(
                    x,
                ) by {
                    assert(ps1.spec_has_word(x) == ps0.spec_has_word(x));
                    assert(ps1.spec_word(x) == ps0.spec_word(x));
                }
                if fl.spec_contains(CLONE_PARENT_SETTID) && (a.parent_tid != a.child_tid
                    || !fl.spec_contains(CLONE_CHILD_SETTID)) && ps0.spec_has_word(a.parent_tid) {
                    assert(ps1.spec_word(a.parent_tid) == tid);
                    assert(ps1.spec_has_word(a.parent_tid));
                    assert(fin_cs.spec_word(a.parent_tid) == tid);
                }
            }
        }
        child_space_id
    }

    /// Finish a clone on the process path: build the child process under
    /// the chosen parent, decide each share-vs-copy, and wire up its
    /// first thread.
    #[verifier::rlimit(100)]
    #[verifier::spinoff_prover]
    fn clone_finish_process(
        &mut self,
        k0: Ghost<Kernel>,
        caller: Pid,
        a: CloneArgs,
        tid: Pid,
        caller_pid: Pid,
        parent_space_id: u64,
        pp_pid: Pid,
    ) -> (r: Pid)
        requires
            old(self).wf(),
            k0@.wf(),
            k0@.caller_ok(caller),
            old(self).clone_prefix_rel(k0@, caller, a, tid),
            caller_pid == k0@.thread_of(caller).pid,
            parent_space_id == k0@.proc_of(caller_pid).data.aspace,
            !CloneFlags::spec_from_raw(a.flags).spec_contains(CLONE_THREAD),
            CloneFlags::spec_from_raw(a.flags).spec_contains(CLONE_CHILD_SETTID) ==> k0@.aspace_of(
                parent_space_id,
            ).spec_has_word(a.child_tid),
            pp_pid == if CloneFlags::spec_from_raw(a.flags).spec_contains(CLONE_PARENT) {
                k0@.proc_of(caller_pid).parent->0
            } else {
                caller_pid
            },
            k0@.has_proc(pp_pid),
            old(self).next_handle + 5 < crate::kernel::HANDLE_MAX,
        ensures
            final(self).wf(),
            r == tid,
            final(self).clone_ok_threads(k0@, caller, a),
            final(self).clone_ok_registry(k0@, caller, a),
            final(self).clone_ok_process(k0@, caller, a),
            final(self).clone_ok_memory(k0@, caller, a),
    {
        let f = CloneFlags::from_raw(a.flags);
        let sig_byte = exit_signal_byte(a.flags);
        let exit_signal = Signo::from_repr(sig_byte as u8);
        proof {
            assert(sig_byte as u8 == spec_exit_signal_byte(a.flags) as u8);
            assert(exit_signal == spec_child_exit_signal(a.flags));
            k0@.lemma_counter_fresh();
            assert(k0@.thread_wf(k0@.thread_of(caller))) by {
                let i = crate::table::key_idx(k0@.threads@, caller as u64);
                assert(k0@.threads@[i] == k0@.thread_of(caller));
                assert(k0@.thread_wf(k0@.threads@[i]));
            }
            assert(caller < tid);
            assert(self.has_proc(caller_pid)) by {
                assert(k0@.has_proc(caller_pid));
            }
            assert(self.has_proc(pp_pid)) by {
                assert(k0@.has_proc(pp_pid));
            }
        }
        let ci = match self.find_thread(caller) {
            Some(i) => i,
            None => {
                proof {
                    assert(false);
                }
                0
            },
        };
        let caller_ctx = self.threads[ci].ctx;

        let child_space_id = self.clone_build_child_space(
            k0,
            caller,
            a,
            tid,
            caller_pid,
            parent_space_id,
        );
        let ghost sa = *self;

        let signal_new = self.alloc_handle();
        let futex_new = self.alloc_handle();
        let pj = match self.find_process(pp_pid) {
            Some(j) => j,
            None => {
                proof {
                    assert(false);
                }
                0
            },
        };
        proof {
            assert(self.proc_wf(self.processes@[pj as int]));
        }
        let actions: u64 = if f.contains(CLONE_SIGHAND) {
            self.processes[pj].data.signal_actions
        } else {
            self.alloc_handle()
        };
        let cjx = match self.find_process(caller_pid) {
            Some(j) => j,
            None => {
                proof {
                    assert(false);
                }
                0
            },
        };
        proof {
            assert(self.proc_wf(self.processes@[cjx as int]));
        }
        let fd: u64 = if f.contains(CLONE_FILES) {
            self.processes[cjx].data.fd_table
        } else {
            self.alloc_handle()
        };
        let cjy = match self.find_process(caller_pid) {
            Some(j) => j,
            None => {
                proof {
                    assert(false);
                }
                0
            },
        };
        let cwd: u64 = if f.contains(CLONE_FS) {
            self.processes[cjy].data.cwd
        } else {
            self.alloc_handle()
        };

        let pj2 = match self.find_process(pp_pid) {
            Some(j) => j,
            None => {
                proof {
                    assert(false);
                }
                0
            },
        };
        proof {
            assert(self.proc_wf(self.processes@[pj2 as int]));
        }
        let pgid = self.processes[pj2].pgid;
        let mut data = ProcessData::fork_from(
            &self.processes[pj2].data,
            child_space_id,
            actions,
            exit_signal,
            FreshHandles { signal: signal_new, futex_table: futex_new },
            fd,
            cwd,
        );
        if f.contains(CLONE_VFORK) {
            data.vfork_completion = Some(caller);
        }
        let mut tdata = ThreadData::new(&data);
        if f.contains(CLONE_CHILD_CLEARTID) {
            tdata.set_clear_child_tid(a.child_tid);
        }
        let np = Process {
            pid: tid,
            parent: Some(pp_pid),
            pgid,
            exited: false,
            group_exited: false,
            exit_code: 0,
            data,
        };
        proof {
            assert(!self.has_proc(tid)) by {
                assert(!k0@.has_proc(tid));
            }
            assert(self.proc_wf(np));
        }
        self.push_process(np);
        let ghost sb = *self;
        let child_ctx = Context {
            ip: caller_ctx.ip,
            sp: if a.stack != 0 {
                a.stack
            } else {
                caller_ctx.sp
            },
            tls: if f.contains(CLONE_SETTLS) {
                a.tls
            } else {
                caller_ctx.tls
            },
            retval: 0,
        };
        let t = Thread { tid, pid: tid, state: TaskState::Ready, ctx: child_ctx, data: tdata };
        proof {
            assert(!self.has_thread(tid)) by {
                assert(!k0@.has_thread(tid));
            }
            assert(self.thread_wf(t));
        }
        self.push_thread(t);
        let ghost sc = *self;
        proof {
            assert(caller != tid);
            assert(self.has_thread(caller));
            assert(self.thread_of(caller) == k0@.thread_of(caller));
        }
        self.add_thread_to_table(tid);
        let ghost sd = *self;
        proof {
            assert(self.has_thread(caller));
            assert(self.thread_of(caller) == k0@.thread_of(caller));
        }
        if f.contains(CLONE_VFORK) {
            self.update_thread(caller, ThreadUpdate::State(TaskState::BlockedVfork { child: tid }));
            proof {
                assert(self.thread_of(caller) == (Thread {
                    state: TaskState::BlockedVfork { child: tid },
                    ..k0@.thread_of(caller)
                }));
            }
        } else {
            proof {
                assert(k0@.thread_of(caller).state == TaskState::Ready);
                assert(self.thread_of(caller) == (Thread {
                    state: TaskState::Ready,
                    ..k0@.thread_of(caller)
                }));
            }
        }
        proof {
            let fl = CloneFlags::spec_from_raw(a.flags);
            assert forall|q: Pid| q != tid implies self.has_thread(q) == k0@.has_thread(q) by {
                assert(sc.has_thread(q) == k0@.has_thread(q));
                assert(sd.has_thread(q) == sc.has_thread(q));
                assert(self.has_thread(q) == sd.has_thread(q));
            }
            assert forall|q: Pid|
                q != tid && q != caller && k0@.has_thread(q) implies self.thread_of(q)
                == k0@.thread_of(q) by {
                assert(sc.has_thread(q) && sc.thread_of(q) == k0@.thread_of(q));
                assert(sd.thread_of(q) == sc.thread_of(q));
                assert(self.thread_of(q) == sd.thread_of(q));
            }
            assert(self.thread_of(tid) == t) by {
                assert(sc.thread_of(tid) == t);
                assert(sd.thread_of(tid) == sc.thread_of(tid));
                assert(self.thread_of(tid) == sd.thread_of(tid));
            }
            assert forall|q: Pid| q != tid implies self.has_proc(q) == k0@.has_proc(q) by {
                assert(sb.has_proc(q) == k0@.has_proc(q));
                assert(self.has_proc(q) == sb.has_proc(q));
            }
            assert forall|q: Pid|
                q != tid && k0@.has_proc(q) implies self.proc_of(q) == k0@.proc_of(q) by {
                assert(sb.has_proc(q) && sb.proc_of(q) == k0@.proc_of(q));
                assert(self.proc_of(q) == sb.proc_of(q));
            }
            assert(self.has_proc(tid) && self.proc_of(tid) == np) by {
                assert(sb.has_proc(tid) && sb.proc_of(tid) == np);
                assert(self.proc_of(tid) == sb.proc_of(tid));
            }
            assert forall|h: u64| k0@.has_aspace(h) implies self.has_aspace(h) by {
                assert(sa.has_aspace(h));
                assert(self.has_aspace(h) == sa.has_aspace(h));
            }
            assert forall|h: u64|
                h != parent_space_id && h != child_space_id && k0@.has_aspace(h)
                implies self.aspace_of(h) == k0@.aspace_of(h) by {
                assert(sa.aspace_of(h) == k0@.aspace_of(h));
                assert(self.aspace_of(h) == sa.aspace_of(h));
            }
            assert forall|x: usize|
                self.aspace_of(parent_space_id).spec_has_word(x) == k0@.aspace_of(
                    parent_space_id,
                ).spec_has_word(x) by {
                assert(sa.aspace_of(parent_space_id).spec_has_word(x) == k0@.aspace_of(
                    parent_space_id,
                ).spec_has_word(x));
                assert(self.aspace_of(parent_space_id).spec_has_word(x) == sa.aspace_of(
                    parent_space_id,
                ).spec_has_word(x));
            }
            assert forall|x: usize|
                (x != a.parent_tid || !fl.spec_contains(CLONE_PARENT_SETTID)) && (x != a.child_tid
                    || !fl.spec_contains(CLONE_CHILD_SETTID) || child_space_id != parent_space_id)
                    && k0@.aspace_of(parent_space_id).spec_has_word(x) implies self.aspace_of(
                parent_space_id,
            ).spec_word(x) == k0@.aspace_of(parent_space_id).spec_word(x) by {
                assert(sa.aspace_of(parent_space_id).spec_word(x) == k0@.aspace_of(
                    parent_space_id,
                ).spec_word(x));
                assert(self.aspace_of(parent_space_id).spec_word(x) == sa.aspace_of(
                    parent_space_id,
                ).spec_word(x));
            }
            if fl.spec_contains(CLONE_PARENT_SETTID) {
                assert(sa.aspace_of(parent_space_id).spec_word(a.parent_tid) == tid);
                assert(self.aspace_of(parent_space_id).spec_word(a.parent_tid) == tid);
            }
            if fl.spec_contains(CLONE_CHILD_SETTID) {
                assert(sa.aspace_of(child_space_id).spec_word(a.child_tid) == tid);
                assert(self.aspace_of(child_space_id).spec_word(a.child_tid) == tid);
            }
            if !fl.spec_contains(CLONE_VM) {
                let ps0 = k0@.aspace_of(parent_space_id);
                let fin_cs = self.aspace_of(child_space_id);
                assert(fin_cs == sa.aspace_of(child_space_id));
                assert forall|x: usize| fin_cs.spec_has_word(x) == ps0.spec_has_word(x) by {
                    assert(sa.aspace_of(child_space_id).spec_has_word(x) == ps0.spec_has_word(x));
                }
                assert forall|x: usize|
                    (x != a.child_tid || !fl.spec_contains(CLONE_CHILD_SETTID)) && (x
                        != a.parent_tid || !fl.spec_contains(CLONE_PARENT_SETTID))
                        && ps0.spec_has_word(x) implies fin_cs.spec_word(x) == ps0.spec_word(
                    x,
                ) by {
                    assert(sa.aspace_of(child_space_id).spec_word(x) == ps0.spec_word(x));
                }
            }
        }
        tid
    }


    /// The `clone` orchestrator.
    ///
    /// Validates the flag word, writes the requested tid words, decides
    /// thread-vs-process creation and per-resource share-vs-copy, wires
    /// up the new task as schedulable, registers it, and — for `vfork` —
    /// suspends the caller until the child releases it.
    ///
    /// Failures mirror the checking order: impossible flag combinations
    /// are rejected before anything is created; an unmapped child-tid
    /// address is rejected next, still with nothing created; an unmapped
    /// parent-tid address is found only after the new task id has been
    /// taken; and a missing parent under `CLONE_PARENT` is found after
    /// the parent-tid word has already been written.
    pub fn sys_clone(&mut self, caller: Pid, a: CloneArgs) -> (r: Result<Pid, LinuxError>)
        requires
            old(self).wf(),
            old(self).caller_ok(caller),
            old(self).next_task_id < crate::kernel::PID_MAX,
            old(self).next_handle + 6 < crate::kernel::HANDLE_MAX,
        ensures
            final(self).wf(),
            r == Err::<Pid, LinuxError>(LinuxError::EINVAL) <==> (clone_flag_error(a.flags) || (
            !clone_ctid_fault(*old(self), caller, a) && !clone_ptid_fault(*old(self), caller, a)
                && clone_parent_missing(*old(self), caller, a.flags))),
            r == Err::<Pid, LinuxError>(LinuxError::EFAULT) <==> (!clone_flag_error(a.flags) && (
            clone_ctid_fault(*old(self), caller, a) || clone_ptid_fault(*old(self), caller, a))),
            r is Ok ==> r == Ok::<Pid, LinuxError>(old(self).next_task_id),
            r is Ok <==> !(clone_flag_error(a.flags) || clone_ctid_fault(*old(self), caller, a)
                || clone_ptid_fault(*old(self), caller, a) || clone_parent_missing(
                *old(self),
                caller,
                a.flags,
            )),
            clone_flag_error(a.flags) ==> *final(self) == *old(self),
            !clone_flag_error(a.flags) && clone_ctid_fault(*old(self), caller, a) ==> *final(self)
                == *old(self),
            (!clone_flag_error(a.flags) && !clone_ctid_fault(*old(self), caller, a)
                && clone_ptid_fault(*old(self), caller, a)) ==> (Kernel::same_records(
                *final(self),
                *old(self),
            ) && Kernel::same_registry(*final(self), *old(self)) && final(self).next_handle == old(self).next_handle && final(self).next_task_id == old(self).next_task_id + 1),
            (!clone_flag_error(a.flags) && !clone_ctid_fault(*old(self), caller, a)
                && !clone_ptid_fault(*old(self), caller, a) && clone_parent_missing(
                *old(self),
                caller,
                a.flags,
            )) ==> final(self).clone_prefix_rel(*old(self), caller, a, old(self).next_task_id),
            r is Ok ==> final(self).clone_ok_post(*old(self), caller, a),
    {
        let raw = a.flags;
        let sig_byte = exit_signal_byte(raw);
        let f = CloneFlags::from_raw(raw);
        if sig_byte != 0 && f.contains(CLONE_THREAD | CLONE_PARENT) {
            return Err(LinuxError::EINVAL);
        }
        if f.contains(CLONE_THREAD) && !f.contains(CLONE_VM | CLONE_SIGHAND) {
            return Err(LinuxError::EINVAL);
        }
        proof {
            assert(!clone_flag_error(raw));
        }

        let ci = match self.find_thread(caller) {
            Some(i) => i,
            None => {
                proof {
                    assert(false);
                }
                0
            },
        };
        let caller_pid = self.threads[ci].pid;
        proof {
            assert(self.thread_wf(self.threads@[ci as int]));
        }
        let cj = match self.find_process(caller_pid) {
            Some(j) => j,
            None => {
                proof {
                    assert(false);
                }
                0
            },
        };
        let parent_space_id = self.processes[cj].data.aspace;
        proof {
            assert(self.proc_wf(self.processes@[cj as int]));
        }

        if f.contains(CLONE_CHILD_SETTID) {
            let psi = match self.find_aspace(parent_space_id) {
                Some(i) => i,
                None => {
                    proof {
                        assert(false);
                    }
                    0
                },
            };
            if !self.aspaces[psi].has_word(a.child_tid) {
                proof {
                    assert(clone_ctid_fault(*old(self), caller, a));
                }
                return Err(LinuxError::EFAULT);
            }
        }
        proof {
            assert(!clone_ctid_fault(*old(self), caller, a));
        }

        let tid = self.alloc_tid();

        if f.contains(CLONE_PARENT_SETTID) {
            let ok = self.write_aspace_word(parent_space_id, a.parent_tid, tid);
            if !ok {
                proof {
                    assert(clone_ptid_fault(*old(self), caller, a));
                }
                return Err(LinuxError::EFAULT);
            }
        }
        proof {
            assert(!clone_ptid_fault(*old(self), caller, a));
            assert(self.clone_prefix_rel(*old(self), caller, a, tid));
        }

        let pp_pid: Pid = if f.contains(CLONE_THREAD) {
            caller_pid
        } else if f.contains(CLONE_PARENT) {
            let cj2 = match self.find_process(caller_pid) {
                Some(j) => j,
                None => {
                    proof {
                        assert(false);
                    }
                    0
                },
            };
            match self.processes[cj2].parent {
                Some(pp) => {
                    match self.find_process(pp) {
                        Some(_) => pp,
                        None => {
                            proof {
                                assert(clone_parent_missing(*old(self), caller, a.flags));
                            }
                            return Err(LinuxError::EINVAL);
                        },
                    }
                },
                None => {
                    proof {
                        assert(clone_parent_missing(*old(self), caller, a.flags));
                    }
                    return Err(LinuxError::EINVAL);
                },
            }
        } else {
            caller_pid
        };
        proof {
            assert(!clone_parent_missing(*old(self), caller, a.flags));
            assert(old(self).has_proc(pp_pid));
        }

        let r = if f.contains(CLONE_THREAD) {
            self.clone_finish_thread(
                Ghost(*old(self)),
                caller,
                a,
                tid,
                caller_pid,
                parent_space_id,
            )
        } else {
            self.clone_finish_process(
                Ghost(*old(self)),
                caller,
                a,
                tid,
                caller_pid,
                parent_space_id,
                pp_pid,
            )
        };
        Ok(r)
    }
}

} // verus!
