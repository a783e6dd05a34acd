//! Per-caller operations on the kernel state: heap bounds, credentials,
//! the clear-child-tid word, user-memory words, yield and pause.
//!
//! Each operation is made by a schedulable thread ("the caller") and
//! touches only that thread's record or its process's resources; the
//! contracts say exactly which record changes and that every other record
//! stays as it was. The three `update_*` helpers carry the one
//! well-formedness argument all mutators share.

use vstd::prelude::*;

use crate::error::LinuxError;
use crate::kernel::Kernel;
use crate::table::{key_idx, lemma_update_same_key};
use crate::task::{Pid, Process, ProcessData, TaskState, Thread, ThreadData};

verus! {

/// A field-level change to a process record.
pub enum ProcUpdate {
    /// Set the heap top.
    HeapTop(usize),
    /// Set the heap bottom.
    HeapBottom(usize),
    /// Replace the executable path.
    ExePath(String),
    /// Consume the vfork-completion slot.
    VforkTake,
    /// Record that the last thread has exited, with the wait status.
    MarkExited(i32),
    /// Record that the whole group has been forced down.
    MarkGroupExited,
}

/// The process record after a field-level change.
pub open spec fn apply_proc_update(u: ProcUpdate, p: Process) -> Process {
    match u {
        ProcUpdate::HeapTop(top) => Process {
            data: ProcessData { heap_top: top, ..p.data },
            ..p
        },
        ProcUpdate::HeapBottom(bottom) => Process {
            data: ProcessData { heap_bottom: bottom, ..p.data },
            ..p
        },
        ProcUpdate::ExePath(path) => Process { data: ProcessData { exe_path: path, ..p.data }, ..p },
        ProcUpdate::VforkTake => Process {
            data: ProcessData { vfork_completion: None, ..p.data },
            ..p
        },
        ProcUpdate::MarkExited(code) => Process { exited: true, exit_code: code, ..p },
        ProcUpdate::MarkGroupExited => Process { group_exited: true, ..p },
    }
}

/// A field-level change to a thread record.
pub enum ThreadUpdate {
    /// Move the thread to a new scheduling state.
    State(TaskState),
    /// Set the clear-child-tid word's address.
    ClearChildTid(usize),
}

/// The thread record after a field-level change.
pub open spec fn apply_thread_update(u: ThreadUpdate, t: Thread) -> Thread {
    match u {
        ThreadUpdate::State(s) => Thread { state: s, ..t },
        ThreadUpdate::ClearChildTid(addr) => Thread {
            data: ThreadData { clear_child_tid: addr, ..t.data },
            ..t
        },
    }
}

impl Kernel {
    /// Apply a field-level change to the record of process `pid`.
    /// Nothing else in the state moves.
    pub(crate) fn update_proc(&mut self, pid: Pid, u: ProcUpdate)
        requires
            old(self).wf(),
            old(self).has_proc(pid),
        ensures
            final(self).wf(),
            final(self).threads@ == old(self).threads@,
            final(self).groups@ == old(self).groups@,
            final(self).sessions@ == old(self).sessions@,
            final(self).aspaces@ == old(self).aspaces@,
            Kernel::same_registry(*final(self), *old(self)),
            final(self).next_task_id == old(self).next_task_id,
            final(self).next_handle == old(self).next_handle,
            final(self).proc_of(pid) == apply_proc_update(u, old(self).proc_of(pid)),
            forall|q: Pid| final(self).has_proc(q) == old(self).has_proc(q),
            forall|q: Pid|
                q != pid && old(self).has_proc(q) ==> final(self).proc_of(q) == old(self).proc_of(
                    q,
                ),
            final(self).processes@ == old(self).processes@.update(
                key_idx(old(self).processes@, pid as u64),
                apply_proc_update(u, old(self).proc_of(pid)),
            ),
    {
        let j = match self.find_process(pid) {
            Some(j) => j,
            None => {
                proof {
                    assert(false);
                }
                0
            },
        };
        let mut p = self.processes.remove(j);
        match u {
            ProcUpdate::HeapTop(top) => {
                p.data.heap_top = top;
            },
            ProcUpdate::HeapBottom(bottom) => {
                p.data.heap_bottom = bottom;
            },
            ProcUpdate::ExePath(path) => {
                p.data.exe_path = path;
            },
            ProcUpdate::VforkTake => {
                p.data.vfork_completion = None;
            },
            ProcUpdate::MarkExited(code) => {
                p.exited = true;
                p.exit_code = code;
            },
            ProcUpdate::MarkGroupExited => {
                p.group_exited = true;
            },
        }
        proof {
            assert(self.processes@.insert(j as int, p) =~= old(self).processes@.update(
                j as int,
                p,
            ));
            lemma_update_same_key(old(self).processes@, j as int, p);
        }
        self.processes.insert(j, p);
        proof {
            let k0 = *old(self);
            let k1 = *self;
            assert forall|i: int|
                0 <= i < k1.threads@.len() implies k1.thread_wf(#[trigger] k1.threads@[i]) by {
                let t = k1.threads@[i];
                assert(k0.thread_wf(t));
                if t.state != TaskState::Exited {
                    if t.pid == pid {
                        assert(k1.proc_of(t.pid) == k1.processes@[j as int]);
                    } else {
                        assert(k1.proc_of(t.pid) == k0.proc_of(t.pid));
                    }
                }
            }
            assert forall|i: int|
                0 <= i < k1.processes@.len() implies k1.proc_wf(#[trigger] k1.processes@[i]) by {
                assert(k0.proc_wf(k0.processes@[i]));
            }
            assert(k1.wf());
        }
    }

    /// Apply a field-level change to the record of thread `tid`.
    /// Nothing else in the state moves.
    pub(crate) fn update_thread(&mut self, tid: Pid, u: ThreadUpdate)
        requires
            old(self).wf(),
            old(self).has_thread(tid),
            u matches ThreadUpdate::State(s) && s != TaskState::Exited ==> old(self).thread_of(
                tid,
            ).state != TaskState::Exited,
        ensures
            final(self).wf(),
            final(self).processes@ == old(self).processes@,
            final(self).groups@ == old(self).groups@,
            final(self).sessions@ == old(self).sessions@,
            final(self).aspaces@ == old(self).aspaces@,
            Kernel::same_registry(*final(self), *old(self)),
            final(self).next_task_id == old(self).next_task_id,
            final(self).next_handle == old(self).next_handle,
            final(self).thread_of(tid) == apply_thread_update(u, old(self).thread_of(tid)),
            forall|q: Pid| final(self).has_thread(q) == old(self).has_thread(q),
            forall|q: Pid|
                q != tid && old(self).has_thread(q) ==> final(self).thread_of(q) == old(self).thread_of(q),
    {
        let i = match self.find_thread(tid) {
            Some(i) => i,
            None => {
                proof {
                    assert(false);
                }
                0
            },
        };
        let mut t = self.threads.remove(i);
        match u {
            ThreadUpdate::State(s) => {
                t.state = s;
            },
            ThreadUpdate::ClearChildTid(addr) => {
                t.data.clear_child_tid = addr;
            },
        }
        proof {
            assert(self.threads@.insert(i as int, t) =~= old(self).threads@.update(i as int, t));
            lemma_update_same_key(old(self).threads@, i as int, t);
        }
        self.threads.insert(i, t);
        proof {
            let k0 = *old(self);
            let k1 = *self;
            assert forall|a: int|
                0 <= a < k1.threads@.len() implies k1.thread_wf(#[trigger] k1.threads@[a]) by {
                let tt = k1.threads@[a];
                if a == i as int {
                    assert(k0.thread_wf(k0.threads@[a]));
                    if tt.state != TaskState::Exited {
                        assert(k0.threads@[a].state != TaskState::Exited);
                    }
                } else {
                    assert(k0.thread_wf(k0.threads@[a]));
                }
            }
            assert forall|a: int|
                0 <= a < k1.processes@.len() implies k1.proc_wf(#[trigger] k1.processes@[a]) by {
                assert(k0.proc_wf(k0.processes@[a]));
            }
            assert(k1.wf());
        }
    }

    /// Write the user word at `addr` in the address space `aspace_id`, if
    /// mapped; report whether it was. Nothing else in the state moves.
    pub(crate) fn write_aspace_word(&mut self, aspace_id: u64, addr: usize, val: u32) -> (ok: bool)
        requires
            old(self).wf(),
            old(self).has_aspace(aspace_id),
        ensures
            final(self).wf(),
            final(self).threads@ == old(self).threads@,
            final(self).processes@ == old(self).processes@,
            final(self).groups@ == old(self).groups@,
            final(self).sessions@ == old(self).sessions@,
            Kernel::same_registry(*final(self), *old(self)),
            final(self).next_task_id == old(self).next_task_id,
            final(self).next_handle == old(self).next_handle,
            ok == old(self).aspace_of(aspace_id).spec_has_word(addr),
            forall|h: u64| final(self).has_aspace(h) == old(self).has_aspace(h),
            forall|h: u64|
                h != aspace_id && old(self).has_aspace(h) ==> final(self).aspace_of(h) == old(self).aspace_of(h),
            final(self).aspace_of(aspace_id).id == aspace_id,
            final(self).aspace_of(aspace_id).kernel_mapped == old(self).aspace_of(
                aspace_id,
            ).kernel_mapped,
            forall|a: usize|
                final(self).aspace_of(aspace_id).spec_has_word(a) == old(self).aspace_of(
                    aspace_id,
                ).spec_has_word(a),
            ok ==> final(self).aspace_of(aspace_id).spec_word(addr) == val,
            forall|a: usize|
                a != addr && old(self).aspace_of(aspace_id).spec_has_word(a) ==> final(self).aspace_of(aspace_id).spec_word(a) == old(self).aspace_of(aspace_id).spec_word(a),
            !ok ==> final(self).aspaces@ == old(self).aspaces@,
    {
        let j = match self.find_aspace(aspace_id) {
            Some(j) => j,
            None => {
                proof {
                    assert(false);
                }
                0
            },
        };
        let mut space = self.aspaces.remove(j);
        let ok = space.write_word(addr, val);
        proof {
            assert(self.aspaces@.insert(j as int, space) =~= old(self).aspaces@.update(
                j as int,
                space,
            ));
            lemma_update_same_key(old(self).aspaces@, j as int, space);
        }
        self.aspaces.insert(j, space);
        proof {
            let k0 = *old(self);
            let k1 = *self;
            assert forall|a: int|
                0 <= a < k1.processes@.len() implies k1.proc_wf(#[trigger] k1.processes@[a]) by {
                assert(k0.proc_wf(k0.processes@[a]));
            }
            assert forall|a: int|
                0 <= a < k1.threads@.len() implies k1.thread_wf(#[trigger] k1.threads@[a]) by {
                assert(k0.thread_wf(k0.threads@[a]));
            }
            assert(k1.wf());
            if !ok {
                assert(k1.aspaces@ =~= k0.aspaces@);
            }
        }
        ok
    }

    /// Map the user word at `addr` in the caller's address space — the
    /// model's seam for the external memory service attaching memory.
    pub fn map_user_word(&mut self, caller: Pid, addr: usize, val: u32)
        requires
            old(self).wf(),
            old(self).caller_ok(caller),
        ensures
            final(self).wf(),
            final(self).threads@ == old(self).threads@,
            final(self).processes@ == old(self).processes@,
            final(self).groups@ == old(self).groups@,
            final(self).sessions@ == old(self).sessions@,
            Kernel::same_registry(*final(self), *old(self)),
            final(self).next_task_id == old(self).next_task_id,
            final(self).next_handle == old(self).next_handle,
            ({
                let id = old(self).proc_of_thread(caller).data.aspace;
                &&& forall|h: u64| final(self).has_aspace(h) == old(self).has_aspace(h)
                &&& forall|h: u64|
                    h != id && old(self).has_aspace(h) ==> final(self).aspace_of(h) == old(self).aspace_of(h)
                &&& final(self).aspace_of(id).id == old(self).aspace_of(id).id
                &&& final(self).aspace_of(id).spec_has_word(addr)
                &&& final(self).aspace_of(id).spec_word(addr) == val
                &&& forall|a: usize|
                    a != addr ==> final(self).aspace_of(id).spec_has_word(a) == old(self).aspace_of(id).spec_has_word(a)
                &&& forall|a: usize|
                    a != addr && old(self).aspace_of(id).spec_has_word(a) ==> final(self).aspace_of(
                        id,
                    ).spec_word(a) == old(self).aspace_of(id).spec_word(a)
            }),
    {
        let jp = self.proc_index_of_caller(caller);
        let id = self.processes[jp].data.aspace;
        proof {
            assert(self.proc_wf(self.processes@[jp as int]));
        }
        let j = match self.find_aspace(id) {
            Some(j) => j,
            None => {
                proof {
                    assert(false);
                }
                0
            },
        };
        let mut space = self.aspaces.remove(j);
        space.map_word(addr, val);
        proof {
            assert(self.aspaces@.insert(j as int, space) =~= old(self).aspaces@.update(
                j as int,
                space,
            ));
            lemma_update_same_key(old(self).aspaces@, j as int, space);
        }
        self.aspaces.insert(j, space);
        proof {
            let k0 = *old(self);
            let k1 = *self;
            assert forall|a: int|
                0 <= a < k1.processes@.len() implies k1.proc_wf(#[trigger] k1.processes@[a]) by {
                assert(k0.proc_wf(k0.processes@[a]));
            }
            assert forall|a: int|
                0 <= a < k1.threads@.len() implies k1.thread_wf(#[trigger] k1.threads@[a]) by {
                assert(k0.thread_wf(k0.threads@[a]));
            }
            assert(k1.wf());
        }
    }

    /// Read the user word at `addr` in the caller's address space.
    pub fn read_user_word(&self, caller: Pid, addr: usize) -> (r: Option<u32>)
        requires
            self.wf(),
            self.caller_ok(caller),
        ensures
            ({
                let space = self.aspace_of(self.proc_of_thread(caller).data.aspace);
                r == if space.spec_has_word(addr) {
                    Some(space.spec_word(addr))
                } else {
                    None::<u32>
                }
            }),
    {
        let jp = self.proc_index_of_caller(caller);
        let id = self.processes[jp].data.aspace;
        proof {
            assert(self.proc_wf(self.processes@[jp as int]));
        }
        let j = match self.find_aspace(id) {
            Some(j) => j,
            None => {
                proof {
                    assert(false);
                }
                0
            },
        };
        proof {
            assert(self.aspaces@[j as int].wf());
        }
        self.aspaces[j].read_word(addr)
    }

    /// The pid of the caller's process.
    pub fn sys_getpid(&self, caller: Pid) -> (r: Pid)
        requires
            self.wf(),
            self.caller_ok(caller),
        ensures
            r == self.thread_of(caller).pid,
    {
        let i = match self.find_thread(caller) {
            Some(i) => i,
            None => {
                proof {
                    assert(false);
                }
                0
            },
        };
        self.threads[i].pid
    }

    /// Index of the caller's process record; a helper for the accessors.
    pub(crate) fn proc_index_of_caller(&self, caller: Pid) -> (r: usize)
        requires
            self.wf(),
            self.caller_ok(caller),
        ensures
            r < self.processes@.len(),
            self.processes@[r as int] == self.proc_of_thread(caller),
            self.has_proc(self.thread_of(caller).pid),
            key_idx(self.processes@, self.thread_of(caller).pid as u64) == r as int,
    {
        let i = match self.find_thread(caller) {
            Some(i) => i,
            None => {
                proof {
                    assert(false);
                }
                0
            },
        };
        let pid = self.threads[i].pid;
        proof {
            assert(self.thread_wf(self.threads@[i as int]));
        }
        match self.find_process(pid) {
            Some(j) => j,
            None => {
                proof {
                    assert(false);
                }
                0
            },
        }
    }

    /// The caller's real user id, copied out of its process credentials.
    pub fn sys_getuid(&self, caller: Pid) -> (r: u32)
        requires
            self.wf(),
            self.caller_ok(caller),
        ensures
            r == self.proc_of_thread(caller).data.cred.uid,
    {
        let j = self.proc_index_of_caller(caller);
        self.processes[j].data.cred.uid
    }

    /// The caller's effective user id.
    pub fn sys_geteuid(&self, caller: Pid) -> (r: u32)
        requires
            self.wf(),
            self.caller_ok(caller),
        ensures
            r == self.proc_of_thread(caller).data.cred.euid,
    {
        let j = self.proc_index_of_caller(caller);
        self.processes[j].data.cred.euid
    }

    /// The caller's real group id.
    pub fn sys_getgid(&self, caller: Pid) -> (r: u32)
        requires
            self.wf(),
            self.caller_ok(caller),
        ensures
            r == self.proc_of_thread(caller).data.cred.gid,
    {
        let j = self.proc_index_of_caller(caller);
        self.processes[j].data.cred.gid
    }

    /// The caller's effective group id.
    pub fn sys_getegid(&self, caller: Pid) -> (r: u32)
        requires
            self.wf(),
            self.caller_ok(caller),
        ensures
            r == self.proc_of_thread(caller).data.cred.egid,
    {
        let j = self.proc_index_of_caller(caller);
        self.processes[j].data.cred.egid
    }

    /// The caller's process heap bottom.
    pub fn get_heap_bottom(&self, caller: Pid) -> (r: usize)
        requires
            self.wf(),
            self.caller_ok(caller),
        ensures
            r == self.proc_of_thread(caller).data.heap_bottom,
    {
        let j = self.proc_index_of_caller(caller);
        self.processes[j].data.get_heap_bottom()
    }

    /// The caller's process heap top.
    pub fn get_heap_top(&self, caller: Pid) -> (r: usize)
        requires
            self.wf(),
            self.caller_ok(caller),
        ensures
            r == self.proc_of_thread(caller).data.heap_top,
    {
        let j = self.proc_index_of_caller(caller);
        self.processes[j].data.get_heap_top()
    }

    /// Set the caller's process heap bottom.
    pub fn set_heap_bottom(&mut self, caller: Pid, bottom: usize)
        requires
            old(self).wf(),
            old(self).caller_ok(caller),
        ensures
            final(self).wf(),
            final(self).threads@ == old(self).threads@,
            final(self).groups@ == old(self).groups@,
            final(self).sessions@ == old(self).sessions@,
            final(self).aspaces@ == old(self).aspaces@,
            Kernel::same_registry(*final(self), *old(self)),
            final(self).next_task_id == old(self).next_task_id,
            final(self).next_handle == old(self).next_handle,
            ({
                let pid = old(self).thread_of(caller).pid;
                &&& final(self).proc_of(pid) == apply_proc_update(
                    ProcUpdate::HeapBottom(bottom),
                    old(self).proc_of(pid),
                )
                &&& forall|q: Pid| final(self).has_proc(q) == old(self).has_proc(q)
                &&& forall|q: Pid|
                    q != pid && old(self).has_proc(q) ==> final(self).proc_of(q) == old(self).proc_of(q)
            }),
    {
        let i = match self.find_thread(caller) {
            Some(i) => i,
            None => {
                proof {
                    assert(false);
                }
                0
            },
        };
        let pid = self.threads[i].pid;
        proof {
            assert(self.thread_wf(self.threads@[i as int]));
        }
        self.update_proc(pid, ProcUpdate::HeapBottom(bottom));
    }

    /// Set the caller's process heap top.
    pub fn set_heap_top(&mut self, caller: Pid, top: usize)
        requires
            old(self).wf(),
            old(self).caller_ok(caller),
        ensures
            final(self).wf(),
            final(self).threads@ == old(self).threads@,
            final(self).groups@ == old(self).groups@,
            final(self).sessions@ == old(self).sessions@,
            final(self).aspaces@ == old(self).aspaces@,
            Kernel::same_registry(*final(self), *old(self)),
            final(self).next_task_id == old(self).next_task_id,
            final(self).next_handle == old(self).next_handle,
            ({
                let pid = old(self).thread_of(caller).pid;
                &&& final(self).proc_of(pid) == apply_proc_update(
                    ProcUpdate::HeapTop(top),
                    old(self).proc_of(pid),
                )
                &&& forall|q: Pid| final(self).has_proc(q) == old(self).has_proc(q)
                &&& forall|q: Pid|
                    q != pid && old(self).has_proc(q) ==> final(self).proc_of(q) == old(self).proc_of(q)
            }),
    {
        let i = match self.find_thread(caller) {
            Some(i) => i,
            None => {
                proof {
                    assert(false);
                }
                0
            },
        };
        let pid = self.threads[i].pid;
        proof {
            assert(self.thread_wf(self.threads@[i as int]));
        }
        self.update_proc(pid, ProcUpdate::HeapTop(top));
    }

    /// The caller's clear-child-tid word address.
    pub fn clear_child_tid(&self, caller: Pid) -> (r: usize)
        requires
            self.wf(),
            self.caller_ok(caller),
        ensures
            r == self.thread_of(caller).data.clear_child_tid,
    {
        let i = match self.find_thread(caller) {
            Some(i) => i,
            None => {
                proof {
                    assert(false);
                }
                0
            },
        };
        self.threads[i].data.clear_child_tid()
    }

    /// Set the caller's clear-child-tid word address.
    pub fn set_clear_child_tid(&mut self, caller: Pid, addr: usize)
        requires
            old(self).wf(),
            old(self).caller_ok(caller),
        ensures
            final(self).wf(),
            final(self).processes@ == old(self).processes@,
            final(self).groups@ == old(self).groups@,
            final(self).sessions@ == old(self).sessions@,
            final(self).aspaces@ == old(self).aspaces@,
            Kernel::same_registry(*final(self), *old(self)),
            final(self).next_task_id == old(self).next_task_id,
            final(self).next_handle == old(self).next_handle,
            final(self).thread_of(caller) == apply_thread_update(
                ThreadUpdate::ClearChildTid(addr),
                old(self).thread_of(caller),
            ),
            forall|q: Pid| final(self).has_thread(q) == old(self).has_thread(q),
            forall|q: Pid|
                q != caller && old(self).has_thread(q) ==> final(self).thread_of(q) == old(self).thread_of(q),
    {
        self.update_thread(caller, ThreadUpdate::ClearChildTid(addr));
    }

    /// Hand the processor back to the external scheduler; no process
    /// state moves.
    pub fn sys_sched_yield(&self) -> (r: isize)
        ensures
            r == 0,
    {
        0
    }

    /// Suspend the caller until a signal arrives: it leaves the ready
    /// state and, once the external signal service wakes it, the call is
    /// reported as interrupted.
    pub fn sys_pause(&mut self, caller: Pid) -> (r: LinuxError)
        requires
            old(self).wf(),
            old(self).caller_ok(caller),
        ensures
            final(self).wf(),
            final(self).processes@ == old(self).processes@,
            final(self).groups@ == old(self).groups@,
            final(self).sessions@ == old(self).sessions@,
            final(self).aspaces@ == old(self).aspaces@,
            Kernel::same_registry(*final(self), *old(self)),
            final(self).next_task_id == old(self).next_task_id,
            final(self).next_handle == old(self).next_handle,
            final(self).thread_of(caller) == apply_thread_update(
                ThreadUpdate::State(TaskState::BlockedPause),
                old(self).thread_of(caller),
            ),
            forall|q: Pid| final(self).has_thread(q) == old(self).has_thread(q),
            forall|q: Pid|
                q != caller && old(self).has_thread(q) ==> final(self).thread_of(q) == old(self).thread_of(q),
            r == LinuxError::EINTR,
    {
        self.update_thread(caller, ThreadUpdate::State(TaskState::BlockedPause));
        LinuxError::EINTR
    }
}

} // verus!
