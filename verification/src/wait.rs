//! Reaping exited children: the wait interface.
//!
//! A process whose thread count has reached zero stays referenceable as a
//! zombie until its parent reaps it; reaping returns the stored wait
//! status and drops the record, after which every registry lookup of the
//! child fails.

use vstd::prelude::*;

use crate::error::LinuxError;
use crate::kernel::Kernel;
use crate::table::{lemma_key_idx_is, lemma_remove_key};
use crate::task::{Pid, TaskState};

verus! {

impl Kernel {
    /// Process `c` is a child of `ppid` matching the selector `sel`
    /// (a positive pid selects that child; -1 selects any child).
    pub open spec fn child_matches(self, c: int, ppid: Pid, sel: i32) -> bool {
        &&& 0 <= c < self.processes@.len()
        &&& self.processes@[c].parent == Some(ppid)
        &&& (sel == -1 || (sel > 0 && self.processes@[c].pid == sel as u32))
    }

    /// Some child of `ppid` matches the selector.
    pub open spec fn has_matching_child(self, ppid: Pid, sel: i32) -> bool {
        exists|c: int| self.child_matches(c, ppid, sel)
    }

    /// Process index `c` is reapable: a matching, exited child none of
    /// whose threads still runs.
    pub open spec fn child_reapable(self, c: int, ppid: Pid, sel: i32) -> bool {
        &&& self.child_matches(c, ppid, sel)
        &&& self.processes@[c].exited
        &&& !exists|i: int|
            0 <= i < self.threads@.len() && self.threads@[i].pid == self.processes@[c].pid
                && self.threads@[i].state != TaskState::Exited
    }

    /// Some child of `ppid` matching the selector can be reaped.
    pub open spec fn has_reapable_child(self, ppid: Pid, sel: i32) -> bool {
        exists|c: int| self.child_reapable(c, ppid, sel)
    }

    /// True iff no thread of process `pid` is still live.
    fn no_live_thread_of(&self, pid: Pid) -> (r: bool)
        ensures
            r == !exists|i: int|
                0 <= i < self.threads@.len() && self.threads@[i].pid == pid
                    && self.threads@[i].state != TaskState::Exited,
    {
        let n = self.threads.len();
        let mut i: usize = 0;
        while i < n
            invariant
                n == self.threads@.len(),
                i <= n,
                forall|j: int|
                    0 <= j < i ==> !((#[trigger] self.threads@[j]).pid == pid && self.threads@[j].state
                        != TaskState::Exited),
            decreases n - i,
        {
            let t = &self.threads[i];
            if t.pid == pid && !matches!(t.state, TaskState::Exited) {
                return false;
            }
            i += 1;
        }
        true
    }

    /// Everything a wait guarantees, relating the pre-state `k0` to the
    /// post-state `k1` for the calling thread and the selector `sel`:
    /// which error comes, if and only if; that an error changes nothing;
    /// and that success returns a matching exited child's pid with its
    /// stored status and drops exactly that child's record.
    pub open spec fn waitpid_post(
        k0: Kernel,
        k1: Kernel,
        caller: Pid,
        sel: i32,
        r: Result<(Pid, i32), LinuxError>,
    ) -> bool {
        let ppid = k0.thread_of(caller).pid;
        &&& k1.threads@ == k0.threads@
        &&& k1.groups@ == k0.groups@
        &&& k1.sessions@ == k0.sessions@
        &&& k1.aspaces@ == k0.aspaces@
        &&& Kernel::same_registry(k1, k0)
        &&& k1.next_task_id == k0.next_task_id
        &&& k1.next_handle == k0.next_handle
        &&& r == Err::<(Pid, i32), LinuxError>(LinuxError::EINVAL) <==> (sel <= 0 && sel != -1)
        &&& r == Err::<(Pid, i32), LinuxError>(LinuxError::ECHILD) <==> (!(sel <= 0 && sel != -1)
            && !k0.has_matching_child(ppid, sel))
        &&& r == Err::<(Pid, i32), LinuxError>(LinuxError::EAGAIN) <==> (!(sel <= 0 && sel != -1)
            && k0.has_matching_child(ppid, sel) && !k0.has_reapable_child(ppid, sel))
        &&& r is Err ==> k1.processes@ == k0.processes@
        &&& match r {
            Ok((cpid, status)) => {
                &&& k0.has_proc(cpid)
                &&& k0.proc_of(cpid).parent == Some(ppid)
                &&& k0.proc_of(cpid).exited
                &&& (sel == -1 || (sel > 0 && cpid == sel as u32))
                &&& status == k0.proc_of(cpid).exit_code
                &&& !k1.has_proc(cpid)
                &&& forall|q: Pid| q != cpid ==> k1.has_proc(q) == k0.has_proc(q)
                &&& forall|q: Pid|
                    q != cpid && k0.has_proc(q) ==> k1.proc_of(q) == k0.proc_of(q)
            },
            Err(_) => true,
        }
    }

    /// Wait for a child: reap one exited child of the caller's process
    /// matching the selector, returning its pid and stored wait status
    /// and dropping its record.
    ///
    /// Fails `EINVAL` for selectors this core does not support (only a
    /// positive pid and -1 are), `ECHILD` when no child matches, and
    /// `EAGAIN` when children match but none has finished — the moment
    /// at which a blocking wait would suspend on the child-exit queue.
    pub fn sys_waitpid(&mut self, caller: Pid, pid: i32, options: u32) -> (r: Result<
        (Pid, i32),
        LinuxError,
    >)
        requires
            old(self).wf(),
            old(self).caller_ok(caller),
        ensures
            final(self).wf(),
            Kernel::waitpid_post(*old(self), *final(self), caller, pid, r),
    {
        if pid <= 0 && pid != -1 {
            return Err(LinuxError::EINVAL);
        }
        let ci = match self.find_thread(caller) {
            Some(i) => i,
            None => {
                proof {
                    assert(false);
                }
                0
            },
        };
        let ppid = self.threads[ci].pid;

        let n = self.processes.len();
        let mut found_match = false;
        let mut i: usize = 0;
        while i < n
            invariant
                self.wf(),
                *self == *old(self),
                n == self.processes@.len(),
                i <= n,
                ppid == old(self).thread_of(caller).pid,
                found_match == exists|c: int| c < i && self.child_matches(c, ppid, pid),
                forall|c: int| 0 <= c < i ==> !self.child_reapable(c, ppid, pid),
            decreases n - i,
        {
            let matches_sel = self.processes[i].parent == Some(ppid) && (pid == -1 || (pid > 0
                && self.processes[i].pid == pid as u32));
            if matches_sel {
                proof {
                    assert(self.child_matches(i as int, ppid, pid));
                }
                found_match = true;
                if self.processes[i].exited {
                    let cpid = self.processes[i].pid;
                    if self.no_live_thread_of(cpid) {
                        let status = self.processes[i].exit_code;
                        proof {
                            assert(self.child_reapable(i as int, ppid, pid));
                            lemma_key_idx_is(self.processes@, i as int);
                            lemma_remove_key(self.processes@, i as int);
                        }
                        self.processes.remove(i);
                        proof {
                            let k0 = *old(self);
                            let k1 = *self;
                            assert forall|a: int|
                                0 <= a < k1.threads@.len() implies k1.thread_wf(
                                #[trigger] k1.threads@[a],
                            ) by {
                                let t = k0.threads@[a];
                                assert(k0.thread_wf(t));
                                if t.state != TaskState::Exited {
                                    assert(t.pid != cpid);
                                    assert(k1.proc_of(t.pid) == k0.proc_of(t.pid));
                                }
                            }
                            assert forall|a: int|
                                0 <= a < k1.processes@.len() implies k1.proc_wf(
                                #[trigger] k1.processes@[a],
                            ) by {
                                let a2: int = if a < i as int {
                                    a
                                } else {
                                    a + 1
                                };
                                assert(k1.processes@[a] == k0.processes@[a2]);
                                assert(k0.proc_wf(k0.processes@[a2]));
                            }
                            assert(k1.wf());
                        }
                        return Ok((cpid, status));
                    }
                }
            }
            i += 1;
        }
        proof {
            assert(!self.has_reapable_child(ppid, pid));
        }
        if found_match {
            Err(LinuxError::EAGAIN)
        } else {
            proof {
                assert(!self.has_matching_child(ppid, pid));
            }
            Err(LinuxError::ECHILD)
        }
    }

    /// Wait for a specific child or, with -1, for any child; the status
    /// word is also returned through `waitpid`'s result here, argument
    /// marshaling being external.
    pub fn waitpid(&mut self, caller: Pid, pid: i32, options: u32) -> (r: Result<
        (Pid, i32),
        LinuxError,
    >)
        requires
            old(self).wf(),
            old(self).caller_ok(caller),
        ensures
            final(self).wf(),
            Kernel::waitpid_post(*old(self), *final(self), caller, pid, r),
    {
        self.sys_waitpid(caller, pid, options)
    }

    /// Wait for any child, as `waitpid` with the -1 selector.
    pub fn wait(&mut self, caller: Pid) -> (r: Result<(Pid, i32), LinuxError>)
        requires
            old(self).wf(),
            old(self).caller_ok(caller),
        ensures
            final(self).wf(),
            Kernel::waitpid_post(*old(self), *final(self), caller, -1i32, r),
    {
        self.waitpid(caller, -1i32, 0)
    }
}

} // verus!
