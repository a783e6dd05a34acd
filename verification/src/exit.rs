//! The exit protocol: orderly teardown of a thread, and of its process
//! when the last thread goes.
//!
//! Everything the protocol asks of external collaborators — deliver a
//! signal, notify waiters, wake a futex, release a file-descriptor table,
//! yield — is returned as an ordered list of [`Action`] values; the state
//! transition itself is verified. Releasing a blocked vfork parent is
//! internal: the parent thread becomes schedulable in the same step,
//! before the exiting thread detaches from its process.

use vstd::prelude::*;

use crate::kernel::Kernel;
use crate::procops::{apply_proc_update, ProcUpdate, ThreadUpdate};
use crate::signo::{Signo, SIGKILL};
use crate::task::{Pid, TaskState, Thread};

verus! {

/// One request to an external collaborator, emitted by a verified
/// transition in the order it must be performed.
#[derive(Debug, Clone, Copy, PartialEq, Eq, Structural)]
pub enum Action {
    /// Deliver a signal to every thread of a process, via the signal
    /// service.
    SignalProcess { pid: Pid, signo: Signo },
    /// Deliver a signal to one thread, via the signal service.
    SignalThread { tid: Pid, signo: Signo },
    /// Notify all waiters on a process's child-exit wait queue.
    NotifyChildExit { pid: Pid },
    /// Wake at most one waiter on the futex word at `addr`.
    FutexWake { futex_table: u64, addr: usize },
    /// Release the file-descriptor table owned under this handle.
    CloseFdTable { fd_table: u64 },
    /// Let another task run, so a woken waiter is scheduled promptly.
    Yield,
}

/// The forced-termination requests of a group exit: one `SIGKILL` per
/// thread record of process `pid`, in table order.
pub open spec fn kill_actions(s: Seq<Thread>, pid: Pid) -> Seq<Action>
    decreases s.len(),
{
    if s.len() == 0 {
        Seq::empty()
    } else if s.last().pid == pid {
        kill_actions(s.drop_last(), pid).push(
            Action::SignalThread { tid: s.last().tid, signo: Signo(SIGKILL) },
        )
    } else {
        kill_actions(s.drop_last(), pid)
    }
}

/// Every thread record of the process appears in the kill list.
pub proof fn lemma_kill_actions_cover(s: Seq<Thread>, pid: Pid, i: int)
    requires
        0 <= i < s.len(),
        s[i].pid == pid,
    ensures
        kill_actions(s, pid).contains(
            Action::SignalThread { tid: s[i].tid, signo: Signo(SIGKILL) },
        ),
    decreases s.len(),
{
    let a = Action::SignalThread { tid: s[i].tid, signo: Signo(SIGKILL) };
    if i == s.len() - 1 {
        let r = kill_actions(s, pid);
        assert(r.last() == a);
        assert(r.contains(a)) by {
            assert(r[r.len() - 1] == a);
        }
    } else {
        lemma_kill_actions_cover(s.drop_last(), pid, i);
        let rest = kill_actions(s.drop_last(), pid);
        let j = choose|j: int| 0 <= j < rest.len() && rest[j] == a;
        if s.last().pid == pid {
            assert(kill_actions(s, pid)[j] == a);
        } else {
            assert(kill_actions(s, pid)[j] == a);
        }
    }
}

/// Everything the exit protocol guarantees, relating the pre-state `k0`
/// to the post-state `k1` for the exiting thread `caller`: the caller
/// exited; a still-waiting vfork parent released; the clear-child-tid
/// word zeroed; on last-thread exit the process marked exited with the
/// status word; on group exit the group mark set; every untouched record
/// and field stated untouched; and the emitted actions fixed exactly,
/// in protocol order.
pub open spec fn exit_post(
    k0: Kernel,
    k1: Kernel,
    caller: Pid,
    exit_code: i32,
    group_exit: bool,
    acts: Seq<Action>,
) -> bool {
    let pid = k0.thread_of(caller).pid;
    let p0 = k0.proc_of(pid);
    let addr = k0.thread_of(caller).data.clear_child_tid;
    let space0 = k0.aspace_of(p0.data.aspace);
    let wake_tid = p0.data.vfork_completion;
    let clears = addr != 0 && space0.spec_has_word(addr);
    let last = !k0.has_other_live_thread(pid, caller);
    let parent_live = p0.parent is Some && k0.has_proc(p0.parent->0);
    let kills = group_exit && !p0.group_exited;
    &&& k1.groups@ == k0.groups@
    &&& k1.sessions@ == k0.sessions@
    &&& Kernel::same_registry(k1, k0)
    &&& k1.next_task_id == k0.next_task_id
    &&& k1.next_handle == k0.next_handle
    &&& forall|q: Pid| k1.has_proc(q) == k0.has_proc(q)
    &&& forall|q: Pid| k1.has_thread(q) == k0.has_thread(q)
    &&& k1.thread_of(caller) == (Thread { state: TaskState::Exited, ..k0.thread_of(caller) })
    &&& forall|q: Pid|
        q != caller && (wake_tid matches Some(w) ==> q != w) && k0.has_thread(q)
            ==> k1.thread_of(q) == k0.thread_of(q)
    &&& match wake_tid {
        Some(w) => (w != caller && k0.has_thread(w) && k0.thread_of(w).state
            == (TaskState::BlockedVfork { child: pid })) ==> k1.thread_of(w) == (Thread {
            state: TaskState::Ready,
            ..k0.thread_of(w)
        }),
        None => true,
    }
    &&& k1.proc_of(pid).data.vfork_completion == None::<Pid>
    &&& k1.proc_of(pid).exited == (p0.exited || last)
    &&& last ==> k1.proc_of(pid).exit_code == exit_code
    &&& !last ==> k1.proc_of(pid).exit_code == p0.exit_code
    &&& k1.proc_of(pid).group_exited == (p0.group_exited || kills)
    &&& k1.proc_of(pid).pid == pid
    &&& k1.proc_of(pid).parent == p0.parent
    &&& k1.proc_of(pid).pgid == p0.pgid
    &&& k1.proc_of(pid).data.exe_path == p0.data.exe_path
    &&& k1.proc_of(pid).data.heap_bottom == p0.data.heap_bottom
    &&& k1.proc_of(pid).data.heap_top == p0.data.heap_top
    &&& k1.proc_of(pid).data.aspace == p0.data.aspace
    &&& k1.proc_of(pid).data.exit_signal == p0.data.exit_signal
    &&& k1.proc_of(pid).data.signal == p0.data.signal
    &&& k1.proc_of(pid).data.signal_actions == p0.data.signal_actions
    &&& k1.proc_of(pid).data.futex_table == p0.data.futex_table
    &&& k1.proc_of(pid).data.fd_table == p0.data.fd_table
    &&& k1.proc_of(pid).data.cwd == p0.data.cwd
    &&& k1.proc_of(pid).data.cred == p0.data.cred
    &&& forall|q: Pid| q != pid && k0.has_proc(q) ==> k1.proc_of(q) == k0.proc_of(q)
    &&& clears ==> k1.aspace_of(p0.data.aspace).spec_word(addr) == 0
    &&& forall|h: u64| k1.has_aspace(h) == k0.has_aspace(h)
    &&& forall|h: u64|
        h != p0.data.aspace && k0.has_aspace(h) ==> k1.aspace_of(h) == k0.aspace_of(h)
    &&& forall|x: usize|
        k1.aspace_of(p0.data.aspace).spec_has_word(x) == k0.aspace_of(
            p0.data.aspace,
        ).spec_has_word(x)
    &&& forall|x: usize|
        x != addr && space0.spec_has_word(x) ==> k1.aspace_of(p0.data.aspace).spec_word(x)
            == space0.spec_word(x)
    &&& !clears ==> k1.aspaces@ == k0.aspaces@
    &&& acts == (if clears {
        seq![Action::FutexWake { futex_table: p0.data.futex_table, addr }, Action::Yield]
    } else {
        Seq::<Action>::empty()
    }) + (if last {
        (if parent_live && p0.data.exit_signal is Some {
            seq![Action::SignalProcess { pid: p0.parent->0, signo: p0.data.exit_signal->0 }]
        } else {
            Seq::<Action>::empty()
        }) + (if parent_live {
            seq![Action::NotifyChildExit { pid: p0.parent->0 }]
        } else {
            Seq::<Action>::empty()
        }) + seq![Action::CloseFdTable { fd_table: p0.data.fd_table }]
    } else {
        Seq::<Action>::empty()
    }) + (if kills {
        kill_actions(k1.threads@, pid)
    } else {
        Seq::<Action>::empty()
    })
}

impl Kernel {
    /// Some thread of process `pid` other than `tid` has not exited.
    pub open spec fn has_other_live_thread(self, pid: Pid, tid: Pid) -> bool {
        exists|i: int|
            0 <= i < self.threads@.len() && self.threads@[i].pid == pid && self.threads@[i].tid
                != tid && self.threads@[i].state != TaskState::Exited
    }

    /// True iff some thread of process `pid` other than `tid` is not
    /// exited.
    fn any_other_live_thread(&self, pid: Pid, tid: Pid) -> (r: bool)
        ensures
            r == self.has_other_live_thread(pid, tid),
    {
        let n = self.threads.len();
        let mut i: usize = 0;
        while i < n
            invariant
                n == self.threads@.len(),
                i <= n,
                forall|j: int|
                    0 <= j < i ==> !((#[trigger] self.threads@[j]).pid == pid
                        && self.threads@[j].tid != tid && self.threads@[j].state
                        != TaskState::Exited),
            decreases n - i,
        {
            let t = &self.threads[i];
            if t.pid == pid && t.tid != tid && !matches!(t.state, TaskState::Exited) {
                assert(self.has_other_live_thread(pid, tid));
                return true;
            }
            i += 1;
        }
        false
    }

    /// If process `pid` is a not-yet-released vfork child, consume its
    /// completion slot and make the named parent schedulable again —
    /// exactly once, and only if that parent is still suspended waiting
    /// for this process.
    pub fn signal_vfork_parent_if_needed(&mut self, pid: Pid)
        requires
            old(self).wf(),
            old(self).has_proc(pid),
        ensures
            final(self).wf(),
            final(self).groups@ == old(self).groups@,
            final(self).sessions@ == old(self).sessions@,
            final(self).aspaces@ == old(self).aspaces@,
            Kernel::same_registry(*final(self), *old(self)),
            final(self).next_task_id == old(self).next_task_id,
            final(self).next_handle == old(self).next_handle,
            forall|q: Pid| final(self).has_proc(q) == old(self).has_proc(q),
            forall|q: Pid| final(self).has_thread(q) == old(self).has_thread(q),
            final(self).proc_of(pid) == apply_proc_update(
                ProcUpdate::VforkTake,
                old(self).proc_of(pid),
            ),
            forall|q: Pid|
                q != pid && old(self).has_proc(q) ==> final(self).proc_of(q) == old(self).proc_of(
                    q,
                ),
            ({
                match old(self).proc_of(pid).data.vfork_completion {
                    Some(w) => {
                        &&& (old(self).has_thread(w) && old(self).thread_of(w).state
                            == (TaskState::BlockedVfork { child: pid })) ==> final(self).thread_of(
                            w,
                        ) == (Thread { state: TaskState::Ready, ..old(self).thread_of(w) })
                        &&& forall|q: Pid|
                            q != w && old(self).has_thread(q) ==> final(self).thread_of(q) == old(self).thread_of(q)
                        &&& !(old(self).has_thread(w) && old(self).thread_of(w).state
                            == (TaskState::BlockedVfork { child: pid })) ==> forall|q: Pid|
                            old(self).has_thread(q) ==> final(self).thread_of(q) == old(self).thread_of(q)
                    },
                    None => forall|q: Pid|
                        old(self).has_thread(q) ==> final(self).thread_of(q) == old(self).thread_of(q),
                }
            }),
    {
        let j = match self.find_process(pid) {
            Some(j) => j,
            None => {
                proof {
                    assert(false);
                }
                0
            },
        };
        let slot = self.processes[j].data.vfork_completion;
        self.update_proc(pid, ProcUpdate::VforkTake);
        match slot {
            Some(w) => {
                match self.find_thread(w) {
                    Some(i) => {
                        let is_waiting = matches!(
                            self.threads[i].state,
                            TaskState::BlockedVfork { child } if child == pid
                        );
                        if is_waiting {
                            self.update_thread(w, ThreadUpdate::State(TaskState::Ready));
                        }
                    },
                    None => {},
                }
            },
            None => {},
        }
    }

    /// The exit protocol. In order: release a waiting vfork parent;
    /// clear the clear-child-tid word and wake one futex waiter there;
    /// detach this thread and, if it was the last, mark the process
    /// exited, tell the parent and release the fd table; on a group
    /// exit, force-terminate every thread of the process. The emitted
    /// actions carry the external side of each step, in that order.
    ///
    /// In the running system this call never returns to the caller: the
    /// final hand-off to the scheduler destroys the calling task.
    #[verifier::rlimit(100)]
    #[verifier::spinoff_prover]
    pub fn do_exit(&mut self, caller: Pid, exit_code: i32, group_exit: bool) -> (r: Vec<Action>)
        requires
            old(self).wf(),
            old(self).caller_ok(caller),
        ensures
            final(self).wf(),
            exit_post(*old(self), *final(self), caller, exit_code, group_exit, r@),
    {
        let mut r: Vec<Action> = Vec::new();
        let ci = match self.find_thread(caller) {
            Some(i) => i,
            None => {
                proof {
                    assert(false);
                }
                0
            },
        };
        let pid = self.threads[ci].pid;
        let addr = self.threads[ci].data.clear_child_tid;
        proof {
            assert(self.thread_wf(self.threads@[ci as int]));
        }
        let pj = match self.find_process(pid) {
            Some(j) => j,
            None => {
                proof {
                    assert(false);
                }
                0
            },
        };
        let aspace_id = self.processes[pj].data.aspace;
        let futex_id = self.processes[pj].data.futex_table;
        let fd_id = self.processes[pj].data.fd_table;
        let parent_link = self.processes[pj].parent;
        let exit_signal = self.processes[pj].data.exit_signal;
        let was_group_exited = self.processes[pj].group_exited;
        proof {
            assert(self.proc_wf(self.processes@[pj as int]));
        }

        let ghost pid_g = old(self).thread_of(caller).pid;
        let ghost p0 = old(self).proc_of(pid_g);
        let last = !self.any_other_live_thread(pid, caller);
        self.signal_vfork_parent_if_needed(pid);
        let ghost s1 = *self;

        let ghost wake_part = if old(self).thread_of(caller).data.clear_child_tid != 0 && old(self).aspace_of(p0.data.aspace).spec_has_word(old(self).thread_of(caller).data.clear_child_tid) {
            seq![
                Action::FutexWake {
                    futex_table: p0.data.futex_table,
                    addr: old(self).thread_of(caller).data.clear_child_tid,
                },
                Action::Yield,
            ]
        } else {
            Seq::<Action>::empty()
        };
        if addr != 0 {
            let ok = self.write_aspace_word(aspace_id, addr, 0);
            if ok {
                r.push(Action::FutexWake { futex_table: futex_id, addr });
                r.push(Action::Yield);
            }
        }
        proof {
            assert(r@ =~= wake_part);
        }
        let ghost s2 = *self;

        proof {
            assert(self.has_thread(caller));
            assert(self.thread_of(caller) == old(self).thread_of(caller)) by {
                match old(self).proc_of(pid as Pid).data.vfork_completion {
                    Some(w) => {
                        if w != caller {
                        } else {
                        }
                    },
                    None => {},
                }
            }
            assert(self.thread_of(caller).state == TaskState::Ready);
        }
        self.update_thread(caller, ThreadUpdate::State(TaskState::Exited));
        let ghost s3 = *self;

        if last {
            self.update_proc(pid, ProcUpdate::MarkExited(exit_code));
            match parent_link {
                Some(pp) => {
                    match self.find_process(pp) {
                        Some(_) => {
                            match exit_signal {
                                Some(sig) => {
                                    r.push(Action::SignalProcess { pid: pp, signo: sig });
                                },
                                None => {},
                            }
                            r.push(Action::NotifyChildExit { pid: pp });
                        },
                        None => {},
                    }
                },
                None => {},
            }
            r.push(Action::CloseFdTable { fd_table: fd_id });
        }
        proof {
            let parent_live = p0.parent is Some && old(self).has_proc(p0.parent->0);
            let last_g = !old(self).has_other_live_thread(pid_g, caller);
            let parent_part = if last_g {
                (if parent_live && p0.data.exit_signal is Some {
                    seq![
                        Action::SignalProcess { pid: p0.parent->0, signo: p0.data.exit_signal->0 },
                    ]
                } else {
                    Seq::<Action>::empty()
                }) + (if parent_live {
                    seq![Action::NotifyChildExit { pid: p0.parent->0 }]
                } else {
                    Seq::<Action>::empty()
                }) + seq![Action::CloseFdTable { fd_table: p0.data.fd_table }]
            } else {
                Seq::<Action>::empty()
            };
            assert(r@ =~= wake_part + parent_part);
        }
        let ghost s4 = *self;

        if group_exit && !was_group_exited {
            self.update_proc(pid, ProcUpdate::MarkGroupExited);
            let ghost base = r@;
            let n = self.threads.len();
            let mut i: usize = 0;
            while i < n
                invariant
                    n == self.threads@.len(),
                    i <= n,
                    r@ == base + kill_actions(self.threads@.take(i as int), pid),
                decreases n - i,
            {
                proof {
                    let pre = self.threads@.take(i as int);
                    let cur = self.threads@.take(i as int + 1);
                    assert(cur.drop_last() =~= pre);
                    assert(cur.last() == self.threads@[i as int]);
                }
                let t = &self.threads[i];
                if t.pid == pid {
                    r.push(Action::SignalThread { tid: t.tid, signo: Signo(SIGKILL) });
                }
                i += 1;
            }
            proof {
                assert(self.threads@.take(n as int) =~= self.threads@);
            }
        } else {
            proof {
                assert(r@ =~= r@ + Seq::<Action>::empty());
            }
        }
        proof {
            let wake_g = p0.data.vfork_completion;
            assert forall|q: Pid| self.has_thread(q) == old(self).has_thread(q) by {
                assert(s1.has_thread(q) == old(self).has_thread(q));
                assert(s2.has_thread(q) == s1.has_thread(q));
                assert(s3.has_thread(q) == s2.has_thread(q));
                assert(self.has_thread(q) == s3.has_thread(q));
            }
            assert(s2.thread_of(caller) == s1.thread_of(caller));
            assert(self.thread_of(caller) == s3.thread_of(caller));
            assert forall|q: Pid|
                q != caller && (match wake_g {
                    Some(w) => q != w,
                    None => true,
                }) && old(self).has_thread(q) implies self.thread_of(q) == old(self).thread_of(
                q,
            ) by {
                assert(s1.thread_of(q) == old(self).thread_of(q));
                assert(s1.has_thread(q));
                assert(s2.thread_of(q) == s1.thread_of(q));
                assert(s2.has_thread(q));
                assert(s3.thread_of(q) == s2.thread_of(q));
                assert(self.thread_of(q) == s3.thread_of(q));
            }
            match wake_g {
                Some(w) => {
                    if w != caller && old(self).has_thread(w) && old(self).thread_of(w).state
                        == (TaskState::BlockedVfork { child: pid_g }) {
                        assert(s1.thread_of(w) == (Thread {
                            state: TaskState::Ready,
                            ..old(self).thread_of(w)
                        }));
                        assert(s1.has_thread(w));
                        assert(s2.thread_of(w) == s1.thread_of(w));
                        assert(s2.has_thread(w));
                        assert(s3.thread_of(w) == s2.thread_of(w));
                        assert(self.thread_of(w) == s3.thread_of(w));
                    }
                },
                None => {},
            }
            assert forall|q: Pid| self.has_proc(q) == old(self).has_proc(q) by {
                assert(s1.has_proc(q) == old(self).has_proc(q));
                assert(s2.has_proc(q) == s1.has_proc(q));
                assert(s3.has_proc(q) == s2.has_proc(q));
                assert(s4.has_proc(q) == s3.has_proc(q));
                assert(self.has_proc(q) == s4.has_proc(q));
            }
            assert forall|q: Pid|
                q != pid_g && old(self).has_proc(q) implies self.proc_of(q) == old(self).proc_of(
                q,
            ) by {
                assert(s1.proc_of(q) == old(self).proc_of(q));
                assert(s1.has_proc(q));
                assert(s2.proc_of(q) == s1.proc_of(q));
                assert(s2.has_proc(q));
                assert(s3.proc_of(q) == s2.proc_of(q));
                assert(s3.has_proc(q));
                assert(s4.proc_of(q) == s3.proc_of(q));
                assert(s4.has_proc(q));
                assert(self.proc_of(q) == s4.proc_of(q));
            }
            let addr_g = old(self).thread_of(caller).data.clear_child_tid;
            let sp_id = p0.data.aspace;
            assert(s1.aspaces@ == old(self).aspaces@);
            assert(self.aspaces@ == s2.aspaces@);
            assert forall|h: u64| self.has_aspace(h) == old(self).has_aspace(h) by {
                assert(s2.has_aspace(h) == s1.has_aspace(h));
            }
            assert forall|h: u64|
                h != sp_id && old(self).has_aspace(h) implies self.aspace_of(h) == old(self).aspace_of(h) by {
                assert(s1.has_aspace(h));
                assert(s2.aspace_of(h) == s1.aspace_of(h));
            }
            assert forall|x: usize|
                self.aspace_of(sp_id).spec_has_word(x) == old(self).aspace_of(
                    sp_id,
                ).spec_has_word(x) by {
                assert(s2.aspace_of(sp_id).spec_has_word(x) == s1.aspace_of(sp_id).spec_has_word(
                    x,
                ));
            }
            assert forall|x: usize|
                x != addr_g && old(self).aspace_of(sp_id).spec_has_word(x) implies self.aspace_of(
                sp_id,
            ).spec_word(x) == old(self).aspace_of(sp_id).spec_word(x) by {
                assert(s1.aspace_of(sp_id).spec_has_word(x));
                assert(s2.aspace_of(sp_id).spec_word(x) == s1.aspace_of(sp_id).spec_word(x));
            }
            let clears_g = addr_g != 0 && old(self).aspace_of(sp_id).spec_has_word(addr_g);
            if clears_g {
                assert(s2.aspace_of(sp_id).spec_word(addr_g) == 0);
                assert(self.aspace_of(sp_id).spec_word(addr_g) == 0);
            } else {
                assert(s2.aspaces@ == s1.aspaces@);
                assert(self.aspaces@ == old(self).aspaces@);
            }
            let kills_g = group_exit && !p0.group_exited;
            let parent_live_g = p0.parent is Some && old(self).has_proc(p0.parent->0);
            let last_g = !old(self).has_other_live_thread(pid_g, caller);
            let parent_part_g = if last_g {
                (if parent_live_g && p0.data.exit_signal is Some {
                    seq![
                        Action::SignalProcess { pid: p0.parent->0, signo: p0.data.exit_signal->0 },
                    ]
                } else {
                    Seq::<Action>::empty()
                }) + (if parent_live_g {
                    seq![Action::NotifyChildExit { pid: p0.parent->0 }]
                } else {
                    Seq::<Action>::empty()
                }) + seq![Action::CloseFdTable { fd_table: p0.data.fd_table }]
            } else {
                Seq::<Action>::empty()
            };
            assert(r@ =~= wake_part + parent_part_g + (if kills_g {
                kill_actions(self.threads@, pid_g)
            } else {
                Seq::<Action>::empty()
            }));
        }
        r
    }

    /// `exit`: the exit protocol with the code shifted into the status
    /// word's "normal exit" position and no group teardown.
    pub fn sys_exit(&mut self, caller: Pid, exit_code: i32) -> (r: Vec<Action>)
        requires
            old(self).wf(),
            old(self).caller_ok(caller),
        ensures
            final(self).wf(),
            exit_post(
                *old(self),
                *final(self),
                caller,
                ((exit_code as u32) << 8u32) as i32,
                false,
                r@,
            ),
    {
        let status = ((exit_code as u32) << 8u32) as i32;
        self.do_exit(caller, status, false)
    }

    /// `exit_group`: the exit protocol with group teardown, forcing
    /// every thread of the process down.
    pub fn sys_exit_group(&mut self, caller: Pid, exit_code: i32) -> (r: Vec<Action>)
        requires
            old(self).wf(),
            old(self).caller_ok(caller),
        ensures
            final(self).wf(),
            exit_post(
                *old(self),
                *final(self),
                caller,
                ((exit_code as u32) << 8u32) as i32,
                true,
                r@,
            ),
            ({
                let pid = old(self).thread_of(caller).pid;
                !old(self).proc_of(pid).group_exited ==> forall|i: int|
                    0 <= i < final(self).threads@.len() && (#[trigger] final(self).threads@[i]).pid == pid ==> r@.contains(
                        Action::SignalThread {
                            tid: final(self).threads@[i].tid,
                            signo: Signo(SIGKILL),
                        },
                    )
            }),
    {
        let status = ((exit_code as u32) << 8u32) as i32;
        let r = self.do_exit(caller, status, true);
        proof {
            let pid = old(self).thread_of(caller).pid;
            if !old(self).proc_of(pid).group_exited {
                let kills = kill_actions(final(self).threads@, pid);
                let ghost pre_len = r@.len() - kills.len();
                assert(r@.skip(pre_len as int) =~= kills);
                assert forall|i: int|
                    0 <= i < final(self).threads@.len() && (#[trigger] final(self).threads@[i]).pid == pid implies r@.contains(
                    Action::SignalThread {
                        tid: final(self).threads@[i].tid,
                        signo: Signo(SIGKILL),
                    },
                ) by {
                    lemma_kill_actions_cover(final(self).threads@, pid, i);
                    let a = Action::SignalThread {
                        tid: final(self).threads@[i].tid,
                        signo: Signo(SIGKILL),
                    };
                    let j = choose|j: int| 0 <= j < kills.len() && kills[j] == a;
                    assert(r@[pre_len + j] == a);
                }
            }
        }
        r
    }

    /// Record a successful program replacement: the process's image path
    /// changes, and — exactly as on exit — a not-yet-released vfork
    /// parent is released now. Image loading itself belongs to the
    /// external loader.
    pub fn sys_exec(&mut self, caller: Pid, path: String) -> (r: isize)
        requires
            old(self).wf(),
            old(self).caller_ok(caller),
        ensures
            final(self).wf(),
            r == 0,
            ({
                let pid = old(self).thread_of(caller).pid;
                let p0 = old(self).proc_of(pid);
                &&& final(self).proc_of(pid).data.exe_path == path
                &&& final(self).proc_of(pid).data.vfork_completion == None::<Pid>
                &&& match p0.data.vfork_completion {
                    Some(w) => (w != caller && old(self).has_thread(w) && old(self).thread_of(
                        w,
                    ).state == (TaskState::BlockedVfork { child: pid })) ==> final(self).thread_of(
                        w,
                    ) == (Thread { state: TaskState::Ready, ..old(self).thread_of(w) }),
                    None => true,
                }
                &&& forall|q: Pid|
                    q != pid && old(self).has_proc(q) ==> final(self).proc_of(q) == old(self).proc_of(q)
                &&& forall|q: Pid| final(self).has_proc(q) == old(self).has_proc(q)
                &&& forall|q: Pid| final(self).has_thread(q) == old(self).has_thread(q)
            }),
    {
        let ci = match self.find_thread(caller) {
            Some(i) => i,
            None => {
                proof {
                    assert(false);
                }
                0
            },
        };
        let pid = self.threads[ci].pid;
        proof {
            assert(self.thread_wf(self.threads@[ci as int]));
        }
        self.signal_vfork_parent_if_needed(pid);
        self.update_proc(pid, ProcUpdate::ExePath(path));
        0
    }
}

} // verus!
