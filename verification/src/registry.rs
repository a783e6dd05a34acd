//! The identity registry: four insert-only keyed tables.
//!
//! Entries hold ids, not owning references: a lookup succeeds only while
//! the named object is still held strongly elsewhere in the state, so a
//! stale entry behaves exactly like a pruned weak reference. Entries are
//! inserted at creation and never explicitly removed.

use vstd::prelude::*;

use crate::error::LinuxError;
use crate::kernel::Kernel;
use crate::table::{id_listed, key_idx};
use crate::task::{Pid, Process, ProcessGroup, Session, TaskState, Thread};

verus! {

impl Kernel {
    /// Add the thread and, where not already present, its process, its
    /// process group and its session to the corresponding tables.
    ///
    /// Each level is inserted only if absent, and a present level stops
    /// the walk: a newly created process (or group, or session) is
    /// published exactly once, and re-registration changes nothing.
    pub fn add_thread_to_table(&mut self, tid: Pid)
        requires
            old(self).wf(),
            old(self).has_thread(tid),
            old(self).thread_of(tid).state != TaskState::Exited,
        ensures
            final(self).wf(),
            Kernel::same_records(*final(self), *old(self)),
            final(self).next_task_id == old(self).next_task_id,
            final(self).next_handle == old(self).next_handle,
            final(self).registered_thread(tid),
            final(self).thread_table@ == if old(self).registered_thread(tid) {
                old(self).thread_table@
            } else {
                old(self).thread_table@.push(tid)
            },
            ({
                let pid = old(self).thread_of(tid).pid;
                let pgid = old(self).proc_of(pid).pgid;
                let sid = old(self).group_of(pgid).sid;
                &&& final(self).registered_proc(pid)
                &&& if old(self).registered_proc(pid) {
                    final(self).process_table@ == old(self).process_table@ && final(self).process_group_table@ == old(self).process_group_table@ && final(self).session_table@ == old(self).session_table@
                } else {
                    &&& final(self).process_table@ == old(self).process_table@.push(pid)
                    &&& final(self).registered_group(pgid)
                    &&& if old(self).registered_group(pgid) {
                        final(self).process_group_table@ == old(self).process_group_table@ && final(self).session_table@ == old(self).session_table@
                    } else {
                        &&& final(self).process_group_table@ == old(self).process_group_table@.push(pgid)
                        &&& final(self).registered_session(sid)
                        &&& if old(self).registered_session(sid) {
                            final(self).session_table@ == old(self).session_table@
                        } else {
                            final(self).session_table@ == old(self).session_table@.push(sid)
                        }
                    }
                }
            }),
    {
        proof {
            let i = key_idx(old(self).threads@, tid as u64);
            assert(0 <= i < old(self).threads@.len() && old(self).threads@[i].tid == tid);
            assert(old(self).thread_wf(old(self).threads@[i]));
        }
        let i = match self.find_thread(tid) {
            Some(i) => i,
            None => {
                proof {
                    assert(false);
                }
                0
            },
        };
        let pid = self.threads[i].pid;

        if !id_listed(&self.thread_table, tid) {
            self.thread_table.push(tid);
            proof {
                assert(tid < self.next_task_id);
                assert(self.thread_table@.last() == tid);
                assert(self.registered_thread(tid));
                assert forall|a: int, b: int|
                    0 <= a < self.thread_table@.len() && 0 <= b < self.thread_table@.len() && a
                        != b implies self.thread_table@[a] != self.thread_table@[b] by {
                    if a == self.thread_table@.len() - 1 {
                        assert(old(self).thread_table@[b] == self.thread_table@[b]);
                        assert(!old(self).thread_table@.contains(tid));
                    } else if b == self.thread_table@.len() - 1 {
                        assert(old(self).thread_table@[a] == self.thread_table@[a]);
                        assert(!old(self).thread_table@.contains(tid));
                    }
                }
            }
        }

        if id_listed(&self.process_table, pid) {
            return ;
        }
        self.process_table.push(pid);
        proof {
            let j = key_idx(self.processes@, pid as u64);
            assert(0 <= j < self.processes@.len() && self.processes@[j].pid == pid);
            assert(self.proc_wf(self.processes@[j]));
            assert(pid < self.next_task_id);
            assert(self.process_table@.last() == pid);
            assert forall|a: int, b: int|
                0 <= a < self.process_table@.len() && 0 <= b < self.process_table@.len() && a
                    != b implies self.process_table@[a] != self.process_table@[b] by {
                if a == self.process_table@.len() - 1 {
                    assert(old(self).process_table@[b] == self.process_table@[b]);
                    assert(!old(self).process_table@.contains(pid));
                } else if b == self.process_table@.len() - 1 {
                    assert(old(self).process_table@[a] == self.process_table@[a]);
                    assert(!old(self).process_table@.contains(pid));
                }
            }
        }

        let j = match self.find_process(pid) {
            Some(j) => j,
            None => {
                proof {
                    assert(false);
                }
                0
            },
        };
        let pgid = self.processes[j].pgid;

        if id_listed(&self.process_group_table, pgid) {
            return ;
        }
        self.process_group_table.push(pgid);
        proof {
            let g = key_idx(self.groups@, pgid as u64);
            assert(0 <= g < self.groups@.len() && self.groups@[g].pgid == pgid);
            assert(pgid < self.next_task_id);
            assert(self.process_group_table@.last() == pgid);
            assert forall|a: int, b: int|
                0 <= a < self.process_group_table@.len() && 0 <= b
                    < self.process_group_table@.len() && a != b implies self.process_group_table@[a]
                != self.process_group_table@[b] by {
                if a == self.process_group_table@.len() - 1 {
                    assert(old(self).process_group_table@[b] == self.process_group_table@[b]);
                    assert(!old(self).process_group_table@.contains(pgid));
                } else if b == self.process_group_table@.len() - 1 {
                    assert(old(self).process_group_table@[a] == self.process_group_table@[a]);
                    assert(!old(self).process_group_table@.contains(pgid));
                }
            }
        }

        let g = match self.find_group(pgid) {
            Some(g) => g,
            None => {
                proof {
                    assert(false);
                }
                0
            },
        };
        let sid = self.groups[g].sid;

        if id_listed(&self.session_table, sid) {
            return ;
        }
        self.session_table.push(sid);
        proof {
            let q = key_idx(self.sessions@, sid as u64);
            assert(0 <= q < self.sessions@.len() && self.sessions@[q].sid == sid);
            assert(sid < self.next_task_id);
            assert(self.session_table@.last() == sid);
            assert forall|a: int, b: int|
                0 <= a < self.session_table@.len() && 0 <= b < self.session_table@.len() && a
                    != b implies self.session_table@[a] != self.session_table@[b] by {
                if a == self.session_table@.len() - 1 {
                    assert(old(self).session_table@[b] == self.session_table@[b]);
                    assert(!old(self).session_table@.contains(sid));
                } else if b == self.session_table@.len() - 1 {
                    assert(old(self).session_table@[a] == self.session_table@[a]);
                    assert(!old(self).session_table@.contains(sid));
                }
            }
        }
    }

    /// Thread `tid` can be looked up: it is registered, its record is
    /// still held, and so is its owning process's.
    pub open spec fn thread_gettable(self, tid: Pid) -> bool {
        self.registered_thread(tid) && self.has_thread(tid) && self.has_proc(
            self.thread_of(tid).pid,
        )
    }

    /// Find the thread with the given tid, or fail `ESRCH`.
    pub fn get_thread(&self, tid: Pid) -> (r: Result<&Thread, LinuxError>)
        requires
            self.wf(),
        ensures
            match r {
                Ok(t) => self.thread_gettable(tid) && *t == self.thread_of(tid),
                Err(e) => !self.thread_gettable(tid) && e == LinuxError::ESRCH,
            },
    {
        if !id_listed(&self.thread_table, tid) {
            return Err(LinuxError::ESRCH);
        }
        match self.find_thread(tid) {
            Some(i) => {
                let t = &self.threads[i];
                match self.find_process(t.pid) {
                    Some(_) => Ok(t),
                    None => Err(LinuxError::ESRCH),
                }
            },
            None => Err(LinuxError::ESRCH),
        }
    }

    /// Process `pid` can be looked up: registered and still held.
    pub open spec fn proc_gettable(self, pid: Pid) -> bool {
        self.registered_proc(pid) && self.has_proc(pid)
    }

    /// Find the process with the given pid, or fail `ESRCH`.
    pub fn get_process(&self, pid: Pid) -> (r: Result<&Process, LinuxError>)
        requires
            self.wf(),
        ensures
            match r {
                Ok(p) => self.proc_gettable(pid) && *p == self.proc_of(pid),
                Err(e) => !self.proc_gettable(pid) && e == LinuxError::ESRCH,
            },
    {
        if !id_listed(&self.process_table, pid) {
            return Err(LinuxError::ESRCH);
        }
        match self.find_process(pid) {
            Some(i) => Ok(&self.processes[i]),
            None => Err(LinuxError::ESRCH),
        }
    }

    /// Some process record still belongs to group `pgid` — the group is
    /// held strongly by a member.
    pub open spec fn group_live(self, pgid: Pid) -> bool {
        exists|i: int| 0 <= i < self.processes@.len() && self.processes@[i].pgid == pgid
    }

    /// True iff some process record belongs to group `pgid`.
    fn any_process_in_group(&self, pgid: Pid) -> (r: bool)
        ensures
            r == self.group_live(pgid),
    {
        let n = self.processes.len();
        let mut i: usize = 0;
        while i < n
            invariant
                n == self.processes@.len(),
                i <= n,
                forall|j: int| 0 <= j < i ==> self.processes@[j].pgid != pgid,
            decreases n - i,
        {
            if self.processes[i].pgid == pgid {
                assert(self.group_live(pgid));
                return true;
            }
            i += 1;
        }
        false
    }

    /// Process group `pgid` can be looked up: registered and still held
    /// by a member process.
    pub open spec fn group_gettable(self, pgid: Pid) -> bool {
        self.registered_group(pgid) && self.group_live(pgid)
    }

    /// Find the process group with the given pgid, or fail `ESRCH`.
    pub fn get_process_group(&self, pgid: Pid) -> (r: Result<&ProcessGroup, LinuxError>)
        requires
            self.wf(),
        ensures
            match r {
                Ok(g) => self.group_gettable(pgid) && *g == self.group_of(pgid),
                Err(e) => !self.group_gettable(pgid) && e == LinuxError::ESRCH,
            },
    {
        if !id_listed(&self.process_group_table, pgid) {
            return Err(LinuxError::ESRCH);
        }
        if !self.any_process_in_group(pgid) {
            return Err(LinuxError::ESRCH);
        }
        proof {
            let i = choose|i: int|
                0 <= i < self.processes@.len() && self.processes@[i].pgid == pgid;
            assert(self.proc_wf(self.processes@[i]));
        }
        match self.find_group(pgid) {
            Some(i) => Ok(&self.groups[i]),
            None => {
                proof {
                    assert(false);
                }
                Err(LinuxError::ESRCH)
            },
        }
    }

    /// Some process record's group belongs to session `sid` — the
    /// session is held strongly through a member chain.
    pub open spec fn session_live(self, sid: Pid) -> bool {
        exists|i: int|
            0 <= i < self.processes@.len() && self.has_group(self.processes@[i].pgid)
                && self.group_of(self.processes@[i].pgid).sid == sid
    }

    /// True iff some process record's group belongs to session `sid`.
    fn any_process_in_session(&self, sid: Pid) -> (r: bool)
        requires
            self.wf(),
        ensures
            r == self.session_live(sid),
    {
        let n = self.processes.len();
        let mut i: usize = 0;
        while i < n
            invariant
                self.wf(),
                n == self.processes@.len(),
                i <= n,
                forall|j: int|
                    0 <= j < i ==> !(self.has_group((#[trigger] self.processes@[j]).pgid)
                        && self.group_of(self.processes@[j].pgid).sid == sid),
            decreases n - i,
        {
            let pgid = self.processes[i].pgid;
            proof {
                assert(self.proc_wf(self.processes@[i as int]));
            }
            match self.find_group(pgid) {
                Some(g) => {
                    if self.groups[g].sid == sid {
                        assert(self.session_live(sid));
                        return true;
                    }
                },
                None => {
                    proof {
                        assert(false);
                    }
                },
            }
            i += 1;
        }
        false
    }

    /// Session `sid` can be looked up: registered and still held through
    /// a member chain.
    pub open spec fn session_gettable(self, sid: Pid) -> bool {
        self.registered_session(sid) && self.session_live(sid)
    }

    /// Find the session with the given sid, or fail `ESRCH`.
    pub fn get_session(&self, sid: Pid) -> (r: Result<&Session, LinuxError>)
        requires
            self.wf(),
        ensures
            match r {
                Ok(s) => self.session_gettable(sid) && s.sid == sid,
                Err(e) => !self.session_gettable(sid) && e == LinuxError::ESRCH,
            },
    {
        if !id_listed(&self.session_table, sid) {
            return Err(LinuxError::ESRCH);
        }
        if !self.any_process_in_session(sid) {
            return Err(LinuxError::ESRCH);
        }
        proof {
            let i = choose|i: int|
                0 <= i < self.processes@.len() && self.has_group(self.processes@[i].pgid)
                    && self.group_of(self.processes@[i].pgid).sid == sid;
            let pgid = self.processes@[i].pgid;
            let g = crate::table::key_idx(self.groups@, pgid as u64);
            assert(0 <= g < self.groups@.len() && self.groups@[g].pgid == pgid);
        }
        let r = crate::table::find_key(&self.sessions, sid as u64);
        match r {
            Some(i) => Ok(&self.sessions[i]),
            None => {
                proof {
                    assert(false);
                }
                Err(LinuxError::ESRCH)
            },
        }
    }

    /// The registered pids whose process record is still held, in
    /// registration order.
    pub open spec fn live_pids(self, s: Seq<Pid>) -> Seq<Pid>
        decreases s.len(),
    {
        if s.len() == 0 {
            Seq::empty()
        } else if self.has_proc(s.last()) {
            self.live_pids(s.drop_last()).push(s.last())
        } else {
            self.live_pids(s.drop_last())
        }
    }

    /// List all live processes: every registered pid whose record is
    /// still held, in registration order.
    pub fn processes(&self) -> (r: Vec<Pid>)
        requires
            self.wf(),
        ensures
            r@ == self.live_pids(self.process_table@),
            forall|p: Pid|
                r@.contains(p) <==> (self.registered_proc(p) && #[trigger] self.has_proc(p)),
    {
        let n = self.process_table.len();
        let mut r: Vec<Pid> = Vec::new();
        let mut i: usize = 0;
        while i < n
            invariant
                self.wf(),
                n == self.process_table@.len(),
                i <= n,
                r@ == self.live_pids(self.process_table@.take(i as int)),
            decreases n - i,
        {
            let pid = self.process_table[i];
            proof {
                let pre = self.process_table@.take(i as int);
                let cur = self.process_table@.take(i as int + 1);
                assert(cur.drop_last() =~= pre);
                assert(cur.last() == pid);
            }
            match self.find_process(pid) {
                Some(_) => {
                    r.push(pid);
                },
                None => {},
            }
            i += 1;
        }
        proof {
            assert(self.process_table@.take(n as int) =~= self.process_table@);
            self.lemma_live_pids_contains(self.process_table@);
        }
        r
    }

    /// A pid is in the live list iff it is registered and still held.
    pub proof fn lemma_live_pids_contains(self, s: Seq<Pid>)
        ensures
            forall|p: Pid| self.live_pids(s).contains(p) <==> (s.contains(p) && self.has_proc(p)),
        decreases s.len(),
    {
        if s.len() == 0 {
        } else {
            self.lemma_live_pids_contains(s.drop_last());
            let rest = self.live_pids(s.drop_last());
            assert forall|p: Pid|
                self.live_pids(s).contains(p) <==> (s.contains(p) && self.has_proc(p)) by {
                if self.live_pids(s).contains(p) {
                    if self.has_proc(s.last()) {
                        let k = choose|k: int|
                            0 <= k < self.live_pids(s).len() && self.live_pids(s)[k] == p;
                        if k == self.live_pids(s).len() - 1 {
                            assert(p == s.last());
                            assert(s.contains(p)) by {
                                assert(s[s.len() - 1] == p);
                            }
                        } else {
                            assert(rest.contains(p));
                            assert(s.drop_last().contains(p));
                            let m = choose|m: int| 0 <= m < s.drop_last().len() && s.drop_last()[m]
                                == p;
                            assert(s.drop_last()[m] == s[m]);
                            assert(s.contains(p)) by {
                                assert(s[m] == p);
                            }
                        }
                    } else {
                        assert(rest.contains(p));
                        assert(s.drop_last().contains(p));
                        let m = choose|m: int| 0 <= m < s.drop_last().len() && s.drop_last()[m]
                            == p;
                        assert(s.drop_last()[m] == s[m]);
                        assert(s.contains(p)) by {
                            assert(s[m] == p);
                        }
                    }
                }
                if s.contains(p) && self.has_proc(p) {
                    let m = choose|m: int| 0 <= m < s.len() && s[m] == p;
                    if m == s.len() - 1 {
                        assert(self.has_proc(s.last()));
                        assert(self.live_pids(s).last() == p);
                        assert(self.live_pids(s).contains(p)) by {
                            let n = self.live_pids(s).len();
                            assert(self.live_pids(s)[n - 1] == p);
                        }
                    } else {
                        assert(s.drop_last()[m] == s[m]);
                        assert(s.drop_last().contains(p)) by {
                            assert(s.drop_last()[m] == p);
                        }
                        assert(rest.contains(p));
                        let k = choose|k: int| 0 <= k < rest.len() && rest[k] == p;
                        if self.has_proc(s.last()) {
                            assert(self.live_pids(s)[k] == p);
                        } else {
                            assert(self.live_pids(s)[k] == p);
                        }
                    }
                }
            }
        }
    }
}

} // verus!
