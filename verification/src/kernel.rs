//! The kernel's process-model state.
//!
//! All live objects of the model — threads, processes, process groups,
//! sessions, address spaces — live in keyed tables owned by one `Kernel`
//! value, together with the four identity-registry tables and the two
//! freshness counters. Every verified transition takes the state
//! explicitly; the external scheduler decides only *when* each transition
//! runs, never what it does.

use vstd::prelude::*;

use crate::aspace::AddrSpace;
use crate::cred::Credentials;
use crate::signo::Signo;
use crate::table::{find_key, has_key, key_at, key_idx, lemma_key_idx_is, lemma_push_fresh_key,
    unique_keys, Keyed};
use crate::task::{Context, FreshHandles, Pid, Process, ProcessData, ProcessGroup, Session,
    TaskState, Thread, ThreadData};

verus! {

/// Largest thread/process identifier.
pub const PID_MAX: u32 = 0xFFFF_FFFF;

/// Largest resource handle.
pub const HANDLE_MAX: u64 = 0xFFFF_FFFF_FFFF_FFFF;

/// No identifier occurs twice in the list.
pub open spec fn no_dup_ids(s: Seq<u32>) -> bool {
    forall|i: int, j: int| 0 <= i < s.len() && 0 <= j < s.len() && i != j ==> s[i] != s[j]
}

/// The whole process-model state.
#[derive(Debug)]
pub struct Kernel {
    /// Thread records, keyed by tid.
    pub threads: Vec<Thread>,
    /// Process records, keyed by pid; zombies stay until reaped.
    pub processes: Vec<Process>,
    /// Process-group records, keyed by pgid.
    pub groups: Vec<ProcessGroup>,
    /// Session records, keyed by sid.
    pub sessions: Vec<Session>,
    /// Address spaces, keyed by handle.
    pub aspaces: Vec<AddrSpace>,
    /// Identity registry: registered tids.
    pub thread_table: Vec<Pid>,
    /// Identity registry: registered pids.
    pub process_table: Vec<Pid>,
    /// Identity registry: registered pgids.
    pub process_group_table: Vec<Pid>,
    /// Identity registry: registered sids.
    pub session_table: Vec<Pid>,
    /// Next unused thread/process identifier.
    pub next_task_id: Pid,
    /// Next unused resource handle.
    pub next_handle: u64,
}

impl Kernel {
    /// A record exists for thread `tid`.
    pub open spec fn has_thread(self, tid: Pid) -> bool {
        has_key(self.threads@, tid as u64)
    }

    /// The record of thread `tid`.
    pub open spec fn thread_of(self, tid: Pid) -> Thread {
        key_at(self.threads@, tid as u64)
    }

    /// A record exists for process `pid`.
    pub open spec fn has_proc(self, pid: Pid) -> bool {
        has_key(self.processes@, pid as u64)
    }

    /// The record of process `pid`.
    pub open spec fn proc_of(self, pid: Pid) -> Process {
        key_at(self.processes@, pid as u64)
    }

    /// A record exists for process group `pgid`.
    pub open spec fn has_group(self, pgid: Pid) -> bool {
        has_key(self.groups@, pgid as u64)
    }

    /// The record of process group `pgid`.
    pub open spec fn group_of(self, pgid: Pid) -> ProcessGroup {
        key_at(self.groups@, pgid as u64)
    }

    /// A record exists for session `sid`.
    pub open spec fn has_session(self, sid: Pid) -> bool {
        has_key(self.sessions@, sid as u64)
    }

    /// A record exists for address space `id`.
    pub open spec fn has_aspace(self, id: u64) -> bool {
        has_key(self.aspaces@, id)
    }

    /// The address space under handle `id`.
    pub open spec fn aspace_of(self, id: u64) -> AddrSpace {
        key_at(self.aspaces@, id)
    }

    /// Thread `tid` exists and has not exited.
    pub open spec fn thread_live(self, tid: Pid) -> bool {
        self.has_thread(tid) && self.thread_of(tid).state != TaskState::Exited
    }

    /// Thread `tid` exists and is schedulable — the state a thread must
    /// be in to enter a syscall.
    pub open spec fn caller_ok(self, tid: Pid) -> bool {
        self.has_thread(tid) && self.thread_of(tid).state == TaskState::Ready
    }

    /// The process record of the thread `tid`'s owner.
    pub open spec fn proc_of_thread(self, tid: Pid) -> Process {
        self.proc_of(self.thread_of(tid).pid)
    }

    /// `tid` stands in the registry's thread table.
    pub open spec fn registered_thread(self, tid: Pid) -> bool {
        self.thread_table@.contains(tid)
    }

    /// `pid` stands in the registry's process table.
    pub open spec fn registered_proc(self, pid: Pid) -> bool {
        self.process_table@.contains(pid)
    }

    /// `pgid` stands in the registry's process-group table.
    pub open spec fn registered_group(self, pgid: Pid) -> bool {
        self.process_group_table@.contains(pgid)
    }

    /// `sid` stands in the registry's session table.
    pub open spec fn registered_session(self, sid: Pid) -> bool {
        self.session_table@.contains(sid)
    }

    /// Well-formedness of one thread record within the state.
    pub open spec fn thread_wf(self, t: Thread) -> bool {
        &&& t.tid < self.next_task_id
        &&& t.state != TaskState::Exited ==> self.has_proc(t.pid)
        &&& t.state != TaskState::Exited ==> t.data.signal == self.proc_of(t.pid).data.signal
    }

    /// Well-formedness of one process record within the state.
    pub open spec fn proc_wf(self, p: Process) -> bool {
        &&& p.pid < self.next_task_id
        &&& self.has_aspace(p.data.aspace)
        &&& self.has_group(p.pgid)
        &&& p.data.aspace < self.next_handle
        &&& p.data.signal < self.next_handle
        &&& p.data.signal_actions < self.next_handle
        &&& p.data.futex_table < self.next_handle
        &&& p.data.fd_table < self.next_handle
        &&& p.data.cwd < self.next_handle
    }

    /// Well-formedness of the whole state: unique keys everywhere, weak
    /// references resolvable where an owner still holds them strongly,
    /// and counters ahead of every allocated identifier.
    pub open spec fn wf(self) -> bool {
        &&& unique_keys(self.threads@)
        &&& unique_keys(self.processes@)
        &&& unique_keys(self.groups@)
        &&& unique_keys(self.sessions@)
        &&& unique_keys(self.aspaces@)
        &&& no_dup_ids(self.thread_table@)
        &&& no_dup_ids(self.process_table@)
        &&& no_dup_ids(self.process_group_table@)
        &&& no_dup_ids(self.session_table@)
        &&& forall|i: int|
            0 <= i < self.threads@.len() ==> self.thread_wf(#[trigger] self.threads@[i])
        &&& forall|i: int|
            0 <= i < self.processes@.len() ==> self.proc_wf(#[trigger] self.processes@[i])
        &&& forall|i: int|
            0 <= i < self.groups@.len() ==> (#[trigger] self.groups@[i]).pgid < self.next_task_id
                && self.has_session(self.groups@[i].sid)
        &&& forall|i: int|
            0 <= i < self.sessions@.len() ==> (#[trigger] self.sessions@[i]).sid
                < self.next_task_id
        &&& forall|i: int|
            0 <= i < self.aspaces@.len() ==> (#[trigger] self.aspaces@[i]).wf()
                && self.aspaces@[i].id < self.next_handle
        &&& forall|i: int|
            0 <= i < self.thread_table@.len() ==> #[trigger] self.thread_table@[i]
                < self.next_task_id
        &&& forall|i: int|
            0 <= i < self.process_table@.len() ==> #[trigger] self.process_table@[i]
                < self.next_task_id
        &&& forall|i: int|
            0 <= i < self.process_group_table@.len() ==> #[trigger] self.process_group_table@[i]
                < self.next_task_id
        &&& forall|i: int|
            0 <= i < self.session_table@.len() ==> #[trigger] self.session_table@[i]
                < self.next_task_id
    }

    /// The record tables of `a` and `b` are identical.
    pub open spec fn same_records(a: Kernel, b: Kernel) -> bool {
        &&& a.threads@ == b.threads@
        &&& a.processes@ == b.processes@
        &&& a.groups@ == b.groups@
        &&& a.sessions@ == b.sessions@
        &&& a.aspaces@ == b.aspaces@
    }

    /// The registry tables of `a` and `b` are identical.
    pub open spec fn same_registry(a: Kernel, b: Kernel) -> bool {
        &&& a.thread_table@ == b.thread_table@
        &&& a.process_table@ == b.process_table@
        &&& a.process_group_table@ == b.process_group_table@
        &&& a.session_table@ == b.session_table@
    }

    /// No identifier at or above a counter is in use.
    pub proof fn lemma_counter_fresh(self)
        requires
            self.wf(),
        ensures
            forall|x: Pid|
                x >= self.next_task_id ==> !self.has_thread(x) && !self.has_proc(x)
                    && !self.has_group(x) && !(#[trigger] self.has_session(x)),
            forall|h: u64| h >= self.next_handle ==> !(#[trigger] self.has_aspace(h)),
            forall|x: Pid|
                x >= self.next_task_id ==> !self.registered_thread(x) && !self.registered_proc(x)
                    && !self.registered_group(x) && !(#[trigger] self.registered_session(x)),
    {
        assert forall|x: Pid|
            x >= self.next_task_id implies !self.has_thread(x) && !self.has_proc(x)
            && !self.has_group(x) && !(#[trigger] self.has_session(x)) by {
            if self.has_thread(x) {
                let i = key_idx(self.threads@, x as u64);
                assert(0 <= i < self.threads@.len() && self.threads@[i].spec_key() == x as u64);
                assert(self.thread_wf(self.threads@[i]));
            }
            if self.has_proc(x) {
                let i = key_idx(self.processes@, x as u64);
                assert(0 <= i < self.processes@.len() && self.processes@[i].spec_key() == x as u64);
                assert(self.proc_wf(self.processes@[i]));
            }
            if self.has_group(x) {
                let i = key_idx(self.groups@, x as u64);
                assert(0 <= i < self.groups@.len() && self.groups@[i].spec_key() == x as u64);
            }
            if self.has_session(x) {
                let i = key_idx(self.sessions@, x as u64);
                assert(0 <= i < self.sessions@.len() && self.sessions@[i].spec_key() == x as u64);
            }
        }
        assert forall|h: u64| h >= self.next_handle implies !(#[trigger] self.has_aspace(h)) by {
            if self.has_aspace(h) {
                let i = key_idx(self.aspaces@, h);
                assert(0 <= i < self.aspaces@.len() && self.aspaces@[i].spec_key() == h);
            }
        }
        assert forall|x: Pid|
            x >= self.next_task_id implies !self.registered_thread(x) && !self.registered_proc(x)
            && !self.registered_group(x) && !(#[trigger] self.registered_session(x)) by {
            if self.registered_thread(x) {
                let i = choose|i: int|
                    0 <= i < self.thread_table@.len() && self.thread_table@[i] == x;
                assert(self.thread_table@[i] < self.next_task_id);
            }
            if self.registered_proc(x) {
                let i = choose|i: int|
                    0 <= i < self.process_table@.len() && self.process_table@[i] == x;
                assert(self.process_table@[i] < self.next_task_id);
            }
            if self.registered_group(x) {
                let i = choose|i: int|
                    0 <= i < self.process_group_table@.len() && self.process_group_table@[i] == x;
                assert(self.process_group_table@[i] < self.next_task_id);
            }
            if self.registered_session(x) {
                let i = choose|i: int|
                    0 <= i < self.session_table@.len() && self.session_table@[i] == x;
                assert(self.session_table@[i] < self.next_task_id);
            }
        }
    }

    /// The empty state: no objects, no registrations.
    pub fn new() -> (r: Kernel)
        ensures
            r.wf(),
            r.threads@.len() == 0,
            r.processes@.len() == 0,
            r.groups@.len() == 0,
            r.sessions@.len() == 0,
            r.aspaces@.len() == 0,
            r.thread_table@.len() == 0,
            r.process_table@.len() == 0,
            r.process_group_table@.len() == 0,
            r.session_table@.len() == 0,
            r.next_task_id == 1,
            r.next_handle == 1,
    {
        Kernel {
            threads: Vec::new(),
            processes: Vec::new(),
            groups: Vec::new(),
            sessions: Vec::new(),
            aspaces: Vec::new(),
            thread_table: Vec::new(),
            process_table: Vec::new(),
            process_group_table: Vec::new(),
            session_table: Vec::new(),
            next_task_id: 1,
            next_handle: 1,
        }
    }

    /// Allocate a fresh thread/process identifier.
    pub fn alloc_tid(&mut self) -> (tid: Pid)
        requires
            old(self).next_task_id < PID_MAX,
        ensures
            tid == old(self).next_task_id,
            final(self).next_task_id == old(self).next_task_id + 1,
            final(self).next_handle == old(self).next_handle,
            Kernel::same_records(*final(self), *old(self)),
            Kernel::same_registry(*final(self), *old(self)),
    {
        let tid = self.next_task_id;
        self.next_task_id = self.next_task_id + 1;
        tid
    }

    /// Allocate a fresh resource handle.
    pub fn alloc_handle(&mut self) -> (h: u64)
        requires
            old(self).next_handle < HANDLE_MAX,
        ensures
            h == old(self).next_handle,
            final(self).next_handle == old(self).next_handle + 1,
            final(self).next_task_id == old(self).next_task_id,
            Kernel::same_records(*final(self), *old(self)),
            Kernel::same_registry(*final(self), *old(self)),
    {
        let h = self.next_handle;
        self.next_handle = self.next_handle + 1;
        h
    }

    /// Index of thread `tid` in the thread table.
    pub fn find_thread(&self, tid: Pid) -> (r: Option<usize>)
        requires
            self.wf(),
        ensures
            match r {
                Some(i) => i < self.threads@.len() && self.has_thread(tid) && key_idx(
                    self.threads@,
                    tid as u64,
                ) == i as int && self.threads@[i as int] == self.thread_of(tid),
                None => !self.has_thread(tid),
            },
    {
        let r = find_key(&self.threads, tid as u64);
        proof {
            if r is Some {
                lemma_key_idx_is(self.threads@, r->0 as int);
            }
        }
        r
    }

    /// Index of process `pid` in the process table.
    pub fn find_process(&self, pid: Pid) -> (r: Option<usize>)
        requires
            self.wf(),
        ensures
            match r {
                Some(i) => i < self.processes@.len() && self.has_proc(pid) && key_idx(
                    self.processes@,
                    pid as u64,
                ) == i as int && self.processes@[i as int] == self.proc_of(pid),
                None => !self.has_proc(pid),
            },
    {
        let r = find_key(&self.processes, pid as u64);
        proof {
            if r is Some {
                lemma_key_idx_is(self.processes@, r->0 as int);
            }
        }
        r
    }

    /// Index of process group `pgid` in the group table.
    pub fn find_group(&self, pgid: Pid) -> (r: Option<usize>)
        requires
            self.wf(),
        ensures
            match r {
                Some(i) => i < self.groups@.len() && self.has_group(pgid) && key_idx(
                    self.groups@,
                    pgid as u64,
                ) == i as int && self.groups@[i as int] == self.group_of(pgid),
                None => !self.has_group(pgid),
            },
    {
        let r = find_key(&self.groups, pgid as u64);
        proof {
            if r is Some {
                lemma_key_idx_is(self.groups@, r->0 as int);
            }
        }
        r
    }

    /// Index of address space `id` in the address-space table.
    pub fn find_aspace(&self, id: u64) -> (r: Option<usize>)
        requires
            self.wf(),
        ensures
            match r {
                Some(i) => i < self.aspaces@.len() && self.has_aspace(id) && key_idx(
                    self.aspaces@,
                    id,
                ) == i as int && self.aspaces@[i as int] == self.aspace_of(id),
                None => !self.has_aspace(id),
            },
    {
        let r = find_key(&self.aspaces, id);
        proof {
            if r is Some {
                lemma_key_idx_is(self.aspaces@, r->0 as int);
            }
        }
        r
    }

    /// Create the initial process: a fresh session, group, process and
    /// thread, all sharing one new identifier, with an empty address
    /// space, default resources and root credentials.
    pub fn init(&mut self) -> (tid: Pid)
        requires
            old(self).wf(),
            old(self).next_task_id < PID_MAX,
            old(self).next_handle + 6 < HANDLE_MAX,
        ensures
            final(self).wf(),
            tid == old(self).next_task_id,
            final(self).caller_ok(tid),
            final(self).thread_of(tid).pid == tid,
            final(self).has_proc(tid),
            final(self).proc_of(tid).parent == None::<Pid>,
            final(self).proc_of(tid).pgid == tid,
            !final(self).proc_of(tid).exited,
            !final(self).proc_of(tid).group_exited,
            final(self).group_of(tid).sid == tid,
            final(self).has_session(tid),
            final(self).proc_of(tid).data.exit_signal == None::<Signo>,
            final(self).proc_of(tid).data.cred == (Credentials {
                uid: 0,
                euid: 0,
                gid: 0,
                egid: 0,
            }),
            final(self).proc_of(tid).data.vfork_completion == None::<Pid>,
            final(self).proc_of(tid).data.heap_bottom == crate::task::USER_HEAP_BASE,
            final(self).proc_of(tid).data.heap_top == crate::task::USER_HEAP_BASE,
            final(self).registered_thread(tid),
            final(self).registered_proc(tid),
            final(self).registered_group(tid),
            final(self).registered_session(tid),
            forall|t: Pid|
                t != tid && old(self).has_thread(t) ==> final(self).has_thread(t) && final(self).thread_of(t) == old(self).thread_of(t),
            forall|p: Pid|
                p != tid && old(self).has_proc(p) ==> final(self).has_proc(p) && final(self).proc_of(p) == old(self).proc_of(p),
    {
        proof {
            old(self).lemma_counter_fresh();
        }
        let tid = self.alloc_tid();
        let aspace_id = self.alloc_handle();
        let signal = self.alloc_handle();
        let actions = self.alloc_handle();
        let futex = self.alloc_handle();
        let fd = self.alloc_handle();
        let cwd = self.alloc_handle();

        let space = AddrSpace::empty(aspace_id);
        proof {
            lemma_push_fresh_key(self.aspaces@, space);
        }
        self.aspaces.push(space);

        let data = ProcessData::new(
            String::new(),
            aspace_id,
            actions,
            None,
            FreshHandles { signal, futex_table: futex },
            fd,
            cwd,
        );
        let tdata = ThreadData::new(&data);

        let sess = Session { sid: tid };
        proof {
            lemma_push_fresh_key(self.sessions@, sess);
        }
        self.sessions.push(sess);

        let grp = ProcessGroup { pgid: tid, sid: tid };
        proof {
            lemma_push_fresh_key(self.groups@, grp);
        }
        self.groups.push(grp);

        let proc = Process {
            pid: tid,
            parent: None,
            pgid: tid,
            exited: false,
            group_exited: false,
            exit_code: 0,
            data,
        };
        let ghost proc_g = proc;
        proof {
            lemma_push_fresh_key(self.processes@, proc_g);
        }
        self.processes.push(proc);

        let thread = Thread {
            tid,
            pid: tid,
            state: TaskState::Ready,
            ctx: Context { ip: 0, sp: 0, tls: 0, retval: 0 },
            data: tdata,
        };
        proof {
            lemma_push_fresh_key(self.threads@, thread);
        }
        self.threads.push(thread);

        proof {
            let k0 = *old(self);
            let k1 = *self;
            assert(k1.proc_of(tid) == proc_g);
            assert(k1.thread_of(tid) == thread);
            assert forall|i: int|
                0 <= i < k1.threads@.len() implies k1.thread_wf(#[trigger] k1.threads@[i]) by {
                if i < k0.threads@.len() {
                    let t = k0.threads@[i];
                    assert(k0.thread_wf(t));
                    if t.state != TaskState::Exited {
                        assert(t.pid as u64 != tid as u64);
                        assert(k1.proc_of(t.pid) == k0.proc_of(t.pid));
                    }
                } else {
                    assert(k1.threads@[i] == thread);
                }
            }
            assert forall|i: int|
                0 <= i < k1.processes@.len() implies k1.proc_wf(#[trigger] k1.processes@[i]) by {
                if i < k0.processes@.len() {
                    let p = k0.processes@[i];
                    assert(k0.proc_wf(p));
                    assert(p.pgid as u64 != tid as u64);
                    assert(p.data.aspace != aspace_id);
                } else {
                    assert(k1.processes@[i] == proc_g);
                }
            }
            assert forall|i: int|
                0 <= i < k1.groups@.len() implies (#[trigger] k1.groups@[i]).pgid
                < k1.next_task_id && k1.has_session(k1.groups@[i].sid) by {
                if i < k0.groups@.len() {
                    assert(k0.groups@[i].sid as u64 != tid as u64);
                    assert(k0.has_session(k0.groups@[i].sid));
                }
            }
            assert(k1.wf());
        }

        self.add_thread_to_table(tid);
        proof {
            assert forall|t: Pid|
                t != tid && old(self).has_thread(t) implies self.has_thread(t) && self.thread_of(t)
                == old(self).thread_of(t) by {
                assert(t as u64 != tid as u64);
            }
            assert forall|p: Pid|
                p != tid && old(self).has_proc(p) implies self.has_proc(p) && self.proc_of(p)
                == old(self).proc_of(p) by {
                assert(p as u64 != tid as u64);
            }
        }
        tid
    }
}

} // verus!
