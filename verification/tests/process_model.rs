//! End-to-end tests of the process-model state machine: creation,
//! sharing decisions, the vfork hand-off, the exit protocol, the
//! registry and reaping.

use starry_process::api::{FORK_RAW_FLAGS, VFORK_RAW_FLAGS};
use starry_process::clone::CloneArgs;
use starry_process::error::LinuxError;
use starry_process::exit::Action;
use starry_process::flags::{
    CLONE_CHILD_CLEARTID, CLONE_CHILD_SETTID, CLONE_PARENT, CLONE_SIGHAND, CLONE_THREAD, CLONE_VM,
};
use starry_process::kernel::Kernel;
use starry_process::signo::{Signo, SIGCHLD, SIGKILL};
use starry_process::task::TaskState;

fn clone_args(flags: u32) -> CloneArgs {
    CloneArgs { flags, stack: 0, parent_tid: 0, child_tid: 0, tls: 0 }
}

#[test]
fn init_creates_registered_process() {
    let mut k = Kernel::new();
    let tid = k.init();
    assert_eq!(k.sys_getpid(tid), tid);
    assert_eq!(k.getpid(tid), tid);
    assert!(k.get_thread(tid).is_ok());
    assert!(k.get_process(tid).is_ok());
    assert!(k.get_process_group(tid).is_ok());
    assert!(k.get_session(tid).is_ok());
    assert_eq!(k.processes(), vec![tid]);
    assert!(matches!(k.get_thread(99), Err(LinuxError::ESRCH)));
    assert!(matches!(k.get_process(99), Err(LinuxError::ESRCH)));
    assert!(matches!(k.get_process_group(99), Err(LinuxError::ESRCH)));
    assert!(matches!(k.get_session(99), Err(LinuxError::ESRCH)));
}

#[test]
fn clone_thread_requires_vm_and_sighand() {
    let mut k = Kernel::new();
    let t = k.init();
    assert_eq!(k.sys_clone(t, clone_args(CLONE_THREAD)), Err(LinuxError::EINVAL));
    assert_eq!(k.sys_clone(t, clone_args(CLONE_THREAD | CLONE_VM)), Err(LinuxError::EINVAL));
    assert_eq!(k.sys_clone(t, clone_args(CLONE_THREAD | CLONE_SIGHAND)), Err(LinuxError::EINVAL));
    let r = k.sys_clone(t, clone_args(CLONE_THREAD | CLONE_VM | CLONE_SIGHAND));
    assert!(r.is_ok());
}

#[test]
fn clone_rejects_exit_signal_with_thread_and_parent() {
    let mut k = Kernel::new();
    let t = k.init();
    let bad = CLONE_THREAD | CLONE_PARENT | CLONE_VM | CLONE_SIGHAND | SIGCHLD as u32;
    assert_eq!(k.sys_clone(t, clone_args(bad)), Err(LinuxError::EINVAL));
    // Without the exit-signal byte the same combination is accepted.
    let ok = CLONE_THREAD | CLONE_PARENT | CLONE_VM | CLONE_SIGHAND;
    assert!(k.sys_clone(t, clone_args(ok)).is_ok());
}

#[test]
fn fork_copies_heap_top() {
    let mut k = Kernel::new();
    let p = k.init();
    k.set_heap_top(p, 0x5000_0000);
    let c = k.fork(p).unwrap();
    // The parent mutating its own heap top never changes the child's.
    k.set_heap_top(p, 0x6000_0000);
    assert_eq!(k.get_heap_top(c), 0x5000_0000);
    assert_eq!(k.get_heap_top(p), 0x6000_0000);
    // And the other way around.
    k.set_heap_top(c, 0x7000_0000);
    assert_eq!(k.get_heap_top(p), 0x6000_0000);
}

#[test]
fn fork_copies_resources_and_records_exit_signal() {
    let mut k = Kernel::new();
    let p = k.init();
    let c = k.sys_fork(p).unwrap();
    let pd = k.get_process(p).unwrap();
    let (p_fd, p_cwd, p_futex, p_sig, p_aspace) = (
        pd.data.fd_table,
        pd.data.cwd,
        pd.data.futex_table,
        pd.data.signal,
        pd.data.aspace,
    );
    let cd = k.get_process(c).unwrap();
    assert_eq!(cd.parent, Some(p));
    assert_eq!(cd.pgid, k.get_process(p).unwrap().pgid);
    assert_eq!(cd.data.exit_signal, Some(Signo(SIGCHLD)));
    assert!(!cd.data.is_clone_child());
    // Every resource was copied, not shared.
    assert_ne!(cd.data.fd_table, p_fd);
    assert_ne!(cd.data.cwd, p_cwd);
    assert_ne!(cd.data.futex_table, p_futex);
    assert_ne!(cd.data.signal, p_sig);
    assert_ne!(cd.data.aspace, p_aspace);
}

#[test]
fn clone_child_with_unrecognized_signal_byte_is_clone_child() {
    let mut k = Kernel::new();
    let p = k.init();
    let c = k.sys_clone(p, clone_args(0)).unwrap();
    let cd = k.get_process(c).unwrap();
    assert_eq!(cd.data.exit_signal, None);
    assert!(cd.data.is_clone_child());
}

#[test]
fn vfork_blocks_parent_until_child_exits() {
    let mut k = Kernel::new();
    let p = k.init();
    let c = k.vfork(p).unwrap();
    // The parent is suspended, the child schedulable, sharing memory.
    assert_eq!(k.get_thread(p).unwrap().state, TaskState::BlockedVfork { child: c });
    assert_eq!(k.get_thread(c).unwrap().state, TaskState::Ready);
    assert_eq!(
        k.get_process(c).unwrap().data.aspace,
        k.get_process(p).unwrap().data.aspace
    );
    assert_eq!(k.get_process(c).unwrap().data.vfork_completion, Some(p));
    // The child exits with status 7; the parent resumes only now.
    k.exit(c, 7);
    assert_eq!(k.get_thread(p).unwrap().state, TaskState::Ready);
    // A subsequent reap observes exit status 7.
    let (reaped, status) = k.waitpid(p, -1, 0).unwrap();
    assert_eq!(reaped, c);
    assert_eq!((status >> 8) & 0xff, 7);
}

#[test]
fn exec_releases_vfork_parent() {
    let mut k = Kernel::new();
    let p = k.init();
    let c = k.sys_vfork(p).unwrap();
    assert_eq!(k.get_thread(p).unwrap().state, TaskState::BlockedVfork { child: c });
    assert_eq!(k.exec(c, String::from("/bin/worker")), 0);
    assert_eq!(k.get_thread(p).unwrap().state, TaskState::Ready);
    assert_eq!(k.get_process(c).unwrap().data.exe_path, "/bin/worker");
    assert_eq!(k.get_process(c).unwrap().data.vfork_completion, None);
}

#[test]
fn thread_clone_shares_futex_and_signal_identity() {
    let mut k = Kernel::new();
    let t1 = k.init();
    let t2 = k.sys_clone(t1, clone_args(CLONE_THREAD | CLONE_VM | CLONE_SIGHAND)).unwrap();
    let a = k.get_thread(t1).unwrap();
    let b = k.get_thread(t2).unwrap();
    // Same process, hence the same process-scoped singletons.
    assert_eq!(a.pid, b.pid);
    assert_eq!(a.data.signal, b.data.signal);
    let (pid_a, pid_b) = (a.pid, b.pid);
    let futex_a = k.get_process(pid_a).unwrap().data.futex_table;
    let futex_b = k.get_process(pid_b).unwrap().data.futex_table;
    assert_eq!(futex_a, futex_b);
    assert_eq!(k.processes().len(), 1);
}

#[test]
fn exit_group_terminates_all_threads() {
    let mut k = Kernel::new();
    let p = k.init();
    let c = k.fork(p).unwrap();
    let t2 = k.sys_clone(c, clone_args(CLONE_THREAD | CLONE_VM | CLONE_SIGHAND)).unwrap();
    let actions = k.sys_exit_group(c, 3);
    // Every thread of the process is sent the forced-termination signal.
    assert!(actions.iter().any(|a| *a == Action::SignalThread { tid: t2, signo: Signo(SIGKILL) }));
    assert!(actions.iter().any(|a| *a == Action::SignalThread { tid: c, signo: Signo(SIGKILL) }));
    assert!(k.get_process(c).unwrap().group_exited);
    // The sibling terminates when the signal lands; then the parent reaps.
    k.sys_exit(t2, 0);
    let (reaped, _status) = k.sys_waitpid(p, -1, 0).unwrap();
    assert_eq!(reaped, c);
    // After reaping, every sibling tid lookup reports no such entity.
    assert!(matches!(k.get_thread(t2), Err(LinuxError::ESRCH)));
    assert!(matches!(k.get_thread(c), Err(LinuxError::ESRCH)));
    assert!(matches!(k.get_process(c), Err(LinuxError::ESRCH)));
}

#[test]
fn registry_reregistration_is_idempotent() {
    let mut k = Kernel::new();
    let t = k.init();
    let threads = k.thread_table.clone();
    let procs = k.process_table.clone();
    let groups = k.process_group_table.clone();
    let sessions = k.session_table.clone();
    k.add_thread_to_table(t);
    assert_eq!(k.thread_table, threads);
    assert_eq!(k.process_table, procs);
    assert_eq!(k.process_group_table, groups);
    assert_eq!(k.session_table, sessions);
}

#[test]
fn clear_child_tid_word_zeroed_and_futex_woken_on_exit() {
    let mut k = Kernel::new();
    let p = k.init();
    k.map_user_word(p, 0x1000, 7);
    let c = k.sys_vfork(p).unwrap();
    k.set_clear_child_tid(c, 0x1000);
    assert_eq!(k.clear_child_tid(c), 0x1000);
    let futex_id = k.get_process(c).unwrap().data.futex_table;
    let actions = k.sys_exit(c, 0);
    assert!(actions.iter().any(|a| *a == Action::FutexWake { futex_table: futex_id, addr: 0x1000 }));
    assert!(actions.iter().any(|a| *a == Action::Yield));
    // The word was zeroed in the shared address space.
    assert_eq!(k.read_user_word(p, 0x1000), Some(0));
}

#[test]
fn child_settid_writes_child_copy_only() {
    let mut k = Kernel::new();
    let p = k.init();
    k.map_user_word(p, 0x2000, 1);
    let mut a = clone_args(SIGCHLD as u32 | CLONE_CHILD_SETTID | CLONE_CHILD_CLEARTID);
    a.child_tid = 0x2000;
    let c = k.sys_clone(p, a).unwrap();
    // The child's copy holds its tid; the parent's word is untouched.
    assert_eq!(k.read_user_word(c, 0x2000), Some(c));
    assert_eq!(k.read_user_word(p, 0x2000), Some(1));
    assert_eq!(k.clear_child_tid(c), 0x2000);
}

#[test]
fn child_settid_with_unmapped_address_faults() {
    let mut k = Kernel::new();
    let p = k.init();
    let mut a = clone_args(SIGCHLD as u32 | CLONE_CHILD_SETTID);
    a.child_tid = 0x3000;
    assert_eq!(k.sys_clone(p, a), Err(LinuxError::EFAULT));
}

#[test]
fn waitpid_error_cases() {
    let mut k = Kernel::new();
    let p = k.init();
    assert_eq!(k.sys_waitpid(p, 0, 0), Err(LinuxError::EINVAL));
    assert_eq!(k.sys_waitpid(p, -2, 0), Err(LinuxError::EINVAL));
    assert_eq!(k.sys_waitpid(p, -1, 0), Err(LinuxError::ECHILD));
    let c = k.fork(p).unwrap();
    assert_eq!(k.sys_waitpid(p, -1, 0), Err(LinuxError::EAGAIN));
    k.exit(c, 1);
    let (reaped, status) = k.wait(p).unwrap();
    assert_eq!(reaped, c);
    assert_eq!((status >> 8) & 0xff, 1);
    assert_eq!(k.sys_waitpid(p, -1, 0), Err(LinuxError::ECHILD));
}

#[test]
fn waitpid_selects_specific_child() {
    let mut k = Kernel::new();
    let p = k.init();
    let c1 = k.fork(p).unwrap();
    let c2 = k.fork(p).unwrap();
    k.exit(c1, 4);
    k.exit(c2, 5);
    let (reaped, status) = k.waitpid(p, c2 as i32, 0).unwrap();
    assert_eq!(reaped, c2);
    assert_eq!((status >> 8) & 0xff, 5);
    let (reaped1, status1) = k.waitpid(p, -1, 0).unwrap();
    assert_eq!(reaped1, c1);
    assert_eq!((status1 >> 8) & 0xff, 4);
}

#[test]
fn credentials_and_yield_and_pause() {
    let mut k = Kernel::new();
    let t = k.init();
    assert_eq!(k.sys_getuid(t), 0);
    assert_eq!(k.sys_geteuid(t), 0);
    assert_eq!(k.sys_getgid(t), 0);
    assert_eq!(k.sys_getegid(t), 0);
    assert_eq!(k.sched_yield(), 0);
    assert_eq!(k.sys_yield(), 0);
    assert_eq!(k.pause(t), LinuxError::EINTR);
    assert_eq!(k.get_thread(t).unwrap().state, TaskState::BlockedPause);
}

#[test]
fn fork_and_vfork_sugar_flag_words() {
    assert_eq!(FORK_RAW_FLAGS, SIGCHLD as u32);
    assert_eq!(VFORK_RAW_FLAGS, 0x4000 | 0x100 | SIGCHLD as u32);
}

#[test]
fn clone_parent_flag_uses_grandparent() {
    let mut k = Kernel::new();
    let p = k.init();
    let c = k.fork(p).unwrap();
    let mut a = clone_args(SIGCHLD as u32 | CLONE_PARENT);
    let g = k.sys_clone(c, a).unwrap();
    // The new process's parent is the caller's own parent, not the caller.
    assert_eq!(k.get_process(g).unwrap().parent, Some(p));
    // The initial process has no parent: CLONE_PARENT from it fails.
    a = clone_args(SIGCHLD as u32 | CLONE_PARENT);
    assert_eq!(k.sys_clone(p, a), Err(LinuxError::EINVAL));
}

#[test]
fn parent_settid_writes_parent_word() {
    let mut k = Kernel::new();
    let p = k.init();
    k.map_user_word(p, 0x4000, 0);
    let mut a = clone_args(SIGCHLD as u32 | starry_process::flags::CLONE_PARENT_SETTID);
    a.parent_tid = 0x4000;
    let c = k.sys_clone(p, a).unwrap();
    // The child's tid lands in the parent's word, and in the child's
    // copy, which was taken after the write.
    assert_eq!(k.read_user_word(p, 0x4000), Some(c));
    assert_eq!(k.read_user_word(c, 0x4000), Some(c));
    // An unmapped parent-tid address faults.
    let mut bad = clone_args(SIGCHLD as u32 | starry_process::flags::CLONE_PARENT_SETTID);
    bad.parent_tid = 0x9000;
    assert_eq!(k.sys_clone(p, bad), Err(LinuxError::EFAULT));
}

#[test]
fn heap_bottom_is_per_process() {
    let mut k = Kernel::new();
    let p = k.init();
    k.set_heap_bottom(p, 0x4100_0000);
    let c = k.fork(p).unwrap();
    assert_eq!(k.get_heap_bottom(c), 0x4100_0000);
    k.set_heap_bottom(c, 0x4200_0000);
    assert_eq!(k.get_heap_bottom(p), 0x4100_0000);
    assert_eq!(k.get_heap_bottom(c), 0x4200_0000);
}
