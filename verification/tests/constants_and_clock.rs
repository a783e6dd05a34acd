//! The flag and signal constants held against the real Linux ABI
//! bindings, and the clock computations on concrete values.

use linux_raw_sys::general as abi;
use starry_process::cred::Credentials;
use starry_process::error::LinuxError;
use starry_process::flags;
use starry_process::signo::{Signo, MAX_SIGNO, SIGCHLD, SIGKILL};
use starry_process::stat::Stat;
use starry_process::timeapi::{
    sys_clock_getres, sys_clock_gettime, sys_clock_nanosleep, sys_gettimeofday, sys_settimeofday,
    sys_times, TimeSpec, TimeVal, CLOCK_MONOTONIC, CLOCK_REALTIME, TIMER_ABSTIME,
};

#[test]
fn clone_flag_constants_match_linux() {
    assert_eq!(flags::CLONE_VM, abi::CLONE_VM);
    assert_eq!(flags::CLONE_FS, abi::CLONE_FS);
    assert_eq!(flags::CLONE_FILES, abi::CLONE_FILES);
    assert_eq!(flags::CLONE_SIGHAND, abi::CLONE_SIGHAND);
    assert_eq!(flags::CLONE_PTRACE, abi::CLONE_PTRACE);
    assert_eq!(flags::CLONE_VFORK, abi::CLONE_VFORK);
    assert_eq!(flags::CLONE_PARENT, abi::CLONE_PARENT);
    assert_eq!(flags::CLONE_THREAD, abi::CLONE_THREAD);
    assert_eq!(flags::CLONE_NEWNS, abi::CLONE_NEWNS);
    assert_eq!(flags::CLONE_SYSVSEM, abi::CLONE_SYSVSEM);
    assert_eq!(flags::CLONE_SETTLS, abi::CLONE_SETTLS);
    assert_eq!(flags::CLONE_PARENT_SETTID, abi::CLONE_PARENT_SETTID);
    assert_eq!(flags::CLONE_CHILD_CLEARTID, abi::CLONE_CHILD_CLEARTID);
    assert_eq!(flags::CLONE_UNTRACED, abi::CLONE_UNTRACED);
    assert_eq!(flags::CLONE_CHILD_SETTID, abi::CLONE_CHILD_SETTID);
    assert_eq!(flags::CLONE_NEWCGROUP, abi::CLONE_NEWCGROUP);
    assert_eq!(flags::CLONE_NEWUTS, abi::CLONE_NEWUTS);
    assert_eq!(flags::CLONE_NEWIPC, abi::CLONE_NEWIPC);
    assert_eq!(flags::CLONE_NEWUSER, abi::CLONE_NEWUSER);
    assert_eq!(flags::CLONE_NEWPID, abi::CLONE_NEWPID);
    assert_eq!(flags::CLONE_NEWNET, abi::CLONE_NEWNET);
    assert_eq!(flags::CLONE_IO, abi::CLONE_IO);
    assert_eq!(flags::CLONE_SIGNAL_MASK, abi::CSIGNAL);
}

#[test]
fn signal_numbers_match_linux() {
    assert_eq!(SIGCHLD as u32, abi::SIGCHLD);
    assert_eq!(SIGKILL as u32, abi::SIGKILL);
}

#[test]
fn flag_extraction_splits_signal_byte() {
    let raw = abi::CLONE_VM | abi::CLONE_VFORK | abi::SIGCHLD;
    assert_eq!(flags::exit_signal_byte(raw), abi::SIGCHLD);
    let f = flags::CloneFlags::from_raw(raw);
    assert!(f.contains(flags::CLONE_VM));
    assert!(f.contains(flags::CLONE_VFORK));
    assert!(!f.contains(flags::CLONE_THREAD));
}

#[test]
fn signo_from_repr_bounds() {
    assert_eq!(Signo::from_repr(0), None);
    assert_eq!(Signo::from_repr(1), Some(Signo(1)));
    assert_eq!(Signo::from_repr(SIGCHLD), Some(Signo(SIGCHLD)));
    assert_eq!(Signo::from_repr(MAX_SIGNO), Some(Signo(MAX_SIGNO)));
    assert_eq!(Signo::from_repr(MAX_SIGNO + 1), None);
}

#[test]
fn default_credentials_are_root() {
    let c = Credentials::default();
    assert_eq!(c.uid, 0);
    assert_eq!(c.euid, 0);
    assert_eq!(c.gid, 0);
    assert_eq!(c.egid, 0);
}

#[test]
fn stat_new_is_zeroed() {
    let s = Stat::new();
    assert_eq!(s, Stat::default());
    assert_eq!(s.ino, 0);
    assert_eq!(s.size, 0);
}

#[test]
fn clock_gettime_splits_nanos() {
    let t = sys_clock_gettime(CLOCK_REALTIME, 3_500_000_001, 9).unwrap();
    assert_eq!(t, TimeSpec { tv_sec: 3, tv_nsec: 500_000_001 });
    let m = sys_clock_gettime(CLOCK_MONOTONIC, 3_500_000_001, 2_000_000_009).unwrap();
    assert_eq!(m, TimeSpec { tv_sec: 2, tv_nsec: 9 });
    assert_eq!(sys_clock_gettime(7, 1, 1), Err(LinuxError::EINVAL));
}

#[test]
fn gettimeofday_splits_micros() {
    let t = sys_gettimeofday(3_500_001_999);
    assert_eq!(t, TimeVal { tv_sec: 3, tv_usec: 500_001 });
}

#[test]
fn clock_getres_reports_tick() {
    let r = sys_clock_getres(CLOCK_MONOTONIC, 100).unwrap();
    assert_eq!(r, TimeSpec { tv_sec: 0, tv_nsec: 100 });
    assert_eq!(sys_clock_getres(9, 100), Err(LinuxError::EINVAL));
}

#[test]
fn clock_nanosleep_validates_and_computes() {
    let bad = TimeSpec { tv_sec: 1, tv_nsec: 1_000_000_000 };
    assert_eq!(sys_clock_nanosleep(CLOCK_MONOTONIC, 0, bad, 0), Err(LinuxError::EINVAL));
    let neg = TimeSpec { tv_sec: -1, tv_nsec: 0 };
    assert_eq!(sys_clock_nanosleep(CLOCK_MONOTONIC, 0, neg, 0), Err(LinuxError::EINVAL));
    let rel = TimeSpec { tv_sec: 2, tv_nsec: 5 };
    assert_eq!(sys_clock_nanosleep(CLOCK_MONOTONIC, 0, rel, 999).unwrap(), rel);
    // An absolute deadline sleeps only the remaining time.
    let abs = TimeSpec { tv_sec: 3, tv_nsec: 0 };
    let d = sys_clock_nanosleep(CLOCK_REALTIME, TIMER_ABSTIME, abs, 1_000_000_001).unwrap();
    assert_eq!(d, TimeSpec { tv_sec: 1, tv_nsec: 999_999_999 });
    // An expired deadline sleeps zero.
    let z = sys_clock_nanosleep(CLOCK_REALTIME, TIMER_ABSTIME, abs, 4_000_000_000).unwrap();
    assert_eq!(z, TimeSpec { tv_sec: 0, tv_nsec: 0 });
}

#[test]
fn settimeofday_validates_and_converts() {
    let t = TimeVal { tv_sec: 11, tv_usec: 250 };
    assert_eq!(
        sys_settimeofday(Some(t), false).unwrap(),
        Some(TimeSpec { tv_sec: 11, tv_nsec: 250_000 })
    );
    assert_eq!(sys_settimeofday(None, true).unwrap(), None);
    let bad = TimeVal { tv_sec: 1, tv_usec: 1_000_000 };
    assert_eq!(sys_settimeofday(Some(bad), false), Err(LinuxError::EINVAL));
}

#[test]
fn times_packs_totals() {
    let t = sys_times(40, 2);
    assert_eq!(t.tms_utime, 40);
    assert_eq!(t.tms_stime, 2);
    assert_eq!(t.tms_cutime, 40);
    assert_eq!(t.tms_cstime, 2);
}
