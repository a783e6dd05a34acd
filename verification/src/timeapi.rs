//! The compute half of the clock syscalls: argument validation, clock
//! selection and unit conversion. Reading or setting the hardware clock
//! and the actual sleeping belong to the external time service, which
//! hands these functions plain nanosecond counts.

use vstd::prelude::*;

use crate::error::LinuxError;

verus! {

/// Clock id of the wall clock.
pub const CLOCK_REALTIME: u32 = 0;

/// Clock id of the monotonic clock.
pub const CLOCK_MONOTONIC: u32 = 1;

/// Flag selecting an absolute deadline for `clock_nanosleep`.
pub const TIMER_ABSTIME: u32 = 1;

/// Nanoseconds in one second.
pub const NANOS_PER_SEC: u64 = 1_000_000_000;

/// A second/nanosecond instant or duration.
#[derive(Debug, Clone, Copy, PartialEq, Eq, Structural)]
pub struct TimeSpec {
    /// Whole seconds.
    pub tv_sec: i64,
    /// Nanoseconds within the second.
    pub tv_nsec: i64,
}

/// A second/microsecond instant.
#[derive(Debug, Clone, Copy, PartialEq, Eq, Structural)]
pub struct TimeVal {
    /// Whole seconds.
    pub tv_sec: i64,
    /// Microseconds within the second.
    pub tv_usec: i64,
}

/// Per-process CPU time totals, in clock ticks.
#[derive(Debug, Clone, Copy, PartialEq, Eq, Structural)]
pub struct Tms {
    /// User time.
    pub tms_utime: usize,
    /// System time.
    pub tms_stime: usize,
    /// User time of children.
    pub tms_cutime: usize,
    /// System time of children.
    pub tms_cstime: usize,
}

/// Split a nanosecond count into seconds and leftover nanoseconds.
pub fn timespec_from_nanos(nanos: u64) -> (r: TimeSpec)
    ensures
        r.tv_sec == nanos as int / (NANOS_PER_SEC as int),
        r.tv_nsec == nanos as int % (NANOS_PER_SEC as int),
        0 <= r.tv_nsec < NANOS_PER_SEC,
{
    let sec = nanos / NANOS_PER_SEC;
    let nsec = nanos % NANOS_PER_SEC;
    TimeSpec { tv_sec: sec as i64, tv_nsec: nsec as i64 }
}

/// `clock_gettime`: pick the named clock's reading and split it; any
/// other clock id is rejected.
pub fn sys_clock_gettime(clock_id: u32, wall_nanos: u64, monotonic_nanos: u64) -> (r: Result<
    TimeSpec,
    LinuxError,
>)
    ensures
        r is Err <==> clock_id != CLOCK_REALTIME && clock_id != CLOCK_MONOTONIC,
        r is Err ==> r == Err::<TimeSpec, LinuxError>(LinuxError::EINVAL),
        r is Ok ==> ({
            let now = if clock_id == CLOCK_REALTIME {
                wall_nanos
            } else {
                monotonic_nanos
            };
            r->Ok_0.tv_sec == now as int / (NANOS_PER_SEC as int) && r->Ok_0.tv_nsec == now as int
                % (NANOS_PER_SEC as int)
        }),
{
    if clock_id == CLOCK_REALTIME {
        Ok(timespec_from_nanos(wall_nanos))
    } else if clock_id == CLOCK_MONOTONIC {
        Ok(timespec_from_nanos(monotonic_nanos))
    } else {
        Err(LinuxError::EINVAL)
    }
}

/// `gettimeofday`: split the wall clock into seconds and microseconds.
pub fn sys_gettimeofday(wall_nanos: u64) -> (r: TimeVal)
    ensures
        r.tv_sec == wall_nanos as int / (NANOS_PER_SEC as int),
        r.tv_usec == (wall_nanos as int % (NANOS_PER_SEC as int)) / 1000,
        0 <= r.tv_usec < 1_000_000,
{
    let sec = wall_nanos / NANOS_PER_SEC;
    let usec = (wall_nanos % NANOS_PER_SEC) / 1000;
    TimeVal { tv_sec: sec as i64, tv_usec: usec as i64 }
}

/// `clock_getres`: both supported clocks tick at the platform timer's
/// resolution; any other clock id is rejected.
pub fn sys_clock_getres(clock_id: u32, nanos_per_tick: u64) -> (r: Result<TimeSpec, LinuxError>)
    ensures
        r is Err <==> clock_id != CLOCK_REALTIME && clock_id != CLOCK_MONOTONIC,
        r is Err ==> r == Err::<TimeSpec, LinuxError>(LinuxError::EINVAL),
        r is Ok ==> r->Ok_0.tv_sec == nanos_per_tick as int / (NANOS_PER_SEC as int)
            && r->Ok_0.tv_nsec == nanos_per_tick as int % (NANOS_PER_SEC as int),
{
    if clock_id == CLOCK_REALTIME || clock_id == CLOCK_MONOTONIC {
        Ok(timespec_from_nanos(nanos_per_tick))
    } else {
        Err(LinuxError::EINVAL)
    }
}

/// Total nanoseconds of a validated timespec, as a mathematical value.
pub open spec fn spec_total_nanos(t: TimeSpec) -> int {
    t.tv_sec * (NANOS_PER_SEC as int) + t.tv_nsec
}

/// `clock_nanosleep`, compute half: validate the request and decide how
/// long to sleep. Under `TIMER_ABSTIME` the request is a deadline on the
/// named clock and an expired deadline sleeps zero; otherwise it is a
/// relative duration. The external scheduler performs the sleep.
pub fn sys_clock_nanosleep(clock_id: u32, flags: u32, req: TimeSpec, now_nanos: u64) -> (r: Result<
    TimeSpec,
    LinuxError,
>)
    ensures
        r is Err <==> (req.tv_nsec < 0 || req.tv_nsec > 999_999_999 || req.tv_sec < 0 || (clock_id
            != CLOCK_REALTIME && clock_id != CLOCK_MONOTONIC)),
        r is Err ==> r == Err::<TimeSpec, LinuxError>(LinuxError::EINVAL),
        r is Ok ==> ({
            let d = r->Ok_0;
            &&& 0 <= d.tv_nsec < NANOS_PER_SEC
            &&& d.tv_sec >= 0
            &&& spec_total_nanos(d) == if flags & TIMER_ABSTIME != 0 {
                if spec_total_nanos(req) > now_nanos as int {
                    spec_total_nanos(req) - now_nanos
                } else {
                    0
                }
            } else {
                spec_total_nanos(req)
            }
        }),
{
    if req.tv_nsec < 0 || req.tv_nsec > 999_999_999 || req.tv_sec < 0 {
        return Err(LinuxError::EINVAL);
    }
    if clock_id != CLOCK_REALTIME && clock_id != CLOCK_MONOTONIC {
        return Err(LinuxError::EINVAL);
    }
    if flags & TIMER_ABSTIME != 0 {
        let now_sec = (now_nanos / NANOS_PER_SEC) as i64;
        let now_nsec = (now_nanos % NANOS_PER_SEC) as i64;
        proof {
            assert(now_sec * (NANOS_PER_SEC as int) + now_nsec == now_nanos as int) by (
            nonlinear_arith)
                requires
                    now_sec == now_nanos as int / (NANOS_PER_SEC as int),
                    now_nsec == now_nanos as int % (NANOS_PER_SEC as int),
                    NANOS_PER_SEC == 1_000_000_000,
            ;
        }
        if req.tv_sec > now_sec || (req.tv_sec == now_sec && req.tv_nsec > now_nsec) {
            let (dsec, dnsec): (i64, i64) = if req.tv_nsec >= now_nsec {
                (req.tv_sec - now_sec, req.tv_nsec - now_nsec)
            } else {
                (req.tv_sec - now_sec - 1, req.tv_nsec + 1_000_000_000 - now_nsec)
            };
            proof {
                assert(dsec * (NANOS_PER_SEC as int) + dnsec == spec_total_nanos(req)
                    - now_nanos as int) by (nonlinear_arith)
                    requires
                        NANOS_PER_SEC == 1_000_000_000,
                        now_sec * (NANOS_PER_SEC as int) + now_nsec == now_nanos as int,
                        spec_total_nanos(req) == req.tv_sec * (NANOS_PER_SEC as int) + req.tv_nsec,
                        (req.tv_nsec >= now_nsec ==> dsec == req.tv_sec - now_sec && dnsec
                            == req.tv_nsec - now_nsec),
                        (req.tv_nsec < now_nsec ==> dsec == req.tv_sec - now_sec - 1 && dnsec
                            == req.tv_nsec + 1_000_000_000 - now_nsec),
                ;
                assert(dsec >= 0) by (nonlinear_arith)
                    requires
                        NANOS_PER_SEC == 1_000_000_000,
                        0 <= dnsec < 1_000_000_000,
                        dsec * (NANOS_PER_SEC as int) + dnsec > 0,
                ;
            }
            Ok(TimeSpec { tv_sec: dsec, tv_nsec: dnsec })
        } else {
            proof {
                assert(spec_total_nanos(req) <= now_nanos as int) by (nonlinear_arith)
                    requires
                        NANOS_PER_SEC == 1_000_000_000,
                        now_sec * (NANOS_PER_SEC as int) + now_nsec == now_nanos as int,
                        spec_total_nanos(req) == req.tv_sec * (NANOS_PER_SEC as int) + req.tv_nsec,
                        0 <= req.tv_nsec < 1_000_000_000,
                        0 <= now_nsec < 1_000_000_000,
                        req.tv_sec < now_sec || (req.tv_sec == now_sec && req.tv_nsec <= now_nsec),
                ;
            }
            Ok(TimeSpec { tv_sec: 0, tv_nsec: 0 })
        }
    } else {
        Ok(req)
    }
}

/// `settimeofday`, compute half: validate the new wall time and convert
/// it to the kernel's representation; the external time service installs
/// it. A missing time value is accepted and installs nothing; the
/// timezone argument is accepted and ignored, as Linux does.
pub fn sys_settimeofday(tv: Option<TimeVal>, tz_present: bool) -> (r: Result<
    Option<TimeSpec>,
    LinuxError,
>)
    ensures
        r is Err <==> (tv matches Some(t) && (t.tv_usec < 0 || t.tv_usec >= 1_000_000)),
        r is Err ==> r == Err::<Option<TimeSpec>, LinuxError>(LinuxError::EINVAL),
        r is Ok ==> r->Ok_0 == match tv {
            Some(t) => Some(TimeSpec { tv_sec: t.tv_sec, tv_nsec: (t.tv_usec * 1000) as i64 }),
            None => None::<TimeSpec>,
        },
{
    match tv {
        Some(t) => {
            if t.tv_usec < 0 || t.tv_usec >= 1_000_000 {
                return Err(LinuxError::EINVAL);
            }
            Ok(Some(TimeSpec { tv_sec: t.tv_sec, tv_nsec: t.tv_usec * 1000 }))
        },
        None => Ok(None),
    }
}

/// `times`, compute half: pack the caller's CPU totals; this core keeps
/// no per-child accounting, so children report the process's own totals.
pub fn sys_times(utime_us: usize, stime_us: usize) -> (r: Tms)
    ensures
        r == (Tms {
            tms_utime: utime_us,
            tms_stime: stime_us,
            tms_cutime: utime_us,
            tms_cstime: stime_us,
        }),
{
    Tms { tms_utime: utime_us, tms_stime: stime_us, tms_cutime: utime_us, tms_cstime: stime_us }
}

} // verus!
