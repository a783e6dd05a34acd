//! Signal numbers, as far as the process core needs them.
//!
//! The core never delivers a signal itself: delivery belongs to the
//! external signal service. It only decides *which* signal number to hand
//! to that service, so a signal is a validated number here.

use vstd::prelude::*;

verus! {

/// Number of the signal a child delivers to its parent by default.
pub const SIGCHLD: u8 = 17;

/// Number of the forced-termination signal sent on group exit.
pub const SIGKILL: u8 = 9;

/// Largest signal number the core recognizes (Linux real-time range end).
pub const MAX_SIGNO: u8 = 64;

/// A recognized signal number: between 1 and [`MAX_SIGNO`].
#[derive(Debug, Clone, Copy, PartialEq, Eq, Structural)]
pub struct Signo(pub u8);

impl Signo {
    /// A signal number is recognized iff it lies in `1..=MAX_SIGNO`.
    pub open spec fn spec_valid(n: u8) -> bool {
        1 <= n <= MAX_SIGNO
    }

    /// Well-formedness of a `Signo` value.
    pub open spec fn wf(self) -> bool {
        Self::spec_valid(self.0)
    }

    /// Interpret a raw byte as a signal number.
    ///
    /// An unrecognized value yields `None` ("no signal") rather than an
    /// error, mirroring the historical permissiveness of `clone`.
    pub fn from_repr(n: u8) -> (r: Option<Signo>)
        ensures
            r == if Self::spec_valid(n) {
                Some(Signo(n))
            } else {
                None::<Signo>
            },
            r is Some ==> r->0.wf(),
    {
        if 1 <= n && n <= MAX_SIGNO {
            Some(Signo(n))
        } else {
            None
        }
    }
}

} // verus!
