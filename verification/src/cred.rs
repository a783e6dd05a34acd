//! Process credentials: user and group identity.
//!
//! Credentials are value-copied into new processes on fork and shared by
//! all threads of one process; they never cross a process boundary by
//! reference.

use vstd::prelude::*;

verus! {

/// User and group credentials of a process.
#[derive(Debug, Clone, Copy, PartialEq, Eq, Structural)]
pub struct Credentials {
    /// Real user id.
    pub uid: u32,
    /// Effective user id.
    pub euid: u32,
    /// Real group id.
    pub gid: u32,
    /// Effective group id.
    pub egid: u32,
}

impl Default for Credentials {
    /// The initial process runs as root: every id is zero.
    fn default() -> (r: Self)
        ensures
            r.uid == 0 && r.euid == 0 && r.gid == 0 && r.egid == 0,
    {
        Credentials { uid: 0, euid: 0, gid: 0, egid: 0 }
    }
}

} // verus!
