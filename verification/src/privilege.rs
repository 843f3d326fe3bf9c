//! The privilege signal that gates shadow lookups.
//!
//! The sole signal of caller privilege is the elevated-execution (set-id)
//! bit on the running executable. The caller resolves the executable's real
//! path and reads its permission bits; this module decides what those bits
//! mean. The policy is fail-closed: the caller must treat every probe
//! failure (unreadable link, unreadable metadata) as "not privileged" and
//! never hand a mode here in that case.
use vstd::prelude::*;

verus! {

/// Whether a Unix file mode carries the elevated-execution (set-uid) bit.
pub open spec fn spec_mode_has_suid(mode: u32) -> bool {
    mode & 0o4000 != 0
}

/// Tests whether a file mode carries the elevated-execution (set-uid) bit.
pub fn mode_has_suid(mode: u32) -> (r: bool)
    ensures
        r == spec_mode_has_suid(mode),
{
    mode & 0o4000 != 0
}

} // verus!
