//! A userspace thermal governor core: a five-level frequency-cap ladder per
//! power profile, an online tuner that adjusts the ladder from rolling
//! thermal statistics, and the per-tick and supervisory decision logic.
//!
//! Everything here is pure computation over plain values; reading sensors,
//! writing sysfs and persisting state are left to the surrounding binary.

pub mod adapter;
pub mod format;
pub mod governor;
pub mod profile;
pub mod stats;
pub mod state;
pub mod supervisor;
pub mod table;
pub mod text;
pub mod tuner;

use vstd::prelude::*;

verus! {

pub fn clamp_freq(freq: u64) -> (r: u64)
    ensures
        r == crate::table::clamp_freq_spec(freq),
{
    if freq < crate::table::MIN_CAP {
        crate::table::MIN_CAP
    } else if freq > crate::table::MAX_CAP {
        crate::table::MAX_CAP
    } else {
        freq
    }
}

} // verus!
