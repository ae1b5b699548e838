//! Tri-state deadline for the game: never, at a block height, or at a
//! wall-clock time. The variant is fixed at creation; the only operation is a
//! membership test against the current chain time.

use vstd::prelude::*;

verus! {

/// A deadline checked on every spin. `Never` never passes; `AtHeight(h)`
/// passes once the block height reaches `h`; `AtTime(t)` passes once the
/// block time reaches `t`.
#[derive(Clone, Copy, Debug, PartialEq, Eq, Structural)]
pub enum Expiration {
    AtHeight(u64),
    AtTime(u64),
    Never,
}

impl Expiration {
    /// Whether the deadline has passed at the given block height and time.
    pub open spec fn spec_is_expired(self, height: u64, time: u64) -> bool {
        match self {
            Expiration::AtHeight(h) => height >= h,
            Expiration::AtTime(t) => time >= t,
            Expiration::Never => false,
        }
    }

    pub fn is_expired(&self, height: u64, time: u64) -> (r: bool)
        ensures
            r == self.spec_is_expired(height, time),
    {
        match self {
            Expiration::AtHeight(h) => height >= *h,
            Expiration::AtTime(t) => time >= *t,
            Expiration::Never => false,
        }
    }
}

impl Default for Expiration {
    /// A game without an explicit deadline never expires.
    fn default() -> (r: Self)
        ensures
            r == Expiration::Never,
    {
        Expiration::Never
    }
}

/// A deadline only closes: once it has passed, it stays passed as the chain's
/// height and time advance.
pub proof fn lemma_expiration_monotonic(
    e: Expiration,
    height: u64,
    time: u64,
    later_height: u64,
    later_time: u64,
)
    requires
        e.spec_is_expired(height, time),
        height <= later_height,
        time <= later_time,
    ensures
        e.spec_is_expired(later_height, later_time),
{
}

} // verus!
