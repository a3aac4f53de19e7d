//! Time base arithmetic.
//!
//! A track's time base is a rational `numer / denom`: a timestamp `ts` in
//! track units corresponds to `ts * numer / denom` seconds.  Seek requests
//! arrive in whole seconds and are converted to track timestamps; progress
//! display converts the other way.  All arithmetic is exact integer
//! arithmetic, truncating towards zero as the hardware-facing original does.

use vstd::prelude::*;
use vstd::arithmetic::mul::lemma_mul_upper_bound;

verus! {

/// A rational time base: `numer / denom` seconds per timestamp unit.
/// A usable time base has both parts non-zero.
#[derive(Clone, Copy, Debug, PartialEq, Eq, Structural)]
pub struct TimeBaseRatio {
    pub numer: u32,
    pub denom: u32,
}

impl TimeBaseRatio {
    /// Both parts non-zero: the rational is well defined and invertible.
    pub open spec fn valid(self) -> bool {
        self.numer > 0 && self.denom > 0
    }

    /// The track timestamp that plays at `seconds` seconds from the start:
    /// `seconds * denom / numer`, truncated.  `None` exactly when the value
    /// does not fit in a timestamp word.
    pub fn timestamp_for_seconds(self, seconds: u64) -> (r: Option<u64>)
        requires
            self.valid(),
        ensures
            (r matches Some(ts) ==> ts == (seconds * self.denom) / (self.numer as int)),
            (r is None <==> (seconds * self.denom) / (self.numer as int) > u64::MAX),
    {
        proof {
            lemma_mul_upper_bound(seconds as int, u64::MAX as int, self.denom as int, u32::MAX as int);
        }
        let prod: u128 = (seconds as u128) * (self.denom as u128);
        let q: u128 = prod / (self.numer as u128);
        if q <= u64::MAX as u128 {
            Some(q as u64)
        } else {
            None
        }
    }

    /// The whole number of seconds at which track timestamp `ts` plays:
    /// `ts * numer / denom`, truncated.  `None` exactly when the value does
    /// not fit in a 64-bit word of seconds.
    pub fn seconds_for_timestamp(self, ts: u64) -> (r: Option<u64>)
        requires
            self.valid(),
        ensures
            (r matches Some(s) ==> s == (ts * self.numer) / (self.denom as int)),
            (r is None <==> (ts * self.numer) / (self.denom as int) > u64::MAX),
    {
        proof {
            lemma_mul_upper_bound(ts as int, u64::MAX as int, self.numer as int, u32::MAX as int);
        }
        let prod: u128 = (ts as u128) * (self.numer as u128);
        let q: u128 = prod / (self.denom as u128);
        if q <= u64::MAX as u128 {
            Some(q as u64)
        } else {
            None
        }
    }
}

} // verus!
