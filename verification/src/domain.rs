//! A scalar parameter interval with a linear map from the normalized
//! interval [0,1] onto it.

use vstd::prelude::*;
use crate::scalar::{Scalar, ZERO_BITS, s_add, s_sub, s_mul};

verus! {

/// A parameter interval. No order between `start` and `end` is enforced:
/// callers may use inverted ranges.
#[derive(Clone, Copy, PartialEq, Eq, Structural, Debug)]
pub struct Domain {
    pub start: Scalar,
    pub end: Scalar,
}

/// The affine map of the interval: `(end - start) * t01 + start`.
pub open spec fn spec_map(d: Domain, t01: Scalar) -> Scalar {
    s_add(s_mul(s_sub(d.end, d.start), t01), d.start)
}

impl Domain {
    /// The interval from `s` to `e`.
    pub fn new(s: Scalar, e: Scalar) -> (r: Domain)
        ensures
            r.start == s,
            r.end == e,
    {
        Domain { start: s, end: e }
    }

    /// The lower end of the interval as given.
    pub fn start(&self) -> (r: Scalar)
        ensures
            r == self.start,
    {
        self.start
    }

    /// The upper end of the interval as given.
    pub fn end(&self) -> (r: Scalar)
        ensures
            r == self.end,
    {
        self.end
    }

    /// Maps a normalized parameter into the interval:
    /// `(end - start) * t01 + start`.
    pub fn map(&self, t01: Scalar) -> (r: Scalar)
        ensures
            r == spec_map(*self, t01),
    {
        self.end.sub_s(self.start).mul_s(t01).add_s(self.start)
    }
}

impl Default for Domain {
    /// The degenerate interval from 0.0 to 0.0.
    fn default() -> (r: Domain)
        ensures
            r.start.bits == ZERO_BITS,
            r.end.bits == ZERO_BITS,
    {
        Domain { start: Scalar { bits: ZERO_BITS }, end: Scalar { bits: ZERO_BITS } }
    }
}

} // verus!
