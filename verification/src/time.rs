use vstd::prelude::*;

verus! {

/// A frequency in hertz.
#[derive(Clone, Copy, PartialEq, Eq, Structural, Debug)]
pub struct Hertz(pub u32);

impl Hertz {
    /// Multiply by an integer factor, reporting overflow as `None`.
    pub fn checked_mul(self, factor: u32) -> (r: Option<Hertz>)
        ensures
            self.0 * factor <= u32::MAX ==> r == Some(Hertz((self.0 * factor) as u32)),
            self.0 * factor > u32::MAX ==> r is None,
    {
        match self.0.checked_mul(factor) {
            Some(v) => Some(Hertz(v)),
            None => None,
        }
    }

    /// Multiply by an integer factor, saturating at the largest
    /// representable frequency.
    pub fn saturating_mul(self, factor: u32) -> (r: Hertz)
        ensures
            self.0 * factor <= u32::MAX ==> r.0 == self.0 * factor,
            self.0 * factor > u32::MAX ==> r.0 == u32::MAX,
    {
        match self.0.checked_mul(factor) {
            Some(v) => Hertz(v),
            None => Hertz(u32::MAX),
        }
    }

    /// Divide by an integer divisor.
    pub fn div(self, divisor: u32) -> (r: Hertz)
        requires
            divisor > 0,
        ensures
            r.0 == self.0 / divisor,
    {
        Hertz(self.0 / divisor)
    }

    /// Total order on frequencies.
    pub fn le(self, other: Hertz) -> (r: bool)
        ensures
            r == (self.0 <= other.0),
    {
        self.0 <= other.0
    }

    /// Closed range membership.
    pub fn in_range(self, lo: Hertz, hi: Hertz) -> (r: bool)
        ensures
            r == (lo.0 <= self.0 <= hi.0),
    {
        lo.0 <= self.0 && self.0 <= hi.0
    }
}

} // verus!
