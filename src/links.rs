//! The four neighbour coefficients of one cell's discretised equation.

use vstd::prelude::*;

verus! {

/// Link coefficients toward the east, west, north and south neighbours.
/// Momentum and pressure correction each keep one per cell; a side with no
/// neighbour keeps a zero coefficient.
#[derive(Clone, Copy, Debug, Default)]
pub struct Links<T> {
    pub a_e: T,
    pub a_w: T,
    pub a_n: T,
    pub a_s: T,
}

impl<T> Links<T> {
    /// Overwrites all four coefficients at once.
    pub fn set_links(&mut self, a_e: T, a_w: T, a_n: T, a_s: T)
        ensures
            final(self).a_e == a_e,
            final(self).a_w == a_w,
            final(self).a_n == a_n,
            final(self).a_s == a_s,
    {
        self.a_e = a_e;
        self.a_w = a_w;
        self.a_n = a_n;
        self.a_s = a_s;
    }
}

} // verus!
