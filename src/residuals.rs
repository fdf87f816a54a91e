//! The residual history: one summary per solve, appended and never rewritten.

use vstd::prelude::*;

verus! {

/// Residual summaries of the `u`, `v` and pressure-correction solves, in the
/// order in which they were recorded.
#[derive(Clone, Debug)]
pub struct Residuals<T> {
    u: Vec<T>,
    v: Vec<T>,
    p: Vec<T>,
}

impl<T> Residuals<T> {
    pub closed spec fn u_history(&self) -> Seq<T> {
        self.u@
    }

    pub closed spec fn v_history(&self) -> Seq<T> {
        self.v@
    }

    pub closed spec fn p_history(&self) -> Seq<T> {
        self.p@
    }

    /// An empty history.
    pub fn new() -> (r: Self)
        ensures
            r.u_history() == Seq::<T>::empty(),
            r.v_history() == Seq::<T>::empty(),
            r.p_history() == Seq::<T>::empty(),
    {
        Residuals { u: Vec::new(), v: Vec::new(), p: Vec::new() }
    }

    /// Records the residual of a `u` solve.
    pub fn save_u(&mut self, r: T)
        ensures
            final(self).u_history() == old(self).u_history().push(r),
            final(self).v_history() == old(self).v_history(),
            final(self).p_history() == old(self).p_history(),
    {
        self.u.push(r);
    }

    /// Records the residual of a `v` solve.
    pub fn save_v(&mut self, r: T)
        ensures
            final(self).u_history() == old(self).u_history(),
            final(self).v_history() == old(self).v_history().push(r),
            final(self).p_history() == old(self).p_history(),
    {
        self.v.push(r);
    }

    /// Records the residual of a pressure-correction solve.
    pub fn save_p(&mut self, r: T)
        ensures
            final(self).u_history() == old(self).u_history(),
            final(self).v_history() == old(self).v_history(),
            final(self).p_history() == old(self).p_history().push(r),
    {
        self.p.push(r);
    }

    /// The `u` residuals, oldest first.
    pub fn u(&self) -> (r: &Vec<T>)
        ensures
            r@ == self.u_history(),
    {
        &self.u
    }

    /// The `v` residuals, oldest first.
    pub fn v(&self) -> (r: &Vec<T>)
        ensures
            r@ == self.v_history(),
    {
        &self.v
    }

    /// The pressure-correction residuals, oldest first.
    pub fn p(&self) -> (r: &Vec<T>)
        ensures
            r@ == self.p_history(),
    {
        &self.p
    }
}

} // verus!
