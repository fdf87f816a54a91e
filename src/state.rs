//! The solver's state: grid, physical parameters and every per-cell field
//! array, all of one length and one cell numbering.

use vstd::prelude::*;
use crate::grid::Grid;
use crate::links::Links;
use crate::residuals::Residuals;

verus! {

/// `n` copies of `value`.
pub open spec fn filled<T>(n: int, value: T) -> Seq<T> {
    Seq::new(n as nat, |_k: int| value)
}

/// Physical constants and under-relaxation factors. `nu` is derived from `re`
/// by whoever builds the record.
#[derive(Clone, Copy, Debug)]
pub struct Parameters<T> {
    pub re: T,
    pub nu: T,
    pub rho: T,
    pub dx: T,
    pub dy: T,
    pub relax_uv: T,
    pub relax_p: T,
}

/// Interpolated velocities on the four faces of a cell.
#[derive(Clone, Copy, Debug, Default)]
pub struct Faces<T> {
    pub u_e: T,
    pub u_w: T,
    pub v_n: T,
    pub v_s: T,
}

/// Grid, parameters and field arrays of one lid-driven cavity solve.
pub struct LidDrivenCavity<T> {
    pub grid: Grid,
    pub params: Parameters<T>,
    pub x: Vec<T>,
    pub y: Vec<T>,
    pub links: Vec<Links<T>>,
    pub plinks: Vec<Links<T>>,
    pub source_x: Vec<T>,
    pub source_y: Vec<T>,
    pub source_p: Vec<T>,
    pub a_0: Vec<T>,
    pub a_p0: Vec<T>,
    pub faces: Vec<Faces<T>>,
    pub u: Vec<T>,
    pub v: Vec<T>,
    pub p: Vec<T>,
    pub pc: Vec<T>,
    pub residuals: Residuals<T>,
}

/// A vector of `n` copies of `value`.
fn fill<T: Copy>(n: usize, value: T) -> (r: Vec<T>)
    ensures
        r@ == filled(n as int, value),
{
    let mut r: Vec<T> = Vec::with_capacity(n);
    while r.len() < n
        invariant
            r.len() <= n,
            forall|k: int| 0 <= k < r.len() ==> r@[k] == value,
        decreases n - r.len(),
    {
        r.push(value);
    }
    assert(r@ =~= filled(n as int, value));
    r
}

impl<T: Copy> LidDrivenCavity<T> {
    /// Coordinates match the grid and every field array has one entry per
    /// cell.
    pub open spec fn wf(&self) -> bool {
        let n = self.grid.cells();
        &&& self.grid.wf()
        &&& self.x.len() == self.grid.nx
        &&& self.y.len() == self.grid.ny
        &&& self.links.len() == n
        &&& self.plinks.len() == n
        &&& self.source_x.len() == n
        &&& self.source_y.len() == n
        &&& self.source_p.len() == n
        &&& self.a_0.len() == n
        &&& self.a_p0.len() == n
        &&& self.faces.len() == n
        &&& self.u.len() == n
        &&& self.v.len() == n
        &&& self.p.len() == n
        &&& self.pc.len() == n
    }

    /// A fresh state: every field, coefficient and source is `zero`, and the
    /// residual history is empty. Only the coordinates are given.
    pub fn new(grid: Grid, params: Parameters<T>, x: Vec<T>, y: Vec<T>, zero: T) -> (r: Self)
        requires
            grid.wf(),
            x.len() == grid.nx,
            y.len() == grid.ny,
        ensures
            r.wf(),
            r.grid == grid,
            r.params == params,
            r.x@ == x@,
            r.y@ == y@,
            r.u@ == filled(grid.cells(), zero),
            r.v@ == filled(grid.cells(), zero),
            r.p@ == filled(grid.cells(), zero),
            r.pc@ == filled(grid.cells(), zero),
            r.a_0@ == filled(grid.cells(), zero),
            r.a_p0@ == filled(grid.cells(), zero),
            r.source_x@ == filled(grid.cells(), zero),
            r.source_y@ == filled(grid.cells(), zero),
            r.source_p@ == filled(grid.cells(), zero),
            r.links@ == filled(grid.cells(), Links { a_e: zero, a_w: zero, a_n: zero, a_s: zero }),
            r.plinks@ == filled(grid.cells(), Links { a_e: zero, a_w: zero, a_n: zero, a_s: zero }),
            r.faces@ == filled(grid.cells(), Faces { u_e: zero, u_w: zero, v_n: zero, v_s: zero }),
            r.residuals.u_history().len() == 0,
            r.residuals.v_history().len() == 0,
            r.residuals.p_history().len() == 0,
    {
        let n = grid.len();
        let link = Links { a_e: zero, a_w: zero, a_n: zero, a_s: zero };
        let face = Faces { u_e: zero, u_w: zero, v_n: zero, v_s: zero };
        LidDrivenCavity {
            grid,
            params,
            x,
            y,
            links: fill(n, link),
            plinks: fill(n, link),
            source_x: fill(n, zero),
            source_y: fill(n, zero),
            source_p: fill(n, zero),
            a_0: fill(n, zero),
            a_p0: fill(n, zero),
            faces: fill(n, face),
            u: fill(n, zero),
            v: fill(n, zero),
            p: fill(n, zero),
            pc: fill(n, zero),
            residuals: Residuals::new(),
        }
    }

    /// Zeroes the pressure correction before a pressure solve; nothing else
    /// changes.
    pub fn reset_correction(&mut self, zero: T)
        requires
            old(self).wf(),
        ensures
            final(self).wf(),
            final(self).pc@ == filled(old(self).grid.cells(), zero),
            final(self).grid == old(self).grid,
            final(self).params == old(self).params,
            final(self).x == old(self).x,
            final(self).y == old(self).y,
            final(self).links == old(self).links,
            final(self).plinks == old(self).plinks,
            final(self).source_x == old(self).source_x,
            final(self).source_y == old(self).source_y,
            final(self).source_p == old(self).source_p,
            final(self).a_0 == old(self).a_0,
            final(self).a_p0 == old(self).a_p0,
            final(self).faces == old(self).faces,
            final(self).u == old(self).u,
            final(self).v == old(self).v,
            final(self).p == old(self).p,
            final(self).residuals == old(self).residuals,
    {
        let n = self.grid.len();
        self.pc = fill(n, zero);
    }
}

} // verus!
