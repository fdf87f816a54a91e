//! The fixed rectangular mesh: cell numbering, stencil neighbours and the
//! boundary condition that each cell carries.

use vstd::prelude::*;

verus! {

/// A side of a cell, in the four-point stencil.
#[derive(Clone, Copy, Debug, PartialEq, Eq, Structural)]
pub enum Side {
    East,
    West,
    North,
    South,
}

/// The side across the cell from `s`.
pub open spec fn opposite(s: Side) -> Side {
    match s {
        Side::East => Side::West,
        Side::West => Side::East,
        Side::North => Side::South,
        Side::South => Side::North,
    }
}

/// What the velocity boundary condition is at a cell.
#[derive(Clone, Copy, Debug, PartialEq, Eq, Structural)]
pub enum Boundary {
    /// A cell of the top row, held at the lid's velocity.
    MovingLid,
    /// A cell on the left, right or bottom wall, held at rest.
    NoSlip,
    /// A cell with all four neighbours in the grid.
    Interior,
}

/// A grid of `nx` by `ny` cells, numbered row by row: cell `(i, j)` has the
/// flat index `j * nx + i`. Row `j = ny - 1` is the top, under the lid.
#[derive(Clone, Copy, Debug, PartialEq, Eq, Structural)]
pub struct Grid {
    pub nx: usize,
    pub ny: usize,
}

impl Grid {
    /// At least one cell each way, and every flat index fits in `usize`.
    pub open spec fn wf(&self) -> bool {
        &&& self.nx > 0
        &&& self.ny > 0
        &&& self.nx * self.ny <= usize::MAX
    }

    /// The number of cells.
    pub open spec fn cells(&self) -> int {
        self.nx * self.ny
    }

    pub open spec fn contains(&self, i: int, j: int) -> bool {
        0 <= i < self.nx && 0 <= j < self.ny
    }

    pub open spec fn index_of(&self, i: int, j: int) -> int {
        j * self.nx + i
    }

    /// The coordinates one step across side `s` of cell `(i, j)`.
    pub open spec fn step(i: int, j: int, s: Side) -> (int, int) {
        match s {
            Side::East => (i + 1, j),
            Side::West => (i - 1, j),
            Side::North => (i, j + 1),
            Side::South => (i, j - 1),
        }
    }

    /// The flat index of the neighbour across side `s`, or `None` where that
    /// side is a wall of the cavity.
    pub open spec fn neighbour_of(&self, i: int, j: int, s: Side) -> Option<int> {
        let (a, b) = Self::step(i, j, s);
        if self.contains(a, b) {
            Some(self.index_of(a, b))
        } else {
            None
        }
    }

    pub open spec fn boundary_of(&self, i: int, j: int) -> Boundary {
        if j == self.ny - 1 {
            Boundary::MovingLid
        } else if i == 0 || i == self.nx - 1 || j == 0 {
            Boundary::NoSlip
        } else {
            Boundary::Interior
        }
    }

    /// A grid of `nx` by `ny` cells; `None` where either count is zero or the
    /// number of cells overflows `usize`.
    pub fn new(nx: usize, ny: usize) -> (r: Option<Grid>)
        ensures
            r is Some <==> (nx > 0 && ny > 0 && nx * ny <= usize::MAX),
            r matches Some(g) ==> g.nx == nx && g.ny == ny && g.wf(),
    {
        if nx == 0 || ny == 0 {
            return None;
        }
        match nx.checked_mul(ny) {
            Some(_) => Some(Grid { nx, ny }),
            None => None,
        }
    }

    /// The number of cells, which is the length of every field array.
    pub fn len(&self) -> (r: usize)
        requires
            self.wf(),
        ensures
            r == self.cells(),
    {
        self.nx * self.ny
    }

    /// The flat index of cell `(i, j)`.
    pub fn idx(&self, i: usize, j: usize) -> (r: usize)
        requires
            self.wf(),
            self.contains(i as int, j as int),
        ensures
            r == self.index_of(i as int, j as int),
            r < self.cells(),
    {
        proof {
            self.lemma_index_in_range(i as int, j as int);
        }
        j * self.nx + i
    }

    /// The flat index of the neighbour of `(i, j)` across side `s`, or `None`
    /// where that neighbour would lie outside the grid.
    pub fn neighbour(&self, i: usize, j: usize, s: Side) -> (r: Option<usize>)
        requires
            self.wf(),
            self.contains(i as int, j as int),
        ensures
            r is Some <==> self.neighbour_of(i as int, j as int, s) is Some,
            r matches Some(m) ==> self.neighbour_of(i as int, j as int, s) == Some(m as int),
    {
        match s {
            Side::East => if i + 1 < self.nx { Some(self.idx(i + 1, j)) } else { None },
            Side::West => if i > 0 { Some(self.idx(i - 1, j)) } else { None },
            Side::North => if j + 1 < self.ny { Some(self.idx(i, j + 1)) } else { None },
            Side::South => if j > 0 { Some(self.idx(i, j - 1)) } else { None },
        }
    }

    /// The velocity boundary condition of cell `(i, j)`.
    pub fn boundary(&self, i: usize, j: usize) -> (r: Boundary)
        requires
            self.wf(),
            self.contains(i as int, j as int),
        ensures
            r == self.boundary_of(i as int, j as int),
    {
        if j == self.ny - 1 {
            Boundary::MovingLid
        } else if i == 0 || i == self.nx - 1 || j == 0 {
            Boundary::NoSlip
        } else {
            Boundary::Interior
        }
    }

    /// Every cell of the grid has a flat index below the number of cells.
    pub proof fn lemma_index_in_range(&self, i: int, j: int)
        requires
            self.wf(),
            self.contains(i, j),
        ensures
            0 <= self.index_of(i, j) < self.cells(),
    {
        let nx = self.nx as int;
        let ny = self.ny as int;
        assert(0 <= j * nx + i < ny * nx) by (nonlinear_arith)
            requires
                0 <= i < nx,
                0 <= j < ny,
        ;
    }
    /// Row-major numbering is one to one: every flat index below the number
    /// of cells belongs to exactly one cell of the grid.
    pub proof fn lemma_numbering_one_to_one(&self, k: int)
        requires
            self.wf(),
            0 <= k < self.cells(),
        ensures
            self.contains(k % self.nx as int, k / self.nx as int),
            self.index_of(k % self.nx as int, k / self.nx as int) == k,
            forall|i: int, j: int|
                self.contains(i, j) && #[trigger] self.index_of(i, j) == k ==> i == k
                    % self.nx as int && j == k / self.nx as int,
    {
        let nx = self.nx as int;
        let ny = self.ny as int;
        vstd::arithmetic::div_mod::lemma_fundamental_div_mod(k, nx);
        vstd::arithmetic::div_mod::lemma_mod_bound(k, nx);
        vstd::arithmetic::div_mod::lemma_div_pos_is_pos(k, nx);
        let q = k / nx;
        assert(q < ny) by (nonlinear_arith)
            requires
                k == nx * q + k % nx,
                0 <= k % nx,
                k < nx * ny,
                nx > 0,
        ;
        assert(nx * q == q * nx) by (nonlinear_arith);
        assert forall|i: int, j: int|
            self.contains(i, j) && #[trigger] self.index_of(i, j) == k implies i == k % nx && j
                == k / nx by {
            vstd::arithmetic::div_mod::lemma_fundamental_div_mod_converse(k, nx, j, i);
        }
    }

    /// Stencil links are symmetric: where cell `(i, j)` sees a neighbour
    /// across side `s`, that neighbour sees `(i, j)` across the opposite side.
    pub proof fn lemma_neighbours_symmetric(&self, i: int, j: int, s: Side)
        requires
            self.wf(),
            self.contains(i, j),
        ensures
            self.neighbour_of(i, j, s) matches Some(m) ==> {
                let (a, b) = Self::step(i, j, s);
                &&& 0 <= m < self.cells()
                &&& self.neighbour_of(a, b, opposite(s)) == Some(self.index_of(i, j))
            },
    {
        let (a, b) = Self::step(i, j, s);
        if self.contains(a, b) {
            self.lemma_index_in_range(a, b);
        }
    }

    /// A cell carries a wall condition exactly where a stencil neighbour is
    /// missing, and the moving lid exactly where the north neighbour is.
    pub proof fn lemma_boundary_cells(&self, i: int, j: int)
        requires
            self.wf(),
            self.contains(i, j),
        ensures
            self.boundary_of(i, j) != Boundary::Interior <==> (
            self.neighbour_of(i, j, Side::East) is None || self.neighbour_of(i, j, Side::West) is None
                || self.neighbour_of(i, j, Side::North) is None || self.neighbour_of(
                i,
                j,
                Side::South,
            ) is None),
            self.boundary_of(i, j) == Boundary::MovingLid <==> self.neighbour_of(
                i,
                j,
                Side::North,
            ) is None,
    {
    }
}

} // verus!
