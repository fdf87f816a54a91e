use lid_cavity::grid::{Boundary, Grid, Side};

#[test]
fn grid_rejects_empty_dimensions() {
    assert!(Grid::new(0, 5).is_none());
    assert!(Grid::new(5, 0).is_none());
    assert!(Grid::new(usize::MAX, 2).is_none());
    let g = Grid::new(20, 20).unwrap();
    assert_eq!(g.nx, 20);
    assert_eq!(g.ny, 20);
    assert_eq!(g.len(), 400);
}

#[test]
fn grid_numbers_cells_row_major() {
    let g = Grid::new(4, 3).unwrap();
    assert_eq!(g.idx(0, 0), 0);
    assert_eq!(g.idx(3, 0), 3);
    assert_eq!(g.idx(0, 1), 4);
    assert_eq!(g.idx(2, 2), 10);
    let mut seen = vec![false; g.len()];
    for j in 0..3 {
        for i in 0..4 {
            let k = g.idx(i, j);
            assert!(!seen[k]);
            seen[k] = true;
        }
    }
    assert!(seen.iter().all(|s| *s));
}

#[test]
fn grid_neighbours_stay_in_range() {
    let g = Grid::new(4, 3).unwrap();
    assert_eq!(g.neighbour(1, 1, Side::East), Some(6));
    assert_eq!(g.neighbour(1, 1, Side::West), Some(4));
    assert_eq!(g.neighbour(1, 1, Side::North), Some(9));
    assert_eq!(g.neighbour(1, 1, Side::South), Some(1));
    assert_eq!(g.neighbour(3, 1, Side::East), None);
    assert_eq!(g.neighbour(0, 1, Side::West), None);
    assert_eq!(g.neighbour(2, 2, Side::North), None);
    assert_eq!(g.neighbour(2, 0, Side::South), None);
}

#[test]
fn grid_neighbours_are_symmetric() {
    let g = Grid::new(5, 4).unwrap();
    for j in 0..4 {
        for i in 0..5 {
            let k = g.idx(i, j);
            if let Some(m) = g.neighbour(i, j, Side::East) {
                assert_eq!(g.neighbour(i + 1, j, Side::West), Some(k));
                assert_eq!(m, k + 1);
            }
            if let Some(m) = g.neighbour(i, j, Side::North) {
                assert_eq!(g.neighbour(i, j + 1, Side::South), Some(k));
                assert_eq!(m, k + 5);
            }
        }
    }
}

#[test]
fn grid_boundary_conditions() {
    let g = Grid::new(4, 3).unwrap();
    for i in 0..4 {
        assert_eq!(g.boundary(i, 2), Boundary::MovingLid);
        assert_eq!(g.boundary(i, 0), Boundary::NoSlip);
    }
    assert_eq!(g.boundary(0, 1), Boundary::NoSlip);
    assert_eq!(g.boundary(3, 1), Boundary::NoSlip);
    assert_eq!(g.boundary(1, 1), Boundary::Interior);
    assert_eq!(g.boundary(2, 1), Boundary::Interior);
    for j in 0..3 {
        for i in 0..4 {
            let missing = [Side::East, Side::West, Side::North, Side::South]
                .iter()
                .any(|s| g.neighbour(i, j, *s).is_none());
            assert_eq!(g.boundary(i, j) != Boundary::Interior, missing);
            assert_eq!(
                g.boundary(i, j) == Boundary::MovingLid,
                g.neighbour(i, j, Side::North).is_none()
            );
        }
    }
}

#[test]
fn grid_single_cell_is_lid() {
    let g = Grid::new(1, 1).unwrap();
    assert_eq!(g.len(), 1);
    assert_eq!(g.boundary(0, 0), Boundary::MovingLid);
    assert_eq!(g.neighbour(0, 0, Side::East), None);
}
