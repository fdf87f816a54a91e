use lid_cavity::grid::Grid;
use lid_cavity::links::Links;
use lid_cavity::residuals::Residuals;
use lid_cavity::state::{LidDrivenCavity, Parameters};

fn params() -> Parameters<f32> {
    Parameters { re: 100.0, nu: 0.01, rho: 1.0, dx: 0.25, dy: 0.5, relax_uv: 0.8, relax_p: 0.1 }
}

#[test]
fn state_new_fills_every_array() {
    let g = Grid::new(4, 2).unwrap();
    let s = LidDrivenCavity::new(g, params(), vec![0.0, 1.0 / 3.0, 2.0 / 3.0, 1.0], vec![0.0, 1.0], 0.0f32);
    for a in [&s.u, &s.v, &s.p, &s.pc, &s.a_0, &s.a_p0, &s.source_x, &s.source_y, &s.source_p] {
        assert_eq!(a.len(), 8);
        assert!(a.iter().all(|x| *x == 0.0));
    }
    assert_eq!(s.links.len(), 8);
    assert_eq!(s.plinks.len(), 8);
    assert_eq!(s.faces.len(), 8);
    assert!(s.faces.iter().all(|f| f.u_e == 0.0 && f.v_s == 0.0));
    assert_eq!(s.x, vec![0.0, 1.0 / 3.0, 2.0 / 3.0, 1.0]);
    assert_eq!(s.params.re, 100.0);
    assert!(s.residuals.u().is_empty());
}

#[test]
fn state_reset_correction_touches_only_pc() {
    let g = Grid::new(2, 2).unwrap();
    let mut s = LidDrivenCavity::new(g, params_i64(), vec![0, 1], vec![0, 1], 0i64);
    s.pc = vec![3, -4, 5, 6];
    s.u[1] = 7;
    s.reset_correction(0);
    assert_eq!(s.pc, vec![0, 0, 0, 0]);
    assert_eq!(s.u, vec![0, 7, 0, 0]);
}

fn params_i64() -> Parameters<i64> {
    Parameters { re: 100, nu: 0, rho: 1, dx: 1, dy: 1, relax_uv: 0, relax_p: 0 }
}

#[test]
fn state_new_with_integer_fields() {
    let g = Grid::new(3, 1).unwrap();
    let s = LidDrivenCavity::new(g, params_i64(), vec![1, 2, 3], vec![9], -1i64);
    assert_eq!(s.u, vec![-1, -1, -1]);
    assert_eq!(s.links[2].a_n, -1);
}

#[test]
fn links_set_links_overwrites_all() {
    let mut l: Links<f32> = Links::default();
    l.set_links(1.0, 2.0, 3.0, 4.0);
    assert_eq!((l.a_e, l.a_w, l.a_n, l.a_s), (1.0, 2.0, 3.0, 4.0));
    l.set_links(0.5, 0.0, -1.0, 8.0);
    assert_eq!((l.a_e, l.a_w, l.a_n, l.a_s), (0.5, 0.0, -1.0, 8.0));
}

#[test]
fn residuals_append_in_order() {
    let mut r: Residuals<f32> = Residuals::new();
    r.save_u(3.0);
    r.save_v(2.0);
    r.save_u(1.5);
    r.save_p(0.25);
    assert_eq!(r.u(), &vec![3.0, 1.5]);
    assert_eq!(r.v(), &vec![2.0]);
    assert_eq!(r.p(), &vec![0.25]);
}
