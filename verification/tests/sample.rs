use nalgebra::Vector3;
use sci_phi::sph::sample::{Boundary3D, Expandable, Fluid3D, Len, Positional, SerBoundary3D};

type F = Fluid3D<Vector3<f64>, f64>;

fn v(x: f64) -> Vector3<f64> {
    Vector3::new(x, 0., 0.)
}

fn fluid_of(xs: &[f64]) -> F {
    let mut f = F::new(Vector3::zeros(), 0.);
    for &x in xs {
        f.push(v(x), v(-x), x * 10.);
    }
    f
}

#[test]
fn push_appends_active_samples_with_fresh_columns() {
    let f = fluid_of(&[1., 2.]);
    assert_eq!(f.len(), 2);
    assert_eq!(f.total_len(), 2);
    assert_eq!(f.position, vec![v(1.), v(2.)]);
    assert_eq!(f.position_prev, vec![v(1.), v(2.)]);
    assert_eq!(f.velocity, vec![v(-1.), v(-2.)]);
    assert_eq!(f.position_pred, vec![Vector3::zeros(); 2]);
    assert_eq!(f.mass, vec![10., 20.]);
    assert_eq!(f.pressure, vec![0., 0.]);
    assert!(f.neighbors.iter().all(|n| n.is_empty()));
    assert_eq!(*f.pos_now(1), v(2.));
}

#[test]
fn push_after_disable_moves_the_first_inactive_sample_to_the_end() {
    let mut f = fluid_of(&[1., 2., 3.]);
    f.disable(0);
    assert_eq!(f.len(), 2);
    assert_eq!(f.position, vec![v(3.), v(2.), v(1.)]);
    f.push(v(4.), v(0.), 40.);
    assert_eq!(f.len(), 3);
    assert_eq!(f.position, vec![v(3.), v(2.), v(4.), v(1.)]);
    assert_eq!(f.mass, vec![30., 20., 40., 10.]);
    f.drop_inactive();
    assert_eq!(f.total_len(), 3);
    assert_eq!(f.position, vec![v(3.), v(2.), v(4.)]);
}

#[test]
fn extend_appends_without_activating() {
    let mut f = fluid_of(&[1.]);
    let g = fluid_of(&[5., 6.]);
    f.extend(g);
    assert_eq!(f.total_len(), 3);
    assert_eq!(f.len(), 1);
    assert_eq!(f.mass, vec![10., 50., 60.]);
    assert!(!f.is_empty());
}

#[test]
fn accepting_predictions_rotates_the_columns() {
    let mut f = fluid_of(&[1.]);
    f.position_pred = vec![v(7.)];
    f.velocity_pred = vec![v(8.)];
    f.accept_pred_pos();
    f.accept_pred_vel();
    assert_eq!(f.position, vec![v(7.)]);
    assert_eq!(f.position_prev, vec![v(1.)]);
    assert_eq!(f.position_pred, vec![v(1.)]);
    assert_eq!(f.velocity, vec![v(8.)]);
    assert_eq!(f.velocity_prev, vec![v(-1.)]);
    assert_eq!(f.velocity_pred, vec![Vector3::zeros()]);
}

#[test]
fn saved_fluid_round_trip() {
    let f = F::from_saved(vec![v(1.), v(2.)], vec![v(0.5), v(0.25)], 3., Vector3::zeros(), 0.);
    assert_eq!(f.len(), 2);
    assert_eq!(f.mass, vec![3., 3.]);
    assert_eq!(f.volume, vec![0., 0.]);
    let s = f.into_saved();
    assert_eq!(s.mass, 3.);
    assert_eq!(s.position, vec![v(1.), v(2.)]);
    assert_eq!(s.vel_now(1), v(0.25));
}

#[test]
fn boundary_samples_are_pushed_extended_and_saved() {
    let mut b: Boundary3D<Vector3<f64>, f64> = Boundary3D::new();
    assert!(b.is_empty());
    b.push(v(1.), v(0.), 0.5);
    let mut other = Boundary3D::new();
    other.push(v(2.), v(1.), 0.25);
    b.extend(other);
    assert_eq!(b.len(), 2);
    assert_eq!(*b.pos_now(1), v(2.));
    assert_eq!(*b.vel_now(1), v(1.));
    assert_eq!(*b.volume(0), 0.5);
    b.set_volume(0, 0.75);
    assert_eq!(*b.volume(0), 0.75);
    let saved = b.into_saved();
    assert_eq!(saved.velocity, vec![v(0.), v(1.)]);
    let back = Boundary3D::from_saved(SerBoundary3D { position: saved.position, velocity: saved.velocity }, 0.);
    assert_eq!(*back.volume(1), 0.);
    assert_eq!(back.len(), 2);
}

#[test]
fn accepting_predictions_three_times_restores_the_columns() {
    let mut f = fluid_of(&[1.]);
    f.position_pred = vec![v(7.)];
    f.velocity_pred = vec![v(8.)];
    for _ in 0..3 {
        f.accept_pred_pos();
        f.accept_pred_vel();
    }
    assert_eq!(f.position, vec![v(1.)]);
    assert_eq!(f.position_pred, vec![v(7.)]);
    assert_eq!(f.velocity, vec![v(-1.)]);
    assert_eq!(f.velocity_pred, vec![v(8.)]);
}

#[test]
fn disabling_the_last_active_sample_moves_nothing() {
    // disabling the last active sample swaps it with itself
    let mut f = fluid_of(&[1., 2.]);
    f.disable(1);
    assert_eq!(f.position, vec![v(1.), v(2.)]);
    assert_eq!(f.len(), 1);
}
