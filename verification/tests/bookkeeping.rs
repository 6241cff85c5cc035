use hertzian::boundary::{require_boundary, BoundaryError};
use hertzian::geometry::Sum;
use hertzian::solver::count_active;

#[test]
fn count_active_counts_the_contact_cells() {
    assert_eq!(count_active(&[true, false, true, true, false]), 3);
    assert_eq!(count_active(&[false, false, false]), 0);
    assert_eq!(count_active(&[true; 9]), 9);
    assert_eq!(count_active(&[]), 0);
}

#[test]
fn count_active_of_a_thresholded_pressure_field() {
    let pressure = [0.0_f64, 1.5e6, 0.0, 2.0e5, -0.0, 3.0];
    let active: Vec<bool> = pressure.iter().map(|&p| p > 0.0).collect();
    assert_eq!(count_active(&active), 3);
}

#[test]
fn sum_keeps_both_operands() {
    let sum = Sum::new(10u32, 'r');
    assert_eq!(*sum.base(), 10);
    assert_eq!(*sum.added(), 'r');
    let layered = Sum::new(sum, -4i64);
    assert_eq!(*layered.base(), Sum::new(10u32, 'r'));
    assert_eq!(*layered.added(), -4);
}

#[test]
fn free_boundary_is_accepted() {
    assert_eq!(require_boundary("free"), Ok(()));
}

#[test]
fn periodic_boundary_is_not_implemented() {
    assert_eq!(require_boundary("periodic"), Err(BoundaryError::NotImplemented));
}

#[test]
fn other_boundary_names_are_invalid() {
    assert_eq!(require_boundary("Free"), Err(BoundaryError::Invalid));
    assert_eq!(require_boundary(""), Err(BoundaryError::Invalid));
    assert_eq!(require_boundary("free "), Err(BoundaryError::Invalid));
    assert_eq!(require_boundary("fre"), Err(BoundaryError::Invalid));
    assert_eq!(require_boundary("périodic"), Err(BoundaryError::Invalid));
}
