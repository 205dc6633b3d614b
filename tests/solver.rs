use phyrs::solver::{EulerODE, ODESolver};

#[test]
fn euler_ode_solver() {
    let solver = EulerODE;

    let mut positions: Vec<i64> = vec![0, 0];
    let mut velocities: Vec<i64> = vec![1, 1];
    let accelerations: Vec<i64> = vec![0, 0];

    solver.solve(1, &mut positions, &mut velocities, &accelerations);

    assert_eq!(positions, vec![1, 1]);
    assert_eq!(velocities, vec![1, 1]);
    assert_eq!(accelerations, vec![0, 0]);
}

#[test]
fn euler_ode_solver_with_acceleration() {
    let solver = EulerODE;

    let mut positions: Vec<i64> = vec![0, 0];
    let mut velocities: Vec<i64> = vec![1, 1];
    let accelerations: Vec<i64> = vec![1, 1];

    solver.solve(1, &mut positions, &mut velocities, &accelerations);

    assert_eq!(positions, vec![1, 1]);
    assert_eq!(velocities, vec![2, 2]);
    assert_eq!(accelerations, vec![1, 1]);
}

#[test]
fn euler_uses_velocity_from_before_the_step() {
    let solver = EulerODE;
    let mut positions: Vec<i64> = vec![3, -4, 10, 0];
    let mut velocities: Vec<i64> = vec![2, 5, -1, 0];
    let accelerations: Vec<i64> = vec![7, -3, 0, 4];

    solver.solve(2, &mut positions, &mut velocities, &accelerations);

    assert_eq!(positions, vec![7, 6, 8, 0]);
    assert_eq!(velocities, vec![16, -1, -1, 8]);
}
