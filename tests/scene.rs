use phyrs::force::{BuiltinForce, ForceError, ForceGenerator, GravityForce, SpringForce};
use phyrs::scene::{MassRef, Scene, SceneError};

type World = Scene<i64, BuiltinForce<i64>>;

fn world(gravity: (i64, i64)) -> World {
    Scene::new(Some(gravity), None).unwrap()
}

#[test]
fn default_scene_uses_standard_field_and_euler() {
    let scene: World = Scene::new(None, Some("euler")).unwrap();
    assert_eq!(scene.get_gravity(), (0, -10));
    assert_eq!(scene.particle_count(), 0);
}

#[test]
fn unknown_solver_is_refused() {
    let r: Result<World, SceneError> = Scene::new(None, Some("rk4"));
    assert_eq!(r.err(), Some(SceneError::UnknownSolver));
}

#[test]
fn set_gravity_replaces_the_field() {
    let mut scene = world((0, 0));
    scene.set_gravity((3, -7));
    assert_eq!(scene.get_gravity(), (3, -7));
}

#[test]
fn new_particle_rests_at_origin_with_unit_mass() {
    let mut scene = world((0, 0));
    let a = scene.mass();
    let b = scene.mass();
    assert_eq!(a.index, 0);
    assert_eq!(b.index, 1);
    assert_eq!(a.position(&scene), Ok((0, 0)));
    assert_eq!(a.velocity(&scene), Ok((0, 0)));
    assert_eq!(scene.state().mass(1), 1);
    assert_eq!(scene.positions(), vec![(0, 0), (0, 0)]);
}

#[test]
fn handle_setters_and_relative_placement() {
    let mut scene = world((0, 0));
    let a = scene.mass();
    let b = scene.mass();
    a.at(&mut scene, (3, 4)).unwrap();
    b.relative(&mut scene, &a).unwrap();
    b.vel(&mut scene, (-1, 2)).unwrap();
    b.mass(&mut scene, 5).unwrap();
    assert_eq!(b.position(&scene), Ok((3, 4)));
    assert_eq!(b.velocity(&scene), Ok((-1, 2)));
    assert_eq!(scene.state().mass(1), 5);
    assert_eq!(a.distance_to(&scene, &b), Ok(0));
}

#[test]
fn distance_between_particles() {
    let mut scene = world((0, 0));
    let a = scene.mass();
    let b = scene.mass();
    a.at(&mut scene, (1, 1)).unwrap();
    b.at(&mut scene, (4, 5)).unwrap();
    assert_eq!(a.distance_to(&scene, &b), Ok(5));
}

#[test]
fn unknown_handle_is_refused() {
    let mut scene = world((0, 0));
    scene.mass();
    let stray = MassRef { index: 9 };
    assert_eq!(stray.at(&mut scene, (1, 1)), Err(SceneError::UnknownParticle));
    assert_eq!(stray.position(&scene), Err(SceneError::UnknownParticle));
    assert_eq!(stray.apply_force(&mut scene, (1, 1)), Err(SceneError::UnknownParticle));
    assert_eq!(scene.positions(), vec![(0, 0)]);
}

#[test]
fn force_is_divided_by_mass() {
    let mut scene = world((0, 0));
    let a = scene.mass();
    a.mass(&mut scene, 4).unwrap();
    a.apply_force(&mut scene, (8, -12)).unwrap();
    assert_eq!(scene.state().acceleration(0), (2, -3));
}

#[test]
fn force_on_zero_mass_is_discarded() {
    let mut scene = world((0, 0));
    let a = scene.mass();
    a.mass(&mut scene, 0).unwrap();
    a.apply_force(&mut scene, (8, -12)).unwrap();
    assert_eq!(scene.state().acceleration(0), (0, 0));
}

#[test]
fn zero_mass_particle_never_moves() {
    let mut scene = world((0, -10));
    let fixed = scene.mass();
    let bob = scene.mass();
    fixed.at(&mut scene, (3, 4)).unwrap();
    fixed.mass(&mut scene, 0).unwrap();
    bob.at(&mut scene, (3, 0)).unwrap();
    let spring = SpringForce::new(scene.state(), fixed.index, bob.index, Some(2), None).unwrap();
    scene.add_force(BuiltinForce::Spring(spring));
    let rec = scene.simulate(5, 2, 2).unwrap();
    for k in 0..5 {
        assert_eq!(rec.frame_at(k).unwrap().positions[0..2].to_vec(), vec![3, 4]);
        assert_eq!(rec.frame_at(k).unwrap().velocities[0..2].to_vec(), vec![0, 0]);
    }
    assert_eq!(fixed.position(&scene), Ok((3, 4)));
    assert_eq!(fixed.velocity(&scene), Ok((0, 0)));
    assert_eq!(scene.state().acceleration(0), (0, 0));
    assert_ne!(bob.position(&scene), Ok((3, 0)));
}

#[test]
fn step_moves_with_constant_velocity() {
    let mut scene = world((0, 0));
    let p = scene.mass();
    p.vel(&mut scene, (1, 1)).unwrap();
    let rec = scene.step(1, 1).unwrap();
    assert_eq!(p.position(&scene), Ok((1, 1)));
    assert_eq!(p.velocity(&scene), Ok((1, 1)));
    assert_eq!(scene.state().acceleration(0), (0, 0));
    assert_eq!(rec.frame_count(), 1);
    let frame = rec.frame_at(0).unwrap();
    assert_eq!(frame.time, 0);
    assert_eq!(frame.energy, 1);
}

#[test]
fn step_with_constant_acceleration_moves_with_old_velocity() {
    let mut scene = world((1, 1));
    let p = scene.mass();
    p.vel(&mut scene, (1, 1)).unwrap();
    scene.step(1, 1).unwrap();
    assert_eq!(p.velocity(&scene), Ok((2, 2)));
    assert_eq!(p.position(&scene), Ok((1, 1)));
    assert_eq!(scene.state().acceleration(0), (0, 0));
}

#[test]
fn uniform_field_skips_zero_mass() {
    let mut scene = world((2, -3));
    let a = scene.mass();
    let b = scene.mass();
    b.mass(&mut scene, 0).unwrap();
    assert_eq!(scene.apply_accelerations(), Ok(0));
    assert_eq!(scene.state().acceleration(a.index), (2, -3));
    assert_eq!(scene.state().acceleration(b.index), (0, 0));
}

#[test]
fn simulate_records_one_frame_per_step() {
    let mut scene = world((0, 0));
    let p = scene.mass();
    p.vel(&mut scene, (2, 0)).unwrap();
    let rec = scene.simulate(3, 2, 5).unwrap();
    assert_eq!(rec.frame_count(), 3);
    let times: Vec<i64> = (0..3).map(|k| rec.frame_at(k).unwrap().time).collect();
    assert_eq!(times, vec![0, 5, 10]);
    // two substeps of length 2, each with kinetic energy 1 * 2^2 / 2 = 2
    assert_eq!(rec.frame_at(0).unwrap().energy, 2);
    assert_eq!(p.position(&scene), Ok((24, 0)));
}

#[test]
fn simulate_without_steps_records_nothing() {
    let mut scene = world((0, -10));
    scene.mass();
    let rec = scene.simulate(0, 1, 1).unwrap();
    assert_eq!(rec.frame_count(), 0);
    assert_eq!(scene.positions(), vec![(0, 0)]);
}

#[test]
fn zero_substeps_are_refused() {
    let mut scene = world((0, -10));
    scene.mass();
    assert_eq!(scene.update(1, 0), Err(SceneError::InvalidSubsteps));
    assert_eq!(scene.simulate(2, 0, 1).err(), Some(SceneError::InvalidSubsteps));
    assert_eq!(scene.step(1, 0).err(), Some(SceneError::InvalidSubsteps));
    assert_eq!(scene.positions(), vec![(0, 0)]);
}

#[test]
fn update_sums_energy_over_substeps() {
    let mut scene = world((0, 0));
    let p = scene.mass();
    p.vel(&mut scene, (2, 0)).unwrap();
    assert_eq!(scene.update(4, 2), Ok(4));
    assert_eq!(p.position(&scene), Ok((8, 0)));
}

#[test]
fn update_objects_reports_kinetic_energy_before_moving() {
    let mut scene = world((0, 0));
    let p = scene.mass();
    p.mass(&mut scene, 3).unwrap();
    p.vel(&mut scene, (2, 4)).unwrap();
    p.apply_force(&mut scene, (6, 0)).unwrap();
    assert_eq!(scene.update_objects(1), 30);
    assert_eq!(p.position(&scene), Ok((2, 4)));
    assert_eq!(p.velocity(&scene), Ok((4, 4)));
    assert_eq!(scene.state().acceleration(0), (0, 0));
}

#[test]
fn two_body_gravity_keeps_momentum() {
    let mut scene = world((0, 0));
    let a = scene.mass();
    let b = scene.mass();
    b.at(&mut scene, (10, 0)).unwrap();
    scene.add_force(BuiltinForce::Gravity(GravityForce::new(vec![a.index, b.index], 1000)));
    let rec = scene.simulate(3, 1, 1).unwrap();
    let first = rec.velocities_at(0).unwrap();
    assert_eq!(first, vec![(20, 0), (-20, 0)]);
    for k in 0..3 {
        let v = rec.velocities_at(k).unwrap();
        assert_eq!(v[0].0 + v[1].0, 0);
        assert_eq!(v[0].1 + v[1].1, 0);
    }
}

#[test]
fn gravity_energy_sums_ordered_pairs() {
    let mut scene = world((0, 0));
    let a = scene.mass();
    let b = scene.mass();
    b.at(&mut scene, (0, 10)).unwrap();
    let g = GravityForce::new(vec![a.index, b.index], 1000);
    assert_eq!(g.get_energy(scene.state()), Ok(-200));
}

#[test]
fn coincident_gravity_fails_the_step() {
    let mut scene = world((0, -10));
    let a = scene.mass();
    let b = scene.mass();
    a.vel(&mut scene, (1, 0)).unwrap();
    let g = GravityForce::new(vec![a.index, b.index], 1000);
    assert_eq!(g.get_energy(scene.state()), Err(ForceError::Coincident));
    scene.add_force(BuiltinForce::Gravity(g));
    assert_eq!(
        scene.simulate(2, 1, 1).err(),
        Some(SceneError::Force(ForceError::Coincident))
    );
    assert_eq!(scene.positions(), vec![(0, 0), (0, 0)]);
    assert_eq!(a.velocity(&scene), Ok((1, 0)));
}

#[test]
fn gravity_bound_to_unknown_particle_fails() {
    let mut scene = world((0, 0));
    scene.mass();
    scene.add_force(BuiltinForce::Gravity(GravityForce::new(vec![0, 7], 1)));
    assert_eq!(scene.update(1, 1), Err(SceneError::Force(ForceError::UnknownParticle)));
}

#[test]
fn spring_at_rest_length_exerts_nothing() {
    let mut scene = world((0, 0));
    let a = scene.mass();
    let b = scene.mass();
    a.at(&mut scene, (0, 0)).unwrap();
    b.at(&mut scene, (6, 8)).unwrap();
    let spring = SpringForce::new(scene.state(), a.index, b.index, Some(5), None).unwrap();
    assert_eq!(spring.get_energy(scene.state()), Ok(0));
    scene.add_force(BuiltinForce::Spring(spring));
    assert_eq!(scene.apply_accelerations(), Ok(0));
    assert_eq!(scene.state().acceleration(0), (0, 0));
    assert_eq!(scene.state().acceleration(1), (0, 0));
}

#[test]
fn stretched_spring_pulls_together() {
    let mut scene = world((0, 0));
    let a = scene.mass();
    let b = scene.mass();
    b.at(&mut scene, (5, 0)).unwrap();
    let spring = SpringForce::new(scene.state(), a.index, b.index, Some(2), Some(3)).unwrap();
    assert_eq!(spring.get_energy(scene.state()), Ok(4));
    scene.add_force(BuiltinForce::Spring(spring));
    assert_eq!(scene.apply_accelerations(), Ok(4));
    assert_eq!(scene.state().acceleration(0), (4, 0));
    assert_eq!(scene.state().acceleration(1), (-4, 0));
}

#[test]
fn spring_on_unknown_particle_is_refused() {
    let mut scene = world((0, 0));
    scene.mass();
    let r = SpringForce::new(scene.state(), 0, 3, None, None);
    assert_eq!(r.err(), Some(ForceError::UnknownParticle));
}
