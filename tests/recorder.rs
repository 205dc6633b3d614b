use phyrs::force::BuiltinForce;
use phyrs::recorder::{InMemoryDataCollector, TrajectoryError};
use phyrs::scene::Scene;

type World = Scene<i64, BuiltinForce<i64>>;

/// Two particles drifting right for three steps of length 1.
fn three_frames() -> InMemoryDataCollector<i64> {
    let mut scene: World = Scene::new(Some((0, 0)), None).unwrap();
    let a = scene.mass();
    let b = scene.mass();
    a.vel(&mut scene, (1, 0)).unwrap();
    b.at(&mut scene, (0, 5)).unwrap();
    b.vel(&mut scene, (2, -1)).unwrap();
    b.mass(&mut scene, 3).unwrap();
    scene.simulate(3, 1, 1).unwrap()
}

#[test]
fn empty_recorder_has_nothing() {
    let rec: InMemoryDataCollector<i64> = InMemoryDataCollector::new();
    assert_eq!(rec.frame_count(), 0);
    assert_eq!(rec.particle_count(), 0);
    assert!(rec.export_rows().is_empty());
    assert_eq!(rec.export_csv(), "time,ID,m,x,y,dx,dy\n");
}

#[test]
fn queries_per_frame() {
    let rec = three_frames();
    assert_eq!(rec.frame_count(), 3);
    assert_eq!(rec.particle_count(), 2);
    assert_eq!(rec.positions_at(1).unwrap(), vec![(2, 0), (4, 3)]);
    assert_eq!(rec.velocities_at(1).unwrap(), vec![(1, 0), (2, -1)]);
    let info = rec.info_at(2).unwrap();
    assert_eq!(info.masses, vec![1, 3]);
    assert_eq!(info.positions, vec![(3, 0), (6, 2)]);
    assert_eq!(info.velocities, vec![(1, 0), (2, -1)]);
    // kinetic energy 1 * 1 / 2 + 3 * 5 / 2 = 0 + 7
    assert_eq!(info.energy, 7);
}

#[test]
fn queries_per_particle() {
    let rec = three_frames();
    assert_eq!(rec.positions_of(1).unwrap(), vec![(2, 4), (4, 3), (6, 2)]);
    assert_eq!(rec.velocities_of(0).unwrap(), vec![(1, 0), (1, 0), (1, 0)]);
    let info = rec.info_of(1).unwrap();
    assert_eq!(info.mass, 3);
    assert_eq!(info.positions, vec![(2, 4), (4, 3), (6, 2)]);
    assert_eq!(info.velocities, vec![(2, -1), (2, -1), (2, -1)]);
}

#[test]
fn whole_trajectory_extraction() {
    let rec = three_frames();
    let data = rec.extract_data();
    assert_eq!(data.time, vec![0, 1, 2]);
    assert_eq!(data.masses, vec![1, 3]);
    assert_eq!(data.energies, vec![7, 7, 7]);
    assert_eq!(data.positions, rec.extract_positions());
    assert_eq!(data.velocities, rec.extract_velocities());
    assert_eq!(data.positions[0], vec![(1, 0), (2, 4)]);
}

#[test]
fn out_of_range_queries_fail_and_change_nothing() {
    let rec = three_frames();
    assert_eq!(rec.frame_at(3).err(), Some(TrajectoryError::FrameOutOfRange));
    assert_eq!(rec.positions_at(3), Err(TrajectoryError::FrameOutOfRange));
    assert_eq!(rec.velocities_at(7), Err(TrajectoryError::FrameOutOfRange));
    assert_eq!(rec.info_at(3).err(), Some(TrajectoryError::FrameOutOfRange));
    assert_eq!(rec.positions_of(2), Err(TrajectoryError::ParticleOutOfRange));
    assert_eq!(rec.velocities_of(2), Err(TrajectoryError::ParticleOutOfRange));
    assert_eq!(rec.info_of(5).err(), Some(TrajectoryError::ParticleOutOfRange));
    assert_eq!(rec.frame_count(), 3);
    assert_eq!(rec.particle_count(), 2);
    assert_eq!(rec.positions_at(2).unwrap(), vec![(3, 0), (6, 2)]);
}

#[test]
fn export_has_one_row_per_frame_and_particle() {
    let rec = three_frames();
    let rows = rec.export_rows();
    assert_eq!(rows.len(), rec.frame_count() * rec.particle_count());
    let r = &rows[3];
    assert_eq!((r.time, r.id, r.mass, r.x, r.y, r.dx, r.dy), (1, 1, 3, 4, 3, 2, -1));
}

#[test]
fn export_csv_text() {
    let rec = three_frames();
    let text = rec.export_csv();
    let lines: Vec<&str> = text.lines().collect();
    assert_eq!(lines.len(), 1 + 3 * 2);
    assert_eq!(lines[0], "time,ID,m,x,y,dx,dy");
    assert_eq!(lines[1], "0,0,1,1,0,1,0");
    assert_eq!(lines[2], "0,1,3,2,4,2,-1");
    assert_eq!(lines[6], "2,1,3,6,2,2,-1");
    assert!(text.ends_with('\n'));
}

#[test]
fn masses_are_captured_at_the_first_frame_only() {
    let mut scene: World = Scene::new(Some((0, 0)), None).unwrap();
    let a = scene.mass();
    let mut rec = scene.step(1, 1).unwrap();
    a.mass(&mut scene, 9).unwrap();
    assert_eq!(rec.collect_frame(scene.state(), 1, 0), Ok(()));
    assert_eq!(rec.info_of(0).unwrap().mass, 1);
    assert_eq!(rec.frame_count(), 2);
}

#[test]
fn snapshot_with_other_particle_count_is_refused() {
    let mut scene: World = Scene::new(Some((0, 0)), None).unwrap();
    scene.mass();
    let mut rec = scene.step(1, 1).unwrap();
    scene.mass();
    assert_eq!(
        rec.collect_frame(scene.state(), 1, 0),
        Err(TrajectoryError::ParticleCountChanged)
    );
    assert_eq!(rec.frame_count(), 1);
}

#[test]
fn byte_size_counts_every_stored_value() {
    let rec = three_frames();
    // 3 times, 3 * 4 coordinates per frame for 2 particles, 2 masses
    assert_eq!(rec.byte_size(), Some((3 + 24 + 2) * 8));
    let empty: InMemoryDataCollector<i64> = InMemoryDataCollector::new();
    assert_eq!(empty.byte_size(), Some(0));
}
