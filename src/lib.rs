//! A 2D particle-dynamics simulator.
//!
//! A [`scene::Scene`] holds the particles' state in flat vectors, a uniform
//! field, an ordered list of force generators and the explicit Euler
//! integrator. Stepping adds the field and every generator's forces to the
//! accelerations, takes the energy, advances positions and velocities, and
//! resets the accelerations. [`recorder::InMemoryDataCollector`] keeps one
//! frame per step and exports the trajectory as a table.
//!
//! The simulator is generic over [`scalar::Scalar`], the number type it
//! computes with; every operation's contract states the exact value it
//! produces in terms of that type's operations.

pub mod scalar;
pub mod solver;
pub mod state;
pub mod force;
pub mod recorder;
pub mod scene;
pub mod laws;
