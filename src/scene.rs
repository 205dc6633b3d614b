use vstd::prelude::*;
use vstd::string::StringExecFns;
use crate::force::{distance, distance_between, ForceError, ForceGenerator};
use crate::recorder::{pairs, InMemoryDataCollector};
use crate::scalar::Scalar;
use crate::solver::EulerODE;
use crate::state::{advanced_by, field_applied, immovable_kept, StateError, StateModel, VectorState};

verus! {

/// Why a scene operation was refused.
#[derive(Clone, Copy, Debug, PartialEq, Eq, Structural)]
pub enum SceneError {
    /// The integrator name is not known.
    UnknownSolver,
    /// The substep count is zero, or the scalar type cannot divide by it.
    InvalidSubsteps,
    /// The handle is not a particle of this scene.
    UnknownParticle,
    /// A force generator failed; the step did not happen.
    Force(ForceError),
    /// A state update was refused.
    State(StateError),
}

/// The state once the first `k` generators of `gens` have acted, in order.
pub open spec fn forces_applied<S: Scalar, G: ForceGenerator<S>>(
    gens: Seq<G>,
    s: StateModel<S>,
    k: int,
) -> Result<StateModel<S>, ForceError>
    decreases k,
{
    if k <= 0 {
        Ok(s)
    } else {
        match forces_applied(gens, s, k - 1) {
            Ok(t) => gens[k - 1].applied(t),
            Err(e) => Err(e),
        }
    }
}

/// Potential energy of the first `k` generators in state `s`, summed in
/// order; a generator that cannot report its energy contributes nothing.
pub open spec fn forces_energy<S: Scalar, G: ForceGenerator<S>>(
    gens: Seq<G>,
    s: StateModel<S>,
    k: int,
) -> S
    decreases k,
{
    if k <= 0 {
        S::zero()
    } else {
        match gens[k - 1].energy(s) {
            Ok(v) => S::sum(forces_energy(gens, s, k - 1), v),
            Err(_) => forces_energy(gens, s, k - 1),
        }
    }
}

/// One substep of length `h`: the field and every generator act, energy is
/// taken, the integrator advances, accelerations are reset. Returns the new
/// state, the generators' energy and the kinetic energy.
pub open spec fn substep<S: Scalar, G: ForceGenerator<S>>(
    gravity: (S, S),
    gens: Seq<G>,
    s: StateModel<S>,
    h: S,
) -> Result<(StateModel<S>, S, S), ForceError> {
    match forces_applied(gens, field_applied(s, gravity.0, gravity.1), gens.len() as int) {
        Ok(t) => Ok(
            (
                advanced_by(t, EulerODE, h).at_rest(),
                forces_energy(gens, t, gens.len() as int),
                t.kinetic(),
            ),
        ),
        Err(e) => Err(e),
    }
}

/// `k` substeps of length `h` from `s`: the final state and the energy of
/// all substeps summed.
pub open spec fn substeps_run<S: Scalar, G: ForceGenerator<S>>(
    gravity: (S, S),
    gens: Seq<G>,
    s: StateModel<S>,
    h: S,
    k: int,
) -> Result<(StateModel<S>, S), ForceError>
    decreases k,
{
    if k <= 0 {
        Ok((s, S::zero()))
    } else {
        match substeps_run(gravity, gens, s, h, k - 1) {
            Ok((t, e)) => match substep(gravity, gens, t, h) {
                Ok((u, ge, ke)) => Ok((u, S::sum(S::sum(e, ge), ke))),
                Err(x) => Err(x),
            },
            Err(x) => Err(x),
        }
    }
}

/// Length of each of `substeps` substeps of a step `dt`.
pub open spec fn substep_length<S: Scalar>(dt: S, substeps: usize) -> S {
    S::quot(dt, S::count(substeps as nat))
}

/// A substep count the scalar type can divide by.
pub open spec fn valid_substeps<S: Scalar>(substeps: usize) -> bool {
    substeps > 0 && S::count(substeps as nat) != S::zero()
}

/// `k` steps from `s`, each of `substeps` substeps: for each step, the
/// state after it and the energy summed over its substeps.
pub open spec fn steps_run<S: Scalar, G: ForceGenerator<S>>(
    gravity: (S, S),
    gens: Seq<G>,
    s: StateModel<S>,
    dt: S,
    substeps: usize,
    k: int,
) -> Result<Seq<(StateModel<S>, S)>, ForceError>
    decreases k,
{
    if k <= 0 {
        Ok(Seq::empty())
    } else {
        match steps_run(gravity, gens, s, dt, substeps, k - 1) {
            Ok(done) => {
                let from = if done.len() == 0 {
                    s
                } else {
                    done.last().0
                };
                match substeps_run(
                    gravity,
                    gens,
                    from,
                    substep_length(dt, substeps),
                    substeps as int,
                ) {
                    Ok((u, e)) => Ok(done.push((u, e))),
                    Err(x) => Err(x),
                }
            },
            Err(x) => Err(x),
        }
    }
}

/// Whether `t` differs from `s` in accelerations at most.
pub open spec fn same_motion<S: Scalar>(s: StateModel<S>, t: StateModel<S>) -> bool {
    &&& t.wf()
    &&& t.positions == s.positions
    &&& t.velocities == s.velocities
    &&& t.masses == s.masses
}

pub proof fn lemma_forces_keep_motion<S: Scalar, G: ForceGenerator<S>>(
    gens: Seq<G>,
    s: StateModel<S>,
    k: int,
)
    requires
        s.wf(),
        k <= gens.len(),
    ensures
        forces_applied(gens, s, k) is Ok ==> same_motion(s, forces_applied(gens, s, k)->Ok_0)
            && immovable_kept(s, forces_applied(gens, s, k)->Ok_0),
    decreases k,
{
    if k > 0 {
        lemma_forces_keep_motion(gens, s, k - 1);
        if forces_applied(gens, s, k - 1) is Ok {
            gens[k - 1].lemma_applied_keeps_motion(forces_applied(gens, s, k - 1)->Ok_0);
        }
    }
}

pub proof fn lemma_substeps_keep_masses<S: Scalar, G: ForceGenerator<S>>(
    gravity: (S, S),
    gens: Seq<G>,
    s: StateModel<S>,
    h: S,
    k: int,
)
    requires
        s.wf(),
    ensures
        substeps_run(gravity, gens, s, h, k) is Ok ==> {
            let t = substeps_run(gravity, gens, s, h, k)->Ok_0.0;
            &&& t.wf()
            &&& t.masses == s.masses
        },
    decreases k,
{
    if k > 0 {
        lemma_substeps_keep_masses(gravity, gens, s, h, k - 1);
        if substeps_run(gravity, gens, s, h, k - 1) is Ok {
            let t = substeps_run(gravity, gens, s, h, k - 1)->Ok_0.0;
            let a = field_applied(t, gravity.0, gravity.1);
            lemma_forces_keep_motion(gens, a, gens.len() as int);
        }
    }
}

/// Handle of one particle of a scene: its index in the scene's vectors.
#[derive(Clone, Copy, Debug, PartialEq, Eq, Structural)]
pub struct MassRef {
    pub index: usize,
}

/// A 2D particle scene: particles, a uniform field, force generators and
/// the explicit Euler integrator.
pub struct Scene<S, G> {
    gravity: (S, S),
    state: VectorState<S>,
    ode_solver: EulerODE,
    force_generators: Vec<G>,
}

impl<S: Scalar, G: ForceGenerator<S>> Scene<S, G> {
    pub closed spec fn model(&self) -> StateModel<S> {
        self.state@
    }

    pub closed spec fn field(&self) -> (S, S) {
        self.gravity
    }

    pub closed spec fn generators(&self) -> Seq<G> {
        self.force_generators@
    }

    pub closed spec fn wf(&self) -> bool {
        self.state.wf()
    }

    /// A scene without particles or generators. The field defaults to
    /// `(0, standard_field)`, the integrator to `"euler"`, the only one known.
    pub fn new(gravity: Option<(S, S)>, ode: Option<&str>) -> (r: Result<Self, SceneError>)
        ensures
            match ode {
                Some(name) => name@ != "euler"@,
                None => false,
            } ==> r == Err::<Self, SceneError>(SceneError::UnknownSolver),
            match ode {
                Some(name) => name@ == "euler"@,
                None => true,
            } ==> r is Ok && {
                let sc = r->Ok_0;
                &&& sc.wf()
                &&& sc.model().count() == 0
                &&& sc.generators().len() == 0
                &&& sc.field() == match gravity {
                    Some(g) => g,
                    None => (S::zero(), S::standard_field()),
                }
            },
    {
        if let Some(name) = ode {
            let given = name.to_owned();
            let euler = String::from_str("euler");
            if !(given == euler) {
                return Err(SceneError::UnknownSolver);
            }
        }
        let gravity = match gravity {
            Some(g) => g,
            None => (S::zero_value(), S::standard_field_value()),
        };
        Ok(
            Scene {
                gravity,
                state: VectorState::new(),
                ode_solver: EulerODE,
                force_generators: Vec::new(),
            },
        )
    }

    /// Adds a particle at rest at the origin with unit mass.
    pub fn mass(&mut self) -> (r: MassRef)
        requires
            old(self).wf(),
        ensures
            final(self).wf(),
            r.index == old(self).model().count(),
            final(self).model().positions == old(self).model().positions.push(S::zero()).push(
                S::zero(),
            ),
            final(self).model().velocities == old(self).model().velocities.push(S::zero()).push(
                S::zero(),
            ),
            final(self).model().accelerations == old(self).model().accelerations.push(
                S::zero(),
            ).push(S::zero()),
            final(self).model().masses == old(self).model().masses.push(S::one()),
            final(self).field() == old(self).field(),
            final(self).generators() == old(self).generators(),
    {
        MassRef { index: self.state.add_particle() }
    }

    pub fn set_gravity(&mut self, gravity: (S, S))
        ensures
            final(self).field() == gravity,
            final(self).model() == old(self).model(),
            final(self).generators() == old(self).generators(),
            final(self).wf() == old(self).wf(),
    {
        self.gravity = gravity;
    }

    pub fn get_gravity(&self) -> (r: (S, S))
        ensures
            r == self.field(),
    {
        self.gravity
    }

    /// Attaches a generator after those already attached.
    pub fn add_force(&mut self, force_generator: G)
        ensures
            final(self).generators() == old(self).generators().push(force_generator),
            final(self).model() == old(self).model(),
            final(self).field() == old(self).field(),
            final(self).wf() == old(self).wf(),
    {
        self.force_generators.push(force_generator);
    }

    /// The particles' state.
    pub fn state(&self) -> (r: &VectorState<S>)
        ensures
            r@ == self.model(),
    {
        &self.state
    }

    pub fn particle_count(&self) -> (r: usize)
        ensures
            r == self.model().count(),
    {
        self.state.particle_count()
    }

    /// The position of every particle.
    pub fn positions(&self) -> (r: Vec<(S, S)>)
        requires
            self.wf(),
        ensures
            r@ == pairs(self.model().positions),
    {
        let n = self.state.particle_count();
        let mut r: Vec<(S, S)> = Vec::new();
        let mut i: usize = 0;
        while i < n
            invariant
                self.wf(),
                n == self.model().count(),
                0 <= i <= n,
                r@.len() == i,
                forall|k: int| 0 <= k < i ==> r@[k] == pairs(self.model().positions)[k],
            decreases n - i,
        {
            r.push(self.state.position(i));
            i += 1;
        }
        assert(r@ =~= pairs(self.model().positions));
        r
    }

    /// Adds the field to every particle of nonzero mass, then lets every
    /// generator act in order. Returns the generators' potential energy.
    /// When a generator fails, positions, velocities and masses are as they
    /// were.
    pub fn apply_accelerations(&mut self) -> (r: Result<S, ForceError>)
        requires
            old(self).wf(),
        ensures
            final(self).wf(),
            final(self).field() == old(self).field(),
            final(self).generators() == old(self).generators(),
            match forces_applied(
                old(self).generators(),
                field_applied(old(self).model(), old(self).field().0, old(self).field().1),
                old(self).generators().len() as int,
            ) {
                Ok(t) => r == Ok::<S, ForceError>(
                    forces_energy(old(self).generators(), t, old(self).generators().len() as int),
                ) && final(self).model() == t,
                Err(e) => r == Err::<S, ForceError>(e) && same_motion(
                    old(self).model(),
                    final(self).model(),
                ),
            },
    {
        let ghost gens = self.force_generators@;
        self.state.apply_field(self.gravity.0, self.gravity.1);
        let ghost a = self.state@;
        let n = self.force_generators.len();
        let mut i: usize = 0;
        while i < n
            invariant
                0 <= i <= n,
                n == gens.len(),
                gens == self.force_generators@,
                gens == old(self).force_generators@,
                self.gravity == old(self).gravity,
                a == field_applied(old(self).state@, self.gravity.0, self.gravity.1),
                self.state.wf(),
                forces_applied(gens, a, i as int) == Ok::<StateModel<S>, ForceError>(self.state@),
                same_motion(old(self).state@, self.state@),
            decreases n - i,
        {
            proof {
                gens[i as int].lemma_applied_keeps_motion(self.state@);
            }
            let ghost before = self.state@;
            let res = self.force_generators[i].apply_force(&mut self.state);
            if let Err(e) = res {
                proof {
                    assert(forces_applied(gens, a, i as int + 1) == gens[i as int].applied(before));
                    lemma_forces_fail_after(gens, a, i as int + 1, n as int);
                }
                return Err(e);
            }
            i += 1;
        }
        let mut energy = S::zero_value();
        let mut j: usize = 0;
        while j < n
            invariant
                0 <= j <= n,
                n == gens.len(),
                gens == self.force_generators@,
                gens == old(self).force_generators@,
                self.gravity == old(self).gravity,
                self.state.wf(),
                energy == forces_energy(gens, self.state@, j as int),
            decreases n - j,
        {
            match self.force_generators[j].get_energy(&self.state) {
                Ok(v) => {
                    energy = energy.plus(v);
                },
                Err(_) => {},
            }
            j += 1;
        }
        Ok(energy)
    }

    /// Kinetic energy before the move, then one integrator step of length
    /// `dt`, then every acceleration reset to zero.
    pub fn update_objects(&mut self, dt: S) -> (r: S)
        requires
            old(self).wf(),
        ensures
            final(self).wf(),
            r == old(self).model().kinetic(),
            final(self).model() == advanced_by(old(self).model(), EulerODE, dt).at_rest(),
            final(self).field() == old(self).field(),
            final(self).generators() == old(self).generators(),
    {
        let energy = self.state.kinetic_energy();
        self.state.integrate(&self.ode_solver, dt);
        self.state.reset_accelerations();
        energy
    }
}

impl<S: Scalar, G: ForceGenerator<S>> Scene<S, G> {
    /// Checks the substep count and returns the substep length `dt / substeps`.
    fn substep_length_of(dt: S, substeps: usize) -> (r: Result<S, SceneError>)
        ensures
            valid_substeps::<S>(substeps) ==> r == Ok::<S, SceneError>(substep_length(dt, substeps)),
            !valid_substeps::<S>(substeps) ==> r == Err::<S, SceneError>(SceneError::InvalidSubsteps),
    {
        if substeps == 0 {
            return Err(SceneError::InvalidSubsteps);
        }
        let c = S::from_count(substeps);
        if c.is_zero() {
            return Err(SceneError::InvalidSubsteps);
        }
        Ok(dt.over(c))
    }

    /// Advances the scene by `dt` in `substeps` equal substeps and returns the
    /// energy summed over the substeps. When a generator fails, the scene is
    /// left as it was.
    pub fn update(&mut self, dt: S, substeps: usize) -> (r: Result<S, SceneError>)
        requires
            old(self).wf(),
        ensures
            final(self).wf(),
            final(self).field() == old(self).field(),
            final(self).generators() == old(self).generators(),
            !valid_substeps::<S>(substeps) ==> r == Err::<S, SceneError>(SceneError::InvalidSubsteps)
                && final(self).model() == old(self).model(),
            valid_substeps::<S>(substeps) ==> match substeps_run(
                old(self).field(),
                old(self).generators(),
                old(self).model(),
                substep_length(dt, substeps),
                substeps as int,
            ) {
                Ok((u, e)) => r == Ok::<S, SceneError>(e) && final(self).model() == u,
                Err(x) => r == Err::<S, SceneError>(SceneError::Force(x)) && final(self).model()
                    == old(self).model(),
            },
    {
        let h = match Self::substep_length_of(dt, substeps) {
            Ok(h) => h,
            Err(e) => return Err(e),
        };
        let saved = self.state.snapshot();
        let mut energy = S::zero_value();
        let mut i: usize = 0;
        while i < substeps
            invariant
                0 <= i <= substeps,
                valid_substeps::<S>(substeps),
                h == substep_length(dt, substeps),
                saved@ == old(self).state@,
                saved.wf(),
                self.wf(),
                self.gravity == old(self).gravity,
                self.force_generators@ == old(self).force_generators@,
                substeps_run(
                    old(self).gravity,
                    old(self).force_generators@,
                    old(self).state@,
                    h,
                    i as int,
                ) == Ok::<(StateModel<S>, S), ForceError>((self.state@, energy)),
            decreases substeps - i,
        {
            let ghost t = self.state@;
            let ge = match self.apply_accelerations() {
                Ok(v) => v,
                Err(x) => {
                    self.state = saved;
                    proof {
                        lemma_substeps_fail_after(
                            old(self).gravity,
                            old(self).force_generators@,
                            old(self).state@,
                            h,
                            i as int + 1,
                            substeps as int,
                        );
                    }
                    return Err(SceneError::Force(x));
                },
            };
            let ke = self.update_objects(h);
            energy = energy.plus(ge).plus(ke);
            i += 1;
        }
        Ok(energy)
    }

    /// One step of `dt` in `substeps` substeps, recorded as a single frame at
    /// time zero whose energy is the substeps' average.
    pub fn step(&mut self, dt: S, substeps: usize) -> (r: Result<InMemoryDataCollector<S>, SceneError>)
        requires
            old(self).wf(),
        ensures
            final(self).wf(),
            final(self).field() == old(self).field(),
            final(self).generators() == old(self).generators(),
            !valid_substeps::<S>(substeps) ==> r == Err::<InMemoryDataCollector<S>, SceneError>(
                SceneError::InvalidSubsteps,
            ) && final(self).model() == old(self).model(),
            valid_substeps::<S>(substeps) ==> match substeps_run(
                old(self).field(),
                old(self).generators(),
                old(self).model(),
                substep_length(dt, substeps),
                substeps as int,
            ) {
                Ok((u, e)) => r is Ok && final(self).model() == u && {
                    let rec = r->Ok_0;
                    &&& rec.wf()
                    &&& rec.frames() == 1
                    &&& rec.time_of(0) == S::zero()
                    &&& rec.energy_of(0) == S::quot(e, S::count(substeps as nat))
                    &&& rec.positions_of_frame(0) == u.positions
                    &&& rec.velocities_of_frame(0) == u.velocities
                    &&& rec.recorded_masses() == u.masses
                },
                Err(x) => r == Err::<InMemoryDataCollector<S>, SceneError>(SceneError::Force(x))
                    && final(self).model() == old(self).model(),
            },
    {
        let energy = match self.update(dt, substeps) {
            Ok(e) => e,
            Err(x) => return Err(x),
        };
        let count = S::from_count(substeps);
        let mut rec = InMemoryDataCollector::new();
        let _ = rec.collect_frame(&self.state, S::zero_value(), energy.over(count));
        Ok(rec)
    }

    /// `steps` steps of `dt`, each in `substeps` substeps, recorded as one
    /// frame per step: frame `k` is the state after step `k + 1`, at time
    /// `k * dt`, with the average energy of that step's substeps. When a
    /// generator fails, the scene is left as it was.
    pub fn simulate(&mut self, steps: usize, substeps: usize, dt: S) -> (r: Result<
        InMemoryDataCollector<S>,
        SceneError,
    >)
        requires
            old(self).wf(),
        ensures
            final(self).wf(),
            final(self).field() == old(self).field(),
            final(self).generators() == old(self).generators(),
            !valid_substeps::<S>(substeps) ==> r == Err::<InMemoryDataCollector<S>, SceneError>(
                SceneError::InvalidSubsteps,
            ) && final(self).model() == old(self).model(),
            valid_substeps::<S>(substeps) ==> match steps_run(
                old(self).field(),
                old(self).generators(),
                old(self).model(),
                dt,
                substeps,
                steps as int,
            ) {
                Ok(run) => r is Ok && {
                    let rec = r->Ok_0;
                    &&& rec.wf()
                    &&& rec.frames() == steps
                    &&& forall|k: int|
                        0 <= k < steps ==> {
                            &&& #[trigger] rec.time_of(k) == S::prod(S::count(k as nat), dt)
                            &&& rec.energy_of(k) == S::quot(run[k].1, S::count(substeps as nat))
                            &&& rec.positions_of_frame(k) == run[k].0.positions
                            &&& rec.velocities_of_frame(k) == run[k].0.velocities
                        }
                    &&& steps > 0 ==> rec.recorded_masses() == old(self).model().masses
                    &&& final(self).model() == if steps == 0 {
                        old(self).model()
                    } else {
                        run.last().0
                    }
                },
                Err(x) => r == Err::<InMemoryDataCollector<S>, SceneError>(SceneError::Force(x))
                    && final(self).model() == old(self).model(),
            },
    {
        if let Err(e) = Self::substep_length_of(dt, substeps) {
            return Err(e);
        }
        let count = S::from_count(substeps);
        let saved = self.state.snapshot();
        let mut rec = InMemoryDataCollector::new();
        let ghost mut run: Seq<(StateModel<S>, S)> = Seq::empty();
        let mut k: usize = 0;
        while k < steps
            invariant
                0 <= k <= steps,
                valid_substeps::<S>(substeps),
                count == S::count(substeps as nat),
                saved@ == old(self).state@,
                saved.wf(),
                self.wf(),
                rec.wf(),
                self.gravity == old(self).gravity,
                self.force_generators@ == old(self).force_generators@,
                steps_run(
                    old(self).gravity,
                    old(self).force_generators@,
                    old(self).state@,
                    dt,
                    substeps,
                    k as int,
                ) == Ok::<Seq<(StateModel<S>, S)>, ForceError>(run),
                run.len() == k,
                self.state@ == if k == 0 {
                    old(self).state@
                } else {
                    run.last().0
                },
                self.state@.masses == old(self).state@.masses,
                rec.frames() == k,
                k > 0 ==> rec.recorded_masses() == old(self).state@.masses,
                forall|j: int|
                    0 <= j < k ==> {
                        &&& #[trigger] rec.time_of(j) == S::prod(S::count(j as nat), dt)
                        &&& rec.energy_of(j) == S::quot(run[j].1, count)
                        &&& rec.positions_of_frame(j) == run[j].0.positions
                        &&& rec.velocities_of_frame(j) == run[j].0.velocities
                    },
            decreases steps - k,
        {
            let ghost from = self.state@;
            let energy = match self.update(dt, substeps) {
                Ok(e) => e,
                Err(x) => {
                    self.state = saved;
                    proof {
                        lemma_steps_fail_after(
                            old(self).gravity,
                            old(self).force_generators@,
                            old(self).state@,
                            dt,
                            substeps,
                            k as int + 1,
                            steps as int,
                        );
                    }
                    return Err(x);
                },
            };
            proof {
                lemma_substeps_keep_masses(
                    old(self).gravity,
                    old(self).force_generators@,
                    from,
                    substep_length(dt, substeps),
                    substeps as int,
                );
                run = run.push((self.state@, energy));
            }
            let time = S::from_count(k).times(dt);
            let _ = rec.collect_frame(&self.state, time, energy.over(count));
            k += 1;
        }
        Ok(rec)
    }
}

impl MassRef {
    /// The handle names a particle of `scene`.
    pub open spec fn within<S: Scalar, G: ForceGenerator<S>>(self, scene: Scene<S, G>) -> bool {
        self.index < scene.model().count()
    }

    /// Moves the particle to `position`.
    pub fn at<S: Scalar, G: ForceGenerator<S>>(&self, scene: &mut Scene<S, G>, position: (S, S)) -> (r:
        Result<(), SceneError>)
        requires
            old(scene).wf(),
        ensures
            final(scene).wf(),
            final(scene).field() == old(scene).field(),
            final(scene).generators() == old(scene).generators(),
            !self.within(*old(scene)) ==> r == Err::<(), SceneError>(SceneError::UnknownParticle)
                && final(scene).model() == old(scene).model(),
            self.within(*old(scene)) ==> r is Ok && final(scene).model() == (StateModel {
                positions: old(scene).model().positions.update(2 * self.index, position.0).update(
                    2 * self.index + 1,
                    position.1,
                ),
                ..old(scene).model()
            }),
    {
        if self.index >= scene.state.particle_count() {
            return Err(SceneError::UnknownParticle);
        }
        scene.state.set_position(self.index, position.0, position.1);
        Ok(())
    }

    /// Moves the particle onto particle `origin`.
    pub fn relative<S: Scalar, G: ForceGenerator<S>>(&self, scene: &mut Scene<S, G>, origin: &MassRef) -> (r:
        Result<(), SceneError>)
        requires
            old(scene).wf(),
        ensures
            final(scene).wf(),
            final(scene).field() == old(scene).field(),
            final(scene).generators() == old(scene).generators(),
            !(self.within(*old(scene)) && origin.within(*old(scene))) ==> r == Err::<(), SceneError>(
                SceneError::UnknownParticle,
            ) && final(scene).model() == old(scene).model(),
            self.within(*old(scene)) && origin.within(*old(scene)) ==> r is Ok && final(scene).model()
                == (StateModel {
                positions: old(scene).model().positions.update(
                    2 * self.index,
                    old(scene).model().positions[2 * origin.index],
                ).update(2 * self.index + 1, old(scene).model().positions[2 * origin.index + 1]),
                ..old(scene).model()
            }),
    {
        let n = scene.state.particle_count();
        if self.index >= n || origin.index >= n {
            return Err(SceneError::UnknownParticle);
        }
        let (x, y) = scene.state.position(origin.index);
        scene.state.set_position(self.index, x, y);
        Ok(())
    }

    /// Sets the particle's velocity.
    pub fn vel<S: Scalar, G: ForceGenerator<S>>(&self, scene: &mut Scene<S, G>, velocity: (S, S)) -> (r:
        Result<(), SceneError>)
        requires
            old(scene).wf(),
        ensures
            final(scene).wf(),
            final(scene).field() == old(scene).field(),
            final(scene).generators() == old(scene).generators(),
            !self.within(*old(scene)) ==> r == Err::<(), SceneError>(SceneError::UnknownParticle)
                && final(scene).model() == old(scene).model(),
            self.within(*old(scene)) ==> r is Ok && final(scene).model() == (StateModel {
                velocities: old(scene).model().velocities.update(2 * self.index, velocity.0).update(
                    2 * self.index + 1,
                    velocity.1,
                ),
                ..old(scene).model()
            }),
    {
        if self.index >= scene.state.particle_count() {
            return Err(SceneError::UnknownParticle);
        }
        scene.state.set_velocity(self.index, velocity.0, velocity.1);
        Ok(())
    }

    /// Sets the particle's mass; a mass of zero makes it immovable.
    pub fn mass<S: Scalar, G: ForceGenerator<S>>(&self, scene: &mut Scene<S, G>, mass: S) -> (r: Result<
        (),
        SceneError,
    >)
        requires
            old(scene).wf(),
        ensures
            final(scene).wf(),
            final(scene).field() == old(scene).field(),
            final(scene).generators() == old(scene).generators(),
            !self.within(*old(scene)) ==> r == Err::<(), SceneError>(SceneError::UnknownParticle)
                && final(scene).model() == old(scene).model(),
            self.within(*old(scene)) ==> r is Ok && final(scene).model() == (StateModel {
                masses: old(scene).model().masses.update(self.index as int, mass),
                ..old(scene).model()
            }),
    {
        if self.index >= scene.state.particle_count() {
            return Err(SceneError::UnknownParticle);
        }
        scene.state.set_mass(self.index, mass);
        Ok(())
    }

    pub fn position<S: Scalar, G: ForceGenerator<S>>(&self, scene: &Scene<S, G>) -> (r: Result<
        (S, S),
        SceneError,
    >)
        requires
            scene.wf(),
        ensures
            !self.within(*scene) ==> r == Err::<(S, S), SceneError>(SceneError::UnknownParticle),
            self.within(*scene) ==> r == Ok::<(S, S), SceneError>(
                (scene.model().positions[2 * self.index], scene.model().positions[2 * self.index + 1]),
            ),
    {
        if self.index >= scene.state.particle_count() {
            return Err(SceneError::UnknownParticle);
        }
        Ok(scene.state.position(self.index))
    }

    pub fn velocity<S: Scalar, G: ForceGenerator<S>>(&self, scene: &Scene<S, G>) -> (r: Result<
        (S, S),
        SceneError,
    >)
        requires
            scene.wf(),
        ensures
            !self.within(*scene) ==> r == Err::<(S, S), SceneError>(SceneError::UnknownParticle),
            self.within(*scene) ==> r == Ok::<(S, S), SceneError>(
                (scene.model().velocities[2 * self.index], scene.model().velocities[2 * self.index + 1]),
            ),
    {
        if self.index >= scene.state.particle_count() {
            return Err(SceneError::UnknownParticle);
        }
        Ok(scene.state.velocity(self.index))
    }

    /// Distance to particle `other`.
    pub fn distance_to<S: Scalar, G: ForceGenerator<S>>(&self, scene: &Scene<S, G>, other: &MassRef) -> (r:
        Result<S, SceneError>)
        requires
            scene.wf(),
        ensures
            !(self.within(*scene) && other.within(*scene)) ==> r == Err::<S, SceneError>(
                SceneError::UnknownParticle,
            ),
            self.within(*scene) && other.within(*scene) ==> r == Ok::<S, SceneError>(
                distance(scene.model(), self.index as int, other.index as int),
            ),
    {
        let n = scene.state.particle_count();
        if self.index >= n || other.index >= n {
            return Err(SceneError::UnknownParticle);
        }
        Ok(distance_between(&scene.state, self.index, other.index))
    }

    /// Adds `force / mass` to the particle's acceleration; nothing happens to
    /// a particle of zero mass, and a force that is not finite is refused.
    pub fn apply_force<S: Scalar, G: ForceGenerator<S>>(&self, scene: &mut Scene<S, G>, force: (S, S)) -> (r:
        Result<(), SceneError>)
        requires
            old(scene).wf(),
        ensures
            final(scene).wf(),
            final(scene).field() == old(scene).field(),
            final(scene).generators() == old(scene).generators(),
            !self.within(*old(scene)) ==> r == Err::<(), SceneError>(SceneError::UnknownParticle)
                && final(scene).model() == old(scene).model(),
            self.within(*old(scene)) && !(S::finite(force.0) && S::finite(force.1)) ==> r == Err::<
                (),
                SceneError,
            >(SceneError::State(StateError::NonFiniteForce)) && final(scene).model() == old(
                scene,
            ).model(),
            self.within(*old(scene)) && S::finite(force.0) && S::finite(force.1) ==> r is Ok
                && final(scene).model() == old(scene).model().with_force(
                self.index as int,
                force.0,
                force.1,
            ),
    {
        if self.index >= scene.state.particle_count() {
            return Err(SceneError::UnknownParticle);
        }
        match scene.state.apply_force(self.index, force.0, force.1) {
            Ok(()) => Ok(()),
            Err(e) => Err(SceneError::State(e)),
        }
    }
}

/// Once the first `k` substeps have failed, so have the first `m >= k`.
pub proof fn lemma_substeps_fail_after<S: Scalar, G: ForceGenerator<S>>(
    gravity: (S, S),
    gens: Seq<G>,
    s: StateModel<S>,
    h: S,
    k: int,
    m: int,
)
    requires
        0 <= k <= m,
        substeps_run(gravity, gens, s, h, k) is Err,
    ensures
        substeps_run(gravity, gens, s, h, m) == substeps_run(gravity, gens, s, h, k),
    decreases m - k,
{
    if k < m {
        lemma_substeps_fail_after(gravity, gens, s, h, k, m - 1);
    }
}

/// Once the first `k` steps have failed, so have the first `m >= k`.
pub proof fn lemma_steps_fail_after<S: Scalar, G: ForceGenerator<S>>(
    gravity: (S, S),
    gens: Seq<G>,
    s: StateModel<S>,
    dt: S,
    substeps: usize,
    k: int,
    m: int,
)
    requires
        0 <= k <= m,
        steps_run(gravity, gens, s, dt, substeps, k) is Err,
    ensures
        steps_run(gravity, gens, s, dt, substeps, m) == steps_run(gravity, gens, s, dt, substeps, k),
    decreases m - k,
{
    if k < m {
        lemma_steps_fail_after(gravity, gens, s, dt, substeps, k, m - 1);
    }
}

/// Once the first `k` generators have failed, so have the first `m >= k`.
pub proof fn lemma_forces_fail_after<S: Scalar, G: ForceGenerator<S>>(
    gens: Seq<G>,
    s: StateModel<S>,
    k: int,
    m: int,
)
    requires
        0 <= k <= m,
        forces_applied(gens, s, k) is Err,
    ensures
        forces_applied(gens, s, m) == forces_applied(gens, s, k),
    decreases m - k,
{
    if k < m {
        lemma_forces_fail_after(gens, s, k, m - 1);
    }
}

} // verus!
