use vstd::prelude::*;
use crate::scalar::Scalar;

verus! {

/// The mathematical content of a `VectorState`: four parallel sequences.
pub struct StateModel<S> {
    pub positions: Seq<S>,
    pub velocities: Seq<S>,
    pub accelerations: Seq<S>,
    pub masses: Seq<S>,
}

/// Why a state update was refused.
#[derive(Clone, Copy, Debug, PartialEq, Eq, Structural)]
pub enum StateError {
    /// A force component is not a finite number.
    NonFiniteForce,
}

impl<S: Scalar> StateModel<S> {
    pub open spec fn count(self) -> nat {
        self.masses.len()
    }

    /// Positions, velocities and accelerations hold two entries per particle.
    pub open spec fn wf(self) -> bool {
        &&& self.positions.len() == 2 * self.masses.len()
        &&& self.velocities.len() == 2 * self.masses.len()
        &&& self.accelerations.len() == 2 * self.masses.len()
    }

    pub open spec fn has(self, h: int) -> bool {
        0 <= h < self.count()
    }

    /// The state once the force `(fx, fy)` has been applied to particle `h`:
    /// `force / mass` is added to its acceleration, unless its mass is zero.
    pub open spec fn with_force(self, h: int, fx: S, fy: S) -> StateModel<S> {
        let m = self.masses[h];
        if m == S::zero() {
            self
        } else {
            StateModel {
                accelerations: self.accelerations.update(
                    2 * h,
                    S::sum(self.accelerations[2 * h], S::quot(fx, m)),
                ).update(2 * h + 1, S::sum(self.accelerations[2 * h + 1], S::quot(fy, m))),
                ..self
            }
        }
    }

    /// The same state with every acceleration set to zero.
    pub open spec fn at_rest(self) -> StateModel<S> {
        StateModel { accelerations: Seq::new(self.accelerations.len(), |i: int| S::zero()), ..self }
    }

    /// Kinetic energy `m * |v|^2 / 2` of one particle.
    pub open spec fn kinetic_of(self, i: int) -> S {
        let vx = self.velocities[2 * i];
        let vy = self.velocities[2 * i + 1];
        S::quot(
            S::prod(self.masses[i], S::sum(S::prod(vx, vx), S::prod(vy, vy))),
            S::sum(S::one(), S::one()),
        )
    }

    /// Kinetic energy of the first `n` particles, summed in index order;
    /// particles of zero mass contribute nothing.
    pub open spec fn kinetic_upto(self, n: int) -> S
        decreases n,
    {
        if n <= 0 {
            S::zero()
        } else if self.masses[n - 1] == S::zero() {
            self.kinetic_upto(n - 1)
        } else {
            S::sum(self.kinetic_upto(n - 1), self.kinetic_of(n - 1))
        }
    }

    pub open spec fn kinetic(self) -> S {
        self.kinetic_upto(self.count() as int)
    }
}

/// The state of every particle, held in flat parallel vectors: two entries
/// per particle for positions, velocities and accelerations, one for masses.
pub struct VectorState<S> {
    positions: Vec<S>,
    velocities: Vec<S>,
    accelerations: Vec<S>,
    masses: Vec<S>,
}

impl<S: Scalar> View for VectorState<S> {
    type V = StateModel<S>;

    closed spec fn view(&self) -> StateModel<S> {
        StateModel {
            positions: self.positions@,
            velocities: self.velocities@,
            accelerations: self.accelerations@,
            masses: self.masses@,
        }
    }
}

/// A copy of `v`, element by element.
pub fn copy_values<S: Scalar>(v: &Vec<S>) -> (r: Vec<S>)
    ensures
        r@ == v@,
{
    let mut r: Vec<S> = Vec::new();
    let mut i: usize = 0;
    while i < v.len()
        invariant
            i <= v.len(),
            r@ == v@.subrange(0, i as int),
        decreases v.len() - i,
    {
        r.push(v[i]);
        i += 1;
    }
    assert(r@ =~= v@);
    r
}

impl<S: Scalar> VectorState<S> {
    /// The vectors are in lock-step and each fits in memory.
    pub open spec fn wf(&self) -> bool {
        &&& self@.wf()
        &&& self@.positions.len() <= usize::MAX
    }

    /// A state with no particles.
    pub fn new() -> (r: Self)
        ensures
            r.wf(),
            r@.count() == 0,
    {
        VectorState {
            positions: Vec::new(),
            velocities: Vec::new(),
            accelerations: Vec::new(),
            masses: Vec::new(),
        }
    }

    /// An independent copy.
    pub fn snapshot(&self) -> (r: Self)
        ensures
            r@ == self@,
    {
        VectorState {
            positions: copy_values(&self.positions),
            velocities: copy_values(&self.velocities),
            accelerations: copy_values(&self.accelerations),
            masses: copy_values(&self.masses),
        }
    }

    /// Copies of the positions, velocities and masses.
    pub fn motion_copy(&self) -> (r: (Vec<S>, Vec<S>, Vec<S>))
        ensures
            r.0@ == self@.positions,
            r.1@ == self@.velocities,
            r.2@ == self@.masses,
    {
        (copy_values(&self.positions), copy_values(&self.velocities), copy_values(&self.masses))
    }

    pub fn particle_count(&self) -> (r: usize)
        ensures
            r == self@.count(),
    {
        self.masses.len()
    }

    /// Appends a particle at rest at the origin with unit mass; returns its index.
    pub fn add_particle(&mut self) -> (h: usize)
        requires
            old(self).wf(),
        ensures
            final(self).wf(),
            h == old(self)@.count(),
            final(self)@.positions == old(self)@.positions.push(S::zero()).push(S::zero()),
            final(self)@.velocities == old(self)@.velocities.push(S::zero()).push(S::zero()),
            final(self)@.accelerations == old(self)@.accelerations.push(S::zero()).push(
                S::zero(),
            ),
            final(self)@.masses == old(self)@.masses.push(S::one()),
    {
        let h = self.masses.len();
        self.positions.push(S::zero_value());
        self.positions.push(S::zero_value());
        self.velocities.push(S::zero_value());
        self.velocities.push(S::zero_value());
        self.accelerations.push(S::zero_value());
        self.accelerations.push(S::zero_value());
        self.masses.push(S::one_value());
        let stored = self.positions.len();
        assert(stored == self@.positions.len());
        h
    }

    pub fn set_position(&mut self, h: usize, x: S, y: S)
        requires
            old(self).wf(),
            old(self)@.has(h as int),
        ensures
            final(self)@ == (StateModel {
                positions: old(self)@.positions.update(2 * h, x).update(2 * h + 1, y),
                ..old(self)@
            }),
    {
        self.positions.set(2 * h, x);
        self.positions.set(2 * h + 1, y);
    }

    pub fn set_velocity(&mut self, h: usize, x: S, y: S)
        requires
            old(self).wf(),
            old(self)@.has(h as int),
        ensures
            final(self)@ == (StateModel {
                velocities: old(self)@.velocities.update(2 * h, x).update(2 * h + 1, y),
                ..old(self)@
            }),
    {
        self.velocities.set(2 * h, x);
        self.velocities.set(2 * h + 1, y);
    }

    pub fn set_mass(&mut self, h: usize, m: S)
        requires
            old(self).wf(),
            old(self)@.has(h as int),
        ensures
            final(self)@ == (StateModel { masses: old(self)@.masses.update(h as int, m), ..old(self)@ }),
    {
        self.masses.set(h, m);
    }

    pub fn position(&self, h: usize) -> (r: (S, S))
        requires
            self.wf(),
            self@.has(h as int),
        ensures
            r == (self@.positions[2 * h], self@.positions[2 * h + 1]),
    {
        (self.positions[2 * h], self.positions[2 * h + 1])
    }

    pub fn velocity(&self, h: usize) -> (r: (S, S))
        requires
            self.wf(),
            self@.has(h as int),
        ensures
            r == (self@.velocities[2 * h], self@.velocities[2 * h + 1]),
    {
        (self.velocities[2 * h], self.velocities[2 * h + 1])
    }

    pub fn acceleration(&self, h: usize) -> (r: (S, S))
        requires
            self.wf(),
            self@.has(h as int),
        ensures
            r == (self@.accelerations[2 * h], self@.accelerations[2 * h + 1]),
    {
        (self.accelerations[2 * h], self.accelerations[2 * h + 1])
    }

    pub fn mass(&self, h: usize) -> (r: S)
        requires
            self.wf(),
            self@.has(h as int),
        ensures
            r == self@.masses[h as int],
    {
        self.masses[h]
    }

    /// Adds `force / mass` to the acceleration of particle `h`. A particle of
    /// zero mass is immovable: the force is discarded. A force component that
    /// is not finite is refused and nothing changes.
    pub fn apply_force(&mut self, h: usize, fx: S, fy: S) -> (r: Result<(), StateError>)
        requires
            old(self).wf(),
            old(self)@.has(h as int),
        ensures
            final(self).wf(),
            !(S::finite(fx) && S::finite(fy)) ==> r == Err::<(), StateError>(
                StateError::NonFiniteForce,
            ) && final(self)@ == old(self)@,
            S::finite(fx) && S::finite(fy) ==> r is Ok && final(self)@ == old(self)@.with_force(
                h as int,
                fx,
                fy,
            ),
    {
        if !(fx.is_finite() && fy.is_finite()) {
            return Err(StateError::NonFiniteForce);
        }
        let m = self.masses[h];
        if m.is_zero() {
            return Ok(());
        }
        let ax = self.accelerations[2 * h].plus(fx.over(m));
        let ay = self.accelerations[2 * h + 1].plus(fy.over(m));
        self.accelerations.set(2 * h, ax);
        self.accelerations.set(2 * h + 1, ay);
        Ok(())
    }

    /// Adds the uniform field `(gx, gy)` to the acceleration of every
    /// particle whose mass is not zero.
    pub fn apply_field(&mut self, gx: S, gy: S)
        requires
            old(self).wf(),
        ensures
            final(self)@ == field_applied(old(self)@, gx, gy),
    {
        let n = self.masses.len();
        let mut i: usize = 0;
        while i < n
            invariant
                0 <= i <= n,
                n == self@.count(),
                self@.positions == old(self)@.positions,
                self@.velocities == old(self)@.velocities,
                self@.masses == old(self)@.masses,
                self@.accelerations.len() == old(self)@.accelerations.len(),
                self.wf(),
                forall|k: int|
                    0 <= k < 2 * i ==> self@.accelerations[k] == field_applied(
                        old(self)@,
                        gx,
                        gy,
                    ).accelerations[k],
                forall|k: int|
                    2 * i <= k < 2 * n ==> self@.accelerations[k] == old(
                        self,
                    )@.accelerations[k],
            decreases n - i,
        {
            if !self.masses[i].is_zero() {
                let ax = self.accelerations[2 * i].plus(gx);
                let ay = self.accelerations[2 * i + 1].plus(gy);
                self.accelerations.set(2 * i, ax);
                self.accelerations.set(2 * i + 1, ay);
            }
            i += 1;
        }
        assert(self@.accelerations =~= field_applied(old(self)@, gx, gy).accelerations);
    }

    /// Sets every acceleration to zero.
    pub fn reset_accelerations(&mut self)
        requires
            old(self).wf(),
        ensures
            final(self)@ == old(self)@.at_rest(),
    {
        let n = self.accelerations.len();
        let mut i: usize = 0;
        while i < n
            invariant
                0 <= i <= n,
                n == self@.accelerations.len(),
                self@.positions == old(self)@.positions,
                self@.velocities == old(self)@.velocities,
                self@.masses == old(self)@.masses,
                n == old(self)@.accelerations.len(),
                forall|k: int| 0 <= k < i ==> self@.accelerations[k] == S::zero(),
            decreases n - i,
        {
            self.accelerations.set(i, S::zero_value());
            i += 1;
        }
        assert(self@.accelerations =~= old(self)@.at_rest().accelerations);
    }

    /// Total kinetic energy `sum of m * |v|^2 / 2` over particles of nonzero mass.
    pub fn kinetic_energy(&self) -> (r: S)
        requires
            self.wf(),
        ensures
            r == self@.kinetic(),
    {
        let two = S::one_value().plus(S::one_value());
        let mut e = S::zero_value();
        let mut i: usize = 0;
        while i < self.masses.len()
            invariant
                0 <= i <= self@.count(),
                self.wf(),
                two == S::sum(S::one(), S::one()),
                e == self@.kinetic_upto(i as int),
            decreases self@.count() - i,
        {
            let m = self.masses[i];
            if !m.is_zero() {
                let vx = self.velocities[2 * i];
                let vy = self.velocities[2 * i + 1];
                let k = m.times(vx.times(vx).plus(vy.times(vy)));
                proof {
                    S::lemma_two_nonzero();
                }
                e = e.plus(k.over(two));
            }
            i += 1;
        }
        e
    }

    /// Advances positions and velocities with `solver` over the step `dt`.
    pub fn integrate<O: crate::solver::ODESolver<S>>(&mut self, solver: &O, dt: S)
        requires
            old(self).wf(),
        ensures
            final(self).wf(),
            final(self)@ == advanced_by(old(self)@, *solver, dt),
    {
        proof {
            solver.lemma_lengths(dt, self@.positions, self@.velocities, self@.accelerations);
        }
        solver.solve(dt, &mut self.positions, &mut self.velocities, &self.accelerations);
    }
}

/// Every particle of zero mass in `s` has the same acceleration in `t`.
pub open spec fn immovable_kept<S: Scalar>(s: StateModel<S>, t: StateModel<S>) -> bool {
    forall|h: int|
        0 <= h < s.count() && #[trigger] s.masses[h] == S::zero() ==> t.accelerations[2 * h]
            == s.accelerations[2 * h] && t.accelerations[2 * h + 1] == s.accelerations[2 * h + 1]
}

/// The state once the solver has advanced positions and velocities.
pub open spec fn advanced_by<S: Scalar, O: crate::solver::ODESolver<S>>(
    s: StateModel<S>,
    solver: O,
    dt: S,
) -> StateModel<S> {
    StateModel {
        positions: solver.next_positions(dt, s.positions, s.velocities, s.accelerations),
        velocities: solver.next_velocities(dt, s.positions, s.velocities, s.accelerations),
        ..s
    }
}

/// The state once the uniform field `(gx, gy)` has been added to the
/// acceleration of every particle of nonzero mass.
pub open spec fn field_applied<S: Scalar>(s: StateModel<S>, gx: S, gy: S) -> StateModel<S> {
    StateModel {
        accelerations: Seq::new(
            s.accelerations.len(),
            |k: int|
                if s.masses[k / 2] == S::zero() {
                    s.accelerations[k]
                } else if k % 2 == 0 {
                    S::sum(s.accelerations[k], gx)
                } else {
                    S::sum(s.accelerations[k], gy)
                },
        ),
        ..s
    }
}

} // verus!
