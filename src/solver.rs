use vstd::prelude::*;
use crate::scalar::Scalar;

verus! {

/// A numerical integrator: it advances positions and velocities from the
/// accelerations over one time step, reading nothing else.
pub trait ODESolver<S: Scalar>: Sized {
    spec fn next_positions(&self, dt: S, p: Seq<S>, v: Seq<S>, a: Seq<S>) -> Seq<S>;

    spec fn next_velocities(&self, dt: S, p: Seq<S>, v: Seq<S>, a: Seq<S>) -> Seq<S>;

    /// An integrator keeps the length of each vector.
    proof fn lemma_lengths(&self, dt: S, p: Seq<S>, v: Seq<S>, a: Seq<S>)
        requires
            p.len() == v.len() == a.len(),
        ensures
            self.next_positions(dt, p, v, a).len() == p.len(),
            self.next_velocities(dt, p, v, a).len() == v.len(),
    ;

    fn solve(&self, dt: S, positions: &mut Vec<S>, velocities: &mut Vec<S>, accelerations: &Vec<S>)
        requires
            old(positions)@.len() == old(velocities)@.len() == accelerations@.len(),
        ensures
            final(positions)@ == self.next_positions(
                dt,
                old(positions)@,
                old(velocities)@,
                accelerations@,
            ),
            final(velocities)@ == self.next_velocities(
                dt,
                old(positions)@,
                old(velocities)@,
                accelerations@,
            ),
    ;
}

/// Explicit Euler: `position += velocity * dt` with the velocity from before
/// the step, then `velocity += acceleration * dt`.
#[derive(Clone, Copy, Debug, PartialEq, Eq, Structural)]
pub struct EulerODE;

impl<S: Scalar> ODESolver<S> for EulerODE {
    open spec fn next_positions(&self, dt: S, p: Seq<S>, v: Seq<S>, a: Seq<S>) -> Seq<S> {
        Seq::new(p.len(), |k: int| S::sum(p[k], S::prod(v[k], dt)))
    }

    open spec fn next_velocities(&self, dt: S, p: Seq<S>, v: Seq<S>, a: Seq<S>) -> Seq<S> {
        Seq::new(v.len(), |k: int| S::sum(v[k], S::prod(a[k], dt)))
    }

    proof fn lemma_lengths(&self, dt: S, p: Seq<S>, v: Seq<S>, a: Seq<S>) {
    }

    fn solve(&self, dt: S, positions: &mut Vec<S>, velocities: &mut Vec<S>, accelerations: &Vec<S>) {
        let n = positions.len();
        let mut i: usize = 0;
        while i < n
            invariant
                0 <= i <= n,
                n == positions@.len() == old(positions)@.len(),
                velocities@ == old(velocities)@,
                n == velocities@.len(),
                forall|k: int|
                    0 <= k < i ==> positions@[k] == S::sum(
                        old(positions)@[k],
                        S::prod(old(velocities)@[k], dt),
                    ),
                forall|k: int| i <= k < n ==> positions@[k] == old(positions)@[k],
            decreases n - i,
        {
            let p = positions[i].plus(velocities[i].times(dt));
            positions.set(i, p);
            i += 1;
        }
        let mut j: usize = 0;
        while j < n
            invariant
                0 <= j <= n,
                n == velocities@.len() == accelerations@.len(),
                positions@ == self.next_positions(
                    dt,
                    old(positions)@,
                    old(velocities)@,
                    accelerations@,
                ),
                forall|k: int|
                    0 <= k < j ==> velocities@[k] == S::sum(
                        old(velocities)@[k],
                        S::prod(accelerations@[k], dt),
                    ),
                forall|k: int| j <= k < n ==> velocities@[k] == old(velocities)@[k],
            decreases n - j,
        {
            let v = velocities[j].plus(accelerations[j].times(dt));
            velocities.set(j, v);
            j += 1;
        }
        proof {
            assert(positions@ =~= self.next_positions(
                dt,
                old(positions)@,
                old(velocities)@,
                accelerations@,
            ));
            assert(velocities@ =~= self.next_velocities(
                dt,
                old(positions)@,
                old(velocities)@,
                accelerations@,
            ));
        }
    }
}

} // verus!
