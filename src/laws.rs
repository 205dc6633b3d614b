use vstd::prelude::*;
use crate::force::{distance, negated, ForceGenerator, GravityForce, SpringForce};
use crate::scalar::Scalar;
use crate::scene::{
    forces_applied, lemma_forces_keep_motion, steps_run, substep,
    substep_length, substeps_run,
};
use crate::solver::EulerODE;
use crate::state::{advanced_by, field_applied, StateModel};

verus! {

/// Particle `i` of `s` has zero mass and is at rest: zero velocity and
/// zero acceleration.
pub open spec fn immovable_at_rest<S: Scalar>(s: StateModel<S>, i: int) -> bool {
    &&& s.has(i)
    &&& s.masses[i] == S::zero()
    &&& s.velocities[2 * i] == S::zero()
    &&& s.velocities[2 * i + 1] == S::zero()
    &&& s.accelerations[2 * i] == S::zero()
    &&& s.accelerations[2 * i + 1] == S::zero()
}

/// Particle `i` is where it was in `s`, and `t` keeps it immovable and at rest.
pub open spec fn kept_in_place<S: Scalar>(s: StateModel<S>, t: StateModel<S>, i: int) -> bool {
    &&& t.wf()
    &&& t.masses == s.masses
    &&& immovable_at_rest(t, i)
    &&& t.positions[2 * i] == s.positions[2 * i]
    &&& t.positions[2 * i + 1] == s.positions[2 * i + 1]
}

/// A force applied to a particle of zero mass changes nothing.
pub proof fn lemma_zero_mass_ignores_force<S: Scalar>(s: StateModel<S>, h: int, fx: S, fy: S)
    requires
        s.has(h),
        s.masses[h] == S::zero(),
    ensures
        s.with_force(h, fx, fy) == s,
{
}

/// A substep leaves an immovable particle at rest where it was.
pub proof fn lemma_zero_mass_substep<S: Scalar, G: ForceGenerator<S>>(
    gravity: (S, S),
    gens: Seq<G>,
    s: StateModel<S>,
    h: S,
    i: int,
)
    requires
        s.wf(),
        immovable_at_rest(s, i),
    ensures
        substep(gravity, gens, s, h) is Ok ==> kept_in_place(s, substep(gravity, gens, s, h)->Ok_0.0, i),
{
    let a = field_applied(s, gravity.0, gravity.1);
    assert(a.accelerations[2 * i] == s.accelerations[2 * i]);
    assert(a.accelerations[2 * i + 1] == s.accelerations[2 * i + 1]);
    lemma_forces_keep_motion(gens, a, gens.len() as int);
    if substep(gravity, gens, s, h) is Ok {
        let t = forces_applied(gens, a, gens.len() as int)->Ok_0;
        assert(a.masses[i] == S::zero());
        let u = advanced_by(t, EulerODE, h);
        S::lemma_prod_zero(h);
        S::lemma_sum_zero(s.positions[2 * i]);
        S::lemma_sum_zero(s.positions[2 * i + 1]);
        S::lemma_sum_zero(S::zero());
        assert(u.positions[2 * i] == s.positions[2 * i]);
        assert(u.positions[2 * i + 1] == s.positions[2 * i + 1]);
        assert(u.velocities[2 * i] == S::zero());
        assert(u.velocities[2 * i + 1] == S::zero());
    }
}

/// Any number of substeps leave an immovable particle at rest where it was.
pub proof fn lemma_zero_mass_substeps<S: Scalar, G: ForceGenerator<S>>(
    gravity: (S, S),
    gens: Seq<G>,
    s: StateModel<S>,
    h: S,
    i: int,
    k: int,
)
    requires
        s.wf(),
        immovable_at_rest(s, i),
    ensures
        substeps_run(gravity, gens, s, h, k) is Ok ==> kept_in_place(
            s,
            substeps_run(gravity, gens, s, h, k)->Ok_0.0,
            i,
        ),
    decreases k,
{
    if k > 0 {
        lemma_zero_mass_substeps(gravity, gens, s, h, i, k - 1);
        if substeps_run(gravity, gens, s, h, k - 1) is Ok {
            let t = substeps_run(gravity, gens, s, h, k - 1)->Ok_0.0;
            lemma_zero_mass_substep(gravity, gens, t, h, i);
        }
    } else {
        assert(kept_in_place(s, s, i));
    }
}

/// A particle of zero mass that starts at rest never moves: after every step
/// of a run it is at rest where it started. (One that starts with a velocity
/// keeps that velocity and drifts with it.)
pub proof fn lemma_zero_mass_never_moves<S: Scalar, G: ForceGenerator<S>>(
    gravity: (S, S),
    gens: Seq<G>,
    s: StateModel<S>,
    dt: S,
    substeps: usize,
    i: int,
    k: int,
)
    requires
        s.wf(),
        immovable_at_rest(s, i),
    ensures
        steps_run(gravity, gens, s, dt, substeps, k) is Ok ==> {
            let run = steps_run(gravity, gens, s, dt, substeps, k)->Ok_0;
            forall|j: int| 0 <= j < run.len() ==> kept_in_place(s, #[trigger] run[j].0, i)
        },
    decreases k,
{
    if k > 0 {
        lemma_zero_mass_never_moves(gravity, gens, s, dt, substeps, i, k - 1);
        if steps_run(gravity, gens, s, dt, substeps, k - 1) is Ok {
            let done = steps_run(gravity, gens, s, dt, substeps, k - 1)->Ok_0;
            let from = if done.len() == 0 {
                s
            } else {
                done.last().0
            };
            if done.len() > 0 {
                assert(kept_in_place(s, done[done.len() - 1].0, i));
            }
            lemma_zero_mass_substeps(gravity, gens, from, substep_length(dt, substeps), i, substeps as int);
        }
    }
}

/// A spring whose rest length is the present distance between its two
/// (distinct, not coinciding) particles exerts no force and holds no energy.
pub proof fn lemma_spring_at_rest_length<S: Scalar>(f: SpringForce<S>, s: StateModel<S>)
    requires
        s.wf(),
        s.has(f.first() as int),
        s.has(f.second() as int),
        distance(s, f.first() as int, f.second() as int) != S::zero(),
        f.rest() == distance(s, f.first() as int, f.second() as int),
    ensures
        f.applied(s) == Ok::<StateModel<S>, crate::force::ForceError>(s),
        f.energy(s) == Ok::<S, crate::force::ForceError>(S::zero()),
{
    let d = distance(s, f.first() as int, f.second() as int);
    S::lemma_diff_self(d);
    assert(f.extension(s) == S::zero());
    S::lemma_prod_zero(S::prod(f.stiffness(), crate::force::offset_x(s, f.first() as int, f.second() as int)));
    S::lemma_prod_zero(S::prod(f.stiffness(), crate::force::offset_y(s, f.first() as int, f.second() as int)));
    S::lemma_quot_zero(d);
    assert(f.force_x(s) == S::zero());
    assert(f.force_y(s) == S::zero());
    S::lemma_diff_self(S::zero());
    assert(negated(S::zero()) == S::zero());
    S::lemma_zero_finite();
    let a = f.first() as int;
    let b = f.second() as int;
    if s.masses[a] != S::zero() {
        S::lemma_quot_zero(s.masses[a]);
    }
    if s.masses[b] != S::zero() {
        S::lemma_quot_zero(s.masses[b]);
    }
    S::lemma_sum_zero(s.accelerations[2 * a]);
    S::lemma_sum_zero(s.accelerations[2 * a + 1]);
    S::lemma_sum_zero(s.accelerations[2 * b]);
    S::lemma_sum_zero(s.accelerations[2 * b + 1]);
    let t = s.with_force(a, S::zero(), S::zero());
    assert(t.accelerations =~= s.accelerations);
    assert(t == s);
    let u = t.with_force(b, S::zero(), S::zero());
    assert(u.accelerations =~= s.accelerations);
    assert(u == s);
    S::lemma_prod_zero(S::zero());
    S::lemma_prod_zero(f.stiffness());
    S::lemma_two_nonzero();
    S::lemma_quot_zero(S::sum(S::one(), S::one()));
}

/// Gravity acts in equal and opposite pairs: the ordered pair `(i, j)` of
/// distinct bound particles hands the force `-f` to the first and `f` to
/// the second, and the two forces sum to zero. (Each particle's share is
/// then divided by its own mass, so momentum is kept only as far as that
/// division is exact.)
pub proof fn lemma_gravity_pair_forces_cancel<S: Scalar>(
    f: GravityForce<S>,
    s: StateModel<S>,
    t: StateModel<S>,
    i: int,
    j: int,
)
    requires
        i != j,
    ensures
        ({
            let fx = f.pair_force_x(s, i, j);
            let fy = f.pair_force_y(s, i, j);
            &&& f.pair_applied(s, t, i, j) == t.with_force(
                f.bound()[i] as int,
                negated(fx),
                negated(fy),
            ).with_force(f.bound()[j] as int, fx, fy)
            &&& S::sum(negated(fx), fx) == S::zero()
            &&& S::sum(negated(fy), fy) == S::zero()
        }),
{
    S::lemma_negation_cancels(f.pair_force_x(s, i, j));
    S::lemma_negation_cancels(f.pair_force_y(s, i, j));
}

} // verus!
