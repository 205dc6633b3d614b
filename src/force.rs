use vstd::prelude::*;
use crate::scalar::Scalar;
use crate::state::{immovable_kept, StateModel, VectorState};

verus! {

/// Why a force generator could not act on a state.
#[derive(Clone, Copy, Debug, PartialEq, Eq, Structural)]
pub enum ForceError {
    /// A bound particle index is not a particle of the state.
    UnknownParticle,
    /// Two bound particles coincide, where the force is singular.
    Coincident,
    /// A computed force component is not finite.
    NonFiniteForce,
    /// A generator of the caller's own failed.
    Failed,
}

/// A unit that adds forces to the accelerations of the particles it is
/// bound to, and reports their potential energy.
///
/// `applied` and `energy` say what the two operations do; an implementation
/// only adds to accelerations and never changes anything else.
pub trait ForceGenerator<S: Scalar>: Sized {
    spec fn applied(&self, s: StateModel<S>) -> Result<StateModel<S>, ForceError>;

    spec fn energy(&self, s: StateModel<S>) -> Result<S, ForceError>;

    proof fn lemma_applied_keeps_motion(&self, s: StateModel<S>)
        requires
            s.wf(),
        ensures
            self.applied(s) is Ok ==> {
                let t = self.applied(s)->Ok_0;
                &&& t.wf()
                &&& t.positions == s.positions
                &&& t.velocities == s.velocities
                &&& t.masses == s.masses
                &&& immovable_kept(s, t)
            },
    ;

    fn apply_force(&self, state: &mut VectorState<S>) -> (r: Result<(), ForceError>)
        requires
            old(state).wf(),
        ensures
            final(state).wf(),
            match self.applied(old(state)@) {
                Ok(t) => r is Ok && final(state)@ == t,
                Err(e) => r == Err::<(), ForceError>(e) && final(state)@ == old(state)@,
            },
    ;

    fn get_energy(&self, state: &VectorState<S>) -> (r: Result<S, ForceError>)
        requires
            state.wf(),
        ensures
            r == self.energy(state@),
    ;
}

/// `-a`.
pub open spec fn negated<S: Scalar>(a: S) -> S {
    S::diff(S::zero(), a)
}

/// Horizontal and vertical offsets of particle `a` from particle `b`.
pub open spec fn offset_x<S: Scalar>(s: StateModel<S>, a: int, b: int) -> S {
    S::diff(s.positions[2 * a], s.positions[2 * b])
}

pub open spec fn offset_y<S: Scalar>(s: StateModel<S>, a: int, b: int) -> S {
    S::diff(s.positions[2 * a + 1], s.positions[2 * b + 1])
}

/// Squared distance between two particles.
pub open spec fn distance_squared<S: Scalar>(s: StateModel<S>, a: int, b: int) -> S {
    let dx = offset_x(s, a, b);
    let dy = offset_y(s, a, b);
    S::sum(S::prod(dx, dx), S::prod(dy, dy))
}

/// Distance between two particles.
pub open spec fn distance<S: Scalar>(s: StateModel<S>, a: int, b: int) -> S {
    S::root(distance_squared(s, a, b))
}

/// Squared distance between particles `a` and `b` of `state`.
pub fn distance_squared_between<S: Scalar>(state: &VectorState<S>, a: usize, b: usize) -> (r: S)
    requires
        state.wf(),
        state@.has(a as int),
        state@.has(b as int),
    ensures
        r == distance_squared(state@, a as int, b as int),
{
    let (ax, ay) = state.position(a);
    let (bx, by) = state.position(b);
    let dx = ax.minus(bx);
    let dy = ay.minus(by);
    dx.times(dx).plus(dy.times(dy))
}

/// Distance between particles `a` and `b` of `state`.
pub fn distance_between<S: Scalar>(state: &VectorState<S>, a: usize, b: usize) -> (r: S)
    requires
        state.wf(),
        state@.has(a as int),
        state@.has(b as int),
    ensures
        r == distance(state@, a as int, b as int),
{
    distance_squared_between(state, a, b).sqrt()
}

/// Hookean spring between two particles.
pub struct SpringForce<S> {
    k: S,
    rest_length: S,
    m1: usize,
    m2: usize,
}

impl<S: Scalar> SpringForce<S> {
    pub closed spec fn stiffness(&self) -> S {
        self.k
    }

    pub closed spec fn rest(&self) -> S {
        self.rest_length
    }

    pub closed spec fn first(&self) -> usize {
        self.m1
    }

    pub closed spec fn second(&self) -> usize {
        self.m2
    }

    /// A spring between particles `m1` and `m2` of `state`. The stiffness
    /// defaults to one, the rest length to the particles' present distance.
    pub fn new(state: &VectorState<S>, m1: usize, m2: usize, k: Option<S>, rest_length: Option<S>) -> (r:
        Result<Self, ForceError>)
        requires
            state.wf(),
        ensures
            !(state@.has(m1 as int) && state@.has(m2 as int)) ==> r == Err::<Self, ForceError>(
                ForceError::UnknownParticle,
            ),
            state@.has(m1 as int) && state@.has(m2 as int) ==> r is Ok && {
                let f = r->Ok_0;
                &&& f.first() == m1
                &&& f.second() == m2
                &&& f.stiffness() == match k {
                    Some(v) => v,
                    None => S::one(),
                }
                &&& f.rest() == match rest_length {
                    Some(v) => v,
                    None => distance(state@, m1 as int, m2 as int),
                }
            },
    {
        if m1 >= state.particle_count() || m2 >= state.particle_count() {
            return Err(ForceError::UnknownParticle);
        }
        let k = match k {
            Some(v) => v,
            None => S::one_value(),
        };
        let rest_length = match rest_length {
            Some(v) => v,
            None => distance_between(state, m1, m2),
        };
        Ok(SpringForce { k, rest_length, m1, m2 })
    }

    /// How far the spring is stretched beyond its rest length.
    pub open spec fn extension(&self, s: StateModel<S>) -> S {
        S::diff(distance(s, self.first() as int, self.second() as int), self.rest())
    }

    /// Force on the second particle: `k * d * (|d| - rest) / |d|`, with `d`
    /// the offset of the first particle from the second.
    pub open spec fn force_x(&self, s: StateModel<S>) -> S {
        let d = distance(s, self.first() as int, self.second() as int);
        S::quot(
            S::prod(S::prod(self.stiffness(), offset_x(s, self.first() as int, self.second() as int)), self.extension(s)),
            d,
        )
    }

    pub open spec fn force_y(&self, s: StateModel<S>) -> S {
        let d = distance(s, self.first() as int, self.second() as int);
        S::quot(
            S::prod(S::prod(self.stiffness(), offset_y(s, self.first() as int, self.second() as int)), self.extension(s)),
            d,
        )
    }
}

impl<S: Scalar> ForceGenerator<S> for SpringForce<S> {
    /// The first particle takes `-f`, the second `f`.
    open spec fn applied(&self, s: StateModel<S>) -> Result<StateModel<S>, ForceError> {
        let a = self.first() as int;
        let b = self.second() as int;
        let fx = self.force_x(s);
        let fy = self.force_y(s);
        if !(s.has(a) && s.has(b)) {
            Err(ForceError::UnknownParticle)
        } else if distance(s, a, b) == S::zero() {
            Err(ForceError::Coincident)
        } else if !(S::finite(fx) && S::finite(fy) && S::finite(negated(fx)) && S::finite(
            negated(fy),
        )) {
            Err(ForceError::NonFiniteForce)
        } else {
            Ok(s.with_force(a, negated(fx), negated(fy)).with_force(b, fx, fy))
        }
    }

    /// `k * (|d| - rest)^2 / 2`.
    open spec fn energy(&self, s: StateModel<S>) -> Result<S, ForceError> {
        if !(s.has(self.first() as int) && s.has(self.second() as int)) {
            Err(ForceError::UnknownParticle)
        } else {
            let e = self.extension(s);
            Ok(S::quot(S::prod(self.stiffness(), S::prod(e, e)), S::sum(S::one(), S::one())))
        }
    }

    proof fn lemma_applied_keeps_motion(&self, s: StateModel<S>) {
    }

    fn apply_force(&self, state: &mut VectorState<S>) -> (r: Result<(), ForceError>) {
        let n = state.particle_count();
        if self.m1 >= n || self.m2 >= n {
            return Err(ForceError::UnknownParticle);
        }
        let (ax, ay) = state.position(self.m1);
        let (bx, by) = state.position(self.m2);
        let dx = ax.minus(bx);
        let dy = ay.minus(by);
        let d = dx.times(dx).plus(dy.times(dy)).sqrt();
        if d.is_zero() {
            return Err(ForceError::Coincident);
        }
        let ext = d.minus(self.rest_length);
        let fx = self.k.times(dx).times(ext).over(d);
        let fy = self.k.times(dy).times(ext).over(d);
        let zero = S::zero_value();
        let nfx = zero.minus(fx);
        let nfy = zero.minus(fy);
        if !(fx.is_finite() && fy.is_finite() && nfx.is_finite() && nfy.is_finite()) {
            return Err(ForceError::NonFiniteForce);
        }
        // Every component was found finite above, so neither call is refused.
        let _ = state.apply_force(self.m1, nfx, nfy);
        let _ = state.apply_force(self.m2, fx, fy);
        Ok(())
    }

    fn get_energy(&self, state: &VectorState<S>) -> (r: Result<S, ForceError>) {
        let n = state.particle_count();
        if self.m1 >= n || self.m2 >= n {
            return Err(ForceError::UnknownParticle);
        }
        let ext = distance_between(state, self.m1, self.m2).minus(self.rest_length);
        let two = S::one_value().plus(S::one_value());
        proof {
            S::lemma_two_nonzero();
        }
        Ok(self.k.times(ext.times(ext)).over(two))
    }
}

/// Pairwise inverse-square attraction among a set of particles.
///
/// Every ordered pair of distinct entries of the bound list acts once, so
/// each unordered pair acts twice, in list order.
pub struct GravityForce<S> {
    g: S,
    masses: Vec<usize>,
}

impl<S: Scalar> GravityForce<S> {
    pub closed spec fn strength(&self) -> S {
        self.g
    }

    pub closed spec fn bound(&self) -> Seq<usize> {
        self.masses@
    }

    /// Gravity of strength `g` among the particles `masses`.
    pub fn new(masses: Vec<usize>, g: S) -> (r: Self)
        ensures
            r.strength() == g,
            r.bound() == masses@,
    {
        GravityForce { g, masses }
    }

    /// Every bound index is a particle of `s`.
    pub open spec fn binds_into(&self, s: StateModel<S>) -> bool {
        forall|i: int| 0 <= i < self.bound().len() ==> s.has(#[trigger] self.bound()[i] as int)
    }

    /// `G * m_a * m_b` for the pair of bound entries `(i, j)`.
    pub open spec fn pair_weight(&self, s: StateModel<S>, i: int, j: int) -> S {
        S::prod(
            S::prod(self.strength(), s.masses[self.bound()[i] as int]),
            s.masses[self.bound()[j] as int],
        )
    }

    /// `|d|^3`, by which the force of the pair `(i, j)` is divided.
    pub open spec fn pair_divisor(&self, s: StateModel<S>, i: int, j: int) -> S {
        let a = self.bound()[i] as int;
        let b = self.bound()[j] as int;
        S::prod(distance_squared(s, a, b), distance(s, a, b))
    }

    /// Force on the second particle of the pair `(i, j)`:
    /// `G * m_a * m_b * d / |d|^3`, with `d` the offset of `a` from `b`.
    pub open spec fn pair_force_x(&self, s: StateModel<S>, i: int, j: int) -> S {
        let a = self.bound()[i] as int;
        let b = self.bound()[j] as int;
        S::quot(S::prod(self.pair_weight(s, i, j), offset_x(s, a, b)), self.pair_divisor(s, i, j))
    }

    pub open spec fn pair_force_y(&self, s: StateModel<S>, i: int, j: int) -> S {
        let a = self.bound()[i] as int;
        let b = self.bound()[j] as int;
        S::quot(S::prod(self.pair_weight(s, i, j), offset_y(s, a, b)), self.pair_divisor(s, i, j))
    }

    /// The pair `(i, j)` of distinct entries cannot act: it is singular or
    /// its force is not finite.
    pub open spec fn pair_fails(&self, s: StateModel<S>, i: int, j: int) -> bool {
        i != j && (self.pair_divisor(s, i, j) == S::zero() || !(S::finite(
            self.pair_force_x(s, i, j),
        ) && S::finite(self.pair_force_y(s, i, j)) && S::finite(
            negated(self.pair_force_x(s, i, j)),
        ) && S::finite(negated(self.pair_force_y(s, i, j)))))
    }

    pub open spec fn pair_singular(&self, s: StateModel<S>, i: int, j: int) -> bool {
        i != j && self.pair_divisor(s, i, j) == S::zero()
    }

    /// `t` once the pair `(i, j)` has acted, with forces taken from `s`:
    /// the first particle takes `-f`, the second `f`.
    pub open spec fn pair_applied(&self, s: StateModel<S>, t: StateModel<S>, i: int, j: int) -> StateModel<S> {
        if i == j {
            t
        } else {
            let fx = self.pair_force_x(s, i, j);
            let fy = self.pair_force_y(s, i, j);
            t.with_force(self.bound()[i] as int, negated(fx), negated(fy)).with_force(
                self.bound()[j] as int,
                fx,
                fy,
            )
        }
    }

    /// `t` once the pairs `(i, 0) .. (i, j - 1)` have acted.
    pub open spec fn row_applied(&self, s: StateModel<S>, t: StateModel<S>, i: int, j: int) -> StateModel<S>
        decreases j,
    {
        if j <= 0 {
            t
        } else {
            self.pair_applied(s, self.row_applied(s, t, i, j - 1), i, j - 1)
        }
    }

    /// `s` once the rows `0 .. i - 1` have acted.
    pub open spec fn rows_applied(&self, s: StateModel<S>, i: int) -> StateModel<S>
        decreases i,
    {
        if i <= 0 {
            s
        } else {
            self.row_applied(s, self.rows_applied(s, i - 1), i - 1, self.bound().len() as int)
        }
    }

    /// Potential energy `-G * m_a * m_b / |d|` of the pair `(i, j)`.
    pub open spec fn pair_energy(&self, s: StateModel<S>, i: int, j: int) -> S {
        let a = self.bound()[i] as int;
        let b = self.bound()[j] as int;
        S::quot(negated(self.pair_weight(s, i, j)), distance(s, a, b))
    }

    pub open spec fn pair_coincides(&self, s: StateModel<S>, i: int, j: int) -> bool {
        i != j && distance(s, self.bound()[i] as int, self.bound()[j] as int) == S::zero()
    }

    /// Energy of the pairs `(i, 0) .. (i, j - 1)` added to `e`.
    pub open spec fn row_energy(&self, s: StateModel<S>, e: S, i: int, j: int) -> S
        decreases j,
    {
        if j <= 0 {
            e
        } else if i == j - 1 {
            self.row_energy(s, e, i, j - 1)
        } else {
            S::sum(self.row_energy(s, e, i, j - 1), self.pair_energy(s, i, j - 1))
        }
    }

    /// Energy of the rows `0 .. i - 1`.
    pub open spec fn rows_energy(&self, s: StateModel<S>, i: int) -> S
        decreases i,
    {
        if i <= 0 {
            S::zero()
        } else {
            self.row_energy(s, self.rows_energy(s, i - 1), i - 1, self.bound().len() as int)
        }
    }

    proof fn lemma_row_keeps_motion(&self, s: StateModel<S>, t: StateModel<S>, i: int, j: int)
        requires
            t.wf(),
            self.binds_into(t),
            0 <= i < self.bound().len(),
            j <= self.bound().len(),
        ensures
            self.row_applied(s, t, i, j).wf(),
            self.row_applied(s, t, i, j).positions == t.positions,
            self.row_applied(s, t, i, j).velocities == t.velocities,
            self.row_applied(s, t, i, j).masses == t.masses,
            immovable_kept(t, self.row_applied(s, t, i, j)),
        decreases j,
    {
        if j > 0 {
            self.lemma_row_keeps_motion(s, t, i, j - 1);
            let u = self.row_applied(s, t, i, j - 1);
            assert(self.binds_into(u));
            assert(t.has(self.bound()[i] as int));
            assert(t.has(self.bound()[j - 1] as int));
        }
    }

    proof fn lemma_rows_keep_motion(&self, s: StateModel<S>, i: int)
        requires
            s.wf(),
            self.binds_into(s),
            i <= self.bound().len(),
        ensures
            self.rows_applied(s, i).wf(),
            self.rows_applied(s, i).positions == s.positions,
            self.rows_applied(s, i).velocities == s.velocities,
            self.rows_applied(s, i).masses == s.masses,
            immovable_kept(s, self.rows_applied(s, i)),
        decreases i,
    {
        if i > 0 {
            self.lemma_rows_keep_motion(s, i - 1);
            let u = self.rows_applied(s, i - 1);
            assert(self.binds_into(u));
            self.lemma_row_keeps_motion(s, u, i - 1, self.bound().len() as int);
        }
    }

    /// Checks that every bound index is a particle of `state`.
    fn check_bound(&self, state: &VectorState<S>) -> (r: bool)
        requires
            state.wf(),
        ensures
            r == self.binds_into(state@),
    {
        let n = state.particle_count();
        let mut i: usize = 0;
        while i < self.masses.len()
            invariant
                0 <= i <= self.bound().len(),
                n == state@.count(),
                forall|k: int| 0 <= k < i ==> state@.has(#[trigger] self.bound()[k] as int),
            decreases self.bound().len() - i,
        {
            if self.masses[i] >= n {
                assert(!state@.has(self.bound()[i as int] as int));
                return false;
            }
            i += 1;
        }
        true
    }

    /// `|d|^3` for the pair `(i, j)` of bound entries.
    fn divisor_of(&self, state: &VectorState<S>, i: usize, j: usize) -> (r: S)
        requires
            state.wf(),
            self.binds_into(state@),
            i < self.bound().len(),
            j < self.bound().len(),
        ensures
            r == self.pair_divisor(state@, i as int, j as int),
    {
        assert(state@.has(self.bound()[i as int] as int));
        assert(state@.has(self.bound()[j as int] as int));
        let r2 = distance_squared_between(state, self.masses[i], self.masses[j]);
        r2.times(r2.sqrt())
    }

    /// The force on the second particle of the pair `(i, j)`, given its
    /// divisor `div`, which is not zero.
    fn force_of(&self, state: &VectorState<S>, i: usize, j: usize, div: S) -> (r: (S, S))
        requires
            state.wf(),
            self.binds_into(state@),
            i < self.bound().len(),
            j < self.bound().len(),
            div == self.pair_divisor(state@, i as int, j as int),
            div != S::zero(),
        ensures
            r == (self.pair_force_x(state@, i as int, j as int), self.pair_force_y(
                state@,
                i as int,
                j as int,
            )),
    {
        let a = self.masses[i];
        let b = self.masses[j];
        assert(state@.has(self.bound()[i as int] as int));
        assert(state@.has(self.bound()[j as int] as int));
        let (ax, ay) = state.position(a);
        let (bx, by) = state.position(b);
        let w = self.g.times(state.mass(a)).times(state.mass(b));
        (w.times(ax.minus(bx)).over(div), w.times(ay.minus(by)).over(div))
    }

    /// Whether the pair `(i, j)` of bound entries is singular, and whether
    /// it cannot act.
    fn check_pair(&self, state: &VectorState<S>, i: usize, j: usize) -> (r: (bool, bool))
        requires
            state.wf(),
            self.binds_into(state@),
            i < self.bound().len(),
            j < self.bound().len(),
        ensures
            r.0 == self.pair_singular(state@, i as int, j as int),
            r.1 == self.pair_fails(state@, i as int, j as int),
    {
        if i == j {
            return (false, false);
        }
        let div = self.divisor_of(state, i, j);
        if div.is_zero() {
            return (true, true);
        }
        let (fx, fy) = self.force_of(state, i, j, div);
        let zero = S::zero_value();
        (false, !(fx.is_finite() && fy.is_finite() && zero.minus(fx).is_finite() && zero.minus(
            fy,
        ).is_finite()))
    }
}

impl<S: Scalar> ForceGenerator<S> for GravityForce<S> {
    open spec fn applied(&self, s: StateModel<S>) -> Result<StateModel<S>, ForceError> {
        let n = self.bound().len() as int;
        if !self.binds_into(s) {
            Err(ForceError::UnknownParticle)
        } else if exists|i: int, j: int| 0 <= i < n && 0 <= j < n && self.pair_singular(s, i, j) {
            Err(ForceError::Coincident)
        } else if exists|i: int, j: int| 0 <= i < n && 0 <= j < n && self.pair_fails(s, i, j) {
            Err(ForceError::NonFiniteForce)
        } else {
            Ok(self.rows_applied(s, n))
        }
    }

    /// Sum of `-G * m_a * m_b / |d|` over ordered pairs of distinct entries.
    open spec fn energy(&self, s: StateModel<S>) -> Result<S, ForceError> {
        let n = self.bound().len() as int;
        if !self.binds_into(s) {
            Err(ForceError::UnknownParticle)
        } else if exists|i: int, j: int| 0 <= i < n && 0 <= j < n && self.pair_coincides(s, i, j) {
            Err(ForceError::Coincident)
        } else {
            Ok(self.rows_energy(s, n))
        }
    }

    proof fn lemma_applied_keeps_motion(&self, s: StateModel<S>) {
        if self.applied(s) is Ok {
            self.lemma_rows_keep_motion(s, self.bound().len() as int);
        }
    }

    fn apply_force(&self, state: &mut VectorState<S>) -> (r: Result<(), ForceError>) {
        if !self.check_bound(state) {
            return Err(ForceError::UnknownParticle);
        }
        let ghost s = state@;
        let n = self.masses.len();
        let mut i: usize = 0;
        while i < n
            invariant
                0 <= i <= n,
                n == self.bound().len(),
                state@ == s,
                state.wf(),
                self.binds_into(s),
                forall|i2: int, j2: int|
                    0 <= i2 < i && 0 <= j2 < n ==> !#[trigger] self.pair_singular(s, i2, j2),
            decreases n - i,
        {
            let mut j: usize = 0;
            while j < n
                invariant
                    0 <= i < n,
                    0 <= j <= n,
                    n == self.bound().len(),
                    state@ == s,
                    state.wf(),
                    self.binds_into(s),
                    forall|i2: int, j2: int|
                        0 <= i2 < i && 0 <= j2 < n ==> !#[trigger] self.pair_singular(s, i2, j2),
                    forall|j2: int| 0 <= j2 < j ==> !#[trigger] self.pair_singular(s, i as int, j2),
                decreases n - j,
            {
                let (singular, _) = self.check_pair(state, i, j);
                if singular {
                    return Err(ForceError::Coincident);
                }
                j += 1;
            }
            i += 1;
        }
        let mut i: usize = 0;
        while i < n
            invariant
                0 <= i <= n,
                n == self.bound().len(),
                state@ == s,
                state.wf(),
                self.binds_into(s),
                forall|i2: int, j2: int|
                    0 <= i2 < n && 0 <= j2 < n ==> !#[trigger] self.pair_singular(s, i2, j2),
                forall|i2: int, j2: int|
                    0 <= i2 < i && 0 <= j2 < n ==> !#[trigger] self.pair_fails(s, i2, j2),
            decreases n - i,
        {
            let mut j: usize = 0;
            while j < n
                invariant
                    0 <= i < n,
                    0 <= j <= n,
                    n == self.bound().len(),
                    state@ == s,
                    state.wf(),
                    self.binds_into(s),
                    forall|i2: int, j2: int|
                        0 <= i2 < n && 0 <= j2 < n ==> !#[trigger] self.pair_singular(s, i2, j2),
                    forall|i2: int, j2: int|
                        0 <= i2 < i && 0 <= j2 < n ==> !#[trigger] self.pair_fails(s, i2, j2),
                    forall|j2: int| 0 <= j2 < j ==> !#[trigger] self.pair_fails(s, i as int, j2),
                decreases n - j,
            {
                let (_, fails) = self.check_pair(state, i, j);
                if fails {
                    return Err(ForceError::NonFiniteForce);
                }
                j += 1;
            }
            i += 1;
        }
        let mut i: usize = 0;
        while i < n
            invariant
                0 <= i <= n,
                n == self.bound().len(),
                state.wf(),
                self.binds_into(s),
                s.wf(),
                state@ == self.rows_applied(s, i as int),
                forall|i2: int, j2: int|
                    0 <= i2 < n && 0 <= j2 < n ==> !#[trigger] self.pair_fails(s, i2, j2),
            decreases n - i,
        {
            proof {
                self.lemma_rows_keep_motion(s, i as int);
            }
            let ghost t = state@;
            let mut j: usize = 0;
            while j < n
                invariant
                    0 <= i < n,
                    0 <= j <= n,
                    n == self.bound().len(),
                    state.wf(),
                    s.wf(),
                    t.wf(),
                    self.binds_into(s),
                    self.binds_into(t),
                    t.positions == s.positions,
                    t.masses == s.masses,
                    state@ == self.row_applied(s, t, i as int, j as int),
                    forall|i2: int, j2: int|
                        0 <= i2 < n && 0 <= j2 < n ==> !#[trigger] self.pair_fails(s, i2, j2),
                decreases n - j,
            {
                proof {
                    self.lemma_row_keeps_motion(s, t, i as int, j as int);
                }
                if i != j {
                    assert(!self.pair_fails(s, i as int, j as int));
                    let div = self.divisor_of(state, i, j);
                    let (fx, fy) = self.force_of(state, i, j, div);
                    let zero = S::zero_value();
                    assert(t.has(self.bound()[i as int] as int));
                    assert(t.has(self.bound()[j as int] as int));
                    // Every pair was found to act finitely above.
                    let _ = state.apply_force(self.masses[i], zero.minus(fx), zero.minus(fy));
                    let _ = state.apply_force(self.masses[j], fx, fy);
                }
                j += 1;
            }
            i += 1;
        }
        Ok(())
    }

    fn get_energy(&self, state: &VectorState<S>) -> (r: Result<S, ForceError>) {
        if !self.check_bound(state) {
            return Err(ForceError::UnknownParticle);
        }
        let n = self.masses.len();
        let mut e = S::zero_value();
        let mut i: usize = 0;
        while i < n
            invariant
                0 <= i <= n,
                n == self.bound().len(),
                state.wf(),
                self.binds_into(state@),
                e == self.rows_energy(state@, i as int),
                forall|i2: int, j2: int|
                    0 <= i2 < i && 0 <= j2 < n ==> !#[trigger] self.pair_coincides(state@, i2, j2),
            decreases n - i,
        {
            let ghost e0 = e;
            let mut j: usize = 0;
            while j < n
                invariant
                    0 <= i < n,
                    0 <= j <= n,
                    n == self.bound().len(),
                    state.wf(),
                    self.binds_into(state@),
                    e0 == self.rows_energy(state@, i as int),
                    e == self.row_energy(state@, e0, i as int, j as int),
                    forall|i2: int, j2: int|
                        0 <= i2 < i && 0 <= j2 < n ==> !#[trigger] self.pair_coincides(state@, i2, j2),
                    forall|j2: int| 0 <= j2 < j ==> !#[trigger] self.pair_coincides(state@, i as int, j2),
                decreases n - j,
            {
                if i != j {
                    let a = self.masses[i];
                    let b = self.masses[j];
                    assert(state@.has(self.bound()[i as int] as int));
                    assert(state@.has(self.bound()[j as int] as int));
                    let d = distance_between(state, a, b);
                    if d.is_zero() {
                        assert(self.pair_coincides(state@, i as int, j as int));
                        return Err(ForceError::Coincident);
                    }
                    let w = self.g.times(state.mass(a)).times(state.mass(b));
                    e = e.plus(S::zero_value().minus(w).over(d));
                }
                j += 1;
            }
            i += 1;
        }
        Ok(e)
    }
}

/// The built-in force generators, so that one scene can hold several kinds.
pub enum BuiltinForce<S> {
    Spring(SpringForce<S>),
    Gravity(GravityForce<S>),
}

impl<S: Scalar> ForceGenerator<S> for BuiltinForce<S> {
    open spec fn applied(&self, s: StateModel<S>) -> Result<StateModel<S>, ForceError> {
        match self {
            BuiltinForce::Spring(f) => f.applied(s),
            BuiltinForce::Gravity(f) => f.applied(s),
        }
    }

    open spec fn energy(&self, s: StateModel<S>) -> Result<S, ForceError> {
        match self {
            BuiltinForce::Spring(f) => f.energy(s),
            BuiltinForce::Gravity(f) => f.energy(s),
        }
    }

    proof fn lemma_applied_keeps_motion(&self, s: StateModel<S>) {
        match self {
            BuiltinForce::Spring(f) => f.lemma_applied_keeps_motion(s),
            BuiltinForce::Gravity(f) => f.lemma_applied_keeps_motion(s),
        }
    }

    fn apply_force(&self, state: &mut VectorState<S>) -> (r: Result<(), ForceError>) {
        match self {
            BuiltinForce::Spring(f) => f.apply_force(state),
            BuiltinForce::Gravity(f) => f.apply_force(state),
        }
    }

    fn get_energy(&self, state: &VectorState<S>) -> (r: Result<S, ForceError>) {
        match self {
            BuiltinForce::Spring(f) => f.get_energy(state),
            BuiltinForce::Gravity(f) => f.get_energy(state),
        }
    }
}

} // verus!
