use vstd::prelude::*;
use vstd::string::StringExecFns;
use crate::scalar::Scalar;
use crate::state::{copy_values, VectorState};
use vstd::arithmetic::div_mod::lemma_fundamental_div_mod_converse;

verus! {

/// Why a trajectory query or record was refused.
#[derive(Clone, Copy, Debug, PartialEq, Eq, Structural)]
pub enum TrajectoryError {
    /// No frame has this index.
    FrameOutOfRange,
    /// No recorded particle has this index.
    ParticleOutOfRange,
    /// A snapshot holds another number of particles than the recorded masses.
    ParticleCountChanged,
}

/// One recorded frame.
pub struct Frame<S> {
    pub time: S,
    pub positions: Vec<S>,
    pub velocities: Vec<S>,
    pub energy: S,
}

/// Everything recorded at one frame.
pub struct FrameInfo<S> {
    pub masses: Vec<S>,
    pub positions: Vec<(S, S)>,
    pub velocities: Vec<(S, S)>,
    pub energy: S,
}

/// Everything recorded of one particle.
pub struct ParticleInfo<S> {
    pub mass: S,
    pub positions: Vec<(S, S)>,
    pub velocities: Vec<(S, S)>,
}

/// The whole trajectory, frame by frame and particle by particle.
pub struct TrajectoryData<S> {
    pub time: Vec<S>,
    pub positions: Vec<Vec<(S, S)>>,
    pub velocities: Vec<Vec<(S, S)>>,
    pub masses: Vec<S>,
    pub energies: Vec<S>,
}

/// One line of the exported table.
pub struct ExportRow<S> {
    pub time: S,
    pub id: usize,
    pub mass: S,
    pub x: S,
    pub y: S,
    pub dx: S,
    pub dy: S,
}

/// The flat vector `v` read as coordinate pairs.
pub open spec fn pairs<S>(v: Seq<S>) -> Seq<(S, S)> {
    Seq::new(v.len() / 2, |j: int| (v[2 * j], v[2 * j + 1]))
}

/// The header line of the exported table.
pub open spec fn csv_header() -> Seq<char> {
    "time,ID,m,x,y,dx,dy\n"@
}

/// One exported line: the fields in column order, comma-separated.
pub open spec fn row_text<S: Scalar>(r: ExportRow<S>) -> Seq<char> {
    S::text(r.time) + ","@ + S::text(S::count(r.id as nat)) + ","@ + S::text(r.mass) + ","@
        + S::text(r.x) + ","@ + S::text(r.y) + ","@ + S::text(r.dx) + ","@ + S::text(r.dy)
        + "\n"@
}

/// The first `k` rows as text, one line each.
pub open spec fn rows_text<S: Scalar>(rows: Seq<ExportRow<S>>, k: int) -> Seq<char>
    decreases k,
{
    if k <= 0 {
        Seq::empty()
    } else {
        rows_text(rows, k - 1) + row_text(rows[k - 1])
    }
}

/// The coordinate pairs of `v`.
fn to_pairs<S: Scalar>(v: &Vec<S>) -> (r: Vec<(S, S)>)
    ensures
        r@ == pairs(v@),
{
    let len = v.len();
    let n = len / 2;
    let mut r: Vec<(S, S)> = Vec::new();
    let mut j: usize = 0;
    while j < n
        invariant
            0 <= j <= n,
            len == v@.len(),
            n == len / 2,
            r@.len() == j,
            forall|k: int| 0 <= k < j ==> r@[k] == pairs(v@)[k],
        decreases n - j,
    {
        r.push((v[2 * j], v[2 * j + 1]));
        j += 1;
    }
    assert(r@ =~= pairs(v@));
    r
}

/// Append-only log of frames, with the masses captured at the first frame.
pub struct InMemoryDataCollector<S> {
    time: Vec<S>,
    positions: Vec<Vec<S>>,
    velocities: Vec<Vec<S>>,
    energies: Vec<S>,
    masses: Vec<S>,
}

impl<S: Scalar> InMemoryDataCollector<S> {
    pub closed spec fn frames(&self) -> nat {
        self.time@.len()
    }

    pub open spec fn particles(&self) -> nat {
        self.recorded_masses().len()
    }

    pub closed spec fn time_of(&self, i: int) -> S {
        self.time@[i]
    }

    pub closed spec fn energy_of(&self, i: int) -> S {
        self.energies@[i]
    }

    pub closed spec fn positions_of_frame(&self, i: int) -> Seq<S> {
        self.positions@[i]@
    }

    pub closed spec fn velocities_of_frame(&self, i: int) -> Seq<S> {
        self.velocities@[i]@
    }

    pub closed spec fn recorded_masses(&self) -> Seq<S> {
        self.masses@
    }

    /// Parallel vectors of one length; every frame holds two coordinates per
    /// recorded mass; before the first frame no mass is recorded.
    pub closed spec fn wf(&self) -> bool {
        &&& self.positions@.len() == self.time@.len()
        &&& self.velocities@.len() == self.time@.len()
        &&& self.energies@.len() == self.time@.len()
        &&& self.time@.len() == 0 ==> self.masses@.len() == 0
        &&& forall|i: int|
            0 <= i < self.time@.len() ==> (#[trigger] self.positions@[i])@.len() == 2
                * self.masses@.len()
        &&& forall|i: int|
            0 <= i < self.time@.len() ==> (#[trigger] self.velocities@[i])@.len() == 2
                * self.masses@.len()
    }

    /// The row of particle `j` at frame `i`.
    pub open spec fn row(&self, i: int, j: int) -> ExportRow<S> {
        ExportRow {
            time: self.time_of(i),
            id: j as usize,
            mass: self.recorded_masses()[j],
            x: self.positions_of_frame(i)[2 * j],
            y: self.positions_of_frame(i)[2 * j + 1],
            dx: self.velocities_of_frame(i)[2 * j],
            dy: self.velocities_of_frame(i)[2 * j + 1],
        }
    }

    /// The positions of particle `p` across all frames.
    pub open spec fn track_positions(&self, p: int) -> Seq<(S, S)> {
        Seq::new(
            self.frames(),
            |i: int| (self.positions_of_frame(i)[2 * p], self.positions_of_frame(i)[2 * p + 1]),
        )
    }

    pub open spec fn track_velocities(&self, p: int) -> Seq<(S, S)> {
        Seq::new(
            self.frames(),
            |i: int| (self.velocities_of_frame(i)[2 * p], self.velocities_of_frame(i)[2 * p + 1]),
        )
    }

    /// An empty log.
    pub fn new() -> (r: Self)
        ensures
            r.wf(),
            r.frames() == 0,
            r.particles() == 0,
    {
        InMemoryDataCollector {
            time: Vec::new(),
            positions: Vec::new(),
            velocities: Vec::new(),
            energies: Vec::new(),
            masses: Vec::new(),
        }
    }

    pub fn frame_count(&self) -> (r: usize)
        ensures
            r == self.frames(),
    {
        self.time.len()
    }

    pub fn particle_count(&self) -> (r: usize)
        ensures
            r == self.particles(),
    {
        self.masses.len()
    }

    /// Appends a copy of the positions and velocities of `state` at `time`
    /// with `energy`. The masses are captured at the first frame only; a
    /// later snapshot with another number of particles is refused.
    pub fn collect_frame(&mut self, state: &VectorState<S>, time: S, energy: S) -> (r: Result<
        (),
        TrajectoryError,
    >)
        requires
            old(self).wf(),
            state.wf(),
        ensures
            final(self).wf(),
            old(self).frames() > 0 && state@.count() != old(self).particles() ==> r == Err::<
                (),
                TrajectoryError,
            >(TrajectoryError::ParticleCountChanged) && *final(self) == *old(self),
            old(self).frames() == 0 || state@.count() == old(self).particles() ==> {
                &&& r is Ok
                &&& final(self).frames() == old(self).frames() + 1
                &&& final(self).recorded_masses() == if old(self).frames() == 0 {
                    state@.masses
                } else {
                    old(self).recorded_masses()
                }
                &&& forall|i: int|
                    0 <= i < old(self).frames() ==> {
                        &&& final(self).time_of(i) == old(self).time_of(i)
                        &&& final(self).energy_of(i) == old(self).energy_of(i)
                        &&& final(self).positions_of_frame(i) == old(self).positions_of_frame(i)
                        &&& final(self).velocities_of_frame(i) == old(self).velocities_of_frame(
                            i,
                        )
                    }
                &&& final(self).time_of(old(self).frames() as int) == time
                &&& final(self).energy_of(old(self).frames() as int) == energy
                &&& final(self).positions_of_frame(old(self).frames() as int) == state@.positions
                &&& final(self).velocities_of_frame(old(self).frames() as int)
                    == state@.velocities
            },
    {
        let first = self.time.len() == 0;
        if !first && state.particle_count() != self.masses.len() {
            return Err(TrajectoryError::ParticleCountChanged);
        }
        let (p, v, m) = state.motion_copy();
        self.time.push(time);
        self.positions.push(p);
        self.velocities.push(v);
        self.energies.push(energy);
        if first {
            self.masses = m;
        }
        assert(forall|i: int|
            0 <= i < self.time@.len() - 1 ==> self.positions@[i] == old(self).positions@[i]);
        assert(forall|i: int|
            0 <= i < self.time@.len() - 1 ==> self.velocities@[i] == old(self).velocities@[i]);
        Ok(())
    }

    /// The frame at index `i`.
    pub fn frame_at(&self, i: usize) -> (r: Result<Frame<S>, TrajectoryError>)
        requires
            self.wf(),
        ensures
            i >= self.frames() ==> r == Err::<Frame<S>, TrajectoryError>(
                TrajectoryError::FrameOutOfRange,
            ),
            i < self.frames() ==> r is Ok && {
                let f = r->Ok_0;
                &&& f.time == self.time_of(i as int)
                &&& f.energy == self.energy_of(i as int)
                &&& f.positions@ == self.positions_of_frame(i as int)
                &&& f.velocities@ == self.velocities_of_frame(i as int)
            },
    {
        if i >= self.time.len() {
            return Err(TrajectoryError::FrameOutOfRange);
        }
        Ok(
            Frame {
                time: self.time[i],
                positions: copy_values(&self.positions[i]),
                velocities: copy_values(&self.velocities[i]),
                energy: self.energies[i],
            },
        )
    }

    /// The position of every particle at frame `timestep`.
    pub fn positions_at(&self, timestep: usize) -> (r: Result<Vec<(S, S)>, TrajectoryError>)
        requires
            self.wf(),
        ensures
            timestep >= self.frames() ==> r == Err::<Vec<(S, S)>, TrajectoryError>(
                TrajectoryError::FrameOutOfRange,
            ),
            timestep < self.frames() ==> r is Ok && r->Ok_0@ == pairs(
                self.positions_of_frame(timestep as int),
            ),
    {
        if timestep >= self.time.len() {
            return Err(TrajectoryError::FrameOutOfRange);
        }
        Ok(to_pairs(&self.positions[timestep]))
    }

    /// The velocity of every particle at frame `timestep`.
    pub fn velocities_at(&self, timestep: usize) -> (r: Result<Vec<(S, S)>, TrajectoryError>)
        requires
            self.wf(),
        ensures
            timestep >= self.frames() ==> r == Err::<Vec<(S, S)>, TrajectoryError>(
                TrajectoryError::FrameOutOfRange,
            ),
            timestep < self.frames() ==> r is Ok && r->Ok_0@ == pairs(
                self.velocities_of_frame(timestep as int),
            ),
    {
        if timestep >= self.time.len() {
            return Err(TrajectoryError::FrameOutOfRange);
        }
        Ok(to_pairs(&self.velocities[timestep]))
    }

    /// The positions of particle `particle` across all frames.
    pub fn positions_of(&self, particle: usize) -> (r: Result<Vec<(S, S)>, TrajectoryError>)
        requires
            self.wf(),
        ensures
            particle >= self.particles() ==> r == Err::<Vec<(S, S)>, TrajectoryError>(
                TrajectoryError::ParticleOutOfRange,
            ),
            particle < self.particles() ==> r is Ok && r->Ok_0@ == self.track_positions(
                particle as int,
            ),
    {
        if particle >= self.masses.len() {
            return Err(TrajectoryError::ParticleOutOfRange);
        }
        let mut r: Vec<(S, S)> = Vec::new();
        let mut i: usize = 0;
        while i < self.time.len()
            invariant
                self.wf(),
                particle < self.particles(),
                0 <= i <= self.frames(),
                r@.len() == i,
                forall|k: int| 0 <= k < i ==> r@[k] == self.track_positions(particle as int)[k],
            decreases self.frames() - i,
        {
            let frame = &self.positions[i];
            let width = frame.len();
            assert(width == 2 * self.particles());
            r.push((frame[2 * particle], frame[2 * particle + 1]));
            i += 1;
        }
        assert(r@ =~= self.track_positions(particle as int));
        Ok(r)
    }

    /// The velocities of particle `particle` across all frames.
    pub fn velocities_of(&self, particle: usize) -> (r: Result<Vec<(S, S)>, TrajectoryError>)
        requires
            self.wf(),
        ensures
            particle >= self.particles() ==> r == Err::<Vec<(S, S)>, TrajectoryError>(
                TrajectoryError::ParticleOutOfRange,
            ),
            particle < self.particles() ==> r is Ok && r->Ok_0@ == self.track_velocities(
                particle as int,
            ),
    {
        if particle >= self.masses.len() {
            return Err(TrajectoryError::ParticleOutOfRange);
        }
        let mut r: Vec<(S, S)> = Vec::new();
        let mut i: usize = 0;
        while i < self.time.len()
            invariant
                self.wf(),
                particle < self.particles(),
                0 <= i <= self.frames(),
                r@.len() == i,
                forall|k: int| 0 <= k < i ==> r@[k] == self.track_velocities(particle as int)[k],
            decreases self.frames() - i,
        {
            let frame = &self.velocities[i];
            let width = frame.len();
            assert(width == 2 * self.particles());
            r.push((frame[2 * particle], frame[2 * particle + 1]));
            i += 1;
        }
        assert(r@ =~= self.track_velocities(particle as int));
        Ok(r)
    }

    /// Masses, positions, velocities and energy at frame `timestep`.
    pub fn info_at(&self, timestep: usize) -> (r: Result<FrameInfo<S>, TrajectoryError>)
        requires
            self.wf(),
        ensures
            timestep >= self.frames() ==> r == Err::<FrameInfo<S>, TrajectoryError>(
                TrajectoryError::FrameOutOfRange,
            ),
            timestep < self.frames() ==> r is Ok && {
                let f = r->Ok_0;
                &&& f.masses@ == self.recorded_masses()
                &&& f.positions@ == pairs(self.positions_of_frame(timestep as int))
                &&& f.velocities@ == pairs(self.velocities_of_frame(timestep as int))
                &&& f.energy == self.energy_of(timestep as int)
            },
    {
        if timestep >= self.time.len() {
            return Err(TrajectoryError::FrameOutOfRange);
        }
        Ok(
            FrameInfo {
                masses: copy_values(&self.masses),
                positions: to_pairs(&self.positions[timestep]),
                velocities: to_pairs(&self.velocities[timestep]),
                energy: self.energies[timestep],
            },
        )
    }

    /// Mass, positions and velocities of particle `particle`.
    pub fn info_of(&self, particle: usize) -> (r: Result<ParticleInfo<S>, TrajectoryError>)
        requires
            self.wf(),
        ensures
            particle >= self.particles() ==> r == Err::<ParticleInfo<S>, TrajectoryError>(
                TrajectoryError::ParticleOutOfRange,
            ),
            particle < self.particles() ==> r is Ok && {
                let f = r->Ok_0;
                &&& f.mass == self.recorded_masses()[particle as int]
                &&& f.positions@ == self.track_positions(particle as int)
                &&& f.velocities@ == self.track_velocities(particle as int)
            },
    {
        if particle >= self.masses.len() {
            return Err(TrajectoryError::ParticleOutOfRange);
        }
        let positions = match self.positions_of(particle) {
            Ok(v) => v,
            Err(e) => return Err(e),
        };
        let velocities = match self.velocities_of(particle) {
            Ok(v) => v,
            Err(e) => return Err(e),
        };
        Ok(ParticleInfo { mass: self.masses[particle], positions, velocities })
    }

    /// The position of every particle at every frame.
    pub fn extract_positions(&self) -> (r: Vec<Vec<(S, S)>>)
        requires
            self.wf(),
        ensures
            r@.len() == self.frames(),
            forall|i: int| 0 <= i < self.frames() ==> (#[trigger] r@[i])@ == pairs(self.positions_of_frame(i)),
    {
        let mut r: Vec<Vec<(S, S)>> = Vec::new();
        let mut i: usize = 0;
        while i < self.time.len()
            invariant
                self.wf(),
                0 <= i <= self.frames(),
                r@.len() == i,
                forall|k: int| 0 <= k < i ==> (#[trigger] r@[k])@ == pairs(self.positions_of_frame(k)),
            decreases self.frames() - i,
        {
            r.push(to_pairs(&self.positions[i]));
            i += 1;
        }
        r
    }

    /// The velocity of every particle at every frame.
    pub fn extract_velocities(&self) -> (r: Vec<Vec<(S, S)>>)
        requires
            self.wf(),
        ensures
            r@.len() == self.frames(),
            forall|i: int| 0 <= i < self.frames() ==> (#[trigger] r@[i])@ == pairs(self.velocities_of_frame(i)),
    {
        let mut r: Vec<Vec<(S, S)>> = Vec::new();
        let mut i: usize = 0;
        while i < self.time.len()
            invariant
                self.wf(),
                0 <= i <= self.frames(),
                r@.len() == i,
                forall|k: int| 0 <= k < i ==> (#[trigger] r@[k])@ == pairs(self.velocities_of_frame(k)),
            decreases self.frames() - i,
        {
            r.push(to_pairs(&self.velocities[i]));
            i += 1;
        }
        r
    }

    /// The whole record: times, positions, velocities, masses and energies.
    pub fn extract_data(&self) -> (r: TrajectoryData<S>)
        requires
            self.wf(),
        ensures
            r.time@ == Seq::new(self.frames(), |i: int| self.time_of(i)),
            r.energies@ == Seq::new(self.frames(), |i: int| self.energy_of(i)),
            r.masses@ == self.recorded_masses(),
            r.positions@.len() == self.frames(),
            r.velocities@.len() == self.frames(),
            forall|i: int|
                0 <= i < self.frames() ==> (#[trigger] r.positions@[i])@ == pairs(self.positions_of_frame(i)),
            forall|i: int|
                0 <= i < self.frames() ==> (#[trigger] r.velocities@[i])@ == pairs(self.velocities_of_frame(i)),
    {
        let time = copy_values(&self.time);
        let energies = copy_values(&self.energies);
        assert(time@ =~= Seq::new(self.frames(), |i: int| self.time_of(i)));
        assert(energies@ =~= Seq::new(self.frames(), |i: int| self.energy_of(i)));
        TrajectoryData {
            time,
            positions: self.extract_positions(),
            velocities: self.extract_velocities(),
            masses: copy_values(&self.masses),
            energies,
        }
    }

    /// One row per frame and particle, frame-major: row `i * n + j` is
    /// particle `j` at frame `i`, for `n` particles.
    pub fn export_rows(&self) -> (r: Vec<ExportRow<S>>)
        requires
            self.wf(),
        ensures
            r@.len() == self.frames() * self.particles(),
            forall|k: int|
                0 <= k < r@.len() ==> #[trigger] r@[k] == self.row(
                    k / self.particles() as int,
                    k % self.particles() as int,
                ),
    {
        let n = self.masses.len();
        let mut r: Vec<ExportRow<S>> = Vec::new();
        let mut i: usize = 0;
        while i < self.time.len()
            invariant
                self.wf(),
                n == self.particles(),
                0 <= i <= self.frames(),
                r@.len() == i * n,
                forall|k: int|
                    0 <= k < r@.len() ==> #[trigger] r@[k] == self.row(k / n as int, k % n as int),
            decreases self.frames() - i,
        {
            let pos = &self.positions[i];
            let vel = &self.velocities[i];
            let width = pos.len();
            let mut j: usize = 0;
            while j < n
                invariant
                    self.wf(),
                    n == self.particles(),
                    0 <= i < self.frames(),
                    0 <= j <= n,
                    pos@ == self.positions_of_frame(i as int),
                    vel@ == self.velocities_of_frame(i as int),
                    width == 2 * n,
                    r@.len() == i * n + j,
                    forall|k: int|
                        0 <= k < r@.len() ==> #[trigger] r@[k] == self.row(k / n as int, k % n as int),
                decreases n - j,
            {
                proof {
                    lemma_fundamental_div_mod_converse(i * n + j, n as int, i as int, j as int);
                }
                r.push(
                    ExportRow {
                        time: self.time[i],
                        id: j,
                        mass: self.masses[j],
                        x: pos[2 * j],
                        y: pos[2 * j + 1],
                        dx: vel[2 * j],
                        dy: vel[2 * j + 1],
                    },
                );
                j += 1;
            }
            assert(i * n + n == (i + 1) * n) by (nonlinear_arith);
            i += 1;
        }
        r
    }

    /// The table as text: the header line `time,ID,m,x,y,dx,dy`, then one
    /// line per row of `export_rows`, fields joined by commas.
    pub fn export_csv(&self) -> (r: String)
        requires
            self.wf(),
        ensures
            exists|rows: Seq<ExportRow<S>>|
                {
                    &&& rows.len() == self.frames() * self.particles()
                    &&& forall|k: int|
                        0 <= k < rows.len() ==> #[trigger] rows[k] == self.row(
                            k / self.particles() as int,
                            k % self.particles() as int,
                        )
                    &&& r@ == csv_header() + rows_text(rows, rows.len() as int)
                },
    {
        let rows = self.export_rows();
        let mut out = String::from_str("time,ID,m,x,y,dx,dy\n");
        let mut k: usize = 0;
        while k < rows.len()
            invariant
                0 <= k <= rows@.len(),
                out@ == csv_header() + rows_text(rows@, k as int),
            decreases rows@.len() - k,
        {
            let row = &rows[k];
            row.time.append_text(&mut out);
            out.append(",");
            S::from_count(row.id).append_text(&mut out);
            out.append(",");
            row.mass.append_text(&mut out);
            out.append(",");
            row.x.append_text(&mut out);
            out.append(",");
            row.y.append_text(&mut out);
            out.append(",");
            row.dx.append_text(&mut out);
            out.append(",");
            row.dy.append_text(&mut out);
            out.append("\n");
            proof {
                assert(out@ =~= csv_header() + rows_text(rows@, k as int + 1));
            }
            k += 1;
        }
        out
    }

    /// Number of scalars held: one time per frame, the positions and
    /// velocities of every frame, and the masses.
    pub open spec fn stored_values(&self) -> nat {
        self.frames() + 4 * self.particles() * self.frames() + self.particles()
    }

    /// Bytes taken by the stored scalars, or `None` when that number does not
    /// fit in a `usize`.
    pub fn byte_size(&self) -> (r: Option<usize>)
        requires
            self.wf(),
        ensures
            r is Some <==> (self.stored_values() <= usize::MAX && self.stored_values()
                * vstd::layout::size_of::<S>() <= usize::MAX),
            r is Some ==> r->Some_0 == self.stored_values() * vstd::layout::size_of::<S>(),
    {
        let f = self.time.len();
        let n = self.masses.len();
        let size = core::mem::size_of::<S>();
        let mut total: usize = f;
        let mut i: usize = 0;
        while i < f
            invariant
                self.wf(),
                f == self.frames(),
                n == self.particles(),
                0 <= i <= f,
                total == f + 4 * n * i,
            decreases f - i,
        {
            assert(4 * n * i + 4 * n == 4 * n * (i + 1)) by (nonlinear_arith);
            assert(4 * n * (i + 1) <= 4 * n * f) by (nonlinear_arith)
                requires
                    i + 1 <= f,
            ;
            match total.checked_add(self.positions[i].len()) {
                Some(t) => {
                    total = t;
                },
                None => {
                    return None;
                },
            }
            match total.checked_add(self.velocities[i].len()) {
                Some(t) => {
                    total = t;
                },
                None => {
                    return None;
                },
            }
            i += 1;
        }
        let total = match total.checked_add(n) {
            Some(t) => t,
            None => {
                return None;
            },
        };
        assert(total >= 0);
        if size == 0 {
            assert(self.stored_values() * vstd::layout::size_of::<S>() == 0);
            return Some(0);
        }
        total.checked_mul(size)
    }
}

} // verus!
