//! The state store: the authoritative (pressure, volume) point and the running
//! work accumulator, mutated only through drag gestures.

use vstd::prelude::*;

use crate::config::{Config, ConfigError, COORD_LIMIT, ENERGY_DEN, SCALE, WORK_LIMIT};
use crate::rat::Rat;

verus! {

/// A snapshot of the thermodynamic state. Pressure and volume are micro-units
/// ([`SCALE`]); the accumulated work is an exact rational in joules.
#[derive(Clone, Copy, Debug, PartialEq, Eq, Structural)]
pub struct ThermodynamicState {
    /// Pressure, micro-Pa.
    pub pressure: i64,
    /// Volume, micro-m³.
    pub volume: i64,
    /// Work accumulated across all committed drag steps, joules.
    pub accumulated_work: Rat,
}

impl ThermodynamicState {
    /// Both coordinates are inside the fixed-point caps.
    pub open spec fn within_limits(self) -> bool {
        &&& -COORD_LIMIT <= self.pressure <= COORD_LIMIT
        &&& -COORD_LIMIT <= self.volume <= COORD_LIMIT
    }
}

/// A candidate (pressure, volume) point, e.g. where the pointer currently is.
/// Micro-units, as in [`ThermodynamicState`].
#[derive(Clone, Copy, Debug, PartialEq, Eq, Structural)]
pub struct ProcessQuery {
    /// Pressure, micro-Pa.
    pub pressure: i64,
    /// Volume, micro-m³.
    pub volume: i64,
}

impl ProcessQuery {
    /// Both coordinates are inside the fixed-point caps.
    pub open spec fn within_limits(self) -> bool {
        &&& -COORD_LIMIT <= self.pressure <= COORD_LIMIT
        &&& -COORD_LIMIT <= self.volume <= COORD_LIMIT
    }
}

/// The baseline captured at drag start and advanced by every committed step;
/// work is accumulated against it.
#[derive(Clone, Copy, Debug, PartialEq, Eq, Structural)]
pub struct DragHandle {
    /// Baseline pressure, micro-Pa.
    pub pressure0: i64,
    /// Baseline volume, micro-m³.
    pub volume0: i64,
}

impl DragHandle {
    /// The baseline lies inside the configured ranges.
    pub open spec fn in_ranges(self, cfg: Config) -> bool {
        &&& cfg.p_min <= self.pressure0 <= cfg.p_max
        &&& cfg.v_min <= self.volume0 <= cfg.v_max
    }
}

/// `x` clamped to `[lo, hi]`.
pub open spec fn clamp_int(x: int, lo: int, hi: int) -> int {
    if x < lo {
        lo
    } else if x > hi {
        hi
    } else {
        x
    }
}

/// Numerator (over [`ENERGY_DEN`]) of the trapezoidal work of one straight
/// step from `(p0, v0)` to `(p1, v1)`: `((p1 + p0) / 2) * (v1 - v0)` joules.
pub open spec fn trap_work_num(p0: int, v0: int, p1: int, v1: int) -> int {
    (p1 + p0) * (v1 - v0) * (SCALE as int)
}

/// `x` clamped to `[lo, hi]`, on `i64`.
fn clamp_i64(x: i64, lo: i64, hi: i64) -> (r: i64)
    requires
        lo <= hi,
    ensures
        r == clamp_int(x as int, lo as int, hi as int),
{
    if x < lo {
        lo
    } else if x > hi {
        hi
    } else {
        x
    }
}

/// Owns the current thermodynamic state; all mutation is clamped to the
/// configured ranges and serialized through the drag operations.
#[derive(Clone, Copy, Debug, PartialEq, Eq, Structural)]
pub struct StateStore {
    /// The configuration the store was created with.
    pub cfg: Config,
    /// Current pressure, micro-Pa.
    pub pressure: i64,
    /// Current volume, micro-m³.
    pub volume: i64,
    /// Accumulated work, numerator over [`ENERGY_DEN`].
    pub work_num: i128,
}

impl StateStore {
    /// The store's invariant: a valid configuration, the state inside its
    /// ranges, the accumulator inside the saturation bound.
    pub open spec fn wf(self) -> bool {
        &&& self.cfg.valid()
        &&& self.cfg.p_min <= self.pressure <= self.cfg.p_max
        &&& self.cfg.v_min <= self.volume <= self.cfg.v_max
        &&& -WORK_LIMIT <= self.work_num <= WORK_LIMIT
    }

    /// The snapshot [`current`](Self::current) returns.
    pub open spec fn current_spec(self) -> ThermodynamicState {
        ThermodynamicState {
            pressure: self.pressure,
            volume: self.volume,
            accumulated_work: Rat { num: self.work_num, den: ENERGY_DEN },
        }
    }

    /// Creates the store, failing fast on a degenerate configuration; the
    /// initial point is clamped into the configured ranges and the work
    /// accumulator starts at zero.
    pub fn new(cfg: Config, initial: ProcessQuery) -> (r: Result<StateStore, ConfigError>)
        ensures
            r is Ok <==> cfg.valid(),
            r is Err ==> r->Err_0 == cfg.error_of()->0,
            r is Ok ==> r->Ok_0 == (StateStore {
                cfg,
                pressure: clamp_int(initial.pressure as int, cfg.p_min as int, cfg.p_max as int) as i64,
                volume: clamp_int(initial.volume as int, cfg.v_min as int, cfg.v_max as int) as i64,
                work_num: 0,
            }),
            r is Ok ==> r->Ok_0.wf(),
    {
        match cfg.validate() {
            Err(e) => Err(e),
            Ok(()) => Ok(StateStore {
                cfg,
                pressure: clamp_i64(initial.pressure, cfg.p_min, cfg.p_max),
                volume: clamp_i64(initial.volume, cfg.v_min, cfg.v_max),
                work_num: 0,
            }),
        }
    }

    /// Returns the current state; no side effects, never fails. Two calls with
    /// no mutation in between return identical snapshots.
    pub fn current(&self) -> (r: ThermodynamicState)
        ensures
            r == self.current_spec(),
    {
        ThermodynamicState {
            pressure: self.pressure,
            volume: self.volume,
            accumulated_work: Rat { num: self.work_num, den: ENERGY_DEN },
        }
    }

    /// Captures the drag baseline: the state at drag start.
    pub fn begin_drag(&self) -> (r: DragHandle)
        ensures
            r.pressure0 == self.pressure,
            r.volume0 == self.volume,
            self.wf() ==> r.in_ranges(self.cfg),
    {
        DragHandle { pressure0: self.pressure, volume0: self.volume }
    }

    /// Commits one drag step: the state becomes the query clamped to the
    /// configured ranges, the accumulator grows by the trapezoidal work of the
    /// straight step from the baseline (saturating at [`WORK_LIMIT`]), and the
    /// baseline advances to the new state.
    pub fn commit_move(&mut self, handle: &mut DragHandle, query: ProcessQuery)
        requires
            old(self).wf(),
            old(handle).in_ranges(old(self).cfg),
        ensures
            final(self).cfg == old(self).cfg,
            final(self).pressure == clamp_int(
                query.pressure as int,
                old(self).cfg.p_min as int,
                old(self).cfg.p_max as int,
            ),
            final(self).volume == clamp_int(
                query.volume as int,
                old(self).cfg.v_min as int,
                old(self).cfg.v_max as int,
            ),
            final(self).work_num == clamp_int(
                old(self).work_num + trap_work_num(
                    old(handle).pressure0 as int,
                    old(handle).volume0 as int,
                    final(self).pressure as int,
                    final(self).volume as int,
                ),
                -WORK_LIMIT as int,
                WORK_LIMIT as int,
            ),
            final(handle).pressure0 == final(self).pressure,
            final(handle).volume0 == final(self).volume,
            final(self).wf(),
            final(handle).in_ranges(final(self).cfg),
    {
        let p1 = clamp_i64(query.pressure, self.cfg.p_min, self.cfg.p_max);
        let v1 = clamp_i64(query.volume, self.cfg.v_min, self.cfg.v_max);
        let p0 = handle.pressure0;
        let v0 = handle.volume0;
        proof {
            lemma_mul_bound(
                (p1 + p0) as int,
                (v1 - v0) as int,
                2 * COORD_LIMIT as int,
                2 * COORD_LIMIT as int,
            );
            lemma_mul_bound(
                ((p1 + p0) as i128 * (v1 - v0) as i128) as int,
                SCALE as int,
                4 * COORD_LIMIT as int * COORD_LIMIT as int,
                SCALE as int,
            );
        }
        let inc: i128 = (p1 as i128 + p0 as i128) * (v1 as i128 - v0 as i128) * (SCALE as i128);
        let sum: i128 = self.work_num + inc;
        let acc: i128 = if sum < -WORK_LIMIT {
            -WORK_LIMIT
        } else if sum > WORK_LIMIT {
            WORK_LIMIT
        } else {
            sum
        };
        self.pressure = p1;
        self.volume = v1;
        self.work_num = acc;
        handle.pressure0 = p1;
        handle.volume0 = v1;
    }

    /// Snaps the state to the given snapshot: pressure and volume are clamped
    /// to the configured ranges, and the accumulator adopts the snapshot's
    /// `accumulated_work` (saturated at [`WORK_LIMIT`]). The jump gesture
    /// hands in the work already evaluated for the hovered curve; no
    /// trapezoidal increment is added.
    pub fn reset_to(&mut self, state: ThermodynamicState)
        requires
            old(self).wf(),
            state.accumulated_work.den == ENERGY_DEN,
        ensures
            final(self).cfg == old(self).cfg,
            final(self).pressure == clamp_int(
                state.pressure as int,
                old(self).cfg.p_min as int,
                old(self).cfg.p_max as int,
            ),
            final(self).volume == clamp_int(
                state.volume as int,
                old(self).cfg.v_min as int,
                old(self).cfg.v_max as int,
            ),
            final(self).work_num == clamp_int(
                state.accumulated_work.num as int,
                -WORK_LIMIT as int,
                WORK_LIMIT as int,
            ),
            final(self).wf(),
    {
        self.pressure = clamp_i64(state.pressure, self.cfg.p_min, self.cfg.p_max);
        self.volume = clamp_i64(state.volume, self.cfg.v_min, self.cfg.v_max);
        let w: i128 = state.accumulated_work.num;
        self.work_num = if w < -WORK_LIMIT {
            -WORK_LIMIT
        } else if w > WORK_LIMIT {
            WORK_LIMIT
        } else {
            w
        };
    }
}

/// `|x| <= bx` and `|y| <= by` bound the product by `bx * by`.
pub proof fn lemma_mul_bound(x: int, y: int, bx: int, by: int)
    by (nonlinear_arith)
    requires
        -bx <= x <= bx,
        -by <= y <= by,
        0 <= bx,
        0 <= by,
    ensures
        -(bx * by) <= x * y <= bx * by,
{
}

} // verus!
