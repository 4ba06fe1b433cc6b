//! The process engine: pure evaluation of ΔU, work and heat for a query
//! against the current state, per process type.

use vstd::prelude::*;

use crate::config::{Config, ConfigError, COORD_LIMIT, ENERGY_DEN, SCALE};
use crate::rat::Rat;
use crate::state::{ProcessQuery, ThermodynamicState};

verus! {

/// The four canonical ideal-gas process types.
#[derive(Clone, Copy, Debug, PartialEq, Eq, Structural)]
pub enum ProcessType {
    /// Constant temperature: `p·v` is conserved.
    Isothermal,
    /// No heat exchange: `p·v^γ` is conserved.
    Adiabatic,
    /// Constant pressure.
    Isobaric,
    /// Constant volume.
    Isochoric,
}

/// The readout for one query: change in internal energy, work done by the
/// system, and heat absorbed, each an exact rational in joules.
#[derive(Clone, Copy, Debug, PartialEq, Eq, Structural)]
pub struct ProcessResult {
    /// Change in internal energy ΔU, joules.
    pub delta_u: Rat,
    /// Work W done by the system, joules.
    pub work: Rat,
    /// Heat Q absorbed by the system: `ΔU + W` (first law), joules.
    pub heat: Rat,
}

/// A recoverable evaluation failure; the caller suppresses the readout.
#[derive(Clone, Copy, Debug, PartialEq, Eq, Structural)]
pub enum EngineError {
    /// A non-positive volume reached the isothermal logarithm.
    DegenerateQuery,
}

/// Numerator over [`ENERGY_DEN`] of `ΔU = (Cv/R)·(qp·qv - sp·sv)` with
/// `Cv/R = (3/2)·N`; arguments are micro-units.
pub open spec fn delta_u_num(moles: int, sp: int, sv: int, qp: int, qv: int) -> int {
    3 * moles * (qp * qv - sp * sv)
}

/// Numerator over [`ENERGY_DEN`] of the work done by the system along the
/// given process from state `(sp, sv)` to query `(qp, qv)`. `ln_vol_ratio` is
/// `ln(qv/sv)` in micro-units, supplied by the caller (only the isothermal
/// branch reads it):
/// isothermal `W = sp·sv·ln(qv/sv)`; adiabatic `W = -ΔU`; otherwise the
/// trapezoidal straight-path work `((qp + sp)/2)·(qv - sv)`.
pub open spec fn work_num(
    process: ProcessType,
    moles: int,
    sp: int,
    sv: int,
    qp: int,
    qv: int,
    ln_vol_ratio: int,
) -> int {
    match process {
        ProcessType::Isothermal => 2 * sp * sv * ln_vol_ratio,
        ProcessType::Adiabatic => -delta_u_num(moles, sp, sv, qp, qv),
        _ => (qp + sp) * (qv - sv) * (SCALE as int),
    }
}

/// Numerator over [`ENERGY_DEN`] of the heat `Q = ΔU + W` (first law).
pub open spec fn heat_num(
    process: ProcessType,
    moles: int,
    sp: int,
    sv: int,
    qp: int,
    qv: int,
    ln_vol_ratio: int,
) -> int {
    delta_u_num(moles, sp, sv, qp, qv) + work_num(process, moles, sp, sv, qp, qv, ln_vol_ratio)
}

/// The evaluation takes a logarithm of a non-positive volume and must be
/// suppressed instead of computed.
pub open spec fn degenerate(process: ProcessType, sv: int, qv: int) -> bool {
    process == ProcessType::Isothermal && (sv <= 0 || qv <= 0)
}

/// Pure, stateless computation of curves and readouts over one validated
/// configuration.
#[derive(Clone, Copy, Debug, PartialEq, Eq, Structural)]
pub struct ProcessEngine {
    /// The configuration the engine was created with.
    pub cfg: Config,
}

impl ProcessEngine {
    /// The engine's invariant: its configuration is valid.
    pub open spec fn wf(self) -> bool {
        self.cfg.valid()
    }

    /// Creates the engine, failing fast on a degenerate configuration.
    pub fn new(cfg: Config) -> (r: Result<ProcessEngine, ConfigError>)
        ensures
            r is Ok <==> cfg.valid(),
            r is Ok ==> r->Ok_0 == (ProcessEngine { cfg }),
            r is Err ==> r->Err_0 == cfg.error_of()->0,
    {
        match cfg.validate() {
            Err(e) => Err(e),
            Ok(()) => Ok(ProcessEngine { cfg }),
        }
    }

    /// Evaluates one query against the state for one process type.
    ///
    /// `ln_vol_ratio` must be `ln(query.volume / state.volume)` in micro-units
    /// when `process` is isothermal and both volumes are positive; it is
    /// ignored otherwise. The logarithm is irrational, so the caller computes
    /// it; the engine is exact in the supplied value.
    ///
    /// Returns `DegenerateQuery` exactly when the isothermal logarithm would
    /// be taken of a non-positive volume; every other evaluation succeeds.
    pub fn evaluate(
        &self,
        state: &ThermodynamicState,
        query: ProcessQuery,
        process: ProcessType,
        ln_vol_ratio: i64,
    ) -> (r: Result<ProcessResult, EngineError>)
        requires
            self.wf(),
            state.within_limits(),
            query.within_limits(),
            -COORD_LIMIT <= ln_vol_ratio <= COORD_LIMIT,
        ensures
            r is Err <==> degenerate(process, state.volume as int, query.volume as int),
            r is Err ==> r->Err_0 == EngineError::DegenerateQuery,
            r is Ok ==> r->Ok_0 == (ProcessResult {
                delta_u: Rat {
                    num: delta_u_num(
                        self.cfg.moles as int,
                        state.pressure as int,
                        state.volume as int,
                        query.pressure as int,
                        query.volume as int,
                    ) as i128,
                    den: ENERGY_DEN,
                },
                work: Rat {
                    num: work_num(
                        process,
                        self.cfg.moles as int,
                        state.pressure as int,
                        state.volume as int,
                        query.pressure as int,
                        query.volume as int,
                        ln_vol_ratio as int,
                    ) as i128,
                    den: ENERGY_DEN,
                },
                heat: Rat {
                    num: heat_num(
                        process,
                        self.cfg.moles as int,
                        state.pressure as int,
                        state.volume as int,
                        query.pressure as int,
                        query.volume as int,
                        ln_vol_ratio as int,
                    ) as i128,
                    den: ENERGY_DEN,
                },
            }),
    {
        let sp = state.pressure as i128;
        let sv = state.volume as i128;
        let qp = query.pressure as i128;
        let qv = query.volume as i128;
        let n = self.cfg.moles as i128;

        if process == ProcessType::Isothermal && (state.volume <= 0 || query.volume <= 0) {
            return Err(EngineError::DegenerateQuery);
        }

        proof {
            let cl = COORD_LIMIT as int;
            crate::state::lemma_mul_bound(qp as int, qv as int, cl, cl);
            crate::state::lemma_mul_bound(sp as int, sv as int, cl, cl);
            crate::state::lemma_mul_bound(
                3 * (n as int),
                qp as int * (qv as int) - sp as int * (sv as int),
                3 * cl,
                2 * cl * cl,
            );
            crate::state::lemma_mul_bound(2 * (sp as int), sv as int, 2 * cl, cl);
            crate::state::lemma_mul_bound(
                2 * (sp as int) * (sv as int),
                ln_vol_ratio as int,
                2 * cl * cl,
                cl,
            );
            crate::state::lemma_mul_bound(qp as int + sp as int, qv as int - sv as int, 2 * cl, 2 * cl);
            crate::state::lemma_mul_bound(
                (qp as int + sp as int) * (qv as int - sv as int),
                SCALE as int,
                4 * cl * cl,
                SCALE as int,
            );
        }
        let du: i128 = 3 * n * (qp * qv - sp * sv);
        let w: i128 = match process {
            ProcessType::Isothermal => 2 * sp * sv * (ln_vol_ratio as i128),
            ProcessType::Adiabatic => -du,
            _ => (qp + sp) * (qv - sv) * (SCALE as i128),
        };
        Ok(ProcessResult {
            delta_u: Rat { num: du, den: ENERGY_DEN },
            work: Rat { num: w, den: ENERGY_DEN },
            heat: Rat { num: du + w, den: ENERGY_DEN },
        })
    }

    /// The internal energy of the state, `U = (3/2)·N·p·v` joules, exact.
    pub fn internal_energy(&self, state: &ThermodynamicState) -> (r: Rat)
        requires
            self.wf(),
            state.within_limits(),
        ensures
            r.num as int == 3 * (self.cfg.moles as int) * ((state.pressure as int) * (state.volume as int)),
            r.den == ENERGY_DEN,
    {
        proof {
            let cl = COORD_LIMIT as int;
            crate::state::lemma_mul_bound(state.pressure as int, state.volume as int, cl, cl);
            crate::state::lemma_mul_bound(
                3 * (self.cfg.moles as int),
                state.pressure as int * (state.volume as int),
                3 * cl,
                cl * cl,
            );
        }
        let num: i128 = 3 * (self.cfg.moles as i128) * ((state.pressure as i128) * (state.volume as i128));
        Rat { num, den: ENERGY_DEN }
    }

    /// The temperature of the state by the ideal-gas law, `T = p·v/(N·R)`
    /// kelvin, exact.
    pub fn temperature(&self, state: &ThermodynamicState) -> (r: Rat)
        requires
            self.wf(),
            state.within_limits(),
        ensures
            r.num as int == (state.pressure as int) * (state.volume as int),
            r.den as int == (self.cfg.moles as int) * (self.cfg.gas_constant as int),
            r.wf(),
    {
        proof {
            let cl = COORD_LIMIT as int;
            crate::state::lemma_mul_bound(state.pressure as int, state.volume as int, cl, cl);
            crate::state::lemma_mul_bound(self.cfg.moles as int, self.cfg.gas_constant as int, cl, cl);
            assert((self.cfg.moles as int) * (self.cfg.gas_constant as int) > 0) by (nonlinear_arith)
                requires
                    self.cfg.moles > 0,
                    self.cfg.gas_constant > 0,
            ;
        }
        Rat {
            num: (state.pressure as i128) * (state.volume as i128),
            den: (self.cfg.moles as i128) * (self.cfg.gas_constant as i128),
        }
    }
}

} // verus!
