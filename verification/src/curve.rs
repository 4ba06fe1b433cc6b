//! Curve generation: the four canonical process curves through the current
//! state, sampled linearly across the configured ranges.

use vstd::prelude::*;

use crate::config::{Config, COORD_LIMIT, MAX_RESOLUTION, SCALE};
use crate::engine::{ProcessEngine, ProcessType};
use crate::rat::Rat;
use crate::state::{lemma_mul_bound, ThermodynamicState};

verus! {

/// One sampled curve point with an exactly representable pressure.
#[derive(Clone, Copy, Debug, PartialEq, Eq, Structural)]
pub struct CurvePoint {
    /// Sample volume, m³.
    pub volume: Rat,
    /// Pressure of the curve at that volume, Pa.
    pub pressure: Rat,
}

impl CurvePoint {
    /// Both rationals are well-formed.
    pub open spec fn wf(self) -> bool {
        self.volume.wf() && self.pressure.wf()
    }
}

/// One sampled point of the adiabat. With `γ = 5/3` the pressure
/// `p = P₀·(V₀/v)^γ` is irrational in general, so the point carries the ratio
/// `V₀/v` exactly and the renderer finishes `p = P₀·ratio^γ`. Any such `p`
/// conserves `p³·v⁵ = P₀³·V₀⁵` because `ratio·v = V₀` exactly (see
/// [`crate::laws::lemma_adiabat_power_invariant`]).
#[derive(Clone, Copy, Debug, PartialEq, Eq, Structural)]
pub struct AdiabatPoint {
    /// Sample volume, m³.
    pub volume: Rat,
    /// `V₀ / v`: the state volume over the sample volume.
    pub vol_ratio: Rat,
}

impl AdiabatPoint {
    /// Both rationals are well-formed.
    pub open spec fn wf(self) -> bool {
        self.volume.wf() && self.vol_ratio.wf()
    }
}

/// A generated process curve: an ordered sequence of samples, regenerated from
/// the current state on demand and never stored.
#[derive(Debug)]
pub enum ProcessCurve {
    /// Exact points of `p·v = P₀·V₀`.
    Isothermal(Vec<CurvePoint>),
    /// Ratio-form points of `p·v^γ = P₀·V₀^γ`.
    Adiabatic(Vec<AdiabatPoint>),
    /// The constant-pressure line across the volume range.
    Isobaric(Vec<CurvePoint>),
    /// The constant-volume line across the pressure range.
    Isochoric(Vec<CurvePoint>),
}

/// Denominator shared by every sampled coordinate: `resolution · SCALE`.
pub open spec fn sample_den(cfg: Config) -> int {
    cfg.resolution as int * (SCALE as int)
}

/// Numerator of the volume sampled at index `i`, over [`sample_den`]: linear
/// from `v_min` (inclusive) towards `v_max` (exclusive).
pub open spec fn sample_v_num(cfg: Config, i: int) -> int {
    cfg.v_min as int * (cfg.resolution as int) + i * (cfg.v_max as int - cfg.v_min as int)
}

/// Numerator of the pressure sampled at index `i`, over [`sample_den`]: linear
/// from `p_min` (inclusive) towards `p_max` (exclusive).
pub open spec fn sample_p_num(cfg: Config, i: int) -> int {
    cfg.p_min as int * (cfg.resolution as int) + i * (cfg.p_max as int - cfg.p_min as int)
}

/// The point lies on the isotherm through the state `(sp, sv)` (micro-units):
/// `volume · pressure == (sp/SCALE) · (sv/SCALE)`, cross-multiplied.
pub open spec fn on_isotherm(pt: CurvePoint, sp: int, sv: int) -> bool {
    pt.volume.num as int * (pt.pressure.num as int) * ((SCALE as int) * (SCALE as int)) == sp * sv
        * (pt.volume.den as int * (pt.pressure.den as int))
}

/// The adiabat point's ratio is exactly the state volume over the sample
/// volume: `vol_ratio · volume == sv/SCALE`, cross-multiplied.
pub open spec fn on_adiabat(pt: AdiabatPoint, sv: int) -> bool {
    pt.vol_ratio.num as int * (pt.volume.num as int) * (SCALE as int) == sv * (pt.vol_ratio.den
        as int * (pt.volume.den as int))
}

/// The isothermal sample at index `i` through the state `(sp, sv)`:
/// `p = (sp·sv/SCALE²) / v`.
pub open spec fn iso_point(cfg: Config, sp: int, sv: int, i: int) -> CurvePoint {
    CurvePoint {
        volume: Rat { num: sample_v_num(cfg, i) as i128, den: sample_den(cfg) as i128 },
        pressure: Rat {
            num: (sp * sv * sample_den(cfg)) as i128,
            den: ((SCALE as int) * (SCALE as int) * sample_v_num(cfg, i)) as i128,
        },
    }
}

/// The adiabat sample at index `i` through a state of volume `sv`.
pub open spec fn adiabat_point(cfg: Config, sv: int, i: int) -> AdiabatPoint {
    AdiabatPoint {
        volume: Rat { num: sample_v_num(cfg, i) as i128, den: sample_den(cfg) as i128 },
        vol_ratio: Rat {
            num: (sv * sample_den(cfg)) as i128,
            den: ((SCALE as int) * sample_v_num(cfg, i)) as i128,
        },
    }
}

/// The isobar sample at index `i` through a state of pressure `sp`.
pub open spec fn isobar_point(cfg: Config, sp: int, i: int) -> CurvePoint {
    CurvePoint {
        volume: Rat { num: sample_v_num(cfg, i) as i128, den: sample_den(cfg) as i128 },
        pressure: Rat { num: sp as i128, den: SCALE as i128 },
    }
}

/// The isochore sample at index `i` through a state of volume `sv`.
pub open spec fn isochor_point(cfg: Config, sv: int, i: int) -> CurvePoint {
    CurvePoint {
        volume: Rat { num: sv as i128, den: SCALE as i128 },
        pressure: Rat { num: sample_p_num(cfg, i) as i128, den: sample_den(cfg) as i128 },
    }
}

/// The first `n` isothermal samples, skipping non-positive volumes (the
/// isotherm is undefined at `v <= 0`).
pub open spec fn iso_prefix(cfg: Config, sp: int, sv: int, n: nat) -> Seq<CurvePoint>
    decreases n,
{
    if n == 0 {
        Seq::empty()
    } else {
        let s = iso_prefix(cfg, sp, sv, (n - 1) as nat);
        if sample_v_num(cfg, n - 1) > 0 {
            s.push(iso_point(cfg, sp, sv, n - 1))
        } else {
            s
        }
    }
}

/// The first `n` adiabat samples, skipping non-positive volumes (the adiabat
/// is undefined at `v <= 0`).
pub open spec fn adiabat_prefix(cfg: Config, sv: int, n: nat) -> Seq<AdiabatPoint>
    decreases n,
{
    if n == 0 {
        Seq::empty()
    } else {
        let s = adiabat_prefix(cfg, sv, (n - 1) as nat);
        if sample_v_num(cfg, n - 1) > 0 {
            s.push(adiabat_point(cfg, sv, n - 1))
        } else {
            s
        }
    }
}

/// The first `n` isobar samples (every sample volume is included).
pub open spec fn isobar_prefix(cfg: Config, sp: int, n: nat) -> Seq<CurvePoint>
    decreases n,
{
    if n == 0 {
        Seq::empty()
    } else {
        isobar_prefix(cfg, sp, (n - 1) as nat).push(isobar_point(cfg, sp, n - 1))
    }
}

/// The first `n` isochore samples (every sample pressure is included).
pub open spec fn isochor_prefix(cfg: Config, sv: int, n: nat) -> Seq<CurvePoint>
    decreases n,
{
    if n == 0 {
        Seq::empty()
    } else {
        isochor_prefix(cfg, sv, (n - 1) as nat).push(isochor_point(cfg, sv, n - 1))
    }
}

impl ProcessEngine {
    /// Generates the curve of the given process type through the state,
    /// sampled linearly with `resolution` points across the configured volume
    /// range (pressure range for the isochore). Isothermal and adiabatic
    /// curves carry only the samples of positive volume.
    pub fn generate_curve(&self, state: &ThermodynamicState, process: ProcessType) -> (r:
        ProcessCurve)
        requires
            self.wf(),
            state.within_limits(),
        ensures
            process == ProcessType::Isothermal ==> (r matches ProcessCurve::Isothermal(pts)
                && pts@ == iso_prefix(
                self.cfg,
                state.pressure as int,
                state.volume as int,
                self.cfg.resolution as nat,
            ) && (forall|k: int|
                0 <= k < pts@.len() ==> {
                    &&& on_isotherm(#[trigger] pts@[k], state.pressure as int, state.volume as int)
                    &&& pts@[k].volume.num > 0
                    &&& pts@[k].wf()
                })),
            process == ProcessType::Adiabatic ==> (r matches ProcessCurve::Adiabatic(pts) && pts@
                == adiabat_prefix(self.cfg, state.volume as int, self.cfg.resolution as nat) && (
            forall|k: int|
                0 <= k < pts@.len() ==> {
                    &&& on_adiabat(#[trigger] pts@[k], state.volume as int)
                    &&& pts@[k].volume.num > 0
                    &&& pts@[k].wf()
                })),
            process == ProcessType::Isobaric ==> (r matches ProcessCurve::Isobaric(pts) && pts@
                == isobar_prefix(self.cfg, state.pressure as int, self.cfg.resolution as nat) && (
            forall|k: int|
                0 <= k < pts@.len() ==> {
                    &&& (#[trigger] pts@[k]).pressure == (Rat {
                        num: state.pressure as i128,
                        den: SCALE as i128,
                    })
                    &&& pts@[k].wf()
                })),
            process == ProcessType::Isochoric ==> (r matches ProcessCurve::Isochoric(pts) && pts@
                == isochor_prefix(self.cfg, state.volume as int, self.cfg.resolution as nat) && (
            forall|k: int|
                0 <= k < pts@.len() ==> {
                    &&& (#[trigger] pts@[k]).volume == (Rat {
                        num: state.volume as i128,
                        den: SCALE as i128,
                    })
                    &&& pts@[k].wf()
                })),
    {
        match process {
            ProcessType::Isothermal => ProcessCurve::Isothermal(
                self.isothermal_points(state.pressure, state.volume),
            ),
            ProcessType::Adiabatic => ProcessCurve::Adiabatic(
                self.adiabat_points(state.volume),
            ),
            ProcessType::Isobaric => ProcessCurve::Isobaric(
                self.isobar_points(state.pressure),
            ),
            ProcessType::Isochoric => ProcessCurve::Isochoric(
                self.isochor_points(state.volume),
            ),
        }
    }

    /// The isothermal samples: `p = sp·sv/v` at every positive sample volume.
    fn isothermal_points(&self, sp: i64, sv: i64) -> (pts: Vec<CurvePoint>)
        requires
            self.wf(),
            -COORD_LIMIT <= sp <= COORD_LIMIT,
            -COORD_LIMIT <= sv <= COORD_LIMIT,
        ensures
            pts@ == iso_prefix(self.cfg, sp as int, sv as int, self.cfg.resolution as nat),
            forall|k: int|
                0 <= k < pts@.len() ==> {
                    &&& on_isotherm(#[trigger] pts@[k], sp as int, sv as int)
                    &&& pts@[k].volume.num > 0
                    &&& pts@[k].wf()
                },
    {
        let res: u32 = self.cfg.resolution;
        let resl: i128 = res as i128;
        let scl: i128 = SCALE as i128;
        let vden: i128 = resl * scl;
        proof {
            lemma_mul_bound(sp as int, sv as int, COORD_LIMIT as int, COORD_LIMIT as int);
        }
        let spsv: i128 = (sp as i128) * (sv as i128);
        let s2: i128 = scl * scl;
        let vmin: i128 = self.cfg.v_min as i128;
        let vmax: i128 = self.cfg.v_max as i128;
        let mut pts: Vec<CurvePoint> = Vec::new();
        let mut i: u32 = 0;
        while i < res
            invariant
                self.wf(),
                -COORD_LIMIT <= sp <= COORD_LIMIT,
                -COORD_LIMIT <= sv <= COORD_LIMIT,
                res == self.cfg.resolution,
                resl == res as i128,
                scl == SCALE as i128,
                vden == sample_den(self.cfg),
                spsv == sp as int * (sv as int),
                s2 == (SCALE as int) * (SCALE as int),
                vmin == self.cfg.v_min as i128,
                vmax == self.cfg.v_max as i128,
                i <= res,
                pts@ == iso_prefix(self.cfg, sp as int, sv as int, i as nat),
                forall|k: int|
                    0 <= k < pts@.len() ==> {
                        &&& on_isotherm(#[trigger] pts@[k], sp as int, sv as int)
                        &&& pts@[k].volume.num > 0
                        &&& pts@[k].wf()
                    },
            decreases res - i,
        {
            proof {
                lemma_mul_bound(vmin as int, resl as int, COORD_LIMIT as int, MAX_RESOLUTION as int);
                lemma_mul_bound(
                    i as int,
                    vmax as int - vmin as int,
                    MAX_RESOLUTION as int,
                    2 * (COORD_LIMIT as int),
                );
            }
            let vnum: i128 = vmin * resl + (i as i128) * (vmax - vmin);
            if vnum > 0 {
                proof {
                    lemma_mul_bound(sp as int, sv as int, COORD_LIMIT as int, COORD_LIMIT as int);
                    lemma_mul_bound(
                        spsv as int,
                        vden as int,
                        (COORD_LIMIT as int) * (COORD_LIMIT as int),
                        (MAX_RESOLUTION as int) * (SCALE as int),
                    );
                    lemma_mul_bound(
                        s2 as int,
                        vnum as int,
                        (SCALE as int) * (SCALE as int),
                        3 * (COORD_LIMIT as int) * (MAX_RESOLUTION as int),
                    );
                    assert(s2 * vnum > 0) by (nonlinear_arith)
                        requires
                            s2 > 0,
                            vnum > 0,
                    ;
                }
                let pt = CurvePoint {
                    volume: Rat { num: vnum, den: vden },
                    pressure: Rat { num: spsv * vden, den: s2 * vnum },
                };
                proof {
                    assert(pt == iso_point(self.cfg, sp as int, sv as int, i as int));
                    assert(on_isotherm(pt, sp as int, sv as int)) by (nonlinear_arith)
                        requires
                            pt.volume.num == vnum,
                            pt.volume.den == vden,
                            pt.pressure.num == spsv * vden,
                            pt.pressure.den == s2 * vnum,
                            spsv == sp as int * (sv as int),
                            s2 == (SCALE as int) * (SCALE as int),
                    ;
                }
                pts.push(pt);
            }
            proof {
                assert(pts@ == iso_prefix(self.cfg, sp as int, sv as int, (i + 1) as nat));
            }
            i = i + 1;
        }
        pts
    }

    /// The adiabat samples in ratio form at every positive sample volume.
    fn adiabat_points(&self, sv: i64) -> (pts: Vec<AdiabatPoint>)
        requires
            self.wf(),
            -COORD_LIMIT <= sv <= COORD_LIMIT,
        ensures
            pts@ == adiabat_prefix(self.cfg, sv as int, self.cfg.resolution as nat),
            forall|k: int|
                0 <= k < pts@.len() ==> {
                    &&& on_adiabat(#[trigger] pts@[k], sv as int)
                    &&& pts@[k].volume.num > 0
                    &&& pts@[k].wf()
                },
    {
        let res: u32 = self.cfg.resolution;
        let resl: i128 = res as i128;
        let scl: i128 = SCALE as i128;
        let vden: i128 = resl * scl;
        let vmin: i128 = self.cfg.v_min as i128;
        let vmax: i128 = self.cfg.v_max as i128;
        let mut pts: Vec<AdiabatPoint> = Vec::new();
        let mut i: u32 = 0;
        while i < res
            invariant
                self.wf(),
                -COORD_LIMIT <= sv <= COORD_LIMIT,
                res == self.cfg.resolution,
                resl == res as i128,
                scl == SCALE as i128,
                vden == sample_den(self.cfg),
                vmin == self.cfg.v_min as i128,
                vmax == self.cfg.v_max as i128,
                i <= res,
                pts@ == adiabat_prefix(self.cfg, sv as int, i as nat),
                forall|k: int|
                    0 <= k < pts@.len() ==> {
                        &&& on_adiabat(#[trigger] pts@[k], sv as int)
                        &&& pts@[k].volume.num > 0
                        &&& pts@[k].wf()
                    },
            decreases res - i,
        {
            proof {
                lemma_mul_bound(vmin as int, resl as int, COORD_LIMIT as int, MAX_RESOLUTION as int);
                lemma_mul_bound(
                    i as int,
                    vmax as int - vmin as int,
                    MAX_RESOLUTION as int,
                    2 * (COORD_LIMIT as int),
                );
            }
            let vnum: i128 = vmin * resl + (i as i128) * (vmax - vmin);
            if vnum > 0 {
                proof {
                    lemma_mul_bound(
                        sv as int,
                        vden as int,
                        COORD_LIMIT as int,
                        (MAX_RESOLUTION as int) * (SCALE as int),
                    );
                    lemma_mul_bound(
                        scl as int,
                        vnum as int,
                        SCALE as int,
                        3 * (COORD_LIMIT as int) * (MAX_RESOLUTION as int),
                    );
                    assert(scl * vnum > 0) by (nonlinear_arith)
                        requires
                            scl > 0,
                            vnum > 0,
                    ;
                }
                let pt = AdiabatPoint {
                    volume: Rat { num: vnum, den: vden },
                    vol_ratio: Rat { num: (sv as i128) * vden, den: scl * vnum },
                };
                proof {
                    assert(pt == adiabat_point(self.cfg, sv as int, i as int));
                    assert(on_adiabat(pt, sv as int)) by (nonlinear_arith)
                        requires
                            pt.volume.num == vnum,
                            pt.volume.den == vden,
                            pt.vol_ratio.num == sv as int * (vden as int),
                            pt.vol_ratio.den == scl * vnum,
                            scl == SCALE as int,
                    ;
                }
                pts.push(pt);
            }
            proof {
                assert(pts@ == adiabat_prefix(self.cfg, sv as int, (i + 1) as nat));
            }
            i = i + 1;
        }
        pts
    }

    /// The isobar samples: constant pressure `sp` across the volume range.
    fn isobar_points(&self, sp: i64) -> (pts: Vec<CurvePoint>)
        requires
            self.wf(),
            -COORD_LIMIT <= sp <= COORD_LIMIT,
        ensures
            pts@ == isobar_prefix(self.cfg, sp as int, self.cfg.resolution as nat),
            forall|k: int|
                0 <= k < pts@.len() ==> {
                    &&& (#[trigger] pts@[k]).pressure == (Rat { num: sp as i128, den: SCALE as i128 })
                    &&& pts@[k].wf()
                },
    {
        let res: u32 = self.cfg.resolution;
        let resl: i128 = res as i128;
        let scl: i128 = SCALE as i128;
        let vden: i128 = resl * scl;
        let vmin: i128 = self.cfg.v_min as i128;
        let vmax: i128 = self.cfg.v_max as i128;
        let mut pts: Vec<CurvePoint> = Vec::new();
        let mut i: u32 = 0;
        while i < res
            invariant
                self.wf(),
                -COORD_LIMIT <= sp <= COORD_LIMIT,
                res == self.cfg.resolution,
                resl == res as i128,
                scl == SCALE as i128,
                vden == sample_den(self.cfg),
                vmin == self.cfg.v_min as i128,
                vmax == self.cfg.v_max as i128,
                i <= res,
                pts@ == isobar_prefix(self.cfg, sp as int, i as nat),
                forall|k: int|
                    0 <= k < pts@.len() ==> {
                        &&& (#[trigger] pts@[k]).pressure == (Rat {
                            num: sp as i128,
                            den: SCALE as i128,
                        })
                        &&& pts@[k].wf()
                    },
            decreases res - i,
        {
            proof {
                lemma_mul_bound(vmin as int, resl as int, COORD_LIMIT as int, MAX_RESOLUTION as int);
                lemma_mul_bound(
                    i as int,
                    vmax as int - vmin as int,
                    MAX_RESOLUTION as int,
                    2 * (COORD_LIMIT as int),
                );
            }
            let vnum: i128 = vmin * resl + (i as i128) * (vmax - vmin);
            let pt = CurvePoint {
                volume: Rat { num: vnum, den: vden },
                pressure: Rat { num: sp as i128, den: scl },
            };
            proof {
                assert(pt == isobar_point(self.cfg, sp as int, i as int));
            }
            pts.push(pt);
            proof {
                assert(pts@ == isobar_prefix(self.cfg, sp as int, (i + 1) as nat));
            }
            i = i + 1;
        }
        pts
    }

    /// The isochore samples: constant volume `sv` across the pressure range.
    fn isochor_points(&self, sv: i64) -> (pts: Vec<CurvePoint>)
        requires
            self.wf(),
            -COORD_LIMIT <= sv <= COORD_LIMIT,
        ensures
            pts@ == isochor_prefix(self.cfg, sv as int, self.cfg.resolution as nat),
            forall|k: int|
                0 <= k < pts@.len() ==> {
                    &&& (#[trigger] pts@[k]).volume == (Rat { num: sv as i128, den: SCALE as i128 })
                    &&& pts@[k].wf()
                },
    {
        let res: u32 = self.cfg.resolution;
        let resl: i128 = res as i128;
        let scl: i128 = SCALE as i128;
        let pden: i128 = resl * scl;
        let pmin: i128 = self.cfg.p_min as i128;
        let pmax: i128 = self.cfg.p_max as i128;
        let mut pts: Vec<CurvePoint> = Vec::new();
        let mut i: u32 = 0;
        while i < res
            invariant
                self.wf(),
                -COORD_LIMIT <= sv <= COORD_LIMIT,
                res == self.cfg.resolution,
                resl == res as i128,
                scl == SCALE as i128,
                pden == sample_den(self.cfg),
                pmin == self.cfg.p_min as i128,
                pmax == self.cfg.p_max as i128,
                i <= res,
                pts@ == isochor_prefix(self.cfg, sv as int, i as nat),
                forall|k: int|
                    0 <= k < pts@.len() ==> {
                        &&& (#[trigger] pts@[k]).volume == (Rat {
                            num: sv as i128,
                            den: SCALE as i128,
                        })
                        &&& pts@[k].wf()
                    },
            decreases res - i,
        {
            proof {
                lemma_mul_bound(pmin as int, resl as int, COORD_LIMIT as int, MAX_RESOLUTION as int);
                lemma_mul_bound(
                    i as int,
                    pmax as int - pmin as int,
                    MAX_RESOLUTION as int,
                    2 * (COORD_LIMIT as int),
                );
            }
            let pnum: i128 = pmin * resl + (i as i128) * (pmax - pmin);
            let pt = CurvePoint {
                volume: Rat { num: sv as i128, den: scl },
                pressure: Rat { num: pnum, den: pden },
            };
            proof {
                assert(pt == isochor_point(self.cfg, sv as int, i as int));
            }
            pts.push(pt);
            proof {
                assert(pts@ == isochor_prefix(self.cfg, sv as int, (i + 1) as nat));
            }
            i = i + 1;
        }
        pts
    }
}

} // verus!
