//! The engine's laws, stated and proved over the same specification functions
//! that the executable contracts use.

use vstd::arithmetic::mul::{
    lemma_mul_by_zero_is_zero, lemma_mul_is_associative, lemma_mul_is_commutative,
    lemma_mul_is_distributive_add_other_way, lemma_mul_is_distributive_sub,
    lemma_mul_is_distributive_sub_other_way, lemma_mul_nonzero,
};
use vstd::arithmetic::power::{lemma_pow_distributes, pow};
use vstd::prelude::*;

use crate::config::{SCALE, WORK_LIMIT};
use crate::curve::{on_adiabat, AdiabatPoint};
use crate::engine::{delta_u_num, heat_num, work_num, ProcessType};
use crate::state::{clamp_int, trap_work_num, StateStore, ThermodynamicState};

verus! {

/// A null move is free: evaluating any process type at the current state
/// itself (with the logarithm of the unit volume ratio, which is zero) yields
/// zero change in internal energy, zero work and zero heat.
pub proof fn lemma_null_move_is_free(moles: int, sp: int, sv: int, process: ProcessType)
    ensures
        delta_u_num(moles, sp, sv, sp, sv) == 0,
        work_num(process, moles, sp, sv, sp, sv, 0) == 0,
        heat_num(process, moles, sp, sv, sp, sv, 0) == 0,
{
    assert(delta_u_num(moles, sp, sv, sp, sv) == 0) by (nonlinear_arith);
    assert(work_num(process, moles, sp, sv, sp, sv, 0) == 0) by (nonlinear_arith);
}

/// An adiabatic process exchanges no heat: for every state and every query the
/// work exactly offsets the change in internal energy.
pub proof fn lemma_adiabatic_exchanges_no_heat(
    moles: int,
    sp: int,
    sv: int,
    qp: int,
    qv: int,
    ln_vol_ratio: int,
)
    ensures
        work_num(ProcessType::Adiabatic, moles, sp, sv, qp, qv, ln_vol_ratio) == -delta_u_num(
            moles,
            sp,
            sv,
            qp,
            qv,
        ),
        heat_num(ProcessType::Adiabatic, moles, sp, sv, qp, qv, ln_vol_ratio) == 0,
{
}

/// Reading the state is idempotent: two results of
/// [`StateStore::current`](crate::state::StateStore::current) with no mutation
/// in between are identical.
pub proof fn lemma_current_idempotent(
    s: StateStore,
    r1: ThermodynamicState,
    r2: ThermodynamicState,
)
    requires
        r1 == s.current_spec(),
        r2 == s.current_spec(),
    ensures
        r1 == r2,
{
}

/// An adiabat point conserves `p³·v⁵`. Its guarantee
/// [`on_adiabat`](crate::curve::on_adiabat) says `ratio·v == V₀` exactly
/// (cross-multiplied, with `ratio = rn/rd`, `v = vn/vd` and `V₀ = sv/SCALE`);
/// this law raises it to the fifth power, `ratio⁵·v⁵ == V₀⁵` — so the
/// renderer's pressure `p = P₀·ratio^(5/3)`, whose cube is `P₀³·ratio⁵`,
/// satisfies `p³·v⁵ == P₀³·V₀⁵` exactly.
pub proof fn lemma_adiabat_power_invariant(pt: AdiabatPoint, sv: int)
    requires
        on_adiabat(pt, sv),
    ensures
        pow(pt.vol_ratio.num as int, 5) * pow(pt.volume.num as int, 5) * pow(SCALE as int, 5)
            == pow(sv, 5) * pow((pt.vol_ratio.den as int) * (pt.volume.den as int), 5),
{
    let rn = pt.vol_ratio.num as int;
    let vn = pt.volume.num as int;
    let s = SCALE as int;
    let rd = pt.vol_ratio.den as int;
    let vd = pt.volume.den as int;
    assert(pow((rn * vn) * s, 5) == pow(sv * (rd * vd), 5));
    lemma_pow_distributes(rn * vn, s, 5);
    lemma_pow_distributes(rn, vn, 5);
    lemma_pow_distributes(sv, rd * vd, 5);
}

/// The point `(p, v)` lies on the line through `(pa, va)` and `(pb, vb)`; when
/// the two ends coincide, on that very point.
pub open spec fn on_segment_line(p: int, v: int, pa: int, va: int, pb: int, vb: int) -> bool {
    if pa == pb && va == vb {
        p == pa && v == va
    } else {
        (p - pa) * (vb - va) == (v - va) * (pb - pa)
    }
}

/// Total trapezoidal work numerator accumulated by committing the points of
/// `pts` (pressure, volume pairs in micro-units) one after another.
pub open spec fn path_work_num(pts: Seq<(int, int)>) -> int
    decreases pts.len(),
{
    if pts.len() < 2 {
        0
    } else {
        path_work_num(pts.drop_last()) + trap_work_num(
            pts[pts.len() - 2].0,
            pts[pts.len() - 2].1,
            pts[pts.len() - 1].0,
            pts[pts.len() - 1].1,
        )
    }
}

/// Expands `(py + px)·(vy - vx)` into its four monomials.
proof fn lemma_expand_trap(px: int, vx: int, py: int, vy: int)
    ensures
        (py + px) * (vy - vx) == py * vy - py * vx + px * vy - px * vx,
{
    lemma_mul_is_distributive_add_other_way(vy - vx, py, px);
    lemma_mul_is_distributive_sub(py, vy, vx);
    lemma_mul_is_distributive_sub(px, vy, vx);
}

/// Commuting one reassociation: `(x·y)·z == (x·z)·y`.
proof fn lemma_mul_shuffle(x: int, y: int, z: int)
    ensures
        (x * y) * z == (x * z) * y,
{
    lemma_mul_is_associative(x, y, z);
    lemma_mul_is_commutative(y, z);
    lemma_mul_is_associative(x, z, y);
}

/// For two points on the line with direction `(dp, dv)` through `(pa, va)`,
/// the cross product rewrites to a multiple of the line's constant.
proof fn lemma_cross_on_line(pi: int, vi: int, pj: int, vj: int, pa: int, va: int, dp: int, dv: int)
    requires
        (pi - pa) * dv == (vi - va) * dp,
        (pj - pa) * dv == (vj - va) * dp,
    ensures
        (pi * vj - pj * vi) * dv == (vj - vi) * (pa * dv - va * dp),
{
    // pi·dv and pj·dv in terms of the line's equation
    lemma_mul_is_distributive_sub_other_way(dv, pi, pa);
    lemma_mul_is_distributive_sub_other_way(dv, pj, pa);
    assert(pi * dv == (vi - va) * dp + pa * dv);
    assert(pj * dv == (vj - va) * dp + pa * dv);
    // the left side, monomial by monomial
    lemma_mul_is_distributive_sub_other_way(dv, pi * vj, pj * vi);
    lemma_mul_shuffle(pi, vj, dv);
    lemma_mul_shuffle(pj, vi, dv);
    assert((pi * vj - pj * vi) * dv == (pi * dv) * vj - (pj * dv) * vi);
    lemma_mul_is_distributive_add_other_way(vj, (vi - va) * dp, pa * dv);
    lemma_mul_is_distributive_add_other_way(vi, (vj - va) * dp, pa * dv);
    lemma_mul_is_distributive_sub_other_way(dp, vi, va);
    lemma_mul_is_distributive_sub_other_way(dp, vj, va);
    lemma_mul_is_distributive_sub_other_way(vj, vi * dp, va * dp);
    lemma_mul_is_distributive_sub_other_way(vi, vj * dp, va * dp);
    // the mixed monomials agree: (vi·dp)·vj == (vj·dp)·vi
    lemma_mul_shuffle(vi, dp, vj);
    lemma_mul_shuffle(vj, dp, vi);
    lemma_mul_is_commutative(vi, vj);
    assert((vi * dp) * vj == (vj * dp) * vi);
    // the right side, monomial by monomial
    lemma_mul_is_distributive_sub_other_way(pa * dv - va * dp, vj, vi);
    lemma_mul_is_distributive_sub(vj, pa * dv, va * dp);
    lemma_mul_is_distributive_sub(vi, pa * dv, va * dp);
    lemma_mul_is_commutative(pa * dv, vj);
    lemma_mul_is_commutative(va * dp, vj);
    lemma_mul_is_commutative(pa * dv, vi);
    lemma_mul_is_commutative(va * dp, vi);
}

/// Three points on a non-degenerate line span no area: the doubled triangle
/// area vanishes.
proof fn lemma_collinear_area_zero(
    p0: int,
    v0: int,
    p1: int,
    v1: int,
    p2: int,
    v2: int,
    pa: int,
    va: int,
    dp: int,
    dv: int,
)
    requires
        dv != 0,
        (p0 - pa) * dv == (v0 - va) * dp,
        (p1 - pa) * dv == (v1 - va) * dp,
        (p2 - pa) * dv == (v2 - va) * dp,
    ensures
        (p0 * v1 - p1 * v0) + (p1 * v2 - p2 * v1) + (p2 * v0 - p0 * v2) == 0,
{
    let c01 = p0 * v1 - p1 * v0;
    let c12 = p1 * v2 - p2 * v1;
    let c20 = p2 * v0 - p0 * v2;
    let kk = pa * dv - va * dp;
    lemma_cross_on_line(p0, v0, p1, v1, pa, va, dp, dv);
    lemma_cross_on_line(p1, v1, p2, v2, pa, va, dp, dv);
    lemma_cross_on_line(p2, v2, p0, v0, pa, va, dp, dv);
    lemma_mul_is_distributive_add_other_way(dv, c01 + c12, c20);
    lemma_mul_is_distributive_add_other_way(dv, c01, c12);
    lemma_mul_is_distributive_add_other_way(kk, (v1 - v0) + (v2 - v1), v0 - v2);
    lemma_mul_is_distributive_add_other_way(kk, v1 - v0, v2 - v1);
    lemma_mul_by_zero_is_zero(kk);
    assert((c01 + c12 + c20) * dv == 0);
    lemma_mul_nonzero(c01 + c12 + c20, dv);
}

/// For three points on one line, the trapezoidal work of the two part steps
/// adds up exactly to the trapezoidal work of the whole step: the rule is
/// exact for a linear path, not merely convergent.
pub proof fn lemma_trap_additive_on_line(
    p0: int,
    v0: int,
    p1: int,
    v1: int,
    p2: int,
    v2: int,
    pa: int,
    va: int,
    pb: int,
    vb: int,
)
    requires
        on_segment_line(p0, v0, pa, va, pb, vb),
        on_segment_line(p1, v1, pa, va, pb, vb),
        on_segment_line(p2, v2, pa, va, pb, vb),
    ensures
        trap_work_num(p0, v0, p1, v1) + trap_work_num(p1, v1, p2, v2) == trap_work_num(
            p0,
            v0,
            p2,
            v2,
        ),
{
    lemma_expand_trap(p0, v0, p1, v1);
    lemma_expand_trap(p1, v1, p2, v2);
    lemma_expand_trap(p0, v0, p2, v2);
    if pa == pb && va == vb {
        assert(v0 == v1 && v1 == v2);
    } else {
        if vb == va {
            lemma_mul_by_zero_is_zero(p0 - pa);
            lemma_mul_by_zero_is_zero(p1 - pa);
            lemma_mul_by_zero_is_zero(p2 - pa);
            lemma_mul_nonzero(v0 - va, pb - pa);
            lemma_mul_nonzero(v1 - va, pb - pa);
            lemma_mul_nonzero(v2 - va, pb - pa);
            assert(v0 == va && v1 == va && v2 == va);
        } else {
            lemma_collinear_area_zero(p0, v0, p1, v1, p2, v2, pa, va, pb - pa, vb - va);
        }
    }
    assert((p1 + p0) * (v1 - v0) + (p2 + p1) * (v2 - v1) == (p2 + p0) * (v2 - v0));
    lemma_mul_is_distributive_add_other_way(
        crate::config::SCALE as int,
        (p1 + p0) * (v1 - v0),
        (p2 + p1) * (v2 - v1),
    );
}

/// A drag traced through any number of intermediate points on the straight
/// line from its first point to its last accumulates exactly the trapezoidal
/// work of the one straight step between the ends: the per-step sums
/// telescope, so refining the path changes nothing.
pub proof fn lemma_straight_path_work(pts: Seq<(int, int)>, pa: int, va: int, pb: int, vb: int)
    requires
        pts.len() >= 1,
        forall|k: int|
            0 <= k < pts.len() ==> on_segment_line(
                (#[trigger] pts[k]).0,
                pts[k].1,
                pa,
                va,
                pb,
                vb,
            ),
    ensures
        path_work_num(pts) == trap_work_num(
            pts[0].0,
            pts[0].1,
            pts[pts.len() - 1].0,
            pts[pts.len() - 1].1,
        ),
    decreases pts.len(),
{
    if pts.len() == 1 {
        lemma_mul_by_zero_is_zero(pts[0].0 + pts[0].0);
        lemma_mul_by_zero_is_zero(crate::config::SCALE as int);
    } else {
        let n = pts.len();
        let prefix = pts.drop_last();
        assert(prefix.len() == n - 1);
        assert(prefix[0] == pts[0]);
        assert(prefix[prefix.len() - 1] == pts[n - 2]);
        assert(forall|k: int|
            0 <= k < prefix.len() ==> on_segment_line(
                (#[trigger] prefix[k]).0,
                prefix[k].1,
                pa,
                va,
                pb,
                vb,
            ));
        lemma_straight_path_work(prefix, pa, va, pb, vb);
        lemma_trap_additive_on_line(
            pts[0].0,
            pts[0].1,
            pts[n - 2].0,
            pts[n - 2].1,
            pts[n - 1].0,
            pts[n - 1].1,
            pa,
            va,
            pb,
            vb,
        );
    }
}

/// The work accumulator after committing the points of `pts` in order,
/// starting from `acc0`: exactly how a run of
/// [`StateStore::commit_move`](crate::state::StateStore::commit_move) calls
/// updates `work_num` when every point lies within the configured ranges (the
/// first point is the captured drag baseline; each later one is one committed
/// query).
pub open spec fn drag_acc_num(acc0: int, pts: Seq<(int, int)>) -> int
    decreases pts.len(),
{
    if pts.len() < 2 {
        acc0
    } else {
        clamp_int(
            drag_acc_num(acc0, pts.drop_last()) + trap_work_num(
                pts[pts.len() - 2].0,
                pts[pts.len() - 2].1,
                pts[pts.len() - 1].0,
                pts[pts.len() - 1].1,
            ),
            -WORK_LIMIT as int,
            WORK_LIMIT as int,
        )
    }
}

/// While no intermediate total reaches the saturation bound, the accumulator
/// gathers exactly the sum of the per-step trapezoids.
pub proof fn lemma_drag_work_no_saturation(acc0: int, pts: Seq<(int, int)>)
    requires
        -WORK_LIMIT as int <= acc0 <= WORK_LIMIT as int,
        forall|k: int|
            2 <= k <= pts.len() ==> -WORK_LIMIT as int <= acc0 + path_work_num(
                #[trigger] pts.subrange(0, k),
            ) <= WORK_LIMIT as int,
    ensures
        drag_acc_num(acc0, pts) == acc0 + path_work_num(pts),
    decreases pts.len(),
{
    if pts.len() >= 2 {
        let n = pts.len() as int;
        let prefix = pts.drop_last();
        assert forall|k: int|
            2 <= k <= prefix.len() implies -WORK_LIMIT as int <= acc0 + path_work_num(
            #[trigger] prefix.subrange(0, k),
        ) <= WORK_LIMIT as int by {
            assert(prefix.subrange(0, k) =~= pts.subrange(0, k));
        }
        lemma_drag_work_no_saturation(acc0, prefix);
        assert(pts.subrange(0, n) =~= pts);
        assert(-WORK_LIMIT as int <= acc0 + path_work_num(pts) <= WORK_LIMIT as int);
    }
}

/// A drag committed along the straight segment from its first point to its
/// last accumulates exactly the trapezoidal work of the one straight step
/// between the ends — however many sub-steps trace it, the finer path changes
/// nothing (saturation aside).
pub proof fn lemma_straight_drag_accumulates_endpoint_work(acc0: int, pts: Seq<(int, int)>)
    requires
        pts.len() >= 1,
        forall|k: int|
            0 <= k < pts.len() ==> on_segment_line(
                (#[trigger] pts[k]).0,
                pts[k].1,
                pts[0].0,
                pts[0].1,
                pts[pts.len() - 1].0,
                pts[pts.len() - 1].1,
            ),
        -WORK_LIMIT as int <= acc0 <= WORK_LIMIT as int,
        forall|k: int|
            2 <= k <= pts.len() ==> -WORK_LIMIT as int <= acc0 + path_work_num(
                #[trigger] pts.subrange(0, k),
            ) <= WORK_LIMIT as int,
    ensures
        drag_acc_num(acc0, pts) == acc0 + trap_work_num(
            pts[0].0,
            pts[0].1,
            pts[pts.len() - 1].0,
            pts[pts.len() - 1].1,
        ),
{
    lemma_drag_work_no_saturation(acc0, pts);
    lemma_straight_path_work(
        pts,
        pts[0].0,
        pts[0].1,
        pts[pts.len() - 1].0,
        pts[pts.len() - 1].1,
    );
}

} // verus!
