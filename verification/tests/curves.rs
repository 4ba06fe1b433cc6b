//! Curve generation: sampling and the conserved quantity of each curve.

use ideal_gas::config::{Config, ENERGY_DEN};
use ideal_gas::curve::ProcessCurve;
use ideal_gas::engine::{ProcessEngine, ProcessType};
use ideal_gas::rat::Rat;
use ideal_gas::state::ThermodynamicState;

fn lab_state() -> (ProcessEngine, ThermodynamicState) {
    let engine = ProcessEngine::new(Config::default()).unwrap();
    let state = ThermodynamicState {
        pressure: 5_000_000,
        volume: 5_000_000,
        accumulated_work: Rat { num: 0, den: ENERGY_DEN },
    };
    (engine, state)
}

fn as_f64(r: Rat) -> f64 {
    r.num as f64 / r.den as f64
}

#[test]
fn isothermal_curve_conserves_pv() {
    let (engine, state) = lab_state();
    let curve = engine.generate_curve(&state, ProcessType::Isothermal);
    let pts = match curve {
        ProcessCurve::Isothermal(pts) => pts,
        _ => panic!("wrong curve variant"),
    };
    // the v = 0 sample is skipped, the other 999 stay
    assert_eq!(pts.len(), 999);
    for pt in &pts {
        assert!(pt.volume.num > 0);
        let product = as_f64(pt.volume) * as_f64(pt.pressure);
        assert!((product - 25.0).abs() < 1e-9);
    }
    // first kept sample: v = 0.01 m³, p = 2500 Pa
    assert_eq!(pts[0].volume, Rat { num: 10_000_000, den: 1_000_000_000 });
    assert!((as_f64(pts[0].pressure) - 2500.0).abs() < 1e-9);
}

#[test]
fn adiabatic_curve_conserves_p_v_gamma() {
    let (engine, state) = lab_state();
    let curve = engine.generate_curve(&state, ProcessType::Adiabatic);
    let pts = match curve {
        ProcessCurve::Adiabatic(pts) => pts,
        _ => panic!("wrong curve variant"),
    };
    assert_eq!(pts.len(), 999);
    let gamma: f64 = 5.0 / 3.0;
    let p0: f64 = 5.0;
    let v0: f64 = 5.0;
    for pt in &pts {
        // the carried ratio is exactly V0 / v (cross-multiplied integers)
        assert_eq!(
            pt.vol_ratio.num * pt.volume.num * 1_000_000,
            5_000_000 * pt.vol_ratio.den * pt.volume.den
        );
        // the reconstructed pressure keeps p·v^γ constant
        let v = as_f64(pt.volume);
        let p = p0 * as_f64(pt.vol_ratio).powf(gamma);
        let conserved = p * v.powf(gamma);
        assert!((conserved - p0 * v0.powf(gamma)).abs() < 1e-6 * p0 * v0.powf(gamma));
    }
}

#[test]
fn isobaric_curve_holds_pressure() {
    let (engine, state) = lab_state();
    let curve = engine.generate_curve(&state, ProcessType::Isobaric);
    let pts = match curve {
        ProcessCurve::Isobaric(pts) => pts,
        _ => panic!("wrong curve variant"),
    };
    assert_eq!(pts.len(), 1000);
    for (i, pt) in pts.iter().enumerate() {
        assert_eq!(pt.pressure, Rat { num: 5_000_000, den: 1_000_000 });
        // linear sampling from v_min towards v_max
        assert_eq!(pt.volume, Rat { num: i as i128 * 10_000_000, den: 1_000_000_000 });
    }
}

#[test]
fn isochoric_curve_holds_volume() {
    let (engine, state) = lab_state();
    let curve = engine.generate_curve(&state, ProcessType::Isochoric);
    let pts = match curve {
        ProcessCurve::Isochoric(pts) => pts,
        _ => panic!("wrong curve variant"),
    };
    assert_eq!(pts.len(), 1000);
    for (i, pt) in pts.iter().enumerate() {
        assert_eq!(pt.volume, Rat { num: 5_000_000, den: 1_000_000 });
        assert_eq!(pt.pressure, Rat { num: i as i128 * 10_000_000, den: 1_000_000_000 });
    }
}

#[test]
fn hyperbolic_curves_skip_non_positive_volumes() {
    let cfg = Config {
        v_min: -2_000_000,
        v_max: 8_000_000,
        resolution: 10,
        ..Config::default()
    };
    let engine = ProcessEngine::new(cfg).unwrap();
    let state = ThermodynamicState {
        pressure: 5_000_000,
        volume: 5_000_000,
        accumulated_work: Rat { num: 0, den: ENERGY_DEN },
    };
    // samples are v = -2, -1, 0, 1, ..., 7: only the seven positive ones stay
    match engine.generate_curve(&state, ProcessType::Isothermal) {
        ProcessCurve::Isothermal(pts) => {
            assert_eq!(pts.len(), 7);
            assert!((as_f64(pts[0].volume) - 1.0).abs() < 1e-12);
            assert!((as_f64(pts[6].volume) - 7.0).abs() < 1e-12);
        },
        _ => panic!("wrong curve variant"),
    }
    match engine.generate_curve(&state, ProcessType::Adiabatic) {
        ProcessCurve::Adiabatic(pts) => assert_eq!(pts.len(), 7),
        _ => panic!("wrong curve variant"),
    }
    // the isobar keeps every sample, non-positive volumes included
    match engine.generate_curve(&state, ProcessType::Isobaric) {
        ProcessCurve::Isobaric(pts) => assert_eq!(pts.len(), 10),
        _ => panic!("wrong curve variant"),
    }
}
