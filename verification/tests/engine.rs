//! Evaluation readouts: the concrete scenarios and the per-process formulas.

use ideal_gas::config::{Config, ConfigError, ENERGY_DEN};
use ideal_gas::engine::{EngineError, ProcessEngine, ProcessType};
use ideal_gas::rat::Rat;
use ideal_gas::state::{ProcessQuery, ThermodynamicState};

fn lab() -> (ProcessEngine, ThermodynamicState) {
    let cfg = Config::default();
    let engine = ProcessEngine::new(cfg).unwrap();
    let state = ThermodynamicState {
        pressure: 5_000_000,
        volume: 5_000_000,
        accumulated_work: Rat { num: 0, den: ENERGY_DEN },
    };
    (engine, state)
}

fn as_f64(r: Rat) -> f64 {
    r.num as f64 / r.den as f64
}

#[test]
fn default_config_is_valid() {
    assert_eq!(Config::default().validate(), Ok(()));
}

#[test]
fn config_error_empty_pressure_range() {
    let cfg = Config { p_min: 5, p_max: 5, ..Config::default() };
    assert_eq!(cfg.validate(), Err(ConfigError::EmptyPressureRange));
}

#[test]
fn config_error_empty_volume_range() {
    let cfg = Config { v_min: 7, v_max: 3, ..Config::default() };
    assert_eq!(cfg.validate(), Err(ConfigError::EmptyVolumeRange));
}

#[test]
fn config_error_zero_resolution() {
    let cfg = Config { resolution: 0, ..Config::default() };
    assert_eq!(cfg.validate(), Err(ConfigError::ZeroResolution));
}

#[test]
fn config_error_non_positive_gas_constant() {
    let cfg = Config { gas_constant: 0, ..Config::default() };
    assert_eq!(cfg.validate(), Err(ConfigError::NonPositiveGasConstant));
}

#[test]
fn config_error_non_positive_mole_count() {
    let cfg = Config { moles: -1, ..Config::default() };
    assert_eq!(cfg.validate(), Err(ConfigError::NonPositiveMoleCount));
}

#[test]
fn config_error_limit_exceeded() {
    let cfg = Config { p_max: 2_000_000_000_000, ..Config::default() };
    assert_eq!(cfg.validate(), Err(ConfigError::LimitExceeded));
    assert!(ProcessEngine::new(cfg).is_err());
}

#[test]
fn isobaric_scenario_exact() {
    // From (P=5, V=5) to (P=5, V=10): ΔU = 1.5·(50-25) = 37.5 J,
    // W = ((5+5)/2)·(10-5) = 25 J, Q = 62.5 J.
    let (engine, state) = lab();
    let query = ProcessQuery { pressure: 5_000_000, volume: 10_000_000 };
    let r = engine.evaluate(&state, query, ProcessType::Isobaric, 0).unwrap();
    assert_eq!(r.delta_u, Rat { num: 75_000_000_000_000_000_000, den: ENERGY_DEN });
    assert_eq!(r.work, Rat { num: 50_000_000_000_000_000_000, den: ENERGY_DEN });
    assert_eq!(r.heat, Rat { num: 125_000_000_000_000_000_000, den: ENERGY_DEN });
    assert!((as_f64(r.delta_u) - 37.5).abs() < 1e-12);
    assert!((as_f64(r.work) - 25.0).abs() < 1e-12);
    assert!((as_f64(r.heat) - 62.5).abs() < 1e-12);
}

#[test]
fn isothermal_scenario_exact() {
    // (10, 2.5) lies on the isotherm through (5, 5): ΔU = 0 and
    // W = Q = 25·ln 2 ≈ 17.33 J. The caller supplies ln(10/5) in micro-units.
    let (engine, state) = lab();
    let query = ProcessQuery { pressure: 2_500_000, volume: 10_000_000 };
    let ln2_micro = (2.0f64.ln() * 1_000_000.0).round() as i64;
    assert_eq!(ln2_micro, 693_147);
    let r = engine.evaluate(&state, query, ProcessType::Isothermal, ln2_micro).unwrap();
    assert_eq!(r.delta_u, Rat { num: 0, den: ENERGY_DEN });
    assert_eq!(r.work, Rat { num: 34_657_350_000_000_000_000, den: ENERGY_DEN });
    assert_eq!(r.heat, r.work);
    assert!((as_f64(r.work) - 25.0 * 2.0f64.ln()).abs() < 1e-5);
    assert!((as_f64(r.work) - 17.33).abs() < 0.005);
}

#[test]
fn adiabatic_exchanges_no_heat() {
    let (engine, state) = lab();
    let queries = [
        ProcessQuery { pressure: 1_000_000, volume: 9_000_000 },
        ProcessQuery { pressure: 8_000_000, volume: 2_000_000 },
        ProcessQuery { pressure: 0, volume: 0 },
    ];
    for query in queries {
        let r = engine.evaluate(&state, query, ProcessType::Adiabatic, 12345).unwrap();
        assert_eq!(r.heat.num, 0);
        assert_eq!(r.work.num, -r.delta_u.num);
    }
}

#[test]
fn null_move_is_free() {
    let (engine, state) = lab();
    let query = ProcessQuery { pressure: state.pressure, volume: state.volume };
    for process in [
        ProcessType::Isothermal,
        ProcessType::Adiabatic,
        ProcessType::Isobaric,
        ProcessType::Isochoric,
    ] {
        let r = engine.evaluate(&state, query, process, 0).unwrap();
        assert_eq!(r.delta_u.num, 0);
        assert_eq!(r.work.num, 0);
        assert_eq!(r.heat.num, 0);
    }
}

#[test]
fn isothermal_degenerate_volume_signals() {
    let (engine, mut state) = lab();
    let query = ProcessQuery { pressure: 5_000_000, volume: 0 };
    assert_eq!(
        engine.evaluate(&state, query, ProcessType::Isothermal, 0),
        Err(EngineError::DegenerateQuery)
    );
    // the adiabatic readout has no logarithm and stays defined
    assert!(engine.evaluate(&state, query, ProcessType::Adiabatic, 0).is_ok());
    state.volume = 0;
    let query = ProcessQuery { pressure: 5_000_000, volume: 5_000_000 };
    assert_eq!(
        engine.evaluate(&state, query, ProcessType::Isothermal, 0),
        Err(EngineError::DegenerateQuery)
    );
}

#[test]
fn temperature_and_internal_energy_exact() {
    // T = PV/(NR) = 25/8.314 K; U = (3/2)·N·PV = 37.5 J.
    let (engine, state) = lab();
    let t = engine.temperature(&state);
    assert_eq!(t.num, 25_000_000_000_000);
    assert_eq!(t.den, 8_314_000_000_000);
    assert!((as_f64(t) - 25.0 / 8.314).abs() < 1e-12);
    let u = engine.internal_energy(&state);
    assert_eq!(u, Rat { num: 75_000_000_000_000_000_000, den: ENERGY_DEN });
    assert!((as_f64(u) - 37.5).abs() < 1e-12);
}
