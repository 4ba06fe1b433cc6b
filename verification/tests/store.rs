//! The state store: clamped mutation and exact work accumulation.

use ideal_gas::config::{Config, ENERGY_DEN};
use ideal_gas::state::{ProcessQuery, StateStore, ThermodynamicState};

fn mid() -> ProcessQuery {
    ProcessQuery { pressure: 5_000_000, volume: 5_000_000 }
}

#[test]
fn new_clamps_initial_point() {
    let store = StateStore::new(
        Config::default(),
        ProcessQuery { pressure: 99_000_000, volume: -5 },
    )
    .unwrap();
    assert_eq!(store.pressure, 10_000_000);
    assert_eq!(store.volume, 0);
    assert_eq!(store.work_num, 0);
}

#[test]
fn new_rejects_degenerate_config() {
    let cfg = Config { v_min: 1, v_max: 1, ..Config::default() };
    assert!(StateStore::new(cfg, mid()).is_err());
}

#[test]
fn current_is_idempotent() {
    let store = StateStore::new(Config::default(), mid()).unwrap();
    let first = store.current();
    let second = store.current();
    assert_eq!(first, second);
    assert_eq!(
        first,
        ThermodynamicState {
            pressure: 5_000_000,
            volume: 5_000_000,
            accumulated_work: ideal_gas::rat::Rat { num: 0, den: ENERGY_DEN },
        }
    );
}

#[test]
fn commit_move_updates_state_and_work() {
    // Dragging from (5, 5) to (5, 10) at constant pressure does
    // ((5+5)/2)·(10-5) = 25 J of work.
    let mut store = StateStore::new(Config::default(), mid()).unwrap();
    let mut handle = store.begin_drag();
    assert_eq!(handle.pressure0, 5_000_000);
    assert_eq!(handle.volume0, 5_000_000);
    store.commit_move(&mut handle, ProcessQuery { pressure: 5_000_000, volume: 10_000_000 });
    assert_eq!(store.pressure, 5_000_000);
    assert_eq!(store.volume, 10_000_000);
    assert_eq!(store.work_num, 50_000_000_000_000_000_000);
    assert_eq!(store.current().accumulated_work.den, ENERGY_DEN);
    // the baseline advanced to the new state
    assert_eq!(handle.pressure0, 5_000_000);
    assert_eq!(handle.volume0, 10_000_000);
}

#[test]
fn commit_move_clamps_out_of_range_queries() {
    let mut store = StateStore::new(Config::default(), mid()).unwrap();
    let mut handle = store.begin_drag();
    store.commit_move(&mut handle, ProcessQuery { pressure: 99_000_000, volume: 44_000_000 });
    assert_eq!(store.pressure, 10_000_000);
    assert_eq!(store.volume, 10_000_000);
    store.commit_move(&mut handle, ProcessQuery { pressure: -1, volume: -7 });
    assert_eq!(store.pressure, 0);
    assert_eq!(store.volume, 0);
}

#[test]
fn straight_path_work_is_exact() {
    // A drag from (5, 5) to (9, 9) in four equal sub-steps accumulates exactly
    // the straight-path trapezoid ((5+9)/2)·(9-5) = 28 J: the per-step sums
    // telescope, whatever the number of sub-steps.
    let mut store = StateStore::new(Config::default(), mid()).unwrap();
    let mut handle = store.begin_drag();
    for step in 1..=4i64 {
        let coord = 5_000_000 + step * 1_000_000;
        store.commit_move(&mut handle, ProcessQuery { pressure: coord, volume: coord });
    }
    assert_eq!(store.work_num, 56_000_000_000_000_000_000);
    let exact = store.work_num as f64 / ENERGY_DEN as f64;
    assert!((exact - 28.0).abs() < 1e-12);

    // one single step does the same work
    let mut single = StateStore::new(Config::default(), mid()).unwrap();
    let mut h2 = single.begin_drag();
    single.commit_move(&mut h2, ProcessQuery { pressure: 9_000_000, volume: 9_000_000 });
    assert_eq!(single.work_num, store.work_num);
}

#[test]
fn subdivided_drag_converges_to_closed_form() {
    // A drag from (P=5, V=5) to (P=7, V=8) in one thousand sub-steps, each
    // rounded to the micro grid, accumulates work within rounding error of the
    // closed-form straight-path integral ((5+7)/2)·(8-5) = 18 J.
    let mut store = StateStore::new(Config::default(), mid()).unwrap();
    let mut handle = store.begin_drag();
    let steps = 1000i64;
    for k in 1..=steps {
        let t = k as f64 / steps as f64;
        let p = 5.0 + 2.0 * t;
        let v = 5.0 + 3.0 * t;
        store.commit_move(&mut handle, ProcessQuery {
            pressure: (p * 1_000_000.0).round() as i64,
            volume: (v * 1_000_000.0).round() as i64,
        });
    }
    let work = store.work_num as f64 / ENERGY_DEN as f64;
    assert!((work - 18.0).abs() < 1e-3);
}

#[test]
fn reset_adopts_passed_work() {
    // the jump gesture hands in the work already evaluated for the hovered
    // curve; the store adopts it in place of its own total
    let mut store = StateStore::new(Config::default(), mid()).unwrap();
    let mut handle = store.begin_drag();
    store.commit_move(&mut handle, ProcessQuery { pressure: 5_000_000, volume: 10_000_000 });
    assert_ne!(store.work_num, 123);
    store.reset_to(ThermodynamicState {
        pressure: 2_000_000,
        volume: 77_000_000,
        accumulated_work: ideal_gas::rat::Rat { num: 123, den: ENERGY_DEN },
    });
    assert_eq!(store.pressure, 2_000_000);
    assert_eq!(store.volume, 10_000_000); // clamped to v_max
    assert_eq!(store.work_num, 123);
}

#[test]
fn reset_saturates_passed_work() {
    let mut store = StateStore::new(Config::default(), mid()).unwrap();
    let huge: i128 = 150_000_000_000_000_000_000_000_000_000_000_000_000;
    store.reset_to(ThermodynamicState {
        pressure: 5_000_000,
        volume: 5_000_000,
        accumulated_work: ideal_gas::rat::Rat { num: huge, den: ENERGY_DEN },
    });
    assert_eq!(store.work_num, 100_000_000_000_000_000_000_000_000_000_000_000_000);
    store.reset_to(ThermodynamicState {
        pressure: 5_000_000,
        volume: 5_000_000,
        accumulated_work: ideal_gas::rat::Rat { num: -huge, den: ENERGY_DEN },
    });
    assert_eq!(store.work_num, -100_000_000_000_000_000_000_000_000_000_000_000_000);
}

#[test]
fn work_is_exact_at_the_range_caps() {
    let cfg = Config {
        p_min: -1_000_000_000_000,
        p_max: 1_000_000_000_000,
        v_min: -1_000_000_000_000,
        v_max: 1_000_000_000_000,
        ..Config::default()
    };
    let mut store = StateStore::new(
        cfg,
        ProcessQuery { pressure: 1_000_000_000_000, volume: -1_000_000_000_000 },
    )
    .unwrap();
    let mut handle = store.begin_drag();
    store.commit_move(
        &mut handle,
        ProcessQuery { pressure: 1_000_000_000_000, volume: 1_000_000_000_000 },
    );
    // ((10^6 + 10^6)/2)·(10^6 - (-10^6)) = 2·10^12 J, exactly representable
    assert_eq!(store.work_num, 4_000_000_000_000_000_000_000_000_000_000);
    let as_joules = store.work_num as f64 / ENERGY_DEN as f64;
    assert!((as_joules - 2.0e12).abs() < 1e-3);
}
