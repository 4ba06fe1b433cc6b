//! An exact engine for exploring ideal-gas processes on the pressure–volume plane.
//!
//! Pressure and volume are carried as fixed-point integers (micro-units, see
//! [`config::SCALE`]); derived energies are exact rational numbers. The two
//! transcendental quantities of the domain — the natural logarithm in the
//! isothermal work integral and the γ-power shaping the adiabatic curve — are
//! irrational, so the engine takes the logarithm as an input and hands the
//! adiabat back in ratio form; everything else is computed and proved exactly.

pub mod config;
pub mod curve;
pub mod engine;
pub mod laws;
pub mod rat;
pub mod state;
