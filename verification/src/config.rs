//! Host-supplied configuration: axis ranges, sampling resolution and gas
//! properties, validated once at construction.

use vstd::prelude::*;

verus! {

/// Fixed-point scale: coordinates, the gas constant, the mole count and the
/// logarithm input are integers counting millionths of their unit.
pub const SCALE: i64 = 1_000_000;

/// Largest magnitude accepted for a coordinate or gas property, in micro-units
/// (one million in natural units). A cap this size keeps every product the
/// engine forms inside `i128`.
pub const COORD_LIMIT: i64 = 1_000_000_000_000;

/// Largest accepted curve sampling resolution.
pub const MAX_RESOLUTION: u32 = 1_000_000;

/// Denominator of every energy the engine produces: joules are counted in
/// halves of `SCALE^3`, which makes the heat-capacity halving and all three
/// fixed-point scale factors exact.
pub const ENERGY_DEN: i128 = 2_000_000_000_000_000_000;

/// Saturation bound for the running work accumulator (numerator over
/// [`ENERGY_DEN`]); far beyond any physical gesture, yet small enough that one
/// more increment cannot overflow `i128`.
pub const WORK_LIMIT: i128 = 100_000_000_000_000_000_000_000_000_000_000_000_000;

/// Engine configuration. Coordinates are micro-units ([`SCALE`]); the heat
/// capacities of the monatomic ideal gas are derived from it:
/// `Cv = (3/2)·R·N`, `Cp = (5/2)·R·N`, so `γ = Cp/Cv = 5/3`.
#[derive(Clone, Copy, Debug, PartialEq, Eq, Structural)]
pub struct Config {
    /// Lower bound of the pressure axis, micro-Pa.
    pub p_min: i64,
    /// Upper bound of the pressure axis, micro-Pa.
    pub p_max: i64,
    /// Lower bound of the volume axis, micro-m³.
    pub v_min: i64,
    /// Upper bound of the volume axis, micro-m³.
    pub v_max: i64,
    /// Number of samples per generated curve.
    pub resolution: u32,
    /// Gas constant R, micro-J/(mol·K).
    pub gas_constant: i64,
    /// Mole count N, micro-mol.
    pub moles: i64,
}

/// A degenerate configuration, rejected at construction time.
#[derive(Clone, Copy, Debug, PartialEq, Eq, Structural)]
pub enum ConfigError {
    /// `p_min >= p_max`.
    EmptyPressureRange,
    /// `v_min >= v_max`.
    EmptyVolumeRange,
    /// `resolution == 0`.
    ZeroResolution,
    /// `gas_constant <= 0`.
    NonPositiveGasConstant,
    /// `moles <= 0`.
    NonPositiveMoleCount,
    /// A magnitude cap ([`COORD_LIMIT`], [`MAX_RESOLUTION`]) is exceeded.
    LimitExceeded,
}

impl Config {
    /// Every field is inside the fixed-point caps.
    pub open spec fn within_limits(self) -> bool {
        &&& -COORD_LIMIT <= self.p_min && self.p_max <= COORD_LIMIT
        &&& -COORD_LIMIT <= self.v_min && self.v_max <= COORD_LIMIT
        &&& self.resolution <= MAX_RESOLUTION
        &&& self.gas_constant <= COORD_LIMIT
        &&& self.moles <= COORD_LIMIT
    }

    /// A configuration the engine accepts: ordered non-empty ranges, positive
    /// resolution and gas properties, everything inside the caps.
    pub open spec fn valid(self) -> bool {
        &&& self.p_min < self.p_max
        &&& self.v_min < self.v_max
        &&& self.resolution > 0
        &&& self.gas_constant > 0
        &&& self.moles > 0
        &&& self.within_limits()
    }

    /// The first violated construction-time rule, if any.
    pub open spec fn error_of(self) -> Option<ConfigError> {
        if self.p_min >= self.p_max {
            Some(ConfigError::EmptyPressureRange)
        } else if self.v_min >= self.v_max {
            Some(ConfigError::EmptyVolumeRange)
        } else if self.resolution == 0 {
            Some(ConfigError::ZeroResolution)
        } else if self.gas_constant <= 0 {
            Some(ConfigError::NonPositiveGasConstant)
        } else if self.moles <= 0 {
            Some(ConfigError::NonPositiveMoleCount)
        } else if !self.within_limits() {
            Some(ConfigError::LimitExceeded)
        } else {
            None
        }
    }

    /// Checks the construction-time rules, reporting the first violation.
    pub fn validate(&self) -> (r: Result<(), ConfigError>)
        ensures
            r is Ok <==> self.error_of() is None,
            r is Ok <==> self.valid(),
            r is Err ==> r->Err_0 == self.error_of()->0,
    {
        if self.p_min >= self.p_max {
            Err(ConfigError::EmptyPressureRange)
        } else if self.v_min >= self.v_max {
            Err(ConfigError::EmptyVolumeRange)
        } else if self.resolution == 0 {
            Err(ConfigError::ZeroResolution)
        } else if self.gas_constant <= 0 {
            Err(ConfigError::NonPositiveGasConstant)
        } else if self.moles <= 0 {
            Err(ConfigError::NonPositiveMoleCount)
        } else if !(-COORD_LIMIT <= self.p_min && self.p_max <= COORD_LIMIT
            && -COORD_LIMIT <= self.v_min && self.v_max <= COORD_LIMIT
            && self.resolution <= MAX_RESOLUTION
            && self.gas_constant <= COORD_LIMIT
            && self.moles <= COORD_LIMIT) {
            Err(ConfigError::LimitExceeded)
        } else {
            Ok(())
        }
    }
}

impl Default for Config {
    /// The stock monatomic-gas laboratory: both axes span 0..10 natural units,
    /// one thousand samples per curve, R = 8.314 J/(mol·K), N = 1 mol.
    fn default() -> (r: Config)
        ensures
            r == (Config {
                p_min: 0,
                p_max: 10_000_000,
                v_min: 0,
                v_max: 10_000_000,
                resolution: 1000,
                gas_constant: 8_314_000,
                moles: 1_000_000,
            }),
            r.valid(),
    {
        Config {
            p_min: 0,
            p_max: 10_000_000,
            v_min: 0,
            v_max: 10_000_000,
            resolution: 1000,
            gas_constant: 8_314_000,
            moles: 1_000_000,
        }
    }
}

} // verus!
