//! Field-of-view parameters and their validation.
//!
//! Angles are whole microradians and distances are whole thousandths of a
//! world unit, so every rule below is a statement about integers.

use vstd::prelude::*;

verus! {

/// Number of distance units in one world unit.
pub const DISTANCE_UNITS_PER_WORLD_UNIT: u32 = 1000;

/// Number of angle units (microradians) in one radian.
pub const ANGLE_UNITS_PER_RADIAN: u32 = 1_000_000;

/// The largest whole number of microradians below a half turn: a half-angle
/// lies strictly between zero and a half turn exactly when it is positive
/// and at most this.
pub const MAX_HALF_ANGLE: u32 = 3_141_592;

/// The largest sample count whose index buffer (three indices for each of
/// `sample_count - 1` triangles) still has a length that fits in 32 bits.
pub const MAX_SAMPLE_COUNT: u32 = 1_431_655_766;

/// The smallest sample count: a cone needs a left and a right edge.
pub const MIN_SAMPLE_COUNT: u32 = 2;

/// Half-angle of the stock cone: 1.2 rad.
pub const DEFAULT_HALF_ANGLE: u32 = 1_200_000;

/// View distance of the stock cone: 500 world units.
pub const DEFAULT_MAX_DISTANCE: u32 = 500_000;

/// Sample count of the stock cone.
pub const DEFAULT_SAMPLE_COUNT: u32 = 1000;

/// Clear intensity of the stock mask: 80% gray on an 8-bit channel.
pub const DEFAULT_CLEAR_INTENSITY: u8 = 204;

/// Why a set of parameters is refused.
#[derive(Clone, Copy, Debug, PartialEq, Eq)]
pub enum ConfigError {
    /// Fewer than two samples.
    SampleCountTooSmall,
    /// More samples than an index buffer can address.
    SampleCountTooLarge,
    /// The maximum view distance is zero.
    NonPositiveMaxDistance,
    /// The half-angle is zero, or a half turn or more.
    HalfAngleOutOfRange,
}

/// The first rule that the parameters break, if any. The sample count is
/// looked at first, then the view distance, then the half-angle.
pub open spec fn parameter_fault(half_angle: u32, max_distance: u32, sample_count: u32) -> Option<
    ConfigError,
> {
    if sample_count < MIN_SAMPLE_COUNT {
        Some(ConfigError::SampleCountTooSmall)
    } else if sample_count > MAX_SAMPLE_COUNT {
        Some(ConfigError::SampleCountTooLarge)
    } else if max_distance == 0 {
        Some(ConfigError::NonPositiveMaxDistance)
    } else if half_angle == 0 || half_angle > MAX_HALF_ANGLE {
        Some(ConfigError::HalfAngleOutOfRange)
    } else {
        None
    }
}

/// Parameters of the field of view, fixed once they are built.
#[derive(Clone, Copy, Debug, PartialEq, Eq)]
pub struct FovConfig {
    half_angle: u32,
    max_distance: u32,
    sample_count: u32,
    clear_intensity: u8,
}

impl FovConfig {
    /// Half-angle of the cone in microradians.
    pub closed spec fn spec_half_angle(&self) -> u32 {
        self.half_angle
    }

    /// Maximum view distance in distance units.
    pub closed spec fn spec_max_distance(&self) -> u32 {
        self.max_distance
    }

    /// Number of angular steps across the cone.
    pub closed spec fn spec_sample_count(&self) -> u32 {
        self.sample_count
    }

    /// Intensity of a mask pixel that the visibility polygon does not cover.
    pub closed spec fn spec_clear_intensity(&self) -> u8 {
        self.clear_intensity
    }

    /// The parameters break no rule.
    pub open spec fn valid(&self) -> bool {
        parameter_fault(self.spec_half_angle(), self.spec_max_distance(), self.spec_sample_count())
            is None
    }

    #[verifier::type_invariant]
    pub(crate) open spec fn inv(&self) -> bool {
        self.valid()
    }

    /// Checks the parameters and builds the configuration. It fails exactly
    /// when `parameter_fault` names a broken rule, and with that rule.
    pub fn new(half_angle: u32, max_distance: u32, sample_count: u32, clear_intensity: u8) -> (result:
        Result<FovConfig, ConfigError>)
        ensures
            match result {
                Ok(config) => {
                    &&& parameter_fault(half_angle, max_distance, sample_count) is None
                    &&& config.valid()
                    &&& config.spec_half_angle() == half_angle
                    &&& config.spec_max_distance() == max_distance
                    &&& config.spec_sample_count() == sample_count
                    &&& config.spec_clear_intensity() == clear_intensity
                },
                Err(error) => parameter_fault(half_angle, max_distance, sample_count) == Some(error),
            },
    {
        if sample_count < MIN_SAMPLE_COUNT {
            Err(ConfigError::SampleCountTooSmall)
        } else if sample_count > MAX_SAMPLE_COUNT {
            Err(ConfigError::SampleCountTooLarge)
        } else if max_distance == 0 {
            Err(ConfigError::NonPositiveMaxDistance)
        } else if half_angle == 0 || half_angle > MAX_HALF_ANGLE {
            Err(ConfigError::HalfAngleOutOfRange)
        } else {
            Ok(FovConfig { half_angle, max_distance, sample_count, clear_intensity })
        }
    }

    /// The stock cone: 1.2 rad to either side, 500 world units deep, 1000
    /// samples, cleared to 80% gray.
    pub fn standard() -> (config: FovConfig)
        ensures
            config.valid(),
            config.spec_half_angle() == DEFAULT_HALF_ANGLE,
            config.spec_max_distance() == DEFAULT_MAX_DISTANCE,
            config.spec_sample_count() == DEFAULT_SAMPLE_COUNT,
            config.spec_clear_intensity() == DEFAULT_CLEAR_INTENSITY,
    {
        FovConfig {
            half_angle: DEFAULT_HALF_ANGLE,
            max_distance: DEFAULT_MAX_DISTANCE,
            sample_count: DEFAULT_SAMPLE_COUNT,
            clear_intensity: DEFAULT_CLEAR_INTENSITY,
        }
    }

    /// Half-angle of the cone in microradians.
    #[verifier::when_used_as_spec(spec_half_angle)]
    pub fn half_angle(&self) -> (value: u32)
        ensures
            value == self.spec_half_angle(),
            self.valid(),
    {
        proof {
            use_type_invariant(self);
        }
        self.half_angle
    }

    /// Maximum view distance in distance units.
    #[verifier::when_used_as_spec(spec_max_distance)]
    pub fn max_distance(&self) -> (value: u32)
        ensures
            value == self.spec_max_distance(),
            self.valid(),
    {
        proof {
            use_type_invariant(self);
        }
        self.max_distance
    }

    /// Number of angular steps across the cone.
    #[verifier::when_used_as_spec(spec_sample_count)]
    pub fn sample_count(&self) -> (value: u32)
        ensures
            value == self.spec_sample_count(),
            self.valid(),
    {
        proof {
            use_type_invariant(self);
        }
        self.sample_count
    }

    /// Intensity of a mask pixel that the visibility polygon does not cover.
    #[verifier::when_used_as_spec(spec_clear_intensity)]
    pub fn clear_intensity(&self) -> (value: u8)
        ensures
            value == self.spec_clear_intensity(),
    {
        self.clear_intensity
    }

    /// Number of rays of one sweep, which is the number of rim points: one
    /// more than the sample count, so that both edges of the cone are cast.
    pub open spec fn spec_ray_count(&self) -> nat {
        (self.spec_sample_count() + 1) as nat
    }

    /// Number of rays of one sweep.
    pub fn ray_count(&self) -> (count: u32)
        ensures
            count == self.spec_ray_count(),
            self.valid(),
    {
        proof {
            use_type_invariant(self);
        }
        self.sample_count + 1
    }
}

} // verus!
