//! The sweep: which direction each ray of the cone takes.
//!
//! Ray `i` of a cone with half-angle `h` and `n` samples leaves the actor at
//! the angle `h - i * (2h / n)` from its forward direction, counter-clockwise
//! positive. The angle is kept as an exact fraction, so that no two rays can
//! fall together through rounding.

use vstd::prelude::*;
use crate::config::FovConfig;

verus! {

/// An angle in microradians as the exact fraction `numerator / denominator`,
/// measured from the actor's forward direction, counter-clockwise positive.
#[derive(Clone, Copy, Debug, PartialEq, Eq)]
pub struct SweepAngle {
    pub numerator: i64,
    pub denominator: u32,
}

impl SweepAngle {
    /// `self` is a smaller angle than `other`; both denominators are positive.
    pub open spec fn less_than(self, other: SweepAngle) -> bool {
        self.numerator * other.denominator < other.numerator * self.denominator
    }

    /// `self` and `other` are the same angle; both denominators are positive.
    pub open spec fn same_as(self, other: SweepAngle) -> bool {
        self.numerator * other.denominator == other.numerator * self.denominator
    }
}

/// Numerator, over the sample count, of the angular step between two
/// neighbouring rays: the cone's full opening divided into `sample_count`
/// steps.
pub open spec fn step_numerator(half_angle: int) -> int {
    2 * half_angle
}

/// Numerator, over the sample count, of the angle at which the sweep starts:
/// one step beyond the left edge, so that the first rotation by one step
/// lands on the edge itself.
pub open spec fn start_numerator(half_angle: int, sample_count: int) -> int {
    half_angle * sample_count + step_numerator(half_angle)
}

/// Numerator, over the sample count, of the angle of ray `ray`.
pub open spec fn sweep_numerator(half_angle: int, sample_count: int, ray: int) -> int {
    half_angle * (sample_count - 2 * ray)
}

/// The angle of ray `ray` of a cone with the given half-angle and sample
/// count.
pub open spec fn sweep_angle_of(half_angle: u32, sample_count: u32, ray: int) -> SweepAngle {
    SweepAngle {
        numerator: sweep_numerator(half_angle as int, sample_count as int, ray) as i64,
        denominator: sample_count,
    }
}

/// The products that a sweep computes stay far inside 64 bits.
pub proof fn lemma_sweep_numerator_bounds(half_angle: u32, sample_count: u32, ray: int)
    requires
        half_angle <= crate::config::MAX_HALF_ANGLE,
        sample_count <= crate::config::MAX_SAMPLE_COUNT,
        0 <= ray <= sample_count,
    ensures
        -4_500_000_000_000_000 <= sweep_numerator(half_angle as int, sample_count as int, ray)
            <= 4_500_000_000_000_000,
        sweep_angle_of(half_angle, sample_count, ray).numerator == sweep_numerator(
            half_angle as int,
            sample_count as int,
            ray,
        ),
{
    let h = half_angle as int;
    let span = sample_count as int - 2 * ray;
    assert(-1_431_655_766 <= span <= 1_431_655_766);
    assert(-4_500_000_000_000_000 <= h * span <= 4_500_000_000_000_000) by (nonlinear_arith)
        requires
            0 <= h <= 3_141_592,
            -1_431_655_766 <= span <= 1_431_655_766,
    ;
}

/// Computes the angle of one ray from bare parameters.
pub(crate) fn ray_angle(half_angle: u32, sample_count: u32, ray: u32) -> (angle: SweepAngle)
    requires
        half_angle <= crate::config::MAX_HALF_ANGLE,
        sample_count <= crate::config::MAX_SAMPLE_COUNT,
        ray <= sample_count,
    ensures
        angle == sweep_angle_of(half_angle, sample_count, ray as int),
{
    proof {
        lemma_sweep_numerator_bounds(half_angle, sample_count, ray as int);
    }
    let span: i64 = sample_count as i64 - 2 * (ray as i64);
    SweepAngle { numerator: (half_angle as i64) * span, denominator: sample_count }
}

impl FovConfig {
    /// The angle of ray `ray` of this cone.
    pub open spec fn spec_sweep_angle(&self, ray: int) -> SweepAngle {
        sweep_angle_of(self.spec_half_angle(), self.spec_sample_count(), ray)
    }

    /// The angle of ray `ray`, for each of the rays `0 ..= sample_count`;
    /// `None` for any other number.
    pub fn sweep_angle(&self, ray: u32) -> (angle: Option<SweepAngle>)
        ensures
            self.valid(),
            ray <= self.spec_sample_count() ==> angle == Some(self.spec_sweep_angle(ray as int)),
            ray > self.spec_sample_count() ==> angle is None,
    {
        let half_angle = self.half_angle();
        let sample_count = self.sample_count();
        if ray > sample_count {
            None
        } else {
            Some(ray_angle(half_angle, sample_count, ray))
        }
    }

    /// The angles of all rays of one sweep, in the order in which they are
    /// cast.
    pub fn sweep_angles(&self) -> (angles: Vec<SweepAngle>)
        ensures
            self.valid(),
            angles@ == Seq::new(self.spec_ray_count(), |ray: int| self.spec_sweep_angle(ray)),
    {
        let half_angle = self.half_angle();
        let sample_count = self.sample_count();
        let mut angles: Vec<SweepAngle> = Vec::new();
        let mut ray: u32 = 0;
        while ray <= sample_count
            invariant
                self.valid(),
                half_angle == self.spec_half_angle(),
                sample_count == self.spec_sample_count(),
                ray <= sample_count + 1,
                angles@ == Seq::new(ray as nat, |k: int| self.spec_sweep_angle(k)),
            decreases sample_count + 1 - ray,
        {
            angles.push(ray_angle(half_angle, sample_count, ray));
            ray = ray + 1;
        }
        angles
    }
}

/// The sweep starts one step beyond the left edge and turns clockwise by one
/// step before each ray: ray `ray` is cast after `ray + 1` steps.
pub proof fn lemma_sweep_overshoot(config: FovConfig, ray: int)
    requires
        config.valid(),
        0 <= ray <= config.spec_sample_count(),
    ensures
        config.spec_sweep_angle(ray).denominator == config.spec_sample_count(),
        config.spec_sweep_angle(ray).numerator == start_numerator(
            config.spec_half_angle() as int,
            config.spec_sample_count() as int,
        ) - (ray + 1) * step_numerator(config.spec_half_angle() as int),
{
    let h = config.spec_half_angle() as int;
    let n = config.spec_sample_count() as int;
    lemma_sweep_numerator_bounds(config.spec_half_angle(), config.spec_sample_count(), ray);
    assert(h * (n - 2 * ray) == h * n + 2 * h - (ray + 1) * (2 * h)) by (nonlinear_arith);
}

/// The first ray runs along the left edge of the cone, at `+half_angle`, and
/// the last one along the right edge, at `-half_angle`.
pub proof fn lemma_sweep_spans_cone(config: FovConfig)
    requires
        config.valid(),
    ensures
        config.spec_sweep_angle(0).numerator == config.spec_half_angle()
            * config.spec_sample_count(),
        config.spec_sweep_angle(config.spec_sample_count() as int).numerator == -(
        config.spec_half_angle() * config.spec_sample_count()),
        config.spec_sweep_angle(0).denominator == config.spec_sample_count(),
        config.spec_sweep_angle(config.spec_sample_count() as int).denominator
            == config.spec_sample_count(),
{
    let h = config.spec_half_angle() as int;
    let n = config.spec_sample_count() as int;
    lemma_sweep_numerator_bounds(config.spec_half_angle(), config.spec_sample_count(), 0);
    lemma_sweep_numerator_bounds(config.spec_half_angle(), config.spec_sample_count(), n);
    assert(h * (n - 2 * 0) == h * n);
    assert(h * (n - 2 * n) == -(h * n)) by (nonlinear_arith);
}

/// Monotonic sweep: of two rays of one cone, the later one has the strictly
/// smaller angle. So the angles fall strictly along the whole rim and no two
/// rim points share one.
pub proof fn lemma_sweep_strictly_decreasing(config: FovConfig, earlier: int, later: int)
    requires
        config.valid(),
        0 <= earlier < later <= config.spec_sample_count(),
    ensures
        config.spec_sweep_angle(later).less_than(config.spec_sweep_angle(earlier)),
        config.spec_sweep_angle(later).numerator < config.spec_sweep_angle(earlier).numerator,
        !config.spec_sweep_angle(later).same_as(config.spec_sweep_angle(earlier)),
{
    let h = config.spec_half_angle() as int;
    let n = config.spec_sample_count() as int;
    lemma_sweep_numerator_bounds(config.spec_half_angle(), config.spec_sample_count(), earlier);
    lemma_sweep_numerator_bounds(config.spec_half_angle(), config.spec_sample_count(), later);
    let a = h * (n - 2 * earlier);
    let b = h * (n - 2 * later);
    assert(b < a) by (nonlinear_arith)
        requires
            h > 0,
            earlier < later,
            a == h * (n - 2 * earlier),
            b == h * (n - 2 * later),
    ;
    assert(b * n < a * n) by (nonlinear_arith)
        requires
            b < a,
            n > 0,
    ;
}

/// Neighbouring rays lie exactly one step apart, a step is less than a half
/// turn, and the whole sweep is less than a full turn. So each triangle of
/// the fan has a positive opening of less than a half turn, and the fan does
/// not wrap around the actor onto itself.
pub proof fn lemma_sweep_step(config: FovConfig, ray: int)
    requires
        config.valid(),
        0 <= ray < config.spec_sample_count(),
    ensures
        config.spec_sweep_angle(ray).numerator - config.spec_sweep_angle(ray + 1).numerator
            == step_numerator(config.spec_half_angle() as int),
        0 < step_numerator(config.spec_half_angle() as int) <= config.spec_sample_count()
            * crate::config::MAX_HALF_ANGLE,
        config.spec_sweep_angle(0).numerator - config.spec_sweep_angle(
            config.spec_sample_count() as int,
        ).numerator == config.spec_sample_count() * step_numerator(config.spec_half_angle() as int),
        config.spec_sample_count() * step_numerator(config.spec_half_angle() as int)
            <= config.spec_sample_count() * (2 * crate::config::MAX_HALF_ANGLE),
{
    let h = config.spec_half_angle() as int;
    let n = config.spec_sample_count() as int;
    lemma_sweep_numerator_bounds(config.spec_half_angle(), config.spec_sample_count(), ray);
    lemma_sweep_numerator_bounds(config.spec_half_angle(), config.spec_sample_count(), ray + 1);
    lemma_sweep_numerator_bounds(config.spec_half_angle(), config.spec_sample_count(), 0);
    lemma_sweep_numerator_bounds(config.spec_half_angle(), config.spec_sample_count(), n);
    assert(h * (n - 2 * ray) - h * (n - 2 * (ray + 1)) == 2 * h) by (nonlinear_arith);
    assert(2 * h <= n * 3_141_592) by (nonlinear_arith)
        requires
            0 < h <= 3_141_592,
            n >= 2,
    ;
    assert(h * (n - 2 * 0) - h * (n - 2 * n) == n * (2 * h)) by (nonlinear_arith);
    assert(n * (2 * h) <= n * (2 * 3_141_592)) by (nonlinear_arith)
        requires
            0 < h <= 3_141_592,
            n >= 2,
    ;
}

/// The sweep is symmetric about the forward direction: ray `ray` and ray
/// `sample_count - ray` have opposite angles.
pub proof fn lemma_sweep_symmetric(config: FovConfig, ray: int)
    requires
        config.valid(),
        0 <= ray <= config.spec_sample_count(),
    ensures
        config.spec_sweep_angle(config.spec_sample_count() - ray).numerator == -config.spec_sweep_angle(
            ray,
        ).numerator,
{
    let h = config.spec_half_angle() as int;
    let n = config.spec_sample_count() as int;
    lemma_sweep_numerator_bounds(config.spec_half_angle(), config.spec_sample_count(), ray);
    lemma_sweep_numerator_bounds(config.spec_half_angle(), config.spec_sample_count(), n - ray);
    assert(h * (n - 2 * (n - ray)) == -(h * (n - 2 * ray))) by (nonlinear_arith);
}

/// With an even sample count the middle ray points exactly forward.
pub proof fn lemma_middle_ray_points_forward(config: FovConfig)
    requires
        config.valid(),
        config.spec_sample_count() % 2 == 0,
    ensures
        config.spec_sweep_angle(config.spec_sample_count() as int / 2).numerator == 0,
{
    let h = config.spec_half_angle() as int;
    let n = config.spec_sample_count() as int;
    lemma_sweep_numerator_bounds(config.spec_half_angle(), config.spec_sample_count(), n / 2);
    assert(n - 2 * (n / 2) == 0);
    assert(h * 0 == 0);
}

} // verus!
