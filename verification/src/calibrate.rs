//! The calibration calculator.
//!
//! A pure mapping from the accumulated motion and the user-entered
//! measurements to the derived metrics. Every metric is computed
//! independently and exactly; an input that is missing, or a divisor that is
//! zero, makes exactly the metrics that depend on it `Missing` and leaves the
//! others untouched. Nothing here panics or clamps.

use vstd::prelude::*;
use crate::scalar::{Rat, Scalar, s_abs, s_div, s_mul};

verus! {

/// Thousandths of a device count: the fixed-point unit of the motion sums.
pub const MOTION_SCALE: i64 = 1000;

/// Centimetres per inch, as an exact ratio.
pub open spec fn cm_per_inch() -> Rat {
    Rat { num: 254, den: 100 }
}

/// The user-entered calibration measurements. Any of them may be missing;
/// the unit flag says whether the physical distance was entered in inches.
#[derive(Clone, Copy, PartialEq, Eq, Structural, Debug)]
pub struct CalibrationInputs {
    pub configured_dpi: Scalar,
    pub current_sensitivity: Scalar,
    pub revolutions: Scalar,
    pub target_rpi: Scalar,
    pub distance_moved: Scalar,
    pub distance_is_inch: bool,
}

impl CalibrationInputs {
    pub open spec fn wf(self) -> bool {
        &&& self.configured_dpi.wf()
        &&& self.current_sensitivity.wf()
        &&& self.revolutions.wf()
        &&& self.target_rpi.wf()
        &&& self.distance_moved.wf()
    }

    /// Until the user enters them, every measurement is missing and the
    /// distance unit is centimetres.
    pub fn new() -> (r: CalibrationInputs)
        ensures
            r == (CalibrationInputs {
                configured_dpi: Scalar::Missing,
                current_sensitivity: Scalar::Missing,
                revolutions: Scalar::Missing,
                target_rpi: Scalar::Missing,
                distance_moved: Scalar::Missing,
                distance_is_inch: false,
            }),
            r.wf(),
    {
        CalibrationInputs {
            configured_dpi: Scalar::Missing,
            current_sensitivity: Scalar::Missing,
            revolutions: Scalar::Missing,
            target_rpi: Scalar::Missing,
            distance_moved: Scalar::Missing,
            distance_is_inch: false,
        }
    }
}

/// The derived metrics, recomputed fresh from the current state every time;
/// nothing is cached or persisted.
#[derive(Clone, Copy, PartialEq, Eq, Structural, Debug)]
pub struct CalibrationOutputs {
    pub physical_distance_cm: Scalar,
    pub inch_equivalent: Scalar,
    pub current_rpi: Scalar,
    pub revolutions_per_dot: Scalar,
    pub revolutions_per_dot_unit_sens: Scalar,
    pub adjusted_sensitivity: Scalar,
    pub sensitivity_adjustment_ratio: Scalar,
    pub computed_dpi: Scalar,
}

impl CalibrationOutputs {
    pub open spec fn wf(self) -> bool {
        &&& self.physical_distance_cm.wf()
        &&& self.inch_equivalent.wf()
        &&& self.current_rpi.wf()
        &&& self.revolutions_per_dot.wf()
        &&& self.revolutions_per_dot_unit_sens.wf()
        &&& self.adjusted_sensitivity.wf()
        &&& self.sensitivity_adjustment_ratio.wf()
        &&& self.computed_dpi.wf()
    }
}

/// A motion sum in fixed-point thousandths, as a scalar in whole counts.
pub open spec fn spec_motion_scalar(c: int) -> Scalar {
    Scalar::Val(Rat { num: c as i64, den: MOTION_SCALE })
}

/// The entered distance normalised to centimetres.
pub open spec fn spec_physical_distance_cm(d: Scalar, is_inch: bool) -> Scalar {
    if is_inch {
        s_mul(d, Scalar::Val(cm_per_inch()))
    } else {
        d
    }
}

/// The entered distance normalised to inches.
pub open spec fn spec_distance_inches(d: Scalar, is_inch: bool) -> Scalar {
    if is_inch {
        d
    } else {
        s_div(d, Scalar::Val(cm_per_inch()))
    }
}

/// Horizontal motion expressed in inches: counts over configured DPI.
pub open spec fn spec_inch_equivalent(x: Scalar, dpi: Scalar) -> Scalar {
    s_div(x, dpi)
}

/// Revolutions per inch of travel.
pub open spec fn spec_current_rpi(rev: Scalar, x: Scalar, dpi: Scalar) -> Scalar {
    s_abs(s_div(rev, spec_inch_equivalent(x, dpi)))
}

/// Revolutions per raw count.
pub open spec fn spec_revolutions_per_dot(rev: Scalar, x: Scalar) -> Scalar {
    s_abs(s_div(rev, x))
}

/// Revolutions per raw count at unit sensitivity.
pub open spec fn spec_rpd_unit_sens(rev: Scalar, x: Scalar, sens: Scalar) -> Scalar {
    s_div(spec_revolutions_per_dot(rev, x), sens)
}

/// The factor that takes the current RPI to the target RPI.
pub open spec fn spec_adjustment_ratio(target: Scalar, rev: Scalar, x: Scalar, dpi: Scalar) -> Scalar {
    s_div(target, spec_current_rpi(rev, x, dpi))
}

/// The sensitivity that would reach the target RPI.
pub open spec fn spec_adjusted_sensitivity(
    sens: Scalar,
    target: Scalar,
    rev: Scalar,
    x: Scalar,
    dpi: Scalar,
) -> Scalar {
    s_mul(sens, spec_adjustment_ratio(target, rev, x, dpi))
}

/// The sensor resolution derived from the physical measurement: absolute
/// motion over the distance in inches.
pub open spec fn spec_computed_dpi(abs: Scalar, d: Scalar, is_inch: bool) -> Scalar {
    s_div(abs, spec_distance_inches(d, is_inch))
}

/// Converts a fixed-point motion sum to a scalar in whole counts.
pub fn motion_scalar(c: i64) -> (r: Scalar)
    ensures
        r == spec_motion_scalar(c as int),
        r.wf(),
{
    Scalar::Val(Rat { num: c, den: MOTION_SCALE })
}

/// Derives every calibration metric from the motion sums and the entered
/// measurements. Each metric is exactly its defining formula; an input that
/// a metric does not use cannot affect it.
pub fn compute(inputs: CalibrationInputs, x_motion: Scalar, abs_motion: Scalar) -> (out:
    CalibrationOutputs)
    requires
        inputs.wf(),
        x_motion.wf(),
        abs_motion.wf(),
    ensures
        out.physical_distance_cm == spec_physical_distance_cm(
            inputs.distance_moved,
            inputs.distance_is_inch,
        ),
        out.inch_equivalent == spec_inch_equivalent(x_motion, inputs.configured_dpi),
        out.current_rpi == spec_current_rpi(inputs.revolutions, x_motion, inputs.configured_dpi),
        out.revolutions_per_dot == spec_revolutions_per_dot(inputs.revolutions, x_motion),
        out.revolutions_per_dot_unit_sens == spec_rpd_unit_sens(
            inputs.revolutions,
            x_motion,
            inputs.current_sensitivity,
        ),
        out.adjusted_sensitivity == spec_adjusted_sensitivity(
            inputs.current_sensitivity,
            inputs.target_rpi,
            inputs.revolutions,
            x_motion,
            inputs.configured_dpi,
        ),
        out.sensitivity_adjustment_ratio == spec_adjustment_ratio(
            inputs.target_rpi,
            inputs.revolutions,
            x_motion,
            inputs.configured_dpi,
        ),
        out.computed_dpi == spec_computed_dpi(
            abs_motion,
            inputs.distance_moved,
            inputs.distance_is_inch,
        ),
        out.wf(),
{
    let cmpi = Scalar::ratio(254, 100);
    let physical_distance_cm = if inputs.distance_is_inch {
        inputs.distance_moved.times(cmpi)
    } else {
        inputs.distance_moved
    };
    let distance_inches = if inputs.distance_is_inch {
        inputs.distance_moved
    } else {
        inputs.distance_moved.over(cmpi)
    };
    let inch_equivalent = x_motion.over(inputs.configured_dpi);
    let current_rpi = inputs.revolutions.over(inch_equivalent).magnitude();
    let revolutions_per_dot = inputs.revolutions.over(x_motion).magnitude();
    let revolutions_per_dot_unit_sens = revolutions_per_dot.over(inputs.current_sensitivity);
    let sensitivity_adjustment_ratio = inputs.target_rpi.over(current_rpi);
    let adjusted_sensitivity = inputs.current_sensitivity.times(sensitivity_adjustment_ratio);
    let computed_dpi = abs_motion.over(distance_inches);
    CalibrationOutputs {
        physical_distance_cm,
        inch_equivalent,
        current_rpi,
        revolutions_per_dot,
        revolutions_per_dot_unit_sens,
        adjusted_sensitivity,
        sensitivity_adjustment_ratio,
        computed_dpi,
    }
}

/// Missing-input propagation, first half: a missing configured DPI blanks
/// exactly the metrics defined in terms of it.
pub proof fn lemma_missing_dpi_propagation(inputs: CalibrationInputs, x: Scalar)
    requires
        inputs.configured_dpi == Scalar::Missing,
    ensures
        spec_inch_equivalent(x, inputs.configured_dpi) == Scalar::Missing,
        spec_current_rpi(inputs.revolutions, x, inputs.configured_dpi) == Scalar::Missing,
        spec_adjustment_ratio(inputs.target_rpi, inputs.revolutions, x, inputs.configured_dpi)
            == Scalar::Missing,
        spec_adjusted_sensitivity(
            inputs.current_sensitivity,
            inputs.target_rpi,
            inputs.revolutions,
            x,
            inputs.configured_dpi,
        ) == Scalar::Missing,
{
}

/// Missing-input propagation, second half: the metrics that are not defined
/// in terms of the configured DPI agree between any two input rows that
/// agree on everything but the DPI — one missing input never blanks an
/// unrelated metric.
pub proof fn lemma_dpi_independent_metrics(
    a: CalibrationInputs,
    b: CalibrationInputs,
    x: Scalar,
    abs: Scalar,
)
    requires
        a.current_sensitivity == b.current_sensitivity,
        a.revolutions == b.revolutions,
        a.target_rpi == b.target_rpi,
        a.distance_moved == b.distance_moved,
        a.distance_is_inch == b.distance_is_inch,
    ensures
        spec_physical_distance_cm(a.distance_moved, a.distance_is_inch)
            == spec_physical_distance_cm(b.distance_moved, b.distance_is_inch),
        spec_revolutions_per_dot(a.revolutions, x) == spec_revolutions_per_dot(b.revolutions, x),
        spec_rpd_unit_sens(a.revolutions, x, a.current_sensitivity) == spec_rpd_unit_sens(
            b.revolutions,
            x,
            b.current_sensitivity,
        ),
        spec_computed_dpi(abs, a.distance_moved, a.distance_is_inch) == spec_computed_dpi(
            abs,
            b.distance_moved,
            b.distance_is_inch,
        ),
{
}

} // verus!
