//! The visible ranges of the two axes.
//!
//! A bound arrives as `Some` number where its text could be read as one and as
//! `None` where it could not.

use vstd::prelude::*;
use crate::double::Double;

verus! {

/// One of the two axes.
#[derive(Clone, Copy, Debug, PartialEq, Eq, Structural)]
pub enum Axis {
    X,
    Y,
}

/// Why the bounds of an axis are refused.
#[derive(Clone, Copy, Debug, PartialEq, Eq, Structural)]
pub enum DomainError {
    /// The lower bound is no number.
    InvalidMin(Axis),
    /// The upper bound is no number.
    InvalidMax(Axis),
    /// The lower bound is not less than the upper one.
    Inverted(Axis),
}

/// The visible part of the plane. On each axis the lower bound is less than
/// the upper one.
#[derive(Clone, Copy, Debug, PartialEq, Eq, Structural)]
pub struct Viewport {
    pub x_min: Double,
    pub x_max: Double,
    pub y_min: Double,
    pub y_max: Double,
}

impl Axis {
    /// The name of the axis: `x` or `y`.
    pub open spec fn spec_name(self) -> Seq<char> {
        match self {
            Axis::X => "x"@,
            Axis::Y => "y"@,
        }
    }

    /// The name of the axis: `x` or `y`.
    pub fn name(self) -> (name: &'static str)
        ensures
            name@ == self.spec_name(),
    {
        match self {
            Axis::X => "x",
            Axis::Y => "y",
        }
    }
}

impl DomainError {
    /// The axis whose bounds are refused.
    pub open spec fn spec_axis(self) -> Axis {
        match self {
            DomainError::InvalidMin(axis) => axis,
            DomainError::InvalidMax(axis) => axis,
            DomainError::Inverted(axis) => axis,
        }
    }

    /// The message shown for the error.
    pub open spec fn spec_message(self) -> Seq<char> {
        match self {
            DomainError::InvalidMin(Axis::X) => "Invalid x_min value"@,
            DomainError::InvalidMin(Axis::Y) => "Invalid y_min value"@,
            DomainError::InvalidMax(Axis::X) => "Invalid x_max value"@,
            DomainError::InvalidMax(Axis::Y) => "Invalid y_max value"@,
            DomainError::Inverted(Axis::X) => "x_min must be less than x_max"@,
            DomainError::Inverted(Axis::Y) => "y_min must be less than y_max"@,
        }
    }

    /// The axis whose bounds are refused.
    #[verifier::when_used_as_spec(spec_axis)]
    pub fn axis(self) -> (axis: Axis)
        ensures
            axis == self.spec_axis(),
    {
        match self {
            DomainError::InvalidMin(axis) => axis,
            DomainError::InvalidMax(axis) => axis,
            DomainError::Inverted(axis) => axis,
        }
    }

    /// The message shown for the error.
    pub fn message(self) -> (text: String)
        ensures
            text@ == self.spec_message(),
    {
        match self {
            DomainError::InvalidMin(Axis::X) => "Invalid x_min value".to_owned(),
            DomainError::InvalidMin(Axis::Y) => "Invalid y_min value".to_owned(),
            DomainError::InvalidMax(Axis::X) => "Invalid x_max value".to_owned(),
            DomainError::InvalidMax(Axis::Y) => "Invalid y_max value".to_owned(),
            DomainError::Inverted(Axis::X) => "x_min must be less than x_max".to_owned(),
            DomainError::Inverted(Axis::Y) => "y_min must be less than y_max".to_owned(),
        }
    }
}

/// The bounds of one axis, or the first thing wrong with them: a lower bound
/// that is no number, then an upper bound that is none, then a pair in which
/// the lower bound is not less than the upper one.
pub open spec fn domain_outcome(min: Option<Double>, max: Option<Double>, axis: Axis) -> Result<
    (Double, Double),
    DomainError,
> {
    match (min, max) {
        (None, _) => Err(DomainError::InvalidMin(axis)),
        (Some(_), None) => Err(DomainError::InvalidMax(axis)),
        (Some(low), Some(high)) => if low.lt(high) {
            Ok((low, high))
        } else {
            Err(DomainError::Inverted(axis))
        },
    }
}

/// The viewport, or the first thing wrong with its bounds, the x-axis first.
pub open spec fn viewport_outcome(
    x_min: Option<Double>,
    x_max: Option<Double>,
    y_min: Option<Double>,
    y_max: Option<Double>,
) -> Result<Viewport, DomainError> {
    match domain_outcome(x_min, x_max, Axis::X) {
        Err(error) => Err(error),
        Ok(x) => match domain_outcome(y_min, y_max, Axis::Y) {
            Err(error) => Err(error),
            Ok(y) => Ok(Viewport { x_min: x.0, x_max: x.1, y_min: y.0, y_max: y.1 }),
        },
    }
}

/// Validates the bounds of one axis.
pub fn validate_domain(min: Option<Double>, max: Option<Double>, axis: Axis) -> (r: Result<
    (Double, Double),
    DomainError,
>)
    ensures
        r == domain_outcome(min, max, axis),
        r matches Ok((low, high)) ==> low.lt(high),
{
    match min {
        None => Err(DomainError::InvalidMin(axis)),
        Some(low) => match max {
            None => Err(DomainError::InvalidMax(axis)),
            Some(high) => if low.lt(high) {
                Ok((low, high))
            } else {
                Err(DomainError::Inverted(axis))
            },
        },
    }
}

/// Validates the bounds of both axes, those of the x-axis first.
pub fn validate_viewport(
    x_min: Option<Double>,
    x_max: Option<Double>,
    y_min: Option<Double>,
    y_max: Option<Double>,
) -> (r: Result<Viewport, DomainError>)
    ensures
        r == viewport_outcome(x_min, x_max, y_min, y_max),
        r matches Ok(view) ==> view.x_min.lt(view.x_max) && view.y_min.lt(view.y_max),
{
    match validate_domain(x_min, x_max, Axis::X) {
        Err(error) => Err(error),
        Ok(x) => match validate_domain(y_min, y_max, Axis::Y) {
            Err(error) => Err(error),
            Ok(y) => Ok(Viewport { x_min: x.0, x_max: x.1, y_min: y.0, y_max: y.1 }),
        },
    }
}

} // verus!
