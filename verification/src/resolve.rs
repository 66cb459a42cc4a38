//! From what a style asks to lengths: points stand as they are, a fraction
//! is taken of the dimension it refers to, and without that dimension a
//! fraction stays indefinite.

use crate::geometry::{Rect, Size};
use crate::scalar::Scalar;
use crate::style::{Constraints, Dimension, LengthPercentage, LengthPercentageAuto};
use vstd::prelude::*;

verus! {

/// What a fraction comes to, against a reference that may be indefinite.
pub open spec fn percent_of(fraction: Scalar, context: Option<Scalar>) -> Option<Scalar> {
    match context {
        Some(dim) => Some(dim.spec_mul(fraction)),
        None => None,
    }
}

fn resolve_percent(fraction: Scalar, context: Option<Scalar>) -> (r: Option<Scalar>)
    ensures
        r == percent_of(fraction, context),
{
    match context {
        Some(dim) => Some(dim.times(fraction)),
        None => None,
    }
}

/// A value of the style that comes to a length, or to none.
pub trait MaybeResolve<In, Out>: Sized {
    spec fn spec_maybe_resolve(self, context: In) -> Out;

    /// The length that `self` comes to against `context`.
    fn maybe_resolve(self, context: In) -> (r: Out)
        ensures
            r == self.spec_maybe_resolve(context),
    ;
}

/// A value of the style that comes to a length, with none counted as zero.
pub trait ResolveOrDefault<TContext, TOutput>: Sized {
    spec fn spec_resolve_or_default(self, context: TContext) -> TOutput;

    /// The length that `self` comes to against `context`; zero where it
    /// comes to none.
    fn resolve_or_default(self, context: TContext) -> (r: TOutput)
        ensures
            r == self.spec_resolve_or_default(context),
    ;
}

impl MaybeResolve<Option<Scalar>, Option<Scalar>> for Dimension {
    open spec fn spec_maybe_resolve(self, context: Option<Scalar>) -> Option<Scalar> {
        match self {
            Dimension::Points(points) => Some(points),
            Dimension::Percent(percent) => percent_of(percent, context),
            _ => None,
        }
    }

    fn maybe_resolve(self, context: Option<Scalar>) -> (r: Option<Scalar>) {
        match self {
            Dimension::Points(points) => Some(points),
            Dimension::Percent(percent) => resolve_percent(percent, context),
            Dimension::Auto => None,
            Dimension::Undefined => None,
        }
    }
}

impl MaybeResolve<Option<Scalar>, Option<Scalar>> for LengthPercentage {
    open spec fn spec_maybe_resolve(self, context: Option<Scalar>) -> Option<Scalar> {
        match self {
            LengthPercentage::Points(points) => Some(points),
            LengthPercentage::Percent(percent) => percent_of(percent, context),
        }
    }

    fn maybe_resolve(self, context: Option<Scalar>) -> (r: Option<Scalar>) {
        match self {
            LengthPercentage::Points(points) => Some(points),
            LengthPercentage::Percent(percent) => resolve_percent(percent, context),
        }
    }
}

impl MaybeResolve<Option<Scalar>, Option<Scalar>> for LengthPercentageAuto {
    open spec fn spec_maybe_resolve(self, context: Option<Scalar>) -> Option<Scalar> {
        match self {
            LengthPercentageAuto::Points(points) => Some(points),
            LengthPercentageAuto::Percent(percent) => percent_of(percent, context),
            LengthPercentageAuto::Auto => None,
        }
    }

    fn maybe_resolve(self, context: Option<Scalar>) -> (r: Option<Scalar>) {
        match self {
            LengthPercentageAuto::Points(points) => Some(points),
            LengthPercentageAuto::Percent(percent) => resolve_percent(percent, context),
            LengthPercentageAuto::Auto => None,
        }
    }
}

impl MaybeResolve<Option<Scalar>, Constraints<Option<Scalar>>> for Constraints<Dimension> {
    open spec fn spec_maybe_resolve(self, context: Option<Scalar>) -> Constraints<Option<Scalar>> {
        Constraints {
            min: self.min.spec_maybe_resolve(context),
            suggested: self.suggested.spec_maybe_resolve(context),
            max: self.max.spec_maybe_resolve(context),
        }
    }

    /// Each tier against the same reference.
    fn maybe_resolve(self, context: Option<Scalar>) -> (r: Constraints<Option<Scalar>>) {
        Constraints {
            min: self.min.maybe_resolve(context),
            suggested: self.suggested.maybe_resolve(context),
            max: self.max.maybe_resolve(context),
        }
    }
}

impl<In, Out, T: MaybeResolve<In, Out>> MaybeResolve<Size<In>, Size<Out>> for Size<T> {
    open spec fn spec_maybe_resolve(self, context: Size<In>) -> Size<Out> {
        Size {
            width: self.width.spec_maybe_resolve(context.width),
            height: self.height.spec_maybe_resolve(context.height),
        }
    }

    /// The width against the width and the height against the height.
    fn maybe_resolve(self, context: Size<In>) -> (r: Size<Out>) {
        Size {
            width: self.width.maybe_resolve(context.width),
            height: self.height.maybe_resolve(context.height),
        }
    }
}

/// The length, or zero for none.
pub open spec fn or_zero(value: Option<Scalar>) -> Scalar {
    match value {
        Some(value) => value,
        None => Scalar(0),
    }
}

impl ResolveOrDefault<Option<Scalar>, Scalar> for Dimension {
    open spec fn spec_resolve_or_default(self, context: Option<Scalar>) -> Scalar {
        or_zero(self.spec_maybe_resolve(context))
    }

    fn resolve_or_default(self, context: Option<Scalar>) -> (r: Scalar) {
        match self.maybe_resolve(context) {
            Some(value) => value,
            None => Scalar(0),
        }
    }
}

impl ResolveOrDefault<Option<Scalar>, Scalar> for LengthPercentage {
    open spec fn spec_resolve_or_default(self, context: Option<Scalar>) -> Scalar {
        or_zero(self.spec_maybe_resolve(context))
    }

    fn resolve_or_default(self, context: Option<Scalar>) -> (r: Scalar) {
        match self.maybe_resolve(context) {
            Some(value) => value,
            None => Scalar(0),
        }
    }
}

impl ResolveOrDefault<Option<Scalar>, Scalar> for LengthPercentageAuto {
    open spec fn spec_resolve_or_default(self, context: Option<Scalar>) -> Scalar {
        or_zero(self.spec_maybe_resolve(context))
    }

    fn resolve_or_default(self, context: Option<Scalar>) -> (r: Scalar) {
        match self.maybe_resolve(context) {
            Some(value) => value,
            None => Scalar(0),
        }
    }
}

impl<T: ResolveOrDefault<Option<Scalar>, Scalar>> ResolveOrDefault<
    Size<Option<Scalar>>,
    Rect<Scalar>,
> for Rect<T> {
    open spec fn spec_resolve_or_default(self, context: Size<Option<Scalar>>) -> Rect<Scalar> {
        Rect {
            left: self.left.spec_resolve_or_default(context.width),
            right: self.right.spec_resolve_or_default(context.width),
            top: self.top.spec_resolve_or_default(context.height),
            bottom: self.bottom.spec_resolve_or_default(context.height),
        }
    }

    /// The left and the right side against the width, the top and the
    /// bottom side against the height.
    fn resolve_or_default(self, context: Size<Option<Scalar>>) -> (r: Rect<Scalar>) {
        Rect {
            left: self.left.resolve_or_default(context.width),
            right: self.right.resolve_or_default(context.width),
            top: self.top.resolve_or_default(context.height),
            bottom: self.bottom.resolve_or_default(context.height),
        }
    }
}

impl<T: ResolveOrDefault<Option<Scalar>, Scalar>> ResolveOrDefault<
    Option<Scalar>,
    Rect<Scalar>,
> for Rect<T> {
    open spec fn spec_resolve_or_default(self, context: Option<Scalar>) -> Rect<Scalar> {
        Rect {
            left: self.left.spec_resolve_or_default(context),
            right: self.right.spec_resolve_or_default(context),
            top: self.top.spec_resolve_or_default(context),
            bottom: self.bottom.spec_resolve_or_default(context),
        }
    }

    /// All four sides against the same reference.
    fn resolve_or_default(self, context: Option<Scalar>) -> (r: Rect<Scalar>) {
        Rect {
            left: self.left.resolve_or_default(context),
            right: self.right.resolve_or_default(context),
            top: self.top.resolve_or_default(context),
            bottom: self.bottom.resolve_or_default(context),
        }
    }
}

} // verus!
