//! Arithmetic on lengths that may be indefinite.
//!
//! A left-hand operand that is indefinite stays indefinite. A right-hand
//! operand that is indefinite contributes nothing: the left-hand operand
//! comes back as it is. Where a lower and an upper bound cross, the lower
//! bound wins: a value is held to the upper bound first and to the lower
//! bound last.

use crate::geometry::{Axis, AxisSummer, Length, Size, TwoDimensional};
use crate::layout::AvailableSpace;
use crate::scalar::Scalar;
use crate::style::Constraints;
use core::ops::{Add, Mul, Sub};
use vstd::pervasive::unreached;
use vstd::prelude::*;
use vstd::std_specs::ops::{AddSpec, AddSpecImpl, MulSpec, MulSpecImpl, SubSpec, SubSpecImpl};

verus! {

/// `value` held to `max` and then to `min`, each where it is given.
pub open spec fn clamp_spec(value: Scalar, min: Option<Scalar>, max: Option<Scalar>) -> Scalar {
    let capped = match max {
        Some(max) => value.spec_min(max),
        None => value,
    };
    match min {
        Some(min) => capped.spec_max(min),
        None => capped,
    }
}

/// Where the bounds cross, the lower bound wins: whatever the value, it
/// comes out as the lower bound.
pub proof fn lemma_minimum_dominance(value: Scalar, min: Scalar, max: Scalar)
    requires
        min.0 > max.0,
    ensures
        clamp_spec(value, Some(min), Some(max)) == min,
{
}

/// A value is held to its bounds: it comes out no lower than the lower
/// bound; no higher than the upper bound, unless the lower bound is higher
/// still; and as it is where it lies within them.
pub proof fn lemma_clamp_bounds(value: Scalar, min: Option<Scalar>, max: Option<Scalar>)
    ensures
        min is Some ==> clamp_spec(value, min, max).0 >= min->Some_0.0,
        max is Some && (min is None || min->Some_0.0 <= max->Some_0.0) ==> clamp_spec(
            value,
            min,
            max,
        ).0 <= max->Some_0.0,
        (min is None || min->Some_0.0 <= value.0) && (max is None || value.0 <= max->Some_0.0)
            ==> clamp_spec(value, min, max) == value,
{
}

/// Without a lower bound, a value above the upper bound comes out as the
/// upper bound.
pub proof fn lemma_maximum_caps(value: Scalar, max: Scalar)
    requires
        value.0 > max.0,
    ensures
        clamp_spec(value, None, Some(max)) == max,
{
}

/// Without an upper bound, a value below the lower bound comes out as the
/// lower bound.
pub proof fn lemma_minimum_raises(value: Scalar, min: Scalar)
    requires
        value.0 < min.0,
    ensures
        clamp_spec(value, Some(min), None) == min,
{
}

/// The five operations, with `Self` on the left and `In` on the right.
pub trait MaybeMath<In, Out>: Sized {
    spec fn spec_maybe_min(self, rhs: In) -> Out;

    spec fn spec_maybe_max(self, rhs: In) -> Out;

    spec fn spec_maybe_clamp(self, min: In, max: In) -> Out;

    spec fn spec_maybe_add(self, rhs: In) -> Out;

    spec fn spec_maybe_sub(self, rhs: In) -> Out;

    /// The smaller of `self` and `rhs`.
    fn maybe_min(self, rhs: In) -> (r: Out)
        ensures
            r == self.spec_maybe_min(rhs),
    ;

    /// The larger of `self` and `rhs`.
    fn maybe_max(self, rhs: In) -> (r: Out)
        ensures
            r == self.spec_maybe_max(rhs),
    ;

    /// `self` held to `max` and then to `min`.
    fn maybe_clamp(self, min: In, max: In) -> (r: Out)
        ensures
            r == self.spec_maybe_clamp(min, max),
    ;

    /// `self` plus `rhs`.
    fn maybe_add(self, rhs: In) -> (r: Out)
        ensures
            r == self.spec_maybe_add(rhs),
    ;

    /// `self` less `rhs`.
    fn maybe_sub(self, rhs: In) -> (r: Out)
        ensures
            r == self.spec_maybe_sub(rhs),
    ;
}

impl MaybeMath<Option<Scalar>, Option<Scalar>> for Option<Scalar> {
    open spec fn spec_maybe_min(self, rhs: Option<Scalar>) -> Option<Scalar> {
        match (self, rhs) {
            (Some(l), Some(r)) => Some(l.spec_min(r)),
            (Some(l), None) => Some(l),
            (None, _) => None,
        }
    }

    open spec fn spec_maybe_max(self, rhs: Option<Scalar>) -> Option<Scalar> {
        match (self, rhs) {
            (Some(l), Some(r)) => Some(l.spec_max(r)),
            (Some(l), None) => Some(l),
            (None, _) => None,
        }
    }

    open spec fn spec_maybe_clamp(self, min: Option<Scalar>, max: Option<Scalar>) -> Option<
        Scalar,
    > {
        match self {
            Some(base) => Some(clamp_spec(base, min, max)),
            None => None,
        }
    }

    open spec fn spec_maybe_add(self, rhs: Option<Scalar>) -> Option<Scalar> {
        match (self, rhs) {
            (Some(l), Some(r)) => Some(l.spec_add(r)),
            (Some(l), None) => Some(l),
            (None, _) => None,
        }
    }

    open spec fn spec_maybe_sub(self, rhs: Option<Scalar>) -> Option<Scalar> {
        match (self, rhs) {
            (Some(l), Some(r)) => Some(l.spec_sub(r)),
            (Some(l), None) => Some(l),
            (None, _) => None,
        }
    }

    fn maybe_min(self, rhs: Option<Scalar>) -> (r: Option<Scalar>) {
        match (self, rhs) {
            (Some(l), Some(r)) => Some(l.min(r)),
            (Some(_l), None) => self,
            (None, Some(_r)) => None,
            (None, None) => None,
        }
    }

    fn maybe_max(self, rhs: Option<Scalar>) -> (r: Option<Scalar>) {
        match (self, rhs) {
            (Some(l), Some(r)) => Some(l.max(r)),
            (Some(_l), None) => self,
            (None, Some(_r)) => None,
            (None, None) => None,
        }
    }

    fn maybe_clamp(self, min: Option<Scalar>, max: Option<Scalar>) -> (r: Option<Scalar>) {
        match (self, min, max) {
            (Some(base), Some(min), Some(max)) => Some(base.min(max).max(min)),
            (Some(base), None, Some(max)) => Some(base.min(max)),
            (Some(base), Some(min), None) => Some(base.max(min)),
            (Some(_), None, None) => self,
            (None, _, _) => None,
        }
    }

    fn maybe_add(self, rhs: Option<Scalar>) -> (r: Option<Scalar>) {
        match (self, rhs) {
            (Some(l), Some(r)) => Some(l.plus(r)),
            (Some(_l), None) => self,
            (None, Some(_r)) => None,
            (None, None) => None,
        }
    }

    fn maybe_sub(self, rhs: Option<Scalar>) -> (r: Option<Scalar>) {
        match (self, rhs) {
            (Some(l), Some(r)) => Some(l.minus(r)),
            (Some(_l), None) => self,
            (None, Some(_r)) => None,
            (None, None) => None,
        }
    }
}

impl MaybeMath<Scalar, Option<Scalar>> for Option<Scalar> {
    open spec fn spec_maybe_min(self, rhs: Scalar) -> Option<Scalar> {
        match self {
            Some(val) => Some(val.spec_min(rhs)),
            None => None,
        }
    }

    open spec fn spec_maybe_max(self, rhs: Scalar) -> Option<Scalar> {
        match self {
            Some(val) => Some(val.spec_max(rhs)),
            None => None,
        }
    }

    open spec fn spec_maybe_clamp(self, min: Scalar, max: Scalar) -> Option<Scalar> {
        match self {
            Some(val) => Some(clamp_spec(val, Some(min), Some(max))),
            None => None,
        }
    }

    open spec fn spec_maybe_add(self, rhs: Scalar) -> Option<Scalar> {
        match self {
            Some(val) => Some(val.spec_add(rhs)),
            None => None,
        }
    }

    open spec fn spec_maybe_sub(self, rhs: Scalar) -> Option<Scalar> {
        match self {
            Some(val) => Some(val.spec_sub(rhs)),
            None => None,
        }
    }

    fn maybe_min(self, rhs: Scalar) -> (r: Option<Scalar>) {
        match self {
            Some(val) => Some(val.min(rhs)),
            None => None,
        }
    }

    fn maybe_max(self, rhs: Scalar) -> (r: Option<Scalar>) {
        match self {
            Some(val) => Some(val.max(rhs)),
            None => None,
        }
    }

    fn maybe_clamp(self, min: Scalar, max: Scalar) -> (r: Option<Scalar>) {
        match self {
            Some(val) => Some(val.min(max).max(min)),
            None => None,
        }
    }

    fn maybe_add(self, rhs: Scalar) -> (r: Option<Scalar>) {
        match self {
            Some(val) => Some(val.plus(rhs)),
            None => None,
        }
    }

    fn maybe_sub(self, rhs: Scalar) -> (r: Option<Scalar>) {
        match self {
            Some(val) => Some(val.minus(rhs)),
            None => None,
        }
    }
}

impl MaybeMath<Option<Scalar>, Scalar> for Scalar {
    open spec fn spec_maybe_min(self, rhs: Option<Scalar>) -> Scalar {
        match rhs {
            Some(val) => self.spec_min(val),
            None => self,
        }
    }

    open spec fn spec_maybe_max(self, rhs: Option<Scalar>) -> Scalar {
        match rhs {
            Some(val) => self.spec_max(val),
            None => self,
        }
    }

    open spec fn spec_maybe_clamp(self, min: Option<Scalar>, max: Option<Scalar>) -> Scalar {
        clamp_spec(self, min, max)
    }

    open spec fn spec_maybe_add(self, rhs: Option<Scalar>) -> Scalar {
        match rhs {
            Some(val) => self.spec_add(val),
            None => self,
        }
    }

    open spec fn spec_maybe_sub(self, rhs: Option<Scalar>) -> Scalar {
        match rhs {
            Some(val) => self.spec_sub(val),
            None => self,
        }
    }

    fn maybe_min(self, rhs: Option<Scalar>) -> (r: Scalar) {
        match rhs {
            Some(val) => self.min(val),
            None => self,
        }
    }

    fn maybe_max(self, rhs: Option<Scalar>) -> (r: Scalar) {
        match rhs {
            Some(val) => self.max(val),
            None => self,
        }
    }

    fn maybe_clamp(self, min: Option<Scalar>, max: Option<Scalar>) -> (r: Scalar) {
        match (min, max) {
            (Some(min), Some(max)) => self.min(max).max(min),
            (None, Some(max)) => self.min(max),
            (Some(min), None) => self.max(min),
            (None, None) => self,
        }
    }

    fn maybe_add(self, rhs: Option<Scalar>) -> (r: Scalar) {
        match rhs {
            Some(val) => self.plus(val),
            None => self,
        }
    }

    fn maybe_sub(self, rhs: Option<Scalar>) -> (r: Scalar) {
        match rhs {
            Some(val) => self.minus(val),
            None => self,
        }
    }
}

impl MaybeMath<Scalar, Length<Option<Scalar>>> for Length<Option<Scalar>> {
    open spec fn spec_maybe_min(self, rhs: Scalar) -> Length<Option<Scalar>> {
        self.spec_same_axis(self.spec_value().spec_maybe_min(rhs))
    }

    open spec fn spec_maybe_max(self, rhs: Scalar) -> Length<Option<Scalar>> {
        self.spec_same_axis(self.spec_value().spec_maybe_max(rhs))
    }

    open spec fn spec_maybe_clamp(self, min: Scalar, max: Scalar) -> Length<Option<Scalar>> {
        self.spec_same_axis(self.spec_value().spec_maybe_clamp(min, max))
    }

    open spec fn spec_maybe_add(self, rhs: Scalar) -> Length<Option<Scalar>> {
        self.spec_same_axis(self.spec_value().spec_maybe_add(rhs))
    }

    open spec fn spec_maybe_sub(self, rhs: Scalar) -> Length<Option<Scalar>> {
        self.spec_same_axis(self.spec_value().spec_maybe_sub(rhs))
    }

    fn maybe_min(self, rhs: Scalar) -> (r: Length<Option<Scalar>>) {
        match self {
            Axis::Width(inner) => Axis::Width(inner.maybe_min(rhs)),
            Axis::Height(inner) => Axis::Height(inner.maybe_min(rhs)),
        }
    }

    fn maybe_max(self, rhs: Scalar) -> (r: Length<Option<Scalar>>) {
        match self {
            Axis::Width(inner) => Axis::Width(inner.maybe_max(rhs)),
            Axis::Height(inner) => Axis::Height(inner.maybe_max(rhs)),
        }
    }

    fn maybe_clamp(self, min: Scalar, max: Scalar) -> (r: Length<Option<Scalar>>) {
        match self {
            Axis::Width(inner) => Axis::Width(inner.maybe_clamp(min, max)),
            Axis::Height(inner) => Axis::Height(inner.maybe_clamp(min, max)),
        }
    }

    fn maybe_add(self, rhs: Scalar) -> (r: Length<Option<Scalar>>) {
        match self {
            Axis::Width(inner) => Axis::Width(inner.maybe_add(rhs)),
            Axis::Height(inner) => Axis::Height(inner.maybe_add(rhs)),
        }
    }

    fn maybe_sub(self, rhs: Scalar) -> (r: Length<Option<Scalar>>) {
        match self {
            Axis::Width(inner) => Axis::Width(inner.maybe_sub(rhs)),
            Axis::Height(inner) => Axis::Height(inner.maybe_sub(rhs)),
        }
    }
}

impl MaybeMath<Scalar, AvailableSpace> for AvailableSpace {
    open spec fn spec_maybe_min(self, rhs: Scalar) -> AvailableSpace {
        match self {
            AvailableSpace::Definite(val) => AvailableSpace::Definite(val.spec_min(rhs)),
            AvailableSpace::MinContent => AvailableSpace::Definite(rhs),
            AvailableSpace::MaxContent => AvailableSpace::Definite(rhs),
        }
    }

    open spec fn spec_maybe_max(self, rhs: Scalar) -> AvailableSpace {
        match self {
            AvailableSpace::Definite(val) => AvailableSpace::Definite(val.spec_max(rhs)),
            _ => self,
        }
    }

    open spec fn spec_maybe_clamp(self, min: Scalar, max: Scalar) -> AvailableSpace {
        match self {
            AvailableSpace::Definite(val) => AvailableSpace::Definite(
                clamp_spec(val, Some(min), Some(max)),
            ),
            _ => self,
        }
    }

    open spec fn spec_maybe_add(self, rhs: Scalar) -> AvailableSpace {
        match self {
            AvailableSpace::Definite(val) => AvailableSpace::Definite(val.spec_add(rhs)),
            _ => self,
        }
    }

    open spec fn spec_maybe_sub(self, rhs: Scalar) -> AvailableSpace {
        match self {
            AvailableSpace::Definite(val) => AvailableSpace::Definite(val.spec_sub(rhs)),
            _ => self,
        }
    }

    fn maybe_min(self, rhs: Scalar) -> (r: AvailableSpace) {
        match self {
            AvailableSpace::Definite(val) => AvailableSpace::Definite(val.min(rhs)),
            AvailableSpace::MinContent => AvailableSpace::Definite(rhs),
            AvailableSpace::MaxContent => AvailableSpace::Definite(rhs),
        }
    }

    fn maybe_max(self, rhs: Scalar) -> (r: AvailableSpace) {
        match self {
            AvailableSpace::Definite(val) => AvailableSpace::Definite(val.max(rhs)),
            AvailableSpace::MinContent => AvailableSpace::MinContent,
            AvailableSpace::MaxContent => AvailableSpace::MaxContent,
        }
    }

    fn maybe_clamp(self, min: Scalar, max: Scalar) -> (r: AvailableSpace) {
        match self {
            AvailableSpace::Definite(val) => AvailableSpace::Definite(val.min(max).max(min)),
            AvailableSpace::MinContent => AvailableSpace::MinContent,
            AvailableSpace::MaxContent => AvailableSpace::MaxContent,
        }
    }

    fn maybe_add(self, rhs: Scalar) -> (r: AvailableSpace) {
        match self {
            AvailableSpace::Definite(val) => AvailableSpace::Definite(val.plus(rhs)),
            AvailableSpace::MinContent => AvailableSpace::MinContent,
            AvailableSpace::MaxContent => AvailableSpace::MaxContent,
        }
    }

    fn maybe_sub(self, rhs: Scalar) -> (r: AvailableSpace) {
        match self {
            AvailableSpace::Definite(val) => AvailableSpace::Definite(val.minus(rhs)),
            AvailableSpace::MinContent => AvailableSpace::MinContent,
            AvailableSpace::MaxContent => AvailableSpace::MaxContent,
        }
    }
}

impl MaybeMath<Option<Scalar>, AvailableSpace> for AvailableSpace {
    open spec fn spec_maybe_min(self, rhs: Option<Scalar>) -> AvailableSpace {
        match (self, rhs) {
            (AvailableSpace::Definite(val), Some(rhs)) => AvailableSpace::Definite(
                val.spec_min(rhs),
            ),
            (_, Some(rhs)) => AvailableSpace::Definite(rhs),
            (_, None) => self,
        }
    }

    open spec fn spec_maybe_max(self, rhs: Option<Scalar>) -> AvailableSpace {
        match (self, rhs) {
            (AvailableSpace::Definite(val), Some(rhs)) => AvailableSpace::Definite(
                val.spec_max(rhs),
            ),
            _ => self,
        }
    }

    open spec fn spec_maybe_clamp(self, min: Option<Scalar>, max: Option<Scalar>) -> AvailableSpace {
        match self {
            AvailableSpace::Definite(val) => AvailableSpace::Definite(clamp_spec(val, min, max)),
            _ => self,
        }
    }

    open spec fn spec_maybe_add(self, rhs: Option<Scalar>) -> AvailableSpace {
        match (self, rhs) {
            (AvailableSpace::Definite(val), Some(rhs)) => AvailableSpace::Definite(
                val.spec_add(rhs),
            ),
            _ => self,
        }
    }

    open spec fn spec_maybe_sub(self, rhs: Option<Scalar>) -> AvailableSpace {
        match (self, rhs) {
            (AvailableSpace::Definite(val), Some(rhs)) => AvailableSpace::Definite(
                val.spec_sub(rhs),
            ),
            _ => self,
        }
    }

    fn maybe_min(self, rhs: Option<Scalar>) -> (r: AvailableSpace) {
        match (self, rhs) {
            (AvailableSpace::Definite(val), Some(rhs)) => AvailableSpace::Definite(val.min(rhs)),
            (AvailableSpace::Definite(val), None) => AvailableSpace::Definite(val),
            (AvailableSpace::MinContent, Some(rhs)) => AvailableSpace::Definite(rhs),
            (AvailableSpace::MinContent, None) => AvailableSpace::MinContent,
            (AvailableSpace::MaxContent, Some(rhs)) => AvailableSpace::Definite(rhs),
            (AvailableSpace::MaxContent, None) => AvailableSpace::MaxContent,
        }
    }

    fn maybe_max(self, rhs: Option<Scalar>) -> (r: AvailableSpace) {
        match (self, rhs) {
            (AvailableSpace::Definite(val), Some(rhs)) => AvailableSpace::Definite(val.max(rhs)),
            (AvailableSpace::Definite(val), None) => AvailableSpace::Definite(val),
            (AvailableSpace::MinContent, _) => AvailableSpace::MinContent,
            (AvailableSpace::MaxContent, _) => AvailableSpace::MaxContent,
        }
    }

    fn maybe_clamp(self, min: Option<Scalar>, max: Option<Scalar>) -> (r: AvailableSpace) {
        match (self, min, max) {
            (AvailableSpace::Definite(val), Some(min), Some(max)) => AvailableSpace::Definite(
                val.min(max).max(min),
            ),
            (AvailableSpace::Definite(val), None, Some(max)) => AvailableSpace::Definite(
                val.min(max),
            ),
            (AvailableSpace::Definite(val), Some(min), None) => AvailableSpace::Definite(
                val.max(min),
            ),
            (AvailableSpace::Definite(val), None, None) => AvailableSpace::Definite(val),
            (AvailableSpace::MinContent, _, _) => AvailableSpace::MinContent,
            (AvailableSpace::MaxContent, _, _) => AvailableSpace::MaxContent,
        }
    }

    fn maybe_add(self, rhs: Option<Scalar>) -> (r: AvailableSpace) {
        match (self, rhs) {
            (AvailableSpace::Definite(val), Some(rhs)) => AvailableSpace::Definite(val.plus(rhs)),
            (AvailableSpace::Definite(val), None) => AvailableSpace::Definite(val),
            (AvailableSpace::MinContent, _) => AvailableSpace::MinContent,
            (AvailableSpace::MaxContent, _) => AvailableSpace::MaxContent,
        }
    }

    fn maybe_sub(self, rhs: Option<Scalar>) -> (r: AvailableSpace) {
        match (self, rhs) {
            (AvailableSpace::Definite(val), Some(rhs)) => AvailableSpace::Definite(val.minus(rhs)),
            (AvailableSpace::Definite(val), None) => AvailableSpace::Definite(val),
            (AvailableSpace::MinContent, _) => AvailableSpace::MinContent,
            (AvailableSpace::MaxContent, _) => AvailableSpace::MaxContent,
        }
    }
}

impl<T, U, V: MaybeMath<T, U>> MaybeMath<Size<T>, Length<U>> for Length<V> {
    open spec fn spec_maybe_min(self, rhs: Size<T>) -> Length<U> {
        self.spec_same_axis(self.spec_value().spec_maybe_min(self.spec_pick(rhs)))
    }

    open spec fn spec_maybe_max(self, rhs: Size<T>) -> Length<U> {
        self.spec_same_axis(self.spec_value().spec_maybe_max(self.spec_pick(rhs)))
    }

    open spec fn spec_maybe_clamp(self, min: Size<T>, max: Size<T>) -> Length<U> {
        self.spec_same_axis(
            self.spec_value().spec_maybe_clamp(self.spec_pick(min), self.spec_pick(max)),
        )
    }

    open spec fn spec_maybe_add(self, rhs: Size<T>) -> Length<U> {
        self.spec_same_axis(self.spec_value().spec_maybe_add(self.spec_pick(rhs)))
    }

    open spec fn spec_maybe_sub(self, rhs: Size<T>) -> Length<U> {
        self.spec_same_axis(self.spec_value().spec_maybe_sub(self.spec_pick(rhs)))
    }

    fn maybe_min(self, rhs: Size<T>) -> (r: Length<U>) {
        match self {
            Axis::Width(a) => Axis::Width(a.maybe_min(rhs.width)),
            Axis::Height(a) => Axis::Height(a.maybe_min(rhs.height)),
        }
    }

    fn maybe_max(self, rhs: Size<T>) -> (r: Length<U>) {
        match self {
            Axis::Width(a) => Axis::Width(a.maybe_max(rhs.width)),
            Axis::Height(a) => Axis::Height(a.maybe_max(rhs.height)),
        }
    }

    fn maybe_clamp(self, min: Size<T>, max: Size<T>) -> (r: Length<U>) {
        match self {
            Axis::Width(x) => Axis::Width(x.maybe_clamp(min.width, max.width)),
            Axis::Height(x) => Axis::Height(x.maybe_clamp(min.height, max.height)),
        }
    }

    fn maybe_add(self, rhs: Size<T>) -> (r: Length<U>) {
        match self {
            Axis::Width(a) => Axis::Width(a.maybe_add(rhs.width)),
            Axis::Height(a) => Axis::Height(a.maybe_add(rhs.height)),
        }
    }

    fn maybe_sub(self, rhs: Size<T>) -> (r: Length<U>) {
        match self {
            Axis::Width(a) => Axis::Width(a.maybe_sub(rhs.width)),
            Axis::Height(a) => Axis::Height(a.maybe_sub(rhs.height)),
        }
    }
}

impl<In, Out, T: MaybeMath<In, Out>> MaybeMath<Size<In>, Size<Out>> for Size<T> {
    open spec fn spec_maybe_min(self, rhs: Size<In>) -> Size<Out> {
        Size {
            width: self.width.spec_maybe_min(rhs.width),
            height: self.height.spec_maybe_min(rhs.height),
        }
    }

    open spec fn spec_maybe_max(self, rhs: Size<In>) -> Size<Out> {
        Size {
            width: self.width.spec_maybe_max(rhs.width),
            height: self.height.spec_maybe_max(rhs.height),
        }
    }

    open spec fn spec_maybe_clamp(self, min: Size<In>, max: Size<In>) -> Size<Out> {
        Size {
            width: self.width.spec_maybe_clamp(min.width, max.width),
            height: self.height.spec_maybe_clamp(min.height, max.height),
        }
    }

    open spec fn spec_maybe_add(self, rhs: Size<In>) -> Size<Out> {
        Size {
            width: self.width.spec_maybe_add(rhs.width),
            height: self.height.spec_maybe_add(rhs.height),
        }
    }

    open spec fn spec_maybe_sub(self, rhs: Size<In>) -> Size<Out> {
        Size {
            width: self.width.spec_maybe_sub(rhs.width),
            height: self.height.spec_maybe_sub(rhs.height),
        }
    }

    fn maybe_min(self, rhs: Size<In>) -> (r: Size<Out>) {
        Size { width: self.width.maybe_min(rhs.width), height: self.height.maybe_min(rhs.height) }
    }

    fn maybe_max(self, rhs: Size<In>) -> (r: Size<Out>) {
        Size { width: self.width.maybe_max(rhs.width), height: self.height.maybe_max(rhs.height) }
    }

    fn maybe_clamp(self, min: Size<In>, max: Size<In>) -> (r: Size<Out>) {
        Size {
            width: self.width.maybe_clamp(min.width, max.width),
            height: self.height.maybe_clamp(min.height, max.height),
        }
    }

    fn maybe_add(self, rhs: Size<In>) -> (r: Size<Out>) {
        Size { width: self.width.maybe_add(rhs.width), height: self.height.maybe_add(rhs.height) }
    }

    fn maybe_sub(self, rhs: Size<In>) -> (r: Size<Out>) {
        Size { width: self.width.maybe_sub(rhs.width), height: self.height.maybe_sub(rhs.height) }
    }
}

/// Holding a value to the bounds of a constraint.
pub trait ApplyConstraints<In, Out>: Sized {
    spec fn spec_apply_min(self, rhs: In) -> Out;

    spec fn spec_apply_max(self, rhs: In) -> Out;

    spec fn spec_apply_clamp(self, rhs: In) -> Out;

    /// The smaller of `self` and the lower bound.
    fn apply_min(self, rhs: In) -> (r: Out)
        ensures
            r == self.spec_apply_min(rhs),
    ;

    /// The larger of `self` and the upper bound.
    fn apply_max(self, rhs: In) -> (r: Out)
        ensures
            r == self.spec_apply_max(rhs),
    ;

    /// `self` held to the upper bound and then to the lower bound.
    fn apply_clamp(self, rhs: In) -> (r: Out)
        ensures
            r == self.spec_apply_clamp(rhs),
    ;
}

impl ApplyConstraints<Constraints<Option<Scalar>>, Scalar> for Scalar {
    open spec fn spec_apply_min(self, rhs: Constraints<Option<Scalar>>) -> Scalar {
        self.spec_maybe_min(rhs.min)
    }

    open spec fn spec_apply_max(self, rhs: Constraints<Option<Scalar>>) -> Scalar {
        self.spec_maybe_max(rhs.max)
    }

    open spec fn spec_apply_clamp(self, rhs: Constraints<Option<Scalar>>) -> Scalar {
        clamp_spec(self, rhs.min, rhs.max)
    }

    fn apply_min(self, rhs: Constraints<Option<Scalar>>) -> (r: Scalar) {
        self.maybe_min(rhs.min)
    }

    fn apply_max(self, rhs: Constraints<Option<Scalar>>) -> (r: Scalar) {
        self.maybe_max(rhs.max)
    }

    fn apply_clamp(self, rhs: Constraints<Option<Scalar>>) -> (r: Scalar) {
        self.maybe_clamp(rhs.min, rhs.max)
    }
}

impl ApplyConstraints<Size<Constraints<Option<Scalar>>>, Scalar> for Length<Scalar> {
    open spec fn spec_apply_min(self, rhs: Size<Constraints<Option<Scalar>>>) -> Scalar {
        self.spec_value().spec_apply_min(self.spec_pick(rhs))
    }

    open spec fn spec_apply_max(self, rhs: Size<Constraints<Option<Scalar>>>) -> Scalar {
        self.spec_value().spec_apply_max(self.spec_pick(rhs))
    }

    open spec fn spec_apply_clamp(self, rhs: Size<Constraints<Option<Scalar>>>) -> Scalar {
        self.spec_value().spec_apply_clamp(self.spec_pick(rhs))
    }

    fn apply_min(self, rhs: Size<Constraints<Option<Scalar>>>) -> (r: Scalar) {
        match self {
            Axis::Width(a) => a.apply_min(rhs.width),
            Axis::Height(a) => a.apply_min(rhs.height),
        }
    }

    fn apply_max(self, rhs: Size<Constraints<Option<Scalar>>>) -> (r: Scalar) {
        match self {
            Axis::Width(a) => a.apply_max(rhs.width),
            Axis::Height(a) => a.apply_max(rhs.height),
        }
    }

    fn apply_clamp(self, rhs: Size<Constraints<Option<Scalar>>>) -> (r: Scalar) {
        match self {
            Axis::Width(a) => a.apply_clamp(rhs.width),
            Axis::Height(a) => a.apply_clamp(rhs.height),
        }
    }
}

impl ApplyConstraints<Size<Constraints<Option<Scalar>>>, Length<Scalar>> for Length<Scalar> {
    open spec fn spec_apply_min(self, rhs: Size<Constraints<Option<Scalar>>>) -> Length<Scalar> {
        self.spec_same_axis(self.spec_value().spec_apply_min(self.spec_pick(rhs)))
    }

    open spec fn spec_apply_max(self, rhs: Size<Constraints<Option<Scalar>>>) -> Length<Scalar> {
        self.spec_same_axis(self.spec_value().spec_apply_max(self.spec_pick(rhs)))
    }

    open spec fn spec_apply_clamp(self, rhs: Size<Constraints<Option<Scalar>>>) -> Length<Scalar> {
        self.spec_same_axis(self.spec_value().spec_apply_clamp(self.spec_pick(rhs)))
    }

    fn apply_min(self, rhs: Size<Constraints<Option<Scalar>>>) -> (r: Length<Scalar>) {
        match self {
            Axis::Height(inner) => Axis::Height(inner.apply_min(rhs.height)),
            Axis::Width(inner) => Axis::Width(inner.apply_min(rhs.width)),
        }
    }

    fn apply_max(self, rhs: Size<Constraints<Option<Scalar>>>) -> (r: Length<Scalar>) {
        match self {
            Axis::Height(inner) => Axis::Height(inner.apply_max(rhs.height)),
            Axis::Width(inner) => Axis::Width(inner.apply_max(rhs.width)),
        }
    }

    fn apply_clamp(self, rhs: Size<Constraints<Option<Scalar>>>) -> (r: Length<Scalar>) {
        match self {
            Axis::Height(inner) => Axis::Height(inner.apply_clamp(rhs.height)),
            Axis::Width(inner) => Axis::Width(inner.apply_clamp(rhs.width)),
        }
    }
}

impl ApplyConstraints<Constraints<Option<Scalar>>, Option<Scalar>> for Option<Scalar> {
    open spec fn spec_apply_min(self, rhs: Constraints<Option<Scalar>>) -> Option<Scalar> {
        self.spec_maybe_min(rhs.min)
    }

    open spec fn spec_apply_max(self, rhs: Constraints<Option<Scalar>>) -> Option<Scalar> {
        self.spec_maybe_max(rhs.max)
    }

    open spec fn spec_apply_clamp(self, rhs: Constraints<Option<Scalar>>) -> Option<Scalar> {
        self.spec_maybe_clamp(rhs.min, rhs.max)
    }

    fn apply_min(self, rhs: Constraints<Option<Scalar>>) -> (r: Option<Scalar>) {
        self.maybe_min(rhs.min)
    }

    fn apply_max(self, rhs: Constraints<Option<Scalar>>) -> (r: Option<Scalar>) {
        self.maybe_max(rhs.max)
    }

    fn apply_clamp(self, rhs: Constraints<Option<Scalar>>) -> (r: Option<Scalar>) {
        self.maybe_clamp(rhs.min, rhs.max)
    }
}

impl ApplyConstraints<Size<Constraints<Option<Scalar>>>, Size<Scalar>> for Size<Scalar> {
    open spec fn spec_apply_min(self, rhs: Size<Constraints<Option<Scalar>>>) -> Size<Scalar> {
        Size {
            width: self.width.spec_apply_min(rhs.width),
            height: self.height.spec_apply_min(rhs.height),
        }
    }

    open spec fn spec_apply_max(self, rhs: Size<Constraints<Option<Scalar>>>) -> Size<Scalar> {
        Size {
            width: self.width.spec_apply_max(rhs.width),
            height: self.height.spec_apply_max(rhs.height),
        }
    }

    open spec fn spec_apply_clamp(self, rhs: Size<Constraints<Option<Scalar>>>) -> Size<Scalar> {
        Size {
            width: self.width.spec_apply_clamp(rhs.width),
            height: self.height.spec_apply_clamp(rhs.height),
        }
    }

    fn apply_min(self, rhs: Size<Constraints<Option<Scalar>>>) -> (r: Size<Scalar>) {
        Size { width: self.width.apply_min(rhs.width), height: self.height.apply_min(rhs.height) }
    }

    fn apply_max(self, rhs: Size<Constraints<Option<Scalar>>>) -> (r: Size<Scalar>) {
        Size { width: self.width.apply_max(rhs.width), height: self.height.apply_max(rhs.height) }
    }

    fn apply_clamp(self, rhs: Size<Constraints<Option<Scalar>>>) -> (r: Size<Scalar>) {
        Size {
            width: self.width.apply_clamp(rhs.width),
            height: self.height.apply_clamp(rhs.height),
        }
    }
}

/// The size that a constraint settles on by itself.
pub trait ClampConstraint {
    type Out;

    spec fn spec_clamp_suggested(&self) -> Self::Out;

    /// The suggested size held to the upper bound and then to the lower
    /// bound; indefinite where no size is suggested.
    fn clamp_suggested(&self) -> (r: Self::Out)
        ensures
            r == self.spec_clamp_suggested(),
    ;
}

impl ClampConstraint for Constraints<Option<Scalar>> {
    type Out = Option<Scalar>;

    open spec fn spec_clamp_suggested(&self) -> Option<Scalar> {
        match self.suggested {
            Some(base) => Some(clamp_spec(base, self.min, self.max)),
            None => None,
        }
    }

    fn clamp_suggested(&self) -> (r: Option<Scalar>) {
        match (self.suggested, self.min, self.max) {
            (Some(base), Some(min), Some(max)) => Some(base.min(max).max(min)),
            (Some(base), None, Some(max)) => Some(base.min(max)),
            (Some(base), Some(min), None) => Some(base.max(min)),
            (Some(base), None, None) => Some(base),
            (None, _, _) => None,
        }
    }
}

impl ClampConstraint for Size<Constraints<Option<Scalar>>> {
    type Out = Size<Option<Scalar>>;

    open spec fn spec_clamp_suggested(&self) -> Size<Option<Scalar>> {
        Size {
            width: self.width.spec_clamp_suggested(),
            height: self.height.spec_clamp_suggested(),
        }
    }

    fn clamp_suggested(&self) -> (r: Size<Option<Scalar>>) {
        Size { width: self.width.clamp_suggested(), height: self.height.clamp_suggested() }
    }
}

impl ClampConstraint for Length<Constraints<Option<Scalar>>> {
    type Out = Length<Option<Scalar>>;

    open spec fn spec_clamp_suggested(&self) -> Length<Option<Scalar>> {
        self.spec_same_axis(self.spec_value().spec_clamp_suggested())
    }

    fn clamp_suggested(&self) -> (r: Length<Option<Scalar>>) {
        match self {
            Axis::Width(inner) => Axis::Width(inner.clamp_suggested()),
            Axis::Height(inner) => Axis::Height(inner.clamp_suggested()),
        }
    }
}

/// Whether two values lie on the same axis.
pub open spec fn same_axis<T, U>(a: Length<T>, b: Length<U>) -> bool {
    (a is Width) == (b is Width)
}

impl<T> Add for Length<T> where T: Add<Output = T> {
    type Output = Length<T>;

    /// The sum of two values of one axis.
    fn add(self, rhs: Self) -> (r: Length<T>) {
        match (self, rhs) {
            (Axis::Height(g), Axis::Height(h)) => Axis::Height(g + h),
            (Axis::Width(v), Axis::Width(w)) => Axis::Width(v + w),
            _ => unreached(),
        }
    }
}

impl<T> AddSpecImpl for Length<T> where T: Add<Output = T> {
    open spec fn obeys_add_spec() -> bool {
        T::obeys_add_spec()
    }

    open spec fn add_req(self, rhs: Self) -> bool {
        same_axis(self, rhs) && self.spec_value().add_req(rhs.spec_value())
    }

    open spec fn add_spec(self, rhs: Self) -> Length<T> {
        self.spec_same_axis(self.spec_value().add_spec(rhs.spec_value()))
    }
}

impl<T> Sub for Length<T> where T: Sub<Output = T> {
    type Output = Length<T>;

    /// The difference of two values of one axis.
    fn sub(self, rhs: Self) -> (r: Length<T>) {
        match (self, rhs) {
            (Axis::Height(g), Axis::Height(h)) => Axis::Height(g - h),
            (Axis::Width(v), Axis::Width(w)) => Axis::Width(v - w),
            _ => unreached(),
        }
    }
}

impl<T> SubSpecImpl for Length<T> where T: Sub<Output = T> {
    open spec fn obeys_sub_spec() -> bool {
        T::obeys_sub_spec()
    }

    open spec fn sub_req(self, rhs: Self) -> bool {
        same_axis(self, rhs) && self.spec_value().sub_req(rhs.spec_value())
    }

    open spec fn sub_spec(self, rhs: Self) -> Length<T> {
        self.spec_same_axis(self.spec_value().sub_spec(rhs.spec_value()))
    }
}

impl<T> Mul for Length<T> where T: Mul<Output = T> {
    type Output = Length<T>;

    /// The product of two values of one axis.
    fn mul(self, rhs: Self) -> (r: Length<T>) {
        match (self, rhs) {
            (Axis::Height(g), Axis::Height(h)) => Axis::Height(g * h),
            (Axis::Width(v), Axis::Width(w)) => Axis::Width(v * w),
            _ => unreached(),
        }
    }
}

impl<T> MulSpecImpl for Length<T> where T: Mul<Output = T> {
    open spec fn obeys_mul_spec() -> bool {
        T::obeys_mul_spec()
    }

    open spec fn mul_req(self, rhs: Self) -> bool {
        same_axis(self, rhs) && self.spec_value().mul_req(rhs.spec_value())
    }

    open spec fn mul_spec(self, rhs: Self) -> Length<T> {
        self.spec_same_axis(self.spec_value().mul_spec(rhs.spec_value()))
    }
}

impl<'a, T: 'a> Add<AxisSummer<'a, T>> for Length<T> where T: Add<Output = T> + Copy {
    type Output = Length<T>;

    /// The value plus the sum of the two sides that lie on its axis.
    fn add(self, rhs: AxisSummer<'a, T>) -> (r: Length<T>) {
        match self {
            Axis::Width(a) => Axis::Width(a + rhs.width().value()),
            Axis::Height(a) => Axis::Height(a + rhs.height().value()),
        }
    }
}

impl<'a, T: 'a> AddSpecImpl<AxisSummer<'a, T>> for Length<T> where T: Add<Output = T> + Copy {
    open spec fn obeys_add_spec() -> bool {
        T::obeys_add_spec()
    }

    open spec fn add_req(self, rhs: AxisSummer<'a, T>) -> bool {
        rhs.spec_defined() && match self {
            Axis::Width(a) => a.add_req(rhs.spec_width()),
            Axis::Height(a) => a.add_req(rhs.spec_height()),
        }
    }

    open spec fn add_spec(self, rhs: AxisSummer<'a, T>) -> Length<T> {
        match self {
            Axis::Width(a) => Axis::Width(a.add_spec(rhs.spec_width())),
            Axis::Height(a) => Axis::Height(a.add_spec(rhs.spec_height())),
        }
    }
}

impl<'a, T: 'a> Sub<AxisSummer<'a, T>> for Length<T> where
    T: Sub<Output = T> + Add<Output = T> + Copy,
 {
    type Output = Length<T>;

    /// The value less the sum of the two sides that lie on its axis.
    fn sub(self, rhs: AxisSummer<'a, T>) -> (r: Length<T>) {
        match self {
            Axis::Width(a) => Axis::Width(a - rhs.width().value()),
            Axis::Height(a) => Axis::Height(a - rhs.height().value()),
        }
    }
}

impl<'a, T: 'a> SubSpecImpl<AxisSummer<'a, T>> for Length<T> where
    T: Sub<Output = T> + Add<Output = T> + Copy,
 {
    open spec fn obeys_sub_spec() -> bool {
        T::obeys_sub_spec() && T::obeys_add_spec()
    }

    open spec fn sub_req(self, rhs: AxisSummer<'a, T>) -> bool {
        rhs.spec_defined() && match self {
            Axis::Width(a) => a.sub_req(rhs.spec_width()),
            Axis::Height(a) => a.sub_req(rhs.spec_height()),
        }
    }

    open spec fn sub_spec(self, rhs: AxisSummer<'a, T>) -> Length<T> {
        match self {
            Axis::Width(a) => Axis::Width(a.sub_spec(rhs.spec_width())),
            Axis::Height(a) => Axis::Height(a.sub_spec(rhs.spec_height())),
        }
    }
}

/// An indefinite left-hand operand stays indefinite, and an indefinite
/// right-hand operand contributes nothing.
pub proof fn lemma_indefinite_operands(lhs: Option<Scalar>, rhs: Option<Scalar>)
    ensures
        None::<Scalar>.spec_maybe_min(rhs) is None,
        None::<Scalar>.spec_maybe_max(rhs) is None,
        None::<Scalar>.spec_maybe_add(rhs) is None,
        None::<Scalar>.spec_maybe_sub(rhs) is None,
        None::<Scalar>.spec_maybe_clamp(lhs, rhs) is None,
        lhs.spec_maybe_min(None::<Scalar>) == lhs,
        lhs.spec_maybe_max(None::<Scalar>) == lhs,
        lhs.spec_maybe_add(None::<Scalar>) == lhs,
        lhs.spec_maybe_sub(None::<Scalar>) == lhs,
        lhs.spec_maybe_clamp(None::<Scalar>, None::<Scalar>) == lhs,
{
}

/// Space that is not definite absorbs the operations: it comes back as it
/// is, except that the smaller of it and a definite length is that length.
pub proof fn lemma_intrinsic_space_absorbs(
    space: AvailableSpace,
    rhs: Option<Scalar>,
    min: Option<Scalar>,
    max: Option<Scalar>,
)
    requires
        !(space is Definite),
    ensures
        space.spec_maybe_max(rhs) == space,
        space.spec_maybe_add(rhs) == space,
        space.spec_maybe_sub(rhs) == space,
        space.spec_maybe_clamp(min, max) == space,
        space.spec_maybe_min(None::<Scalar>) == space,
        rhs is Some ==> space.spec_maybe_min(rhs) == AvailableSpace::Definite(rhs->Some_0),
{
}

} // verus!
