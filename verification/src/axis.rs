//! A style as seen along one axis.

use crate::geometry::{Rect, Size};
use crate::scalar::Scalar;
use crate::style::{
    AlignContent, AlignItems, AlignSelf, Dimension, Display, FlexDirection, FlexWrap,
    JustifyContent, LengthPercentage, LengthPercentageAuto, PositionType, Style,
};
use vstd::prelude::*;
use vstd::std_specs::convert::{FromSpecImpl, IntoSpec};

verus! {

/// One of the two axes of a box.
#[derive(Clone, Copy, Debug, PartialEq, Eq, Structural)]
pub enum Axis {
    /// The horizontal axis.
    Row,
    /// The vertical axis.
    Column,
}

impl Axis {
    /// The other axis.
    pub open spec fn spec_cross(self) -> Axis {
        match self {
            Axis::Row => Axis::Column,
            Axis::Column => Axis::Row,
        }
    }

    #[verifier::when_used_as_spec(spec_cross)]
    pub fn cross(self) -> (r: Axis)
        ensures
            r == self.spec_cross(),
    {
        match self {
            Axis::Row => Axis::Column,
            Axis::Column => Axis::Row,
        }
    }
}

impl From<FlexDirection> for Axis {
    /// The main axis of a direction.
    fn from(direction: FlexDirection) -> (r: Axis) {
        match direction {
            FlexDirection::Row | FlexDirection::RowReverse => Axis::Row,
            FlexDirection::Column | FlexDirection::ColumnReverse => Axis::Column,
        }
    }
}

impl FromSpecImpl<FlexDirection> for Axis {
    open spec fn obeys_from_spec() -> bool {
        true
    }

    open spec fn from_spec(direction: FlexDirection) -> Axis {
        if direction.spec_is_row() {
            Axis::Row
        } else {
            Axis::Column
        }
    }
}

/// A style together with the axis along which it is read.
pub struct Extent<'a> {
    pub style: &'a Style,
    pub axis: Axis,
}

impl Style {
    /// The style along the axis that `axis` stands for.
    pub fn axis<A: Into<Axis>>(&self, axis: A) -> (r: Extent<'_>)
        ensures
            *r.style == *self,
            <A as IntoSpec<Axis>>::obeys_into_spec() ==> r.axis == <A as IntoSpec<Axis>>::into_spec(axis),
    {
        Extent { style: self, axis: axis.into() }
    }

    /// The style along the axis that crosses the one that `axis` stands for.
    pub fn cross<A: Into<Axis>>(&self, axis: A) -> (r: Extent<'_>)
        ensures
            *r.style == *self,
            <A as IntoSpec<Axis>>::obeys_into_spec() ==> r.axis == <A as IntoSpec<Axis>>::into_spec(axis).spec_cross(),
    {
        Extent { style: self, axis: axis.into().cross() }
    }
}

impl<T> Rect<T> {
    /// The side that is read as the start of an axis: the left side for
    /// the row, the top side for the column.
    pub open spec fn spec_start(self, axis: Axis) -> T {
        match axis {
            Axis::Row => self.left,
            Axis::Column => self.top,
        }
    }

    /// The side that is read as the end of an axis: the bottom side for the
    /// row, the right side for the column.
    pub open spec fn spec_end(self, axis: Axis) -> T {
        match axis {
            Axis::Row => self.bottom,
            Axis::Column => self.right,
        }
    }

    pub fn start<A: Into<Axis>>(self, axis: A) -> (r: T)
        ensures
            <A as IntoSpec<Axis>>::obeys_into_spec() ==> r == self.spec_start(
                <A as IntoSpec<Axis>>::into_spec(axis),
            ),
    {
        match axis.into() {
            Axis::Row => self.left,
            Axis::Column => self.top,
        }
    }

    pub fn end<A: Into<Axis>>(self, axis: A) -> (r: T)
        ensures
            <A as IntoSpec<Axis>>::obeys_into_spec() ==> r == self.spec_end(
                <A as IntoSpec<Axis>>::into_spec(axis),
            ),
    {
        match axis.into() {
            Axis::Row => self.bottom,
            Axis::Column => self.right,
        }
    }
}

impl<T> Size<T> where T: Copy {
    /// The width for the row, the height for the column.
    pub open spec fn spec_axis(&self, axis: Axis) -> T {
        match axis {
            Axis::Row => self.width,
            Axis::Column => self.height,
        }
    }

    pub fn axis<A: Into<Axis>>(&self, axis: A) -> (r: T)
        ensures
            <A as IntoSpec<Axis>>::obeys_into_spec() ==> r == self.spec_axis(
                <A as IntoSpec<Axis>>::into_spec(axis),
            ),
    {
        match axis.into() {
            Axis::Row => self.width,
            Axis::Column => self.height,
        }
    }
}

impl<'a> Extent<'a> {
    pub fn display(&self) -> (r: Display)
        ensures
            r == self.style.display,
    {
        self.style.display
    }

    pub fn position_type(&self) -> (r: PositionType)
        ensures
            r == self.style.position_type,
    {
        self.style.position_type
    }

    pub fn flex_direction(&self) -> (r: FlexDirection)
        ensures
            r == self.style.flex_direction,
    {
        self.style.flex_direction
    }

    pub fn flex_wrap(&self) -> (r: FlexWrap)
        ensures
            r == self.style.flex_wrap,
    {
        self.style.flex_wrap
    }

    pub fn align_items(&self) -> (r: AlignItems)
        ensures
            r == self.style.align_items,
    {
        self.style.align_items
    }

    pub fn align_self(&self) -> (r: AlignSelf)
        ensures
            r == self.style.align_self,
    {
        self.style.align_self
    }

    pub fn align_content(&self) -> (r: AlignContent)
        ensures
            r == self.style.align_content,
    {
        self.style.align_content
    }

    pub fn justify_content(&self) -> (r: JustifyContent)
        ensures
            r == self.style.justify_content,
    {
        self.style.justify_content
    }

    pub fn position(&self) -> (r: Rect<LengthPercentageAuto>)
        ensures
            r == self.style.position,
    {
        self.style.position
    }

    pub fn margin_start(&self) -> (r: LengthPercentageAuto)
        ensures
            r == self.style.margin.spec_start(self.axis),
    {
        rect_start(self.style.margin, self.axis)
    }

    pub fn margin_end(&self) -> (r: LengthPercentageAuto)
        ensures
            r == self.style.margin.spec_end(self.axis),
    {
        rect_end(self.style.margin, self.axis)
    }

    pub fn padding_start(&self) -> (r: LengthPercentage)
        ensures
            r == self.style.padding.spec_start(self.axis),
    {
        rect_start(self.style.padding, self.axis)
    }

    pub fn padding_end(&self) -> (r: LengthPercentage)
        ensures
            r == self.style.padding.spec_end(self.axis),
    {
        rect_end(self.style.padding, self.axis)
    }

    pub fn border_start(&self) -> (r: LengthPercentage)
        ensures
            r == self.style.border.spec_start(self.axis),
    {
        rect_start(self.style.border, self.axis)
    }

    /// The border at the end of the axis.
    pub fn border_max(&self) -> (r: LengthPercentage)
        ensures
            r == self.style.border.spec_end(self.axis),
    {
        rect_end(self.style.border, self.axis)
    }

    pub fn gap(&self) -> (r: LengthPercentage)
        ensures
            r == self.style.gap.spec_axis(self.axis),
    {
        size_axis(&self.style.gap, self.axis)
    }

    pub fn flex_grow(&self) -> (r: Scalar)
        ensures
            r == self.style.flex_grow,
    {
        self.style.flex_grow
    }

    pub fn flex_shrink(&self) -> (r: Scalar)
        ensures
            r == self.style.flex_shrink,
    {
        self.style.flex_shrink
    }

    pub fn flex_basis(&self) -> (r: Dimension)
        ensures
            r == self.style.flex_basis,
    {
        self.style.flex_basis
    }

    /// The size that the style suggests along the axis.
    pub fn size(&self) -> (r: Dimension)
        ensures
            r == self.style.size_constraints.spec_axis(self.axis).suggested,
    {
        size_axis(&self.style.size_constraints, self.axis).suggested
    }

    /// The lower bound along the axis.
    pub fn min_size(&self) -> (r: Dimension)
        ensures
            r == self.style.size_constraints.spec_axis(self.axis).min,
    {
        size_axis(&self.style.size_constraints, self.axis).min
    }

    /// The upper bound along the axis.
    pub fn max_size(&self) -> (r: Dimension)
        ensures
            r == self.style.size_constraints.spec_axis(self.axis).max,
    {
        size_axis(&self.style.size_constraints, self.axis).max
    }

    pub fn aspect_ratio(&self) -> (r: Option<Scalar>)
        ensures
            r == self.style.aspect_ratio,
    {
        self.style.aspect_ratio
    }
}

fn rect_start<T>(rect: Rect<T>, axis: Axis) -> (r: T)
    ensures
        r == rect.spec_start(axis),
{
    match axis {
        Axis::Row => rect.left,
        Axis::Column => rect.top,
    }
}

fn rect_end<T>(rect: Rect<T>, axis: Axis) -> (r: T)
    ensures
        r == rect.spec_end(axis),
{
    match axis {
        Axis::Row => rect.bottom,
        Axis::Column => rect.right,
    }
}

fn size_axis<T: Copy>(size: &Size<T>, axis: Axis) -> (r: T)
    ensures
        r == size.spec_axis(axis),
{
    match axis {
        Axis::Row => size.width,
        Axis::Column => size.height,
    }
}

} // verus!
