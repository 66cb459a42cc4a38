//! Geometric primitives: sizes, rectangles, points, and values that know
//! which axis they belong to.

use crate::scalar::Scalar;
use crate::style::{Constraint, Constraints, Dimension, FlexDirection};
use core::ops::Add;
use vstd::prelude::*;
use vstd::std_specs::ops::AddSpec;

verus! {

/// A value of the horizontal axis.
#[derive(Clone, Copy, Debug, PartialEq, Eq)]
pub struct Width<T>(pub T);

/// A value of the vertical axis.
#[derive(Clone, Copy, Debug, PartialEq, Eq)]
pub struct Height<T>(pub T);

/// A value together with the axis it belongs to.
#[derive(Clone, Copy, Debug, PartialEq, Eq)]
pub enum Axis<T> {
    Height(T),
    Width(T),
}

/// The same under the name that fits a length.
pub type Length<T> = Axis<T>;

/// Something that has a value on each axis.
pub trait TwoDimensional<T> {
    /// Whether both values can be had.
    spec fn spec_defined(&self) -> bool;

    /// The value on the horizontal axis.
    spec fn spec_width(&self) -> T;

    /// The value on the vertical axis.
    spec fn spec_height(&self) -> T;

    fn width(&self) -> (r: Axis<T>)
        requires
            self.spec_defined(),
        ensures
            r == Axis::Width(self.spec_width()),
    ;

    fn height(&self) -> (r: Axis<T>)
        requires
            self.spec_defined(),
        ensures
            r == Axis::Height(self.spec_height()),
    ;
}

impl<T> Axis<T> {
    /// The value without its axis.
    pub open spec fn spec_value(self) -> T {
        match self {
            Axis::Width(inner) => inner,
            Axis::Height(inner) => inner,
        }
    }

    /// `value` on the axis of `self`.
    pub open spec fn spec_same_axis<U>(self, value: U) -> Axis<U> {
        match self {
            Axis::Width(_) => Axis::Width(value),
            Axis::Height(_) => Axis::Height(value),
        }
    }

    /// The component of `size` on the axis of `self`.
    pub open spec fn spec_pick<U>(self, size: Size<U>) -> U {
        match self {
            Axis::Width(_) => size.width,
            Axis::Height(_) => size.height,
        }
    }

    /// `value` on the main axis of `direction`.
    pub open spec fn spec_from_dir(direction: FlexDirection, value: T) -> Axis<T> {
        if direction.spec_is_row() {
            Axis::Width(value)
        } else {
            Axis::Height(value)
        }
    }

    /// Whether `self` lies on the main axis of `direction`.
    pub fn has_dir(&self, direction: FlexDirection) -> (r: bool)
        ensures
            r == (direction.spec_is_row() == (*self is Width)),
    {
        match direction {
            FlexDirection::Row | FlexDirection::RowReverse => matches!(self, Axis::Width(_)),
            FlexDirection::Column | FlexDirection::ColumnReverse => matches!(self, Axis::Height(_)),
        }
    }

    #[verifier::when_used_as_spec(spec_from_dir)]
    pub fn from_dir(direction: FlexDirection, value: T) -> (r: Axis<T>)
        ensures
            r == Self::spec_from_dir(direction, value),
    {
        match direction {
            FlexDirection::Row | FlexDirection::RowReverse => Axis::Width(value),
            FlexDirection::Column | FlexDirection::ColumnReverse => Axis::Height(value),
        }
    }

    #[verifier::when_used_as_spec(spec_value)]
    pub fn value(self) -> (r: T)
        ensures
            r == self.spec_value(),
    {
        match self {
            Axis::Width(inner) => inner,
            Axis::Height(inner) => inner,
        }
    }

    /// Applies `f` to the value and keeps the axis.
    pub fn with_inner<U>(self, f: impl Fn(T) -> U) -> (r: Axis<U>)
        requires
            f.requires((self.spec_value(),)),
        ensures
            r == self.spec_same_axis(r.spec_value()),
            f.ensures((self.spec_value(),), r.spec_value()),
    {
        match self {
            Axis::Width(width) => Axis::Width(f(width)),
            Axis::Height(height) => Axis::Height(f(height)),
        }
    }

    /// Applies `f` to the value and to the component of `size` on the same
    /// axis, and keeps the axis.
    pub fn with_size<U, V>(self, size: Size<U>, f: impl Fn(T, U) -> V) -> (r: Axis<V>)
        requires
            f.requires((self.spec_value(), self.spec_pick(size))),
        ensures
            r == self.spec_same_axis(r.spec_value()),
            f.ensures((self.spec_value(), self.spec_pick(size)), r.spec_value()),
    {
        match self {
            Axis::Width(width) => Axis::Width(f(width, size.width)),
            Axis::Height(height) => Axis::Height(f(height, size.height)),
        }
    }

    /// The value beside the component of `size` on the same axis.
    pub fn pair_size<U>(self, size: Size<U>) -> (r: Axis<(T, U)>)
        ensures
            r == self.spec_same_axis((self.spec_value(), self.spec_pick(size))),
    {
        match self {
            Axis::Width(width) => Axis::Width((width, size.width)),
            Axis::Height(height) => Axis::Height((height, size.height)),
        }
    }

    /// The value beside what `other` holds on the same axis.
    pub fn pair<U>(self, other: impl TwoDimensional<U>) -> (r: Axis<(T, U)>)
        requires
            other.spec_defined(),
        ensures
            r == match self {
                Axis::Width(width) => Axis::Width((width, other.spec_width())),
                Axis::Height(height) => Axis::Height((height, other.spec_height())),
            },
    {
        match self {
            Axis::Width(width) => Axis::Width((width, other.width().value())),
            Axis::Height(height) => Axis::Height((height, other.height().value())),
        }
    }
}

impl<T> Axis<Option<T>> {
    /// The value where there is one, on its own axis; `or` as it stands where
    /// there is none.
    pub open spec fn spec_unwrap_or(self, or: Axis<T>) -> Axis<T> {
        match self {
            Axis::Height(Some(t)) => Axis::Height(t),
            Axis::Width(Some(t)) => Axis::Width(t),
            _ => or,
        }
    }

    /// `self` where it holds a value; `or` on the axis of `self` where it holds none.
    pub open spec fn spec_or(self, or: T) -> Axis<Option<T>> {
        match self {
            Axis::Height(Some(_)) | Axis::Width(Some(_)) => self,
            Axis::Height(None) => Axis::Height(Some(or)),
            Axis::Width(None) => Axis::Width(Some(or)),
        }
    }

    #[verifier::when_used_as_spec(spec_unwrap_or)]
    pub fn unwrap_or(self, or: Axis<T>) -> (r: Axis<T>)
        ensures
            r == self.spec_unwrap_or(or),
    {
        match self {
            Axis::Height(Some(t)) => Axis::Height(t),
            Axis::Width(Some(t)) => Axis::Width(t),
            _ => or,
        }
    }

    /// As `unwrap_or`, with the replacement made only where it is needed.
    pub fn unwrap_or_else(self, or: impl FnOnce() -> Axis<T>) -> (r: Axis<T>)
        requires
            self.spec_value() is None ==> or.requires(()),
        ensures
            self.spec_value() is Some ==> r == self.spec_same_axis(self.spec_value()->Some_0),
            self.spec_value() is None ==> or.ensures((), r),
    {
        match self {
            Axis::Height(Some(t)) => Axis::Height(t),
            Axis::Width(Some(t)) => Axis::Width(t),
            _ => or(),
        }
    }

    #[verifier::when_used_as_spec(spec_or)]
    pub fn or(self, or: T) -> (r: Axis<Option<T>>)
        ensures
            r == self.spec_or(or),
    {
        match self {
            Axis::Height(Some(t)) => Axis::Height(Some(t)),
            Axis::Width(Some(t)) => Axis::Width(Some(t)),
            Axis::Height(None) => Axis::Height(Some(or)),
            Axis::Width(None) => Axis::Width(Some(or)),
        }
    }

    /// As `or`, with the replacement made only where it is needed.
    pub fn or_else(self, or_else: impl FnOnce() -> T) -> (r: Axis<Option<T>>)
        requires
            self.spec_value() is None ==> or_else.requires(()),
        ensures
            self.spec_value() is Some ==> r == self,
            self.spec_value() is None ==> r.spec_value() is Some && r == self.spec_same_axis(
                r.spec_value(),
            ) && or_else.ensures((), r.spec_value()->Some_0),
    {
        match self {
            Axis::Height(Some(t)) => Axis::Height(Some(t)),
            Axis::Width(Some(t)) => Axis::Width(Some(t)),
            Axis::Height(None) => Axis::Height(Some(or_else())),
            Axis::Width(None) => Axis::Width(Some(or_else())),
        }
    }
}

impl<T: Copy> Axis<Constraints<T>> {
    /// The lower bound, on the same axis.
    pub fn min(&self) -> (r: Axis<T>)
        ensures
            r == self.spec_same_axis(self.spec_value().min),
    {
        match self {
            Axis::Width(inner) => Axis::Width(inner.min),
            Axis::Height(inner) => Axis::Height(inner.min),
        }
    }

    /// The upper bound, on the same axis.
    pub fn max(&self) -> (r: Axis<T>)
        ensures
            r == self.spec_same_axis(self.spec_value().max),
    {
        match self {
            Axis::Width(inner) => Axis::Width(inner.max),
            Axis::Height(inner) => Axis::Height(inner.max),
        }
    }

    /// The size to aim for, on the same axis.
    pub fn suggested(&self) -> (r: Axis<T>)
        ensures
            r == self.spec_same_axis(self.spec_value().suggested),
    {
        match self {
            Axis::Width(inner) => Axis::Width(inner.suggested),
            Axis::Height(inner) => Axis::Height(inner.suggested),
        }
    }
}

/// Four values, one for each side of a box: offsets, or the widths of a
/// margin, a border or a padding.
#[derive(Debug, Copy, Clone, PartialEq, Eq)]
pub struct Rect<T> {
    pub left: T,
    pub right: T,
    pub top: T,
    pub bottom: T,
}

impl<T> Rect<T> {
    /// Applies `f` to each side, together with the width for the left and the
    /// right side and with the height for the top and the bottom side.
    pub fn zip_size<R, F, U>(self, size: Size<U>, f: F) -> (r: Rect<R>) where
        F: Fn(T, U) -> R,
        U: Copy,

        requires
            f.requires((self.left, size.width)),
            f.requires((self.right, size.width)),
            f.requires((self.top, size.height)),
            f.requires((self.bottom, size.height)),
        ensures
            f.ensures((self.left, size.width), r.left),
            f.ensures((self.right, size.width), r.right),
            f.ensures((self.top, size.height), r.top),
            f.ensures((self.bottom, size.height), r.bottom),
    {
        Rect {
            left: f(self.left, size.width),
            right: f(self.right, size.width),
            top: f(self.top, size.height),
            bottom: f(self.bottom, size.height),
        }
    }
}

impl<T> Rect<T> where T: Add<Output = T> + Copy + Clone {
    /// Left plus right: what the two sides take of the width.
    pub fn horizontal_axis_sum(&self) -> (r: T)
        requires
            self.left.add_req(self.right),
        ensures
            T::obeys_add_spec() ==> r == self.left.add_spec(self.right),
    {
        self.left + self.right
    }

    /// Top plus bottom: what the two sides take of the height.
    pub fn vertical_axis_sum(&self) -> (r: T)
        requires
            self.top.add_req(self.bottom),
        ensures
            T::obeys_add_spec() ==> r == self.top.add_spec(self.bottom),
    {
        self.top + self.bottom
    }

    /// The sum of the two sides that lie on the main axis of `direction`.
    pub fn main_axis_sum(&self, direction: FlexDirection) -> (r: T)
        requires
            direction.spec_is_row() ==> self.left.add_req(self.right),
            !direction.spec_is_row() ==> self.top.add_req(self.bottom),
        ensures
            T::obeys_add_spec() ==> r == if direction.spec_is_row() {
                self.left.add_spec(self.right)
            } else {
                self.top.add_spec(self.bottom)
            },
    {
        if direction.is_row() {
            self.horizontal_axis_sum()
        } else {
            self.vertical_axis_sum()
        }
    }

    /// The sum of the two sides that lie on the cross axis of `direction`.
    pub fn cross_axis_sum(&self, direction: FlexDirection) -> (r: T)
        requires
            direction.spec_is_row() ==> self.top.add_req(self.bottom),
            !direction.spec_is_row() ==> self.left.add_req(self.right),
        ensures
            T::obeys_add_spec() ==> r == if direction.spec_is_row() {
                self.top.add_spec(self.bottom)
            } else {
                self.left.add_spec(self.right)
            },
    {
        if direction.is_row() {
            self.vertical_axis_sum()
        } else {
            self.horizontal_axis_sum()
        }
    }

    /// The two sums, to be asked for by axis.
    pub fn axis_sum(&self) -> (r: AxisSummer<T>)
        ensures
            r.0 == self,
    {
        AxisSummer(self)
    }
}

impl<T> Rect<T> where T: Copy + Clone {
    /// The side at which the main axis of `direction` starts.
    pub fn main_start(&self, direction: FlexDirection) -> (r: T)
        ensures
            r == if direction.spec_is_row() {
                self.left
            } else {
                self.top
            },
    {
        if direction.is_row() {
            self.left
        } else {
            self.top
        }
    }

    /// The side at which the main axis of `direction` ends.
    pub fn main_end(&self, direction: FlexDirection) -> (r: T)
        ensures
            r == if direction.spec_is_row() {
                self.right
            } else {
                self.bottom
            },
    {
        if direction.is_row() {
            self.right
        } else {
            self.bottom
        }
    }

    /// The side at which the cross axis of `direction` starts.
    pub fn cross_start(&self, direction: FlexDirection) -> (r: T)
        ensures
            r == if direction.spec_is_row() {
                self.top
            } else {
                self.left
            },
    {
        if direction.is_row() {
            self.top
        } else {
            self.left
        }
    }

    /// The side at which the cross axis of `direction` ends.
    pub fn cross_end(&self, direction: FlexDirection) -> (r: T)
        ensures
            r == if direction.spec_is_row() {
                self.bottom
            } else {
                self.right
            },
    {
        if direction.is_row() {
            self.bottom
        } else {
            self.right
        }
    }
}

impl Rect<Scalar> {
    /// A rectangle with no extent on any side.
    pub fn zero() -> (r: Self)
        ensures
            r == (Rect { left: Scalar(0), right: Scalar(0), top: Scalar(0), bottom: Scalar(0) }),
    {
        Rect { left: Scalar(0), right: Scalar(0), top: Scalar(0), bottom: Scalar(0) }
    }

    pub fn new(start: Scalar, end: Scalar, top: Scalar, bottom: Scalar) -> (r: Self)
        ensures
            r == (Rect { left: start, right: end, top, bottom }),
    {
        Rect { left: start, right: end, top, bottom }
    }
}

/// The sums of opposite sides of a rectangle, to be asked for by axis.
#[verifier::reject_recursive_types(T)]
pub struct AxisSummer<'a, T>(pub &'a Rect<T>) where T: Add<Output = T> + Copy + Clone;

impl<'a, T> TwoDimensional<T> for AxisSummer<'a, T> where T: Add<Output = T> + Copy + Clone {
    open spec fn spec_defined(&self) -> bool {
        &&& T::obeys_add_spec()
        &&& self.0.left.add_req(self.0.right)
        &&& self.0.top.add_req(self.0.bottom)
    }

    open spec fn spec_width(&self) -> T {
        self.0.left.add_spec(self.0.right)
    }

    open spec fn spec_height(&self) -> T {
        self.0.top.add_spec(self.0.bottom)
    }

    fn width(&self) -> (r: Axis<T>) {
        Axis::Width(self.0.horizontal_axis_sum())
    }

    fn height(&self) -> (r: Axis<T>) {
        Axis::Height(self.0.vertical_axis_sum())
    }
}

/// A width and a height.
#[derive(Debug, Copy, Clone, PartialEq, Eq)]
pub struct Size<T> {
    pub width: T,
    pub height: T,
}

impl<T> Size<T> {
    /// `self` with `value` in place of the component on the axis of `value`.
    pub open spec fn spec_set(self, value: Axis<T>) -> Size<T> {
        match value {
            Axis::Width(width) => Size { width, height: self.height },
            Axis::Height(height) => Size { width: self.width, height },
        }
    }

    /// `self` with `value` in place of the component on the main axis of `direction`.
    pub open spec fn spec_set_main(self, direction: FlexDirection, value: T) -> Size<T> {
        if direction.spec_is_row() {
            Size { width: value, height: self.height }
        } else {
            Size { width: self.width, height: value }
        }
    }

    /// `self` with `value` in place of the component on the cross axis of `direction`.
    pub open spec fn spec_set_cross(self, direction: FlexDirection, value: T) -> Size<T> {
        if direction.spec_is_row() {
            Size { width: self.width, height: value }
        } else {
            Size { width: value, height: self.height }
        }
    }

    /// Applies `f` to the width and to the height.
    pub fn map<R, F>(self, f: F) -> (r: Size<R>) where F: Fn(T) -> R
        requires
            f.requires((self.width,)),
            f.requires((self.height,)),
        ensures
            f.ensures((self.width,), r.width),
            f.ensures((self.height,), r.height),
    {
        Size { width: f(self.width), height: f(self.height) }
    }

    /// Applies `f` to the width and keeps the height.
    pub fn map_width<F>(self, f: F) -> (r: Size<T>) where F: Fn(T) -> T
        requires
            f.requires((self.width,)),
        ensures
            f.ensures((self.width,), r.width),
            r.height == self.height,
    {
        Size { width: f(self.width), height: self.height }
    }

    /// Applies `f` to the height and keeps the width.
    pub fn map_height<F>(self, f: F) -> (r: Size<T>) where F: Fn(T) -> T
        requires
            f.requires((self.height,)),
        ensures
            r.width == self.width,
            f.ensures((self.height,), r.height),
    {
        Size { width: self.width, height: f(self.height) }
    }

    /// Applies `f` to the two widths and to the two heights.
    pub fn zip_map<Other, Ret, Func>(self, other: Size<Other>, f: Func) -> (r: Size<Ret>) where
        Func: Fn(T, Other) -> Ret,

        requires
            f.requires((self.width, other.width)),
            f.requires((self.height, other.height)),
        ensures
            f.ensures((self.width, other.width), r.width),
            f.ensures((self.height, other.height), r.height),
    {
        Size { width: f(self.width, other.width), height: f(self.height, other.height) }
    }

    /// Puts `value` in place of the component on its axis.
    pub fn set(&mut self, value: Axis<T>)
        ensures
            *final(self) == old(self).spec_set(value),
    {
        match value {
            Axis::Width(width) => self.width = width,
            Axis::Height(height) => self.height = height,
        }
    }

    /// Puts `value` in place of the component on the main axis of `direction`.
    pub fn set_main(&mut self, direction: FlexDirection, value: T)
        ensures
            *final(self) == old(self).spec_set_main(direction, value),
    {
        if direction.is_row() {
            self.width = value
        } else {
            self.height = value
        }
    }

    /// Puts `value` in place of the component on the cross axis of `direction`.
    pub fn set_cross(&mut self, direction: FlexDirection, value: T)
        ensures
            *final(self) == old(self).spec_set_cross(direction, value),
    {
        if direction.is_row() {
            self.height = value
        } else {
            self.width = value
        }
    }

    /// The component on the main axis of `direction`.
    pub fn main(self, direction: FlexDirection) -> (r: Axis<T>)
        ensures
            r == if direction.spec_is_row() {
                Axis::Width(self.width)
            } else {
                Axis::Height(self.height)
            },
    {
        if direction.is_row() {
            self.width()
        } else {
            self.height()
        }
    }

    /// The component on the cross axis of `direction`.
    pub fn cross(self, direction: FlexDirection) -> (r: Axis<T>)
        ensures
            r == if direction.spec_is_row() {
                Axis::Height(self.height)
            } else {
                Axis::Width(self.width)
            },
    {
        if direction.is_row() {
            self.height()
        } else {
            self.width()
        }
    }

    pub fn height(self) -> (r: Axis<T>)
        ensures
            r == Axis::Height(self.height),
    {
        Axis::Height(self.height)
    }

    pub fn width(self) -> (r: Axis<T>)
        ensures
            r == Axis::Width(self.width),
    {
        Axis::Width(self.width)
    }
}

impl Size<Scalar> {
    /// No width and no height.
    pub fn zero() -> (r: Self)
        ensures
            r == (Size { width: Scalar(0), height: Scalar(0) }),
    {
        Size { width: Scalar(0), height: Scalar(0) }
    }
}

impl Size<Option<Scalar>> {
    /// Neither dimension known.
    pub fn none() -> (r: Self)
        ensures
            r == (Size { width: None::<Scalar>, height: None::<Scalar> }),
    {
        Size { width: None, height: None }
    }

    /// Both dimensions known.
    pub fn new(width: Scalar, height: Scalar) -> (r: Self)
        ensures
            r == (Size { width: Some(width), height: Some(height) }),
    {
        Size { width: Some(width), height: Some(height) }
    }

    /// Per component, the known value, or that of `alt` where none is known.
    pub open spec fn spec_unwrap_or(self, alt: Size<Scalar>) -> Size<Scalar> {
        Size {
            width: match self.width {
                Some(width) => width,
                None => alt.width,
            },
            height: match self.height {
                Some(height) => height,
                None => alt.height,
            },
        }
    }

    /// Per component, the known value, or what `alt` holds where none is known.
    pub open spec fn spec_or(self, alt: Size<Option<Scalar>>) -> Size<Option<Scalar>> {
        Size {
            width: if self.width is Some {
                self.width
            } else {
                alt.width
            },
            height: if self.height is Some {
                self.height
            } else {
                alt.height
            },
        }
    }

    #[verifier::when_used_as_spec(spec_unwrap_or)]
    pub fn unwrap_or(self, alt: Size<Scalar>) -> (r: Size<Scalar>)
        ensures
            r == self.spec_unwrap_or(alt),
    {
        Size {
            width: match self.width {
                Some(width) => width,
                None => alt.width,
            },
            height: match self.height {
                Some(height) => height,
                None => alt.height,
            },
        }
    }

    #[verifier::when_used_as_spec(spec_or)]
    pub fn or(self, alt: Size<Option<Scalar>>) -> (r: Size<Option<Scalar>>)
        ensures
            r == self.spec_or(alt),
    {
        Size {
            width: match self.width {
                Some(_) => self.width,
                None => alt.width,
            },
            height: match self.height {
                Some(_) => self.height,
                None => alt.height,
            },
        }
    }
}

impl Size<Dimension> {
    /// A width and a height given outright.
    pub fn from_points(width: Scalar, height: Scalar) -> (r: Self)
        ensures
            r == (Size { width: Dimension::Points(width), height: Dimension::Points(height) }),
    {
        Size { width: Dimension::Points(width), height: Dimension::Points(height) }
    }

    /// A width and a height given as fractions of the parent's.
    pub fn from_percent(width: Scalar, height: Scalar) -> (r: Self)
        ensures
            r == (Size { width: Dimension::Percent(width), height: Dimension::Percent(height) }),
    {
        Size { width: Dimension::Percent(width), height: Dimension::Percent(height) }
    }

    /// Both dimensions left to the algorithm.
    pub fn auto() -> (r: Self)
        ensures
            r == (Size { width: Dimension::Auto, height: Dimension::Auto }),
    {
        Size { width: Dimension::Auto, height: Dimension::Auto }
    }

    /// Nothing asked of either dimension.
    pub fn undefined() -> (r: Self)
        ensures
            r == (Size { width: Dimension::Undefined, height: Dimension::Undefined }),
    {
        Size { width: Dimension::Undefined, height: Dimension::Undefined }
    }
}

/// A place in the plane.
#[derive(Debug, Copy, Clone, PartialEq, Eq)]
pub struct Point<T> {
    pub x: T,
    pub y: T,
}

impl Point<Scalar> {
    /// The origin.
    pub fn zero() -> (r: Self)
        ensures
            r == (Point { x: Scalar(0), y: Scalar(0) }),
    {
        Point { x: Scalar(0), y: Scalar(0) }
    }
}

impl Size<Constraints<Option<Scalar>>> {
    /// One tier of both axes.
    pub open spec fn spec_get(&self, constraint: Constraint) -> Size<Option<Scalar>> {
        Size { width: self.width.spec_get(constraint), height: self.height.spec_get(constraint) }
    }

    #[verifier::when_used_as_spec(spec_get)]
    pub fn get(&self, constraint: Constraint) -> (r: Size<Option<Scalar>>)
        ensures
            r == self.spec_get(constraint),
    {
        Size { width: self.width.get(constraint), height: self.height.get(constraint) }
    }

    /// The lower bounds.
    pub fn min(&self) -> (r: Size<Option<Scalar>>)
        ensures
            r == (Size { width: self.width.min, height: self.height.min }),
    {
        self.get(Constraint::Min)
    }

    /// The sizes to aim for.
    pub fn suggested(&self) -> (r: Size<Option<Scalar>>)
        ensures
            r == (Size { width: self.width.suggested, height: self.height.suggested }),
    {
        self.get(Constraint::Suggested)
    }

    /// The upper bounds.
    pub fn max(&self) -> (r: Size<Option<Scalar>>)
        ensures
            r == (Size { width: self.width.max, height: self.height.max }),
    {
        self.get(Constraint::Max)
    }
}

impl Size<Constraints<Dimension>> {
    /// Every tier of both axes left to the algorithm.
    pub open spec fn spec_auto_constraints() -> Self {
        Size {
            width: Constraints::<Dimension>::spec_auto(),
            height: Constraints::<Dimension>::spec_auto(),
        }
    }

    /// Nothing asked on any tier of either axis.
    pub open spec fn spec_undefined_constraints() -> Self {
        Size {
            width: Constraints::<Dimension>::spec_undefined(),
            height: Constraints::<Dimension>::spec_undefined(),
        }
    }

    /// `value` on one tier, per axis, and nothing asked on the other tiers.
    pub open spec fn spec_from(constraint: Constraint, value: Size<Dimension>) -> Self {
        Size {
            width: Constraints::<Dimension>::spec_from_constraint(constraint, value.width),
            height: Constraints::<Dimension>::spec_from_constraint(constraint, value.height),
        }
    }

    /// One tier of both axes.
    pub open spec fn spec_get(&self, constraint: Constraint) -> Size<Dimension> {
        Size { width: self.width.spec_get(constraint), height: self.height.spec_get(constraint) }
    }

    #[verifier::when_used_as_spec(spec_auto_constraints)]
    pub fn auto_constraints() -> (r: Self)
        ensures
            r == Self::spec_auto_constraints(),
    {
        Size { width: Constraints::<Dimension>::auto(), height: Constraints::<Dimension>::auto() }
    }

    #[verifier::when_used_as_spec(spec_undefined_constraints)]
    pub fn undefined_constraints() -> (r: Self)
        ensures
            r == Self::spec_undefined_constraints(),
    {
        Size {
            width: Constraints::<Dimension>::undefined(),
            height: Constraints::<Dimension>::undefined(),
        }
    }

    /// Lower bounds alone.
    pub fn min_from(min: Size<Dimension>) -> (r: Self)
        ensures
            r == Self::spec_from(Constraint::Min, min),
    {
        Size {
            width: Constraints::<Dimension>::min(min.width),
            height: Constraints::<Dimension>::min(min.height),
        }
    }

    /// Sizes to aim for, with no bounds.
    pub fn suggested_from(suggested: Size<Dimension>) -> (r: Self)
        ensures
            r == Self::spec_from(Constraint::Suggested, suggested),
    {
        Size {
            width: Constraints::<Dimension>::suggested(suggested.width),
            height: Constraints::<Dimension>::suggested(suggested.height),
        }
    }

    /// Upper bounds alone.
    pub fn max_from(max: Size<Dimension>) -> (r: Self)
        ensures
            r == Self::spec_from(Constraint::Max, max),
    {
        Size {
            width: Constraints::<Dimension>::max(max.width),
            height: Constraints::<Dimension>::max(max.height),
        }
    }

    pub fn min_from_points(width: Scalar, height: Scalar) -> (r: Self)
        ensures
            r == Self::spec_from(
                Constraint::Min,
                Size { width: Dimension::Points(width), height: Dimension::Points(height) },
            ),
    {
        Self::min_from(Size::<Dimension>::from_points(width, height))
    }

    pub fn max_from_points(width: Scalar, height: Scalar) -> (r: Self)
        ensures
            r == Self::spec_from(
                Constraint::Max,
                Size { width: Dimension::Points(width), height: Dimension::Points(height) },
            ),
    {
        Self::max_from(Size::<Dimension>::from_points(width, height))
    }

    pub fn suggested_from_points(width: Scalar, height: Scalar) -> (r: Self)
        ensures
            r == Self::spec_from(
                Constraint::Suggested,
                Size { width: Dimension::Points(width), height: Dimension::Points(height) },
            ),
    {
        Self::suggested_from(Size::<Dimension>::from_points(width, height))
    }

    pub fn min_from_percent(width: Scalar, height: Scalar) -> (r: Self)
        ensures
            r == Self::spec_from(
                Constraint::Min,
                Size { width: Dimension::Percent(width), height: Dimension::Percent(height) },
            ),
    {
        Self::min_from(Size::<Dimension>::from_percent(width, height))
    }

    pub fn max_from_percent(width: Scalar, height: Scalar) -> (r: Self)
        ensures
            r == Self::spec_from(
                Constraint::Max,
                Size { width: Dimension::Percent(width), height: Dimension::Percent(height) },
            ),
    {
        Self::max_from(Size::<Dimension>::from_percent(width, height))
    }

    pub fn suggested_from_percent(width: Scalar, height: Scalar) -> (r: Self)
        ensures
            r == Self::spec_from(
                Constraint::Suggested,
                Size { width: Dimension::Percent(width), height: Dimension::Percent(height) },
            ),
    {
        Self::suggested_from(Size::<Dimension>::from_percent(width, height))
    }

    #[verifier::when_used_as_spec(spec_get)]
    pub fn get(&self, constraint: Constraint) -> (r: Size<Dimension>)
        ensures
            r == self.spec_get(constraint),
    {
        Size { width: self.width.get(constraint), height: self.height.get(constraint) }
    }

    /// The lower bounds.
    pub fn min(&self) -> (r: Size<Dimension>)
        ensures
            r == (Size { width: self.width.min, height: self.height.min }),
    {
        self.get(Constraint::Min)
    }

    /// The sizes to aim for.
    pub fn suggested(&self) -> (r: Size<Dimension>)
        ensures
            r == (Size { width: self.width.suggested, height: self.height.suggested }),
    {
        self.get(Constraint::Suggested)
    }

    /// The upper bounds.
    pub fn max(&self) -> (r: Size<Dimension>)
        ensures
            r == (Size { width: self.width.max, height: self.height.max }),
    {
        self.get(Constraint::Max)
    }

    /// The given constraints on the width; the height left to the algorithm.
    pub fn from_width(width: Constraints<Dimension>) -> (r: Self)
        ensures
            r == (Size { width, height: Constraints::<Dimension>::spec_auto() }),
    {
        Size { width, height: Constraints::<Dimension>::auto() }
    }

    /// The given constraints on the height; the width left to the algorithm.
    pub fn from_height(height: Constraints<Dimension>) -> (r: Self)
        ensures
            r == (Size { width: Constraints::<Dimension>::spec_auto(), height }),
    {
        Size { width: Constraints::<Dimension>::auto(), height }
    }

    /// One tier of the width; the height left to the algorithm.
    pub fn constraint_from_width(constraint: Constraint, width: Dimension) -> (r: Self)
        ensures
            r == (Size {
                width: Constraints::<Dimension>::spec_from_constraint(constraint, width),
                height: Constraints::<Dimension>::spec_auto(),
            }),
    {
        Size {
            width: Constraints::<Dimension>::from_constraint(constraint, width),
            height: Constraints::<Dimension>::auto(),
        }
    }

    /// One tier of the width, as `constraint_from_width` gives it; the height
    /// is left to the algorithm here too.
    pub fn constraint_from_height(constraint: Constraint, width: Dimension) -> (r: Self)
        ensures
            r == (Size {
                width: Constraints::<Dimension>::spec_from_constraint(constraint, width),
                height: Constraints::<Dimension>::spec_auto(),
            }),
    {
        Size {
            width: Constraints::<Dimension>::from_constraint(constraint, width),
            height: Constraints::<Dimension>::auto(),
        }
    }

    /// A lower bound on the width; the height left to the algorithm.
    pub fn min_from_width(width: Dimension) -> (r: Self)
        ensures
            r == (Size {
                width: Constraints::<Dimension>::spec_from_constraint(Constraint::Min, width),
                height: Constraints::<Dimension>::spec_auto(),
            }),
    {
        Self::constraint_from_width(Constraint::Min, width)
    }

    /// A lower bound on the height; the width left to the algorithm.
    pub fn min_from_height(height: Dimension) -> (r: Self)
        ensures
            r == (Size {
                width: Constraints::<Dimension>::spec_auto(),
                height: Constraints::<Dimension>::spec_from_constraint(Constraint::Min, height),
            }),
    {
        Size {
            width: Constraints::<Dimension>::auto(),
            height: Constraints::<Dimension>::from_constraint(Constraint::Min, height),
        }
    }

    /// A width to aim for; the height left to the algorithm.
    pub fn suggested_from_width(width: Dimension) -> (r: Self)
        ensures
            r == (Size {
                width: Constraints::<Dimension>::spec_from_constraint(Constraint::Suggested, width),
                height: Constraints::<Dimension>::spec_auto(),
            }),
    {
        Self::constraint_from_width(Constraint::Suggested, width)
    }

    /// A height to aim for; the width left to the algorithm.
    pub fn suggested_from_height(height: Dimension) -> (r: Self)
        ensures
            r == (Size {
                width: Constraints::<Dimension>::spec_auto(),
                height: Constraints::<Dimension>::spec_from_constraint(
                    Constraint::Suggested,
                    height,
                ),
            }),
    {
        Size {
            width: Constraints::<Dimension>::auto(),
            height: Constraints::<Dimension>::from_constraint(Constraint::Suggested, height),
        }
    }

    /// An upper bound on the width; the height left to the algorithm.
    pub fn max_from_width(width: Dimension) -> (r: Self)
        ensures
            r == (Size {
                width: Constraints::<Dimension>::spec_from_constraint(Constraint::Max, width),
                height: Constraints::<Dimension>::spec_auto(),
            }),
    {
        Self::constraint_from_width(Constraint::Max, width)
    }

    /// An upper bound on the height; the width left to the algorithm.
    pub fn max_from_height(height: Dimension) -> (r: Self)
        ensures
            r == (Size {
                width: Constraints::<Dimension>::spec_auto(),
                height: Constraints::<Dimension>::spec_from_constraint(Constraint::Max, height),
            }),
    {
        Size {
            width: Constraints::<Dimension>::auto(),
            height: Constraints::<Dimension>::from_constraint(Constraint::Max, height),
        }
    }

    /// Whether the style names a lower or an upper bound on either axis.
    pub fn has_min_or_max(&self) -> (r: bool)
        ensures
            r == (self.width.spec_has_min_or_max() || self.height.spec_has_min_or_max()),
    {
        self.width.has_min_or_max() || self.height.has_min_or_max()
    }
}

/// A value in which known parts of another take the place of its own.
pub trait MaybeSet<T>: Sized {
    /// `self` with what `value` knows in place of its own.
    spec fn spec_maybe_set(self, value: T) -> Self;

    fn maybe_set(self, value: T) -> (r: Self)
        ensures
            r == self.spec_maybe_set(value),
    ;
}

} // verus!
