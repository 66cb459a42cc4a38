//! What a layout pass is given and what it leaves behind.

use crate::geometry::{MaybeSet, Point, Size};
use crate::scalar::Scalar;
use vstd::prelude::*;

verus! {

/// Whether a request wants the node laid out for good or only its size.
#[derive(Clone, Copy, Debug, PartialEq, Eq, Structural)]
pub enum RunMode {
    /// Lay the node out for good: sizes and positions are written back.
    PerformLayout,
    /// Only the node's size is wanted, for a hypothesis of its parent.
    ComputeSize,
}

/// How the dimensions that are already known are to be taken.
#[derive(Clone, Copy, Debug, PartialEq, Eq, Structural)]
pub enum SizingMode {
    /// The known dimensions are the size of the content; the style's own
    /// constraints are not read.
    ContentSize,
    /// The style's constraints are resolved against the available space,
    /// and a known dimension takes the place of the size they suggest.
    InherentSize,
}

/// The room that a parent offers to a child along one axis.
#[derive(Clone, Copy, Debug, PartialEq, Eq, Structural)]
pub enum AvailableSpace {
    /// So many units.
    Definite(Scalar),
    /// No room is offered: the node is asked for the least that its content needs.
    MinContent,
    /// No room is offered: the node is asked for all that its content would take.
    MaxContent,
}

impl AvailableSpace {
    /// The room where it is definite.
    pub open spec fn spec_into_option(self) -> Option<Scalar> {
        match self {
            AvailableSpace::Definite(value) => Some(value),
            _ => None,
        }
    }

    /// No room at all.
    pub fn zero() -> (r: Self)
        ensures
            r == AvailableSpace::Definite(Scalar(0)),
    {
        AvailableSpace::Definite(Scalar(0))
    }

    pub fn is_definite(self) -> (r: bool)
        ensures
            r == (self is Definite),
    {
        matches!(self, AvailableSpace::Definite(_))
    }

    #[verifier::when_used_as_spec(spec_into_option)]
    pub fn into_option(self) -> (r: Option<Scalar>)
        ensures
            r == self.spec_into_option(),
    {
        match self {
            AvailableSpace::Definite(value) => Some(value),
            _ => None,
        }
    }

    /// The room where it is definite, else `default`.
    pub fn unwrap_or(self, default: Scalar) -> (r: Scalar)
        ensures
            r == match self {
                AvailableSpace::Definite(value) => value,
                _ => default,
            },
    {
        match self {
            AvailableSpace::Definite(value) => value,
            _ => default,
        }
    }
}

impl MaybeSet<Option<Scalar>> for AvailableSpace {
    open spec fn spec_maybe_set(self, value: Option<Scalar>) -> Self {
        match value {
            Some(value) => AvailableSpace::Definite(value),
            None => self,
        }
    }

    /// A known dimension is all the room there is; without one the offer stands.
    fn maybe_set(self, value: Option<Scalar>) -> (r: Self) {
        match value {
            Some(value) => AvailableSpace::Definite(value),
            None => self,
        }
    }
}

impl Size<AvailableSpace> {
    /// Per axis, the room where it is definite.
    pub open spec fn spec_as_options(self) -> Size<Option<Scalar>> {
        Size { width: self.width.spec_into_option(), height: self.height.spec_into_option() }
    }

    /// Both axes asked for all that the content would take.
    pub fn max_content() -> (r: Self)
        ensures
            r == (Size { width: AvailableSpace::MaxContent, height: AvailableSpace::MaxContent }),
    {
        Size { width: AvailableSpace::MaxContent, height: AvailableSpace::MaxContent }
    }

    /// Both axes asked for the least that the content needs.
    pub fn min_content() -> (r: Self)
        ensures
            r == (Size { width: AvailableSpace::MinContent, height: AvailableSpace::MinContent }),
    {
        Size { width: AvailableSpace::MinContent, height: AvailableSpace::MinContent }
    }

    #[verifier::when_used_as_spec(spec_as_options)]
    pub fn as_options(self) -> (r: Size<Option<Scalar>>)
        ensures
            r == self.spec_as_options(),
    {
        Size { width: self.width.into_option(), height: self.height.into_option() }
    }
}

impl MaybeSet<Size<Option<Scalar>>> for Size<AvailableSpace> {
    open spec fn spec_maybe_set(self, value: Size<Option<Scalar>>) -> Self {
        Size {
            width: self.width.spec_maybe_set(value.width),
            height: self.height.spec_maybe_set(value.height),
        }
    }

    fn maybe_set(self, value: Size<Option<Scalar>>) -> (r: Self) {
        Size {
            width: self.width.maybe_set(value.width),
            height: self.height.maybe_set(value.height),
        }
    }
}

/// Where a layout pass has put a node.
#[derive(Clone, Copy, Debug, PartialEq, Eq)]
pub struct Layout {
    /// The node's place among its siblings, from the back to the front.
    pub order: u32,
    pub size: Size<Scalar>,
    /// The offset from the origin of the parent's content box.
    pub location: Point<Scalar>,
}

impl Layout {
    /// A node of no size at the origin, `order` from the back.
    pub open spec fn spec_with_order(order: u32) -> Layout {
        Layout {
            order,
            size: Size { width: Scalar(0), height: Scalar(0) },
            location: Point { x: Scalar(0), y: Scalar(0) },
        }
    }

    /// The layout of a node that no pass has reached yet.
    pub fn new() -> (r: Layout)
        ensures
            r == Layout::spec_with_order(0),
    {
        Layout { order: 0, size: Size::<Scalar>::zero(), location: Point::<Scalar>::zero() }
    }

    #[verifier::when_used_as_spec(spec_with_order)]
    pub fn with_order(order: u32) -> (r: Layout)
        ensures
            r == Layout::spec_with_order(order),
    {
        Layout { order, size: Size::<Scalar>::zero(), location: Point::<Scalar>::zero() }
    }
}

/// One remembered answer: the inputs of a sizing request and the size that
/// they came to.
#[derive(Clone, Copy, Debug, PartialEq, Eq)]
pub struct Cache {
    pub known_dimensions: Size<Option<Scalar>>,
    pub available_space: Size<AvailableSpace>,
    pub run_mode: RunMode,
    pub sizing_mode: SizingMode,
    pub cached_size: Size<Scalar>,
}

impl Cache {
    /// Whether the entry answers a request with these inputs: all four are
    /// the same.
    pub open spec fn spec_matches(
        self,
        known_dimensions: Size<Option<Scalar>>,
        available_space: Size<AvailableSpace>,
        run_mode: RunMode,
        sizing_mode: SizingMode,
    ) -> bool {
        &&& self.known_dimensions == known_dimensions
        &&& self.available_space == available_space
        &&& self.run_mode == run_mode
        &&& self.sizing_mode == sizing_mode
    }

    #[verifier::when_used_as_spec(spec_matches)]
    pub fn matches(
        self,
        known_dimensions: Size<Option<Scalar>>,
        available_space: Size<AvailableSpace>,
        run_mode: RunMode,
        sizing_mode: SizingMode,
    ) -> (r: bool)
        ensures
            r == self.spec_matches(known_dimensions, available_space, run_mode, sizing_mode),
    {
        same_length(self.known_dimensions.width, known_dimensions.width) && same_length(
            self.known_dimensions.height,
            known_dimensions.height,
        ) && same_space(self.available_space.width, available_space.width) && same_space(
            self.available_space.height,
            available_space.height,
        ) && self.run_mode == run_mode && self.sizing_mode == sizing_mode
    }
}

fn same_length(a: Option<Scalar>, b: Option<Scalar>) -> (r: bool)
    ensures
        r == (a == b),
{
    match (a, b) {
        (Some(a), Some(b)) => a.0 == b.0,
        (None, None) => true,
        _ => false,
    }
}

fn same_space(a: AvailableSpace, b: AvailableSpace) -> (r: bool)
    ensures
        r == (a == b),
{
    match (a, b) {
        (AvailableSpace::Definite(a), AvailableSpace::Definite(b)) => a.0 == b.0,
        (AvailableSpace::MinContent, AvailableSpace::MinContent) => true,
        (AvailableSpace::MaxContent, AvailableSpace::MaxContent) => true,
        _ => false,
    }
}

} // verus!
