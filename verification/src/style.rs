//! The style of a node: what the caller asks of its layout.

use crate::geometry::{Rect, Size};
use crate::scalar::Scalar;
use vstd::prelude::*;

verus! {

/// How the children of a container are placed on its cross axis.
#[derive(Clone, Copy, Debug, PartialEq, Eq, Structural)]
pub enum AlignItems {
    FlexStart,
    FlexEnd,
    Center,
    Baseline,
    Stretch,
}

impl Default for AlignItems {
    fn default() -> (r: Self)
        ensures
            r == AlignItems::Stretch,
    {
        AlignItems::Stretch
    }
}

/// How one child is placed on the cross axis of its container, over the container's own choice.
#[derive(Clone, Copy, Debug, PartialEq, Eq, Structural)]
pub enum AlignSelf {
    Auto,
    FlexStart,
    FlexEnd,
    Center,
    Baseline,
    Stretch,
}

impl Default for AlignSelf {
    fn default() -> (r: Self)
        ensures
            r == AlignSelf::Auto,
    {
        AlignSelf::Auto
    }
}

/// How the lines of a wrapping container are spread over its cross axis.
#[derive(Clone, Copy, Debug, PartialEq, Eq, Structural)]
pub enum AlignContent {
    FlexStart,
    FlexEnd,
    Center,
    Stretch,
    SpaceBetween,
    SpaceAround,
    SpaceEvenly,
}

impl Default for AlignContent {
    fn default() -> (r: Self)
        ensures
            r == AlignContent::Stretch,
    {
        AlignContent::Stretch
    }
}

/// How the children of a container are spread over its main axis.
#[derive(Clone, Copy, Debug, PartialEq, Eq, Structural)]
pub enum JustifyContent {
    FlexStart,
    FlexEnd,
    Center,
    SpaceBetween,
    SpaceAround,
    SpaceEvenly,
}

impl Default for JustifyContent {
    fn default() -> (r: Self)
        ensures
            r == JustifyContent::FlexStart,
    {
        JustifyContent::FlexStart
    }
}

/// Whether a node takes part in layout, and by which algorithm its children are placed.
#[derive(Clone, Copy, Debug, PartialEq, Eq, Structural)]
pub enum Display {
    /// The children are placed by the flexbox pass.
    Flex,
    /// The children are placed by the grid pass.
    Grid,
    /// The node and what is below it take no room.
    Hidden,
}

impl Default for Display {
    fn default() -> (r: Self)
        ensures
            r == Display::Flex,
    {
        Display::Flex
    }
}

/// Whether a node is placed in the flow of its siblings or on its own.
#[derive(Clone, Copy, Debug, PartialEq, Eq, Structural)]
pub enum PositionType {
    Relative,
    Absolute,
}

impl Default for PositionType {
    fn default() -> (r: Self)
        ensures
            r == PositionType::Relative,
    {
        PositionType::Relative
    }
}

/// The direction of a container's main axis.
#[derive(Clone, Copy, Debug, PartialEq, Eq, Structural)]
pub enum FlexDirection {
    Row,
    Column,
    RowReverse,
    ColumnReverse,
}

impl Default for FlexDirection {
    fn default() -> (r: Self)
        ensures
            r == FlexDirection::Row,
    {
        FlexDirection::Row
    }
}

/// Whether the children of a container may go on to further lines.
#[derive(Clone, Copy, Debug, PartialEq, Eq, Structural)]
pub enum FlexWrap {
    NoWrap,
    Wrap,
    WrapReverse,
}

impl Default for FlexWrap {
    fn default() -> (r: Self)
        ensures
            r == FlexWrap::NoWrap,
    {
        FlexWrap::NoWrap
    }
}

impl FlexDirection {
    /// Whether the main axis is the horizontal one.
    pub open spec fn spec_is_row(self) -> bool {
        self == FlexDirection::Row || self == FlexDirection::RowReverse
    }

    #[verifier::when_used_as_spec(spec_is_row)]
    pub fn is_row(self) -> (r: bool)
        ensures
            r == self.spec_is_row(),
    {
        match self {
            FlexDirection::Row | FlexDirection::RowReverse => true,
            FlexDirection::Column | FlexDirection::ColumnReverse => false,
        }
    }

    /// Whether the main axis is the vertical one.
    pub fn is_column(self) -> (r: bool)
        ensures
            r == !self.spec_is_row(),
    {
        match self {
            FlexDirection::Row | FlexDirection::RowReverse => false,
            FlexDirection::Column | FlexDirection::ColumnReverse => true,
        }
    }

    /// Whether the children are placed from the end of the main axis.
    pub fn is_reverse(self) -> (r: bool)
        ensures
            r == (self == FlexDirection::RowReverse || self == FlexDirection::ColumnReverse),
    {
        match self {
            FlexDirection::RowReverse | FlexDirection::ColumnReverse => true,
            FlexDirection::Row | FlexDirection::Column => false,
        }
    }
}

/// A length that the caller gives outright or as a fraction of the
/// dimension it is resolved against.
#[derive(Clone, Copy, Debug, PartialEq, Eq, Structural)]
pub enum LengthPercentage {
    /// So many units.
    Points(Scalar),
    /// This fraction of the reference dimension; `Scalar::one()` is the whole of it.
    Percent(Scalar),
}

impl Default for LengthPercentage {
    fn default() -> (r: Self)
        ensures
            r == LengthPercentage::Points(Scalar(0)),
    {
        LengthPercentage::Points(Scalar(0))
    }
}

/// A length that may also be left to the algorithm.
#[derive(Clone, Copy, Debug, PartialEq, Eq, Structural)]
pub enum LengthPercentageAuto {
    /// So many units.
    Points(Scalar),
    /// This fraction of the reference dimension; `Scalar::one()` is the whole of it.
    Percent(Scalar),
    /// Whatever the algorithm decides.
    Auto,
}

impl Default for LengthPercentageAuto {
    fn default() -> (r: Self)
        ensures
            r == LengthPercentageAuto::Points(Scalar(0)),
    {
        LengthPercentageAuto::Points(Scalar(0))
    }
}

/// One dimension of a node as the style gives it.
#[derive(Clone, Copy, Debug, PartialEq, Eq, Structural)]
pub enum Dimension {
    /// Nothing is asked.
    Undefined,
    /// Whatever the content or the algorithm decides.
    Auto,
    /// So many units.
    Points(Scalar),
    /// This fraction of the parent's dimension; `Scalar::one()` is the whole of it.
    Percent(Scalar),
}

impl Default for Dimension {
    fn default() -> (r: Self)
        ensures
            r == Dimension::Undefined,
    {
        Dimension::Undefined
    }
}

impl Dimension {
    /// Whether the style names a length, outright or as a fraction.
    pub open spec fn spec_is_defined(self) -> bool {
        self is Points || self is Percent
    }

    #[verifier::when_used_as_spec(spec_is_defined)]
    pub fn is_defined(self) -> (r: bool)
        ensures
            r == self.spec_is_defined(),
    {
        match self {
            Dimension::Points(_) | Dimension::Percent(_) => true,
            Dimension::Undefined | Dimension::Auto => false,
        }
    }
}

/// One of the three tiers of a constraint.
#[derive(Clone, Copy, Debug, PartialEq, Eq, Structural)]
pub enum Constraint {
    Min,
    Suggested,
    Max,
}

/// What is asked of one dimension: the size to aim for, and the bounds it is
/// held to. Where the bounds cross, the lower one wins.
#[derive(Clone, Copy, Debug, PartialEq, Eq)]
pub struct Constraints<T> {
    pub min: T,
    pub suggested: T,
    pub max: T,
}

impl<T: Copy> Constraints<T> {
    /// The tier that `constraint` names.
    pub open spec fn spec_get(&self, constraint: Constraint) -> T {
        match constraint {
            Constraint::Min => self.min,
            Constraint::Suggested => self.suggested,
            Constraint::Max => self.max,
        }
    }

    #[verifier::when_used_as_spec(spec_get)]
    pub fn get(&self, constraint: Constraint) -> (r: T)
        ensures
            r == self.spec_get(constraint),
    {
        match constraint {
            Constraint::Min => self.min,
            Constraint::Suggested => self.suggested,
            Constraint::Max => self.max,
        }
    }
}

impl Constraints<Dimension> {
    /// All three tiers left to the algorithm.
    pub open spec fn spec_auto() -> Self {
        Constraints { min: Dimension::Auto, suggested: Dimension::Auto, max: Dimension::Auto }
    }

    /// Nothing asked on any tier.
    pub open spec fn spec_undefined() -> Self {
        Constraints {
            min: Dimension::Undefined,
            suggested: Dimension::Undefined,
            max: Dimension::Undefined,
        }
    }

    /// `value` on the tier that `constraint` names, and nothing asked on the others.
    pub open spec fn spec_from_constraint(constraint: Constraint, value: Dimension) -> Self {
        match constraint {
            Constraint::Min => Constraints { min: value, ..Self::spec_undefined() },
            Constraint::Suggested => Constraints { suggested: value, ..Self::spec_undefined() },
            Constraint::Max => Constraints { max: value, ..Self::spec_undefined() },
        }
    }

    #[verifier::when_used_as_spec(spec_auto)]
    pub fn auto() -> (r: Self)
        ensures
            r == Self::spec_auto(),
    {
        Constraints { min: Dimension::Auto, suggested: Dimension::Auto, max: Dimension::Auto }
    }

    #[verifier::when_used_as_spec(spec_undefined)]
    pub fn undefined() -> (r: Self)
        ensures
            r == Self::spec_undefined(),
    {
        Constraints {
            min: Dimension::Undefined,
            suggested: Dimension::Undefined,
            max: Dimension::Undefined,
        }
    }

    #[verifier::when_used_as_spec(spec_from_constraint)]
    pub fn from_constraint(constraint: Constraint, value: Dimension) -> (r: Self)
        ensures
            r == Self::spec_from_constraint(constraint, value),
    {
        let rest = Dimension::Undefined;
        match constraint {
            Constraint::Min => Constraints { min: value, suggested: rest, max: rest },
            Constraint::Suggested => Constraints { min: rest, suggested: value, max: rest },
            Constraint::Max => Constraints { min: rest, suggested: rest, max: value },
        }
    }

    /// A lower bound alone.
    pub fn min(value: Dimension) -> (r: Self)
        ensures
            r == Self::spec_from_constraint(Constraint::Min, value),
    {
        Self::from_constraint(Constraint::Min, value)
    }

    /// A size to aim for, with no bounds.
    pub fn suggested(value: Dimension) -> (r: Self)
        ensures
            r == Self::spec_from_constraint(Constraint::Suggested, value),
    {
        Self::from_constraint(Constraint::Suggested, value)
    }

    /// An upper bound alone.
    pub fn max(value: Dimension) -> (r: Self)
        ensures
            r == Self::spec_from_constraint(Constraint::Max, value),
    {
        Self::from_constraint(Constraint::Max, value)
    }

    /// Whether the style names a lower or an upper bound.
    pub open spec fn spec_has_min_or_max(&self) -> bool {
        self.min.spec_is_defined() || self.max.spec_is_defined()
    }

    #[verifier::when_used_as_spec(spec_has_min_or_max)]
    pub fn has_min_or_max(&self) -> (r: bool)
        ensures
            r == self.spec_has_min_or_max(),
    {
        self.min.is_defined() || self.max.is_defined()
    }
}

impl Default for Constraints<Dimension> {
    fn default() -> (r: Self)
        ensures
            r == Constraints::<Dimension>::spec_undefined(),
    {
        Constraints::<Dimension>::undefined()
    }
}

impl Constraints<Option<Scalar>> {
    /// A size to aim for, with no bounds.
    pub open spec fn spec_suggested(value: Option<Scalar>) -> Self {
        Constraints { min: None, suggested: value, max: None }
    }

    #[verifier::when_used_as_spec(spec_suggested)]
    pub fn suggested(value: Option<Scalar>) -> (r: Self)
        ensures
            r == Self::spec_suggested(value),
    {
        Constraints { min: None, suggested: value, max: None }
    }
}

/// The style of one node. The sizing core reads it and never changes it.
#[derive(Clone, Copy, Debug, PartialEq, Eq)]
pub struct Style {
    pub display: Display,
    pub position_type: PositionType,
    pub flex_direction: FlexDirection,
    pub flex_wrap: FlexWrap,
    pub align_items: AlignItems,
    pub align_self: AlignSelf,
    pub align_content: AlignContent,
    pub justify_content: JustifyContent,
    /// Where an absolutely placed node stands in its parent.
    pub position: Rect<LengthPercentageAuto>,
    pub margin: Rect<LengthPercentageAuto>,
    pub padding: Rect<LengthPercentage>,
    pub border: Rect<LengthPercentage>,
    /// The room between neighbouring children, per axis.
    pub gap: Size<LengthPercentage>,
    pub flex_grow: Scalar,
    pub flex_shrink: Scalar,
    pub flex_basis: Dimension,
    /// Per axis, the size to aim for and the bounds it is held to.
    pub size_constraints: Size<Constraints<Dimension>>,
    /// Width over height, where the node keeps a ratio.
    pub aspect_ratio: Option<Scalar>,
}

impl Style {
    /// The style of a node of which nothing is asked.
    pub open spec fn spec_default() -> Style {
        Style {
            display: Display::Flex,
            position_type: PositionType::Relative,
            flex_direction: FlexDirection::Row,
            flex_wrap: FlexWrap::NoWrap,
            align_items: AlignItems::Stretch,
            align_self: AlignSelf::Auto,
            align_content: AlignContent::Stretch,
            justify_content: JustifyContent::FlexStart,
            position: Rect {
                left: LengthPercentageAuto::Auto,
                right: LengthPercentageAuto::Auto,
                top: LengthPercentageAuto::Auto,
                bottom: LengthPercentageAuto::Auto,
            },
            margin: Rect {
                left: LengthPercentageAuto::Points(Scalar(0)),
                right: LengthPercentageAuto::Points(Scalar(0)),
                top: LengthPercentageAuto::Points(Scalar(0)),
                bottom: LengthPercentageAuto::Points(Scalar(0)),
            },
            padding: Rect {
                left: LengthPercentage::Points(Scalar(0)),
                right: LengthPercentage::Points(Scalar(0)),
                top: LengthPercentage::Points(Scalar(0)),
                bottom: LengthPercentage::Points(Scalar(0)),
            },
            border: Rect {
                left: LengthPercentage::Points(Scalar(0)),
                right: LengthPercentage::Points(Scalar(0)),
                top: LengthPercentage::Points(Scalar(0)),
                bottom: LengthPercentage::Points(Scalar(0)),
            },
            gap: Size {
                width: LengthPercentage::Points(Scalar(0)),
                height: LengthPercentage::Points(Scalar(0)),
            },
            flex_grow: Scalar(0),
            flex_shrink: Scalar(crate::scalar::SCALE),
            flex_basis: Dimension::Auto,
            size_constraints: Size {
                width: Constraints::<Dimension>::spec_auto(),
                height: Constraints::<Dimension>::spec_auto(),
            },
            aspect_ratio: None,
        }
    }
}

impl Default for Style {
    fn default() -> (r: Self)
        ensures
            r == Style::spec_default(),
    {
        let zero = LengthPercentage::Points(Scalar(0));
        Style {
            display: Display::Flex,
            position_type: PositionType::Relative,
            flex_direction: FlexDirection::Row,
            flex_wrap: FlexWrap::NoWrap,
            align_items: AlignItems::Stretch,
            align_self: AlignSelf::Auto,
            align_content: AlignContent::Stretch,
            justify_content: JustifyContent::FlexStart,
            position: Rect {
                left: LengthPercentageAuto::Auto,
                right: LengthPercentageAuto::Auto,
                top: LengthPercentageAuto::Auto,
                bottom: LengthPercentageAuto::Auto,
            },
            margin: Rect {
                left: LengthPercentageAuto::Points(Scalar(0)),
                right: LengthPercentageAuto::Points(Scalar(0)),
                top: LengthPercentageAuto::Points(Scalar(0)),
                bottom: LengthPercentageAuto::Points(Scalar(0)),
            },
            padding: Rect {
                left: zero,
                right: zero,
                top: zero,
                bottom: zero,
            },
            border: Rect {
                left: zero,
                right: zero,
                top: zero,
                bottom: zero,
            },
            gap: Size { width: zero, height: zero },
            flex_grow: Scalar(0),
            flex_shrink: Scalar::one(),
            flex_basis: Dimension::Auto,
            size_constraints: Size {
                width: Constraints::<Dimension>::auto(),
                height: Constraints::<Dimension>::auto(),
            },
            aspect_ratio: None,
        }
    }
}

} // verus!
