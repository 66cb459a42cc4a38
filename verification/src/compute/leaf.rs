//! The size of a leaf: a node without children.

use crate::geometry::{MaybeSet, Rect, Size, TwoDimensional};
use crate::layout::{AvailableSpace, RunMode, SizingMode};
use crate::math::{clamp_spec, ApplyConstraints};
use crate::node::Node;
use crate::resolve::{MaybeResolve, ResolveOrDefault};
use crate::scalar::Scalar;
use crate::style::{Constraints, Style};
use crate::tree::LayoutTree;
use vstd::prelude::*;

verus! {

/// The known dimension where there is one, else the other value.
pub open spec fn known_or(known: Option<Scalar>, other: Option<Scalar>) -> Option<Scalar> {
    if known is Some {
        known
    } else {
        other
    }
}

/// The constraints that a leaf is sized under, per axis.
///
/// Where the known dimensions are the size of the content, they are what is
/// suggested, without bounds. Else the style's constraints are resolved
/// against the available space, and a known dimension takes the place of
/// the size that they suggest.
pub open spec fn leaf_constraints(
    style: Style,
    known_dimensions: Size<Option<Scalar>>,
    available_space: Size<AvailableSpace>,
    sizing_mode: SizingMode,
) -> Size<Constraints<Option<Scalar>>> {
    match sizing_mode {
        SizingMode::ContentSize => Size {
            width: Constraints::<Option<Scalar>>::spec_suggested(known_dimensions.width),
            height: Constraints::<Option<Scalar>>::spec_suggested(known_dimensions.height),
        },
        SizingMode::InherentSize => {
            let resolved = style.size_constraints.spec_maybe_resolve(
                available_space.spec_as_options(),
            );
            Size {
                width: Constraints {
                    suggested: known_or(known_dimensions.width, resolved.width.suggested),
                    ..resolved.width
                },
                height: Constraints {
                    suggested: known_or(known_dimensions.height, resolved.height.suggested),
                    ..resolved.height
                },
            }
        },
    }
}

/// The space that a measurement is made in: per axis, the size that the
/// constraints suggest, and the available space where they suggest none.
pub open spec fn measure_space(
    constraints: Size<Constraints<Option<Scalar>>>,
    available_space: Size<AvailableSpace>,
) -> Size<AvailableSpace> {
    available_space.spec_maybe_set(
        Size { width: constraints.width.suggested, height: constraints.height.suggested },
    )
}

/// The size of a box without content: per axis, what the padding takes plus
/// what the border takes, each side resolved against the available space
/// on its own axis.
pub open spec fn border_box(style: Style, available_space: Size<AvailableSpace>) -> Size<Scalar> {
    let padding = style.padding.spec_resolve_or_default(available_space.spec_as_options());
    let border = style.border.spec_resolve_or_default(available_space.spec_as_options());
    Size {
        width: padding.left.spec_add(padding.right).spec_add(border.left.spec_add(border.right)),
        height: padding.top.spec_add(padding.bottom).spec_add(border.top.spec_add(border.bottom)),
    }
}

/// One dimension of a leaf: the suggested size, or that of the content
/// where none is suggested, held to the upper bound and then to the lower.
pub open spec fn leaf_dimension(constraints: Constraints<Option<Scalar>>, content: Scalar) -> Scalar {
    clamp_spec(
        match constraints.suggested {
            Some(suggested) => suggested,
            None => content,
        },
        constraints.min,
        constraints.max,
    )
}

/// The size of a leaf. `measured` is what measuring the content in
/// `measure_space` gives, for a leaf that is sized so; a leaf that is not is
/// as large as its padding and border.
pub open spec fn leaf_size(
    style: Style,
    known_dimensions: Size<Option<Scalar>>,
    available_space: Size<AvailableSpace>,
    sizing_mode: SizingMode,
    measured: Option<Size<Scalar>>,
) -> Size<Scalar> {
    let constraints = leaf_constraints(style, known_dimensions, available_space, sizing_mode);
    let content = match measured {
        Some(measured) => measured,
        None => border_box(style, available_space),
    };
    Size {
        width: leaf_dimension(constraints.width, content.width),
        height: leaf_dimension(constraints.height, content.height),
    }
}

/// The size of the leaf `node` of `tree`, with its content measured where
/// the node is sized so.
pub open spec fn leaf_size_in<T: LayoutTree>(
    tree: &T,
    node: Node,
    known_dimensions: Size<Option<Scalar>>,
    available_space: Size<AvailableSpace>,
    sizing_mode: SizingMode,
) -> Size<Scalar> {
    let style = tree.spec_style(node);
    leaf_size(
        style,
        known_dimensions,
        available_space,
        sizing_mode,
        if tree.spec_needs_measure(node) {
            Some(
                tree.spec_measure(
                    node,
                    known_dimensions,
                    measure_space(
                        leaf_constraints(style, known_dimensions, available_space, sizing_mode),
                        available_space,
                    ),
                ),
            )
        } else {
            None
        },
    )
}

/// Where the lower bound of an axis is above its upper bound, the leaf is
/// as large as the lower bound on that axis, whatever is suggested, known
/// or measured.
pub proof fn lemma_leaf_minimum_dominance(
    style: Style,
    known_dimensions: Size<Option<Scalar>>,
    available_space: Size<AvailableSpace>,
    sizing_mode: SizingMode,
    measured: Option<Size<Scalar>>,
)
    ensures
        ({
            let constraints = leaf_constraints(
                style,
                known_dimensions,
                available_space,
                sizing_mode,
            );
            let size = leaf_size(
                style,
                known_dimensions,
                available_space,
                sizing_mode,
                measured,
            );
            &&& constraints.width.min is Some && constraints.width.max is Some
                && constraints.width.min->Some_0.0 > constraints.width.max->Some_0.0 ==> size.width
                == constraints.width.min->Some_0
            &&& constraints.height.min is Some && constraints.height.max is Some
                && constraints.height.min->Some_0.0 > constraints.height.max->Some_0.0
                ==> size.height == constraints.height.min->Some_0
        }),
{
}

/// Builds the constraints that a leaf is sized under.
pub fn constraints_of(
    style: &Style,
    known_dimensions: Size<Option<Scalar>>,
    available_space: Size<AvailableSpace>,
    sizing_mode: SizingMode,
) -> (r: Size<Constraints<Option<Scalar>>>)
    ensures
        r == leaf_constraints(*style, known_dimensions, available_space, sizing_mode),
{
    match sizing_mode {
        SizingMode::ContentSize => Size {
            width: Constraints::<Option<Scalar>>::suggested(known_dimensions.width),
            height: Constraints::<Option<Scalar>>::suggested(known_dimensions.height),
        },
        SizingMode::InherentSize => {
            let mut size = style.size_constraints.maybe_resolve(available_space.as_options());
            size.width.suggested = match known_dimensions.width {
                Some(_) => known_dimensions.width,
                None => size.width.suggested,
            };
            size.height.suggested = match known_dimensions.height {
                Some(_) => known_dimensions.height,
                None => size.height.suggested,
            };
            size
        },
    }
}

/// Computes the size of a leaf. The tree is read and left as it is.
pub fn compute(
    tree: &mut impl LayoutTree,
    node: Node,
    known_dimensions: Size<Option<Scalar>>,
    available_space: Size<AvailableSpace>,
    _run_mode: RunMode,
    sizing_mode: SizingMode,
) -> (size: Size<Scalar>)
    requires
        old(tree).wf(),
        old(tree).contains(node),
    ensures
        *final(tree) == *old(tree),
        size == leaf_size_in(old(tree), node, known_dimensions, available_space, sizing_mode),
{
    let style = tree.style(node);

    let node_constraints = constraints_of(style, known_dimensions, available_space, sizing_mode);

    // Both dimensions are suggested: the content is not looked at.
    if let Size { width: Some(width), height: Some(height) } = node_constraints.suggested() {
        return Size { width, height }.apply_clamp(node_constraints);
    }

    if tree.needs_measure(node) {
        let measure_in = available_space.maybe_set(node_constraints.suggested());
        let measured_size = tree.measure_node(node, known_dimensions, measure_in);
        return node_constraints.suggested().unwrap_or(measured_size).apply_clamp(node_constraints);
    }

    let padding: Rect<Scalar> = style.padding.resolve_or_default(available_space.as_options());
    let border: Rect<Scalar> = style.border.resolve_or_default(available_space.as_options());

    Size {
        width: node_constraints.suggested().width().unwrap_or(
            padding.axis_sum().width() + border.axis_sum(),
        ).apply_clamp(node_constraints),
        height: node_constraints.suggested().height().unwrap_or(
            padding.axis_sum().height() + border.axis_sum(),
        ).apply_clamp(node_constraints),
    }
}

} // verus!
