use taffy::geometry::{Axis, Length, Size};
use taffy::layout::AvailableSpace;
use taffy::math::{ApplyConstraints, ClampConstraint, MaybeMath};
use taffy::scalar::Scalar;
use taffy::style::Constraints;

fn s(units: i32) -> Scalar {
    Scalar::from_int(units)
}

fn some(units: i32) -> Option<Scalar> {
    Some(s(units))
}

const NONE: Option<Scalar> = None;

#[test]
fn option_option_min() {
    assert_eq!(some(3).maybe_min(some(5)), some(3));
    assert_eq!(some(5).maybe_min(some(3)), some(3));
    assert_eq!(some(3).maybe_min(NONE), some(3));
    assert_eq!(NONE.maybe_min(some(3)), NONE);
    assert_eq!(NONE.maybe_min(NONE), NONE);
}

#[test]
fn option_option_max() {
    assert_eq!(some(3).maybe_max(some(5)), some(5));
    assert_eq!(some(5).maybe_max(some(3)), some(5));
    assert_eq!(some(3).maybe_max(NONE), some(3));
    assert_eq!(NONE.maybe_max(some(3)), NONE);
    assert_eq!(NONE.maybe_max(NONE), NONE);
}

#[test]
fn option_option_add() {
    assert_eq!(some(3).maybe_add(some(5)), some(8));
    assert_eq!(some(5).maybe_add(some(3)), some(8));
    assert_eq!(some(3).maybe_add(NONE), some(3));
    assert_eq!(NONE.maybe_add(some(3)), NONE);
    assert_eq!(NONE.maybe_add(NONE), NONE);
}

#[test]
fn option_option_sub() {
    assert_eq!(some(3).maybe_sub(some(5)), some(-2));
    assert_eq!(some(5).maybe_sub(some(3)), some(2));
    assert_eq!(some(3).maybe_sub(NONE), some(3));
    assert_eq!(NONE.maybe_sub(some(3)), NONE);
    assert_eq!(NONE.maybe_sub(NONE), NONE);
}

#[test]
fn option_option_clamp() {
    assert_eq!(some(50).maybe_clamp(some(10), some(100)), some(50));
    assert_eq!(some(5).maybe_clamp(some(10), some(100)), some(10));
    assert_eq!(some(500).maybe_clamp(some(10), some(100)), some(100));
    assert_eq!(some(500).maybe_clamp(NONE, some(100)), some(100));
    assert_eq!(some(5).maybe_clamp(some(10), NONE), some(10));
    assert_eq!(some(5).maybe_clamp(NONE, NONE), some(5));
    assert_eq!(NONE.maybe_clamp(some(10), some(100)), NONE);
    assert_eq!(NONE.maybe_clamp(NONE, NONE), NONE);
}

#[test]
fn clamp_lets_the_lower_bound_win() {
    assert_eq!(some(50).maybe_clamp(some(100), some(10)), some(100));
    assert_eq!(some(5).maybe_clamp(some(100), some(10)), some(100));
    assert_eq!(some(500).maybe_clamp(some(100), some(10)), some(100));
    assert_eq!(s(50).maybe_clamp(some(100), some(10)), s(100));
    assert_eq!(
        AvailableSpace::Definite(s(50)).maybe_clamp(some(100), some(10)),
        AvailableSpace::Definite(s(100))
    );
}

#[test]
fn option_scalar_operations() {
    assert_eq!(some(3).maybe_min(s(5)), some(3));
    assert_eq!(some(5).maybe_min(s(3)), some(3));
    assert_eq!(NONE.maybe_min(s(3)), NONE);
    assert_eq!(some(3).maybe_max(s(5)), some(5));
    assert_eq!(some(5).maybe_max(s(3)), some(5));
    assert_eq!(NONE.maybe_max(s(3)), NONE);
    assert_eq!(some(3).maybe_add(s(5)), some(8));
    assert_eq!(NONE.maybe_add(s(3)), NONE);
    assert_eq!(some(3).maybe_sub(s(5)), some(-2));
    assert_eq!(some(5).maybe_sub(s(3)), some(2));
    assert_eq!(NONE.maybe_sub(s(3)), NONE);
    assert_eq!(some(7).maybe_clamp(s(10), s(20)), some(10));
    assert_eq!(some(70).maybe_clamp(s(10), s(20)), some(20));
    assert_eq!(some(70).maybe_clamp(s(100), s(20)), some(100));
    assert_eq!(NONE.maybe_clamp(s(10), s(20)), NONE);
}

#[test]
fn scalar_option_operations() {
    assert_eq!(s(3).maybe_min(some(5)), s(3));
    assert_eq!(s(5).maybe_min(some(3)), s(3));
    assert_eq!(s(3).maybe_min(NONE), s(3));
    assert_eq!(s(3).maybe_max(some(5)), s(5));
    assert_eq!(s(5).maybe_max(some(3)), s(5));
    assert_eq!(s(3).maybe_max(NONE), s(3));
    assert_eq!(s(3).maybe_add(some(5)), s(8));
    assert_eq!(s(5).maybe_add(some(3)), s(8));
    assert_eq!(s(3).maybe_add(NONE), s(3));
    assert_eq!(s(3).maybe_sub(some(5)), s(-2));
    assert_eq!(s(5).maybe_sub(some(3)), s(2));
    assert_eq!(s(3).maybe_sub(NONE), s(3));
    assert_eq!(s(3).maybe_clamp(some(5), some(9)), s(5));
    assert_eq!(s(30).maybe_clamp(some(5), some(9)), s(9));
    assert_eq!(s(30).maybe_clamp(NONE, some(9)), s(9));
    assert_eq!(s(3).maybe_clamp(some(5), NONE), s(5));
    assert_eq!(s(3).maybe_clamp(NONE, NONE), s(3));
}

#[test]
fn available_space_with_scalar() {
    let definite = AvailableSpace::Definite(s(10));
    assert_eq!(definite.maybe_min(s(4)), AvailableSpace::Definite(s(4)));
    assert_eq!(definite.maybe_min(s(40)), AvailableSpace::Definite(s(10)));
    assert_eq!(AvailableSpace::MinContent.maybe_min(s(4)), AvailableSpace::Definite(s(4)));
    assert_eq!(AvailableSpace::MaxContent.maybe_min(s(4)), AvailableSpace::Definite(s(4)));
    assert_eq!(definite.maybe_max(s(40)), AvailableSpace::Definite(s(40)));
    assert_eq!(AvailableSpace::MinContent.maybe_max(s(4)), AvailableSpace::MinContent);
    assert_eq!(AvailableSpace::MaxContent.maybe_max(s(4)), AvailableSpace::MaxContent);
    assert_eq!(definite.maybe_add(s(4)), AvailableSpace::Definite(s(14)));
    assert_eq!(AvailableSpace::MinContent.maybe_add(s(4)), AvailableSpace::MinContent);
    assert_eq!(AvailableSpace::MaxContent.maybe_add(s(4)), AvailableSpace::MaxContent);
    assert_eq!(definite.maybe_sub(s(4)), AvailableSpace::Definite(s(6)));
    assert_eq!(AvailableSpace::MinContent.maybe_sub(s(4)), AvailableSpace::MinContent);
    assert_eq!(AvailableSpace::MaxContent.maybe_sub(s(4)), AvailableSpace::MaxContent);
    assert_eq!(definite.maybe_clamp(s(20), s(30)), AvailableSpace::Definite(s(20)));
    assert_eq!(AvailableSpace::MinContent.maybe_clamp(s(20), s(30)), AvailableSpace::MinContent);
    assert_eq!(AvailableSpace::MaxContent.maybe_clamp(s(20), s(30)), AvailableSpace::MaxContent);
}

#[test]
fn available_space_with_option() {
    let definite = AvailableSpace::Definite(s(10));
    assert_eq!(definite.maybe_min(some(4)), AvailableSpace::Definite(s(4)));
    assert_eq!(definite.maybe_min(NONE), definite);
    assert_eq!(AvailableSpace::MinContent.maybe_min(some(4)), AvailableSpace::Definite(s(4)));
    assert_eq!(AvailableSpace::MinContent.maybe_min(NONE), AvailableSpace::MinContent);
    assert_eq!(AvailableSpace::MaxContent.maybe_min(some(4)), AvailableSpace::Definite(s(4)));
    assert_eq!(AvailableSpace::MaxContent.maybe_min(NONE), AvailableSpace::MaxContent);
    assert_eq!(definite.maybe_max(some(40)), AvailableSpace::Definite(s(40)));
    assert_eq!(definite.maybe_max(NONE), definite);
    assert_eq!(AvailableSpace::MinContent.maybe_max(some(4)), AvailableSpace::MinContent);
    assert_eq!(AvailableSpace::MaxContent.maybe_max(NONE), AvailableSpace::MaxContent);
    assert_eq!(definite.maybe_add(some(4)), AvailableSpace::Definite(s(14)));
    assert_eq!(definite.maybe_add(NONE), definite);
    assert_eq!(AvailableSpace::MinContent.maybe_add(some(4)), AvailableSpace::MinContent);
    assert_eq!(AvailableSpace::MaxContent.maybe_add(some(4)), AvailableSpace::MaxContent);
    assert_eq!(definite.maybe_sub(some(4)), AvailableSpace::Definite(s(6)));
    assert_eq!(definite.maybe_sub(NONE), definite);
    assert_eq!(AvailableSpace::MinContent.maybe_sub(some(4)), AvailableSpace::MinContent);
    assert_eq!(AvailableSpace::MaxContent.maybe_sub(some(4)), AvailableSpace::MaxContent);
    assert_eq!(definite.maybe_clamp(some(20), some(30)), AvailableSpace::Definite(s(20)));
    assert_eq!(definite.maybe_clamp(NONE, some(5)), AvailableSpace::Definite(s(5)));
    assert_eq!(definite.maybe_clamp(some(20), NONE), AvailableSpace::Definite(s(20)));
    assert_eq!(definite.maybe_clamp(NONE, NONE), definite);
    assert_eq!(AvailableSpace::MinContent.maybe_clamp(some(20), some(30)), AvailableSpace::MinContent);
    assert_eq!(AvailableSpace::MaxContent.maybe_clamp(some(20), some(30)), AvailableSpace::MaxContent);
}

#[test]
fn size_operations_are_per_component() {
    let lhs = Size { width: some(3), height: NONE };
    let rhs = Size { width: some(5), height: some(7) };
    assert_eq!(lhs.maybe_min(rhs), Size { width: some(3), height: NONE });
    assert_eq!(lhs.maybe_max(rhs), Size { width: some(5), height: NONE });
    assert_eq!(lhs.maybe_add(rhs), Size { width: some(8), height: NONE });
    assert_eq!(lhs.maybe_sub(rhs), Size { width: some(-2), height: NONE });
    assert_eq!(
        Size { width: some(1), height: some(100) }.maybe_clamp(rhs, Size { width: some(9), height: some(9) }),
        Size { width: some(5), height: some(9) }
    );
    let space = Size { width: AvailableSpace::Definite(s(10)), height: AvailableSpace::MaxContent };
    assert_eq!(
        space.maybe_sub(Size { width: s(4), height: s(4) }),
        Size { width: AvailableSpace::Definite(s(6)), height: AvailableSpace::MaxContent }
    );
}

#[test]
fn length_operations_keep_the_axis() {
    let width: Length<Option<Scalar>> = Axis::Width(some(3));
    let height: Length<Option<Scalar>> = Axis::Height(NONE);
    assert_eq!(width.maybe_add(s(5)), Axis::Width(some(8)));
    assert_eq!(width.maybe_min(s(2)), Axis::Width(some(2)));
    assert_eq!(width.maybe_max(s(5)), Axis::Width(some(5)));
    assert_eq!(width.maybe_sub(s(5)), Axis::Width(some(-2)));
    assert_eq!(width.maybe_clamp(s(5), s(9)), Axis::Width(some(5)));
    assert_eq!(height.maybe_add(s(5)), Axis::Height(NONE));
    let sizes = Size { width: some(10), height: some(20) };
    let on_width: Length<Scalar> = Axis::Width(s(1)).maybe_add(sizes);
    let on_height: Length<Scalar> = Axis::Height(s(1)).maybe_add(sizes);
    assert_eq!(on_width, Axis::Width(s(11)));
    assert_eq!(on_height, Axis::Height(s(21)));
    let clamped: Length<Scalar> =
        Axis::Height(s(1)).maybe_clamp(sizes, Size { width: some(50), height: some(60) });
    assert_eq!(clamped, Axis::Height(s(20)));
}

#[test]
fn apply_constraints_to_scalars_and_sizes() {
    let tiers = Constraints { min: some(10), suggested: NONE, max: some(20) };
    assert_eq!(s(15).apply_clamp(tiers), s(15));
    assert_eq!(s(5).apply_clamp(tiers), s(10));
    assert_eq!(s(50).apply_clamp(tiers), s(20));
    assert_eq!(s(15).apply_min(tiers), s(10));
    assert_eq!(s(5).apply_min(tiers), s(5));
    assert_eq!(s(15).apply_max(tiers), s(20));
    assert_eq!(s(50).apply_max(tiers), s(50));
    assert_eq!(some(50).apply_clamp(tiers), some(20));
    assert_eq!(NONE.apply_clamp(tiers), NONE);
    assert_eq!(some(50).apply_min(tiers), some(10));
    assert_eq!(some(5).apply_max(tiers), some(20));
    let wide = Constraints { min: some(100), suggested: NONE, max: NONE };
    let both = Size { width: tiers, height: wide };
    assert_eq!(
        Size { width: s(50), height: s(50) }.apply_clamp(both),
        Size { width: s(20), height: s(100) }
    );
    assert_eq!(Size { width: s(50), height: s(500) }.apply_min(both), Size { width: s(10), height: s(100) });
    assert_eq!(Size { width: s(5), height: s(5) }.apply_max(both), Size { width: s(20), height: s(5) });
    let on_height: Scalar = Axis::Height(s(50)).apply_clamp(both);
    assert_eq!(on_height, s(100));
    let kept: Length<Scalar> = Axis::Width(s(50)).apply_clamp(both);
    assert_eq!(kept, Axis::Width(s(20)));
    let lowered: Length<Scalar> = Axis::Width(s(50)).apply_min(both);
    assert_eq!(lowered, Axis::Width(s(10)));
    let raised: Scalar = Axis::Width(s(5)).apply_max(both);
    assert_eq!(raised, s(20));
}

#[test]
fn clamp_suggested_on_constraints() {
    assert_eq!(Constraints { min: some(100), suggested: some(50), max: some(10) }.clamp_suggested(), some(100));
    assert_eq!(Constraints { min: NONE, suggested: some(50), max: some(10) }.clamp_suggested(), some(10));
    assert_eq!(Constraints { min: some(100), suggested: some(50), max: NONE }.clamp_suggested(), some(100));
    assert_eq!(Constraints { min: NONE, suggested: some(50), max: NONE }.clamp_suggested(), some(50));
    assert_eq!(Constraints { min: some(100), suggested: NONE, max: some(10) }.clamp_suggested(), NONE);
    let both = Size {
        width: Constraints { min: some(100), suggested: some(50), max: some(10) },
        height: Constraints { min: NONE, suggested: NONE, max: some(10) },
    };
    assert_eq!(both.clamp_suggested(), Size { width: some(100), height: NONE });
    let on_axis: Length<Constraints<Option<Scalar>>> = Axis::Width(both.width);
    assert_eq!(on_axis.clamp_suggested(), Axis::Width(some(100)));
}

#[test]
fn lengths_of_one_axis_add_up() {
    assert_eq!(Axis::Width(s(3)) + Axis::Width(s(4)), Axis::Width(s(7)));
    assert_eq!(Axis::Height(s(3)) - Axis::Height(s(4)), Axis::Height(s(-1)));
    assert_eq!(Axis::Height(s(3)) * Axis::Height(s(4)), Axis::Height(s(12)));
}
