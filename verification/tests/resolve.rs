use taffy::geometry::{Rect, Size};
use taffy::resolve::{MaybeResolve, ResolveOrDefault};
use taffy::scalar::{Scalar, SCALE};
use taffy::style::{Constraints, Dimension, LengthPercentage, LengthPercentageAuto};

fn s(units: i32) -> Scalar {
    Scalar::from_int(units)
}

fn half() -> Scalar {
    Scalar(SCALE / 2)
}

#[test]
fn dimension_resolution() {
    assert_eq!(Dimension::Points(s(7)).maybe_resolve(Some(s(100))), Some(s(7)));
    assert_eq!(Dimension::Points(s(7)).maybe_resolve(None), Some(s(7)));
    assert_eq!(Dimension::Percent(half()).maybe_resolve(Some(s(100))), Some(s(50)));
    assert_eq!(Dimension::Percent(Scalar::one()).maybe_resolve(Some(s(200))), Some(s(200)));
    assert_eq!(Dimension::Percent(half()).maybe_resolve(None), None);
    assert_eq!(Dimension::Auto.maybe_resolve(Some(s(100))), None);
    assert_eq!(Dimension::Undefined.maybe_resolve(Some(s(100))), None);
}

#[test]
fn length_percentage_resolution() {
    assert_eq!(LengthPercentage::Points(s(7)).maybe_resolve(None), Some(s(7)));
    assert_eq!(LengthPercentage::Percent(half()).maybe_resolve(Some(s(10))), Some(s(5)));
    assert_eq!(LengthPercentage::Percent(half()).maybe_resolve(None), None);
    assert_eq!(LengthPercentageAuto::Points(s(7)).maybe_resolve(None), Some(s(7)));
    assert_eq!(LengthPercentageAuto::Percent(half()).maybe_resolve(Some(s(10))), Some(s(5)));
    assert_eq!(LengthPercentageAuto::Percent(half()).maybe_resolve(None), None);
    assert_eq!(LengthPercentageAuto::Auto.maybe_resolve(Some(s(10))), None);
}

#[test]
fn none_counts_as_zero() {
    assert_eq!(Dimension::Auto.resolve_or_default(Some(s(10))), s(0));
    assert_eq!(Dimension::Percent(half()).resolve_or_default(None), s(0));
    assert_eq!(Dimension::Percent(half()).resolve_or_default(Some(s(10))), s(5));
    assert_eq!(LengthPercentage::Percent(half()).resolve_or_default(None), s(0));
    assert_eq!(LengthPercentage::Points(s(3)).resolve_or_default(None), s(3));
    assert_eq!(LengthPercentageAuto::Auto.resolve_or_default(Some(s(10))), s(0));
}

#[test]
fn constraints_resolve_tier_by_tier() {
    let tiers = Constraints {
        min: Dimension::Points(s(5)),
        suggested: Dimension::Percent(half()),
        max: Dimension::Auto,
    };
    assert_eq!(
        tiers.maybe_resolve(Some(s(100))),
        Constraints { min: Some(s(5)), suggested: Some(s(50)), max: None }
    );
    assert_eq!(tiers.maybe_resolve(None), Constraints { min: Some(s(5)), suggested: None, max: None });
}

#[test]
fn sizes_resolve_each_axis_against_its_own_reference() {
    let size = Size { width: Dimension::Percent(half()), height: Dimension::Percent(half()) };
    assert_eq!(
        size.maybe_resolve(Size { width: Some(s(100)), height: Some(s(40)) }),
        Size { width: Some(s(50)), height: Some(s(20)) }
    );
    assert_eq!(
        size.maybe_resolve(Size { width: None, height: Some(s(40)) }),
        Size { width: None, height: Some(s(20)) }
    );
}

#[test]
fn rects_resolve_sides_against_their_axis() {
    let rect = Rect {
        left: LengthPercentage::Percent(half()),
        right: LengthPercentage::Points(s(1)),
        top: LengthPercentage::Percent(half()),
        bottom: LengthPercentage::Percent(half()),
    };
    let sides: Rect<Scalar> = rect.resolve_or_default(Size { width: Some(s(100)), height: Some(s(40)) });
    assert_eq!(sides, Rect { left: s(50), right: s(1), top: s(20), bottom: s(20) });
    let one_reference: Rect<Scalar> = rect.resolve_or_default(Some(s(10)));
    assert_eq!(one_reference, Rect { left: s(5), right: s(1), top: s(5), bottom: s(5) });
    let without: Rect<Scalar> = rect.resolve_or_default(Size { width: None, height: None });
    assert_eq!(without, Rect { left: s(0), right: s(1), top: s(0), bottom: s(0) });
}
