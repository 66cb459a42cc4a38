use taffy::geometry::{Axis, MaybeSet, Point, Rect, Size, TwoDimensional};
use taffy::layout::AvailableSpace;
use taffy::scalar::Scalar;
use taffy::style::{Constraint, Constraints, Dimension, FlexDirection};

fn s(units: i32) -> Scalar {
    Scalar::from_int(units)
}

fn rect() -> Rect<Scalar> {
    Rect::<Scalar>::new(s(1), s(2), s(4), s(8))
}

#[test]
fn axis_values_follow_the_direction() {
    assert_eq!(Axis::from_dir(FlexDirection::Row, 1), Axis::Width(1));
    assert_eq!(Axis::from_dir(FlexDirection::RowReverse, 1), Axis::Width(1));
    assert_eq!(Axis::from_dir(FlexDirection::Column, 1), Axis::Height(1));
    assert_eq!(Axis::from_dir(FlexDirection::ColumnReverse, 1), Axis::Height(1));
    assert!(Axis::Width(1).has_dir(FlexDirection::Row));
    assert!(Axis::Width(1).has_dir(FlexDirection::RowReverse));
    assert!(!Axis::Width(1).has_dir(FlexDirection::Column));
    assert!(Axis::Height(1).has_dir(FlexDirection::ColumnReverse));
    assert!(!Axis::Height(1).has_dir(FlexDirection::Row));
    assert_eq!(Axis::Width(7).value(), 7);
    assert_eq!(Axis::Height(9).value(), 9);
}

#[test]
fn axis_values_combine_with_sizes() {
    let size = Size { width: 10, height: 20 };
    assert_eq!(Axis::Width(1).with_inner(|v| v + 1), Axis::Width(2));
    assert_eq!(Axis::Height(1).with_inner(|v| v * 5), Axis::Height(5));
    assert_eq!(Axis::Width(1).with_size(size, |v, other| v + other), Axis::Width(11));
    assert_eq!(Axis::Height(1).with_size(size, |v, other| v + other), Axis::Height(21));
    assert_eq!(Axis::Width(1).pair_size(size), Axis::Width((1, 10)));
    assert_eq!(Axis::Height(1).pair_size(size), Axis::Height((1, 20)));
    let sides = rect();
    assert_eq!(Axis::Width(1).pair(sides.axis_sum()), Axis::Width((1, s(3))));
    assert_eq!(Axis::Height(1).pair(sides.axis_sum()), Axis::Height((1, s(12))));
}

#[test]
fn optional_axis_values() {
    assert_eq!(Axis::Width(Some(1)).unwrap_or(Axis::Width(2)), Axis::Width(1));
    assert_eq!(Axis::Width(None).unwrap_or(Axis::Width(2)), Axis::Width(2));
    assert_eq!(Axis::Height(None).unwrap_or(Axis::Width(2)), Axis::Width(2));
    assert_eq!(Axis::Height(Some(1)).unwrap_or_else(|| Axis::Height(2)), Axis::Height(1));
    assert_eq!(Axis::Height(None).unwrap_or_else(|| Axis::Height(2)), Axis::Height(2));
    assert_eq!(Axis::Width(Some(1)).or(2), Axis::Width(Some(1)));
    assert_eq!(Axis::Width(None).or(2), Axis::Width(Some(2)));
    assert_eq!(Axis::Height(None).or(2), Axis::Height(Some(2)));
    assert_eq!(Axis::Height(Some(1)).or_else(|| 2), Axis::Height(Some(1)));
    assert_eq!(Axis::Width(None).or_else(|| 2), Axis::Width(Some(2)));
}

#[test]
fn axis_constraints_give_their_tiers() {
    let tiers = Constraints { min: 1, suggested: 2, max: 3 };
    assert_eq!(Axis::Width(tiers).min(), Axis::Width(1));
    assert_eq!(Axis::Width(tiers).suggested(), Axis::Width(2));
    assert_eq!(Axis::Height(tiers).max(), Axis::Height(3));
}

#[test]
fn rect_sums_and_sides() {
    let sides = rect();
    assert_eq!(sides, Rect { left: s(1), right: s(2), top: s(4), bottom: s(8) });
    assert_eq!(Rect::<Scalar>::zero(), Rect { left: s(0), right: s(0), top: s(0), bottom: s(0) });
    assert_eq!(sides.horizontal_axis_sum(), s(3));
    assert_eq!(sides.vertical_axis_sum(), s(12));
    assert_eq!(sides.main_axis_sum(FlexDirection::Row), s(3));
    assert_eq!(sides.main_axis_sum(FlexDirection::Column), s(12));
    assert_eq!(sides.cross_axis_sum(FlexDirection::RowReverse), s(12));
    assert_eq!(sides.cross_axis_sum(FlexDirection::ColumnReverse), s(3));
    assert_eq!(sides.main_start(FlexDirection::Row), s(1));
    assert_eq!(sides.main_end(FlexDirection::Row), s(2));
    assert_eq!(sides.main_start(FlexDirection::Column), s(4));
    assert_eq!(sides.main_end(FlexDirection::Column), s(8));
    assert_eq!(sides.cross_start(FlexDirection::Row), s(4));
    assert_eq!(sides.cross_end(FlexDirection::Row), s(8));
    assert_eq!(sides.cross_start(FlexDirection::Column), s(1));
    assert_eq!(sides.cross_end(FlexDirection::Column), s(2));
    assert_eq!(sides.axis_sum().width(), Axis::Width(s(3)));
    assert_eq!(sides.axis_sum().height(), Axis::Height(s(12)));
    assert_eq!(Axis::Width(s(10)) + sides.axis_sum(), Axis::Width(s(13)));
    assert_eq!(Axis::Height(s(10)) - sides.axis_sum(), Axis::Height(s(-2)));
}

#[test]
fn rect_zip_size_pairs_sides_with_their_axis() {
    let zipped = Rect { left: 1, right: 2, top: 3, bottom: 4 }
        .zip_size(Size { width: 10, height: 100 }, |side, extent| side + extent);
    assert_eq!(zipped, Rect { left: 11, right: 12, top: 103, bottom: 104 });
}

#[test]
fn size_maps() {
    let size = Size { width: 1, height: 2 };
    assert_eq!(size.map(|v| v * 10), Size { width: 10, height: 20 });
    assert_eq!(size.map_width(|v| v + 5), Size { width: 6, height: 2 });
    assert_eq!(size.map_height(|v| v + 5), Size { width: 1, height: 7 });
    assert_eq!(size.zip_map(Size { width: 10, height: 20 }, |a, b| a + b), Size { width: 11, height: 22 });
    assert_eq!(size.width(), Axis::Width(1));
    assert_eq!(size.height(), Axis::Height(2));
    assert_eq!(size.main(FlexDirection::Row), Axis::Width(1));
    assert_eq!(size.main(FlexDirection::Column), Axis::Height(2));
    assert_eq!(size.cross(FlexDirection::Row), Axis::Height(2));
    assert_eq!(size.cross(FlexDirection::Column), Axis::Width(1));
}

#[test]
fn size_setters() {
    let mut size = Size { width: 1, height: 2 };
    size.set(Axis::Width(5));
    assert_eq!(size, Size { width: 5, height: 2 });
    size.set(Axis::Height(6));
    assert_eq!(size, Size { width: 5, height: 6 });
    size.set_main(FlexDirection::Row, 7);
    assert_eq!(size, Size { width: 7, height: 6 });
    size.set_main(FlexDirection::Column, 8);
    assert_eq!(size, Size { width: 7, height: 8 });
    size.set_cross(FlexDirection::Row, 9);
    assert_eq!(size, Size { width: 7, height: 9 });
    size.set_cross(FlexDirection::ColumnReverse, 10);
    assert_eq!(size, Size { width: 10, height: 9 });
}

#[test]
fn sizes_of_lengths() {
    assert_eq!(Size::<Scalar>::zero(), Size { width: s(0), height: s(0) });
    assert_eq!(Point::<Scalar>::zero(), Point { x: s(0), y: s(0) });
    assert_eq!(Size::<Option<Scalar>>::none(), Size { width: None, height: None });
    assert_eq!(Size::<Option<Scalar>>::new(s(1), s(2)), Size { width: Some(s(1)), height: Some(s(2)) });
    let partly = Size { width: Some(s(1)), height: None };
    assert_eq!(partly.unwrap_or(Size { width: s(8), height: s(9) }), Size { width: s(1), height: s(9) });
    assert_eq!(
        partly.or(Size { width: Some(s(8)), height: Some(s(9)) }),
        Size { width: Some(s(1)), height: Some(s(9)) }
    );
    assert_eq!(partly.or(Size { width: None, height: None }), partly);
}

#[test]
fn sizes_of_dimensions() {
    assert_eq!(
        Size::<Dimension>::from_points(s(1), s(2)),
        Size { width: Dimension::Points(s(1)), height: Dimension::Points(s(2)) }
    );
    assert_eq!(
        Size::<Dimension>::from_percent(s(1), s(2)),
        Size { width: Dimension::Percent(s(1)), height: Dimension::Percent(s(2)) }
    );
    assert_eq!(Size::<Dimension>::auto(), Size { width: Dimension::Auto, height: Dimension::Auto });
    assert_eq!(
        Size::<Dimension>::undefined(),
        Size { width: Dimension::Undefined, height: Dimension::Undefined }
    );
}

fn tier(tier: Constraint, value: Dimension) -> Constraints<Dimension> {
    Constraints::<Dimension>::from_constraint(tier, value)
}

#[test]
fn constraint_builders_for_both_axes() {
    let (w, h) = (Dimension::Points(s(1)), Dimension::Points(s(2)));
    let size = Size { width: w, height: h };
    assert_eq!(
        Size::<Constraints<Dimension>>::min_from(size),
        Size { width: tier(Constraint::Min, w), height: tier(Constraint::Min, h) }
    );
    assert_eq!(
        Size::<Constraints<Dimension>>::suggested_from(size),
        Size { width: tier(Constraint::Suggested, w), height: tier(Constraint::Suggested, h) }
    );
    assert_eq!(
        Size::<Constraints<Dimension>>::max_from(size),
        Size { width: tier(Constraint::Max, w), height: tier(Constraint::Max, h) }
    );
    assert_eq!(Size::<Constraints<Dimension>>::min_from_points(s(1), s(2)), Size::<Constraints<Dimension>>::min_from(size));
    assert_eq!(Size::<Constraints<Dimension>>::max_from_points(s(1), s(2)), Size::<Constraints<Dimension>>::max_from(size));
    assert_eq!(
        Size::<Constraints<Dimension>>::suggested_from_points(s(1), s(2)),
        Size::<Constraints<Dimension>>::suggested_from(size)
    );
    let percent = Size { width: Dimension::Percent(s(1)), height: Dimension::Percent(s(2)) };
    assert_eq!(Size::<Constraints<Dimension>>::min_from_percent(s(1), s(2)), Size::<Constraints<Dimension>>::min_from(percent));
    assert_eq!(Size::<Constraints<Dimension>>::max_from_percent(s(1), s(2)), Size::<Constraints<Dimension>>::max_from(percent));
    assert_eq!(
        Size::<Constraints<Dimension>>::suggested_from_percent(s(1), s(2)),
        Size::<Constraints<Dimension>>::suggested_from(percent)
    );
    assert_eq!(
        tier(Constraint::Min, w),
        Constraints { min: w, suggested: Dimension::Undefined, max: Dimension::Undefined }
    );
    assert_eq!(
        tier(Constraint::Suggested, w),
        Constraints { min: Dimension::Undefined, suggested: w, max: Dimension::Undefined }
    );
    assert_eq!(
        tier(Constraint::Max, w),
        Constraints { min: Dimension::Undefined, suggested: Dimension::Undefined, max: w }
    );
}

#[test]
fn constraint_builders_for_one_axis() {
    let auto = Constraints::<Dimension>::auto();
    let value = Dimension::Points(s(3));
    assert_eq!(auto, Constraints { min: Dimension::Auto, suggested: Dimension::Auto, max: Dimension::Auto });
    assert_eq!(Size::<Constraints<Dimension>>::auto_constraints(), Size { width: auto, height: auto });
    assert_eq!(
        Size::<Constraints<Dimension>>::undefined_constraints(),
        Size { width: Constraints::<Dimension>::undefined(), height: Constraints::<Dimension>::undefined() }
    );
    let given = tier(Constraint::Max, value);
    assert_eq!(Size::<Constraints<Dimension>>::from_width(given), Size { width: given, height: auto });
    assert_eq!(Size::<Constraints<Dimension>>::from_height(given), Size { width: auto, height: given });
    assert_eq!(
        Size::<Constraints<Dimension>>::constraint_from_width(Constraint::Min, value),
        Size { width: tier(Constraint::Min, value), height: auto }
    );
    assert_eq!(
        Size::<Constraints<Dimension>>::constraint_from_height(Constraint::Min, value),
        Size { width: tier(Constraint::Min, value), height: auto }
    );
    assert_eq!(
        Size::<Constraints<Dimension>>::min_from_width(value),
        Size { width: tier(Constraint::Min, value), height: auto }
    );
    assert_eq!(
        Size::<Constraints<Dimension>>::min_from_height(value),
        Size { width: auto, height: tier(Constraint::Min, value) }
    );
    assert_eq!(
        Size::<Constraints<Dimension>>::suggested_from_width(value),
        Size { width: tier(Constraint::Suggested, value), height: auto }
    );
    assert_eq!(
        Size::<Constraints<Dimension>>::suggested_from_height(value),
        Size { width: auto, height: tier(Constraint::Suggested, value) }
    );
    assert_eq!(
        Size::<Constraints<Dimension>>::max_from_width(value),
        Size { width: tier(Constraint::Max, value), height: auto }
    );
    assert_eq!(
        Size::<Constraints<Dimension>>::max_from_height(value),
        Size { width: auto, height: tier(Constraint::Max, value) }
    );
}

#[test]
fn constraint_getters() {
    let width = Constraints { min: Dimension::Points(s(1)), suggested: Dimension::Auto, max: Dimension::Undefined };
    let height = Constraints { min: Dimension::Auto, suggested: Dimension::Points(s(2)), max: Dimension::Percent(s(3)) };
    let both = Size { width, height };
    assert_eq!(both.min(), Size { width: Dimension::Points(s(1)), height: Dimension::Auto });
    assert_eq!(both.suggested(), Size { width: Dimension::Auto, height: Dimension::Points(s(2)) });
    assert_eq!(both.max(), Size { width: Dimension::Undefined, height: Dimension::Percent(s(3)) });
    assert_eq!(both.get(Constraint::Min), both.min());
    assert_eq!(width.get(Constraint::Suggested), Dimension::Auto);
    assert!(both.has_min_or_max());
    assert!(width.has_min_or_max());
    assert!(!Constraints::<Dimension>::suggested(Dimension::Points(s(1))).has_min_or_max());
    assert!(!Size::<Constraints<Dimension>>::auto_constraints().has_min_or_max());
    assert!(Dimension::Percent(s(1)).is_defined());
    assert!(!Dimension::Auto.is_defined());
    let resolved = Size {
        width: Constraints { min: Some(s(1)), suggested: None, max: Some(s(3)) },
        height: Constraints::<Option<Scalar>>::suggested(Some(s(5))),
    };
    assert_eq!(resolved.min(), Size { width: Some(s(1)), height: None });
    assert_eq!(resolved.suggested(), Size { width: None, height: Some(s(5)) });
    assert_eq!(resolved.max(), Size { width: Some(s(3)), height: None });
    assert_eq!(resolved.get(Constraint::Max), resolved.max());
}

#[test]
fn known_dimensions_take_the_place_of_available_space() {
    let space = Size { width: AvailableSpace::Definite(s(10)), height: AvailableSpace::MinContent };
    assert_eq!(
        space.maybe_set(Size { width: None, height: Some(s(5)) }),
        Size { width: AvailableSpace::Definite(s(10)), height: AvailableSpace::Definite(s(5)) }
    );
    assert_eq!(AvailableSpace::MaxContent.maybe_set(None), AvailableSpace::MaxContent);
    assert_eq!(AvailableSpace::MaxContent.maybe_set(Some(s(1))), AvailableSpace::Definite(s(1)));
    assert_eq!(space.as_options(), Size { width: Some(s(10)), height: None });
    assert_eq!(AvailableSpace::zero(), AvailableSpace::Definite(s(0)));
    assert!(AvailableSpace::Definite(s(1)).is_definite());
    assert!(!AvailableSpace::MinContent.is_definite());
    assert_eq!(AvailableSpace::Definite(s(1)).into_option(), Some(s(1)));
    assert_eq!(AvailableSpace::MaxContent.into_option(), None);
    assert_eq!(AvailableSpace::MaxContent.unwrap_or(s(4)), s(4));
    assert_eq!(AvailableSpace::Definite(s(1)).unwrap_or(s(4)), s(1));
    assert_eq!(
        Size::<AvailableSpace>::min_content(),
        Size { width: AvailableSpace::MinContent, height: AvailableSpace::MinContent }
    );
}
