use neilplot::bounds::{AxisMap, DataError};
use neilplot::fixed::{abs, ceil_to, floor_to, magnitude, pow10, times, LIMIT, ONE};
use neilplot::{Bounds, Range};

fn units(v: f64) -> i64 {
    (v * 1e6).round() as i64
}

#[test]
fn one_is_a_million() {
    assert_eq!(ONE, 1_000_000);
    assert_eq!(LIMIT, 1_000_000_000_000_000_000);
}

#[test]
fn times_is_exact_on_whole_results() {
    assert_eq!(times(units(3.0), units(0.5)), units(1.5));
    assert_eq!(times(units(-3.0), units(0.5)), units(-1.5));
    assert_eq!(times(units(97.0), units(0.1)), units(9.7));
}

#[test]
fn times_truncates_toward_zero() {
    assert_eq!(times(1, 500_000), 0);
    assert_eq!(times(-1, 500_000), 0);
    assert_eq!(times(3, 500_000), 1);
    assert_eq!(times(-3, 500_000), -1);
}

#[test]
fn pow10_and_magnitude() {
    assert_eq!(pow10(0), 1);
    assert_eq!(pow10(6), 1_000_000);
    assert_eq!(pow10(18), 1_000_000_000_000_000_000);
    assert_eq!(magnitude(0), 0);
    assert_eq!(magnitude(9), 0);
    assert_eq!(magnitude(10), 1);
    assert_eq!(magnitude(9_700_000), 6);
    assert_eq!(magnitude(i64::MAX), 18);
    assert_eq!(abs(-5), 5);
    assert_eq!(abs(5), 5);
}

#[test]
fn floor_and_ceil_to_multiples() {
    assert_eq!(floor_to(7, 5), 5);
    assert_eq!(floor_to(-7, 5), -10);
    assert_eq!(floor_to(-10, 5), -10);
    assert_eq!(floor_to(0, 5), 0);
    assert_eq!(ceil_to(7, 5), 10);
    assert_eq!(ceil_to(-7, 5), -5);
    assert_eq!(ceil_to(10, 5), 10);
}

#[test]
fn empty_and_default_ranges() {
    assert_eq!(Range::empty(), Range { min: 0, max: 0 });
    assert_eq!(Range::default(), Range { min: 0, max: 0 });
    assert_eq!(Range::new(1, 2), Range { min: 1, max: 2 });
}

#[test]
fn size_is_signed() {
    assert_eq!(Range::new(units(2.0), units(5.0)).size(), units(3.0));
    assert_eq!(Range::new(units(5.0), units(2.0)).size(), units(-3.0));
    assert_eq!(Range::new(7, 7).size(), 0);
}

#[test]
fn expand_follows_the_direction() {
    assert_eq!(
        Range::new(units(2.0), units(5.0)).expand(units(1.0)),
        Range::new(units(1.0), units(6.0))
    );
    assert_eq!(
        Range::new(units(5.0), units(2.0)).expand(units(1.0)),
        Range::new(units(6.0), units(1.0))
    );
    assert_eq!(Range::new(0, 0).expand(units(1.0)), Range::new(units(-1.0), units(1.0)));
}

#[test]
fn shrink_is_expand_by_the_opposite() {
    assert_eq!(
        Range::new(units(0.0), units(1000.0)).shrink(units(80.0)),
        Range::new(units(80.0), units(920.0))
    );
    assert_eq!(
        Range::new(units(1000.0), units(0.0)).shrink(units(80.0)),
        Range::new(units(920.0), units(80.0))
    );
}

#[test]
fn expand_by_and_shrink_by_take_a_fraction_of_the_size() {
    assert_eq!(
        Range::new(units(0.0), units(10.0)).expand_by(units(0.1)),
        Range::new(units(-1.0), units(11.0))
    );
    assert_eq!(
        Range::new(units(0.0), units(10.0)).shrink_by(units(0.1)),
        Range::new(units(1.0), units(9.0))
    );
}

#[test]
fn a_fraction_of_a_negative_size_is_a_negative_amount() {
    assert_eq!(
        Range::new(units(10.0), units(0.0)).expand_by(units(0.1)),
        Range::new(units(9.0), units(1.0))
    );
    assert_eq!(
        Range::new(units(10.0), units(0.0)).shrink_by(units(0.1)),
        Range::new(units(11.0), units(-1.0))
    );
}

#[test]
fn contains_either_direction() {
    let up = Range::new(units(1.0), units(3.0));
    let down = Range::new(units(3.0), units(1.0));
    for r in [up, down] {
        assert!(r.contains(&units(1.0)));
        assert!(r.contains(&units(2.0)));
        assert!(r.contains(&units(3.0)));
        assert!(!r.contains(&units(0.999999)));
        assert!(!r.contains(&units(3.000001)));
    }
}

#[test]
fn union_with_a_point_returns_the_other() {
    let a = Range::new(units(1.0), units(3.0));
    let point = Range::new(units(7.0), units(7.0));
    assert_eq!(a.union(point), a);
    assert_eq!(point.union(a), a);
    let other_point = Range::new(units(9.0), units(9.0));
    assert_eq!(point.union(other_point), other_point);
}

#[test]
fn union_commutes_on_ranges_with_length() {
    let a = Range::new(units(1.0), units(3.0));
    let b = Range::new(units(-2.0), units(2.0));
    assert_eq!(a.union(b), Range::new(units(-2.0), units(3.0)));
    assert_eq!(b.union(a), a.union(b));
    let down = Range::new(units(5.0), units(0.0));
    assert_eq!(a.union(down), Range::new(units(1.0), units(3.0)));
    assert_eq!(down.union(a), a.union(down));
}

#[test]
fn is_bounded_at_the_limit() {
    assert!(Range::new(-LIMIT, LIMIT).is_bounded());
    assert!(!Range::new(-LIMIT - 1, 0).is_bounded());
    assert!(!Range::new(0, LIMIT + 1).is_bounded());
}

#[test]
fn bounds_width_height_and_union() {
    let b = Bounds::new(Range::new(0, units(1000.0)), Range::new(units(500.0), 0));
    assert_eq!(b.width(), units(1000.0));
    assert_eq!(b.height(), units(-500.0));
    assert_eq!(Bounds::empty(), Bounds { x: Range::empty(), y: Range::empty() });
    let c = Bounds::new(Range::new(units(-1.0), units(1.0)), Range::new(units(1.0), units(2.0)));
    assert_eq!(
        b.union(c),
        Bounds::new(Range::new(units(-1.0), units(1000.0)), Range::new(units(1.0), units(2.0)))
    );
}

#[test]
fn bounds_shrink_and_expand() {
    let outer = Bounds::new(Range::new(0, units(1000.0)), Range::new(units(1000.0), 0));
    let viewport = outer.shrink(units(80.0));
    assert_eq!(viewport.x, Range::new(units(80.0), units(920.0)));
    assert_eq!(viewport.y, Range::new(units(920.0), units(80.0)));
    assert_eq!(viewport.expand(units(80.0)), outer);
    assert_eq!(
        outer.expand_by(units(0.1)),
        Bounds::new(
            Range::new(units(-100.0), units(1100.0)),
            Range::new(units(900.0), units(100.0))
        )
    );
}

#[test]
fn bounds_shrink_by_takes_the_fraction_of_each_side() {
    let b = Bounds::new(Range::new(0, units(10.0)), Range::new(0, units(20.0)));
    let s = b.shrink_by(units(0.25));
    assert_eq!(s.x, Range::new(units(2.5), units(7.5)));
    assert_eq!(s.y, Range::new(units(5.0), units(15.0)));
    assert_eq!(s.expand_by(units(0.5)), b);
}

fn apply(m: &AxisMap, v: i64) -> i128 {
    (m.scale * v as i128 + m.offset) / m.divisor
}

#[test]
fn transform_takes_ends_to_ends() {
    let data = Bounds::new(Range::new(units(-1.0), units(11.1)), Range::new(0, units(25.0)));
    let viewport = Bounds::new(Range::new(units(80.0), units(920.0)), Range::new(units(920.0), units(80.0)));
    let affine = data.transform_to(viewport).unwrap();
    assert_eq!(affine.x.scale, units(840.0) as i128);
    assert_eq!(affine.x.divisor, units(12.1) as i128);
    assert_eq!(
        affine.x.offset,
        units(80.0) as i128 * units(12.1) as i128 - units(-1.0) as i128 * units(840.0) as i128
    );
    assert_eq!(apply(&affine.x, units(-1.0)), units(80.0) as i128);
    assert_eq!(apply(&affine.x, units(11.1)), units(920.0) as i128);
    assert_eq!(apply(&affine.y, 0), units(920.0) as i128);
    assert_eq!(apply(&affine.y, units(25.0)), units(80.0) as i128);
    assert_eq!(apply(&affine.y, units(12.5)), units(500.0) as i128);
}

#[test]
fn transform_of_a_rectangle_without_extent_is_refused() {
    let viewport = Bounds::new(Range::new(0, units(100.0)), Range::new(units(100.0), 0));
    let flat = Bounds::new(Range::new(0, units(1.0)), Range::new(units(3.0), units(3.0)));
    assert_eq!(flat.transform_to(viewport), Err(DataError::EmptyRange));
    let thin = Bounds::new(Range::new(units(3.0), units(3.0)), Range::new(0, units(1.0)));
    assert_eq!(thin.transform_to(viewport), Err(DataError::EmptyRange));
    assert_eq!(
        AxisMap::between(Range::new(5, 5), Range::new(0, 1)),
        Err(DataError::EmptyRange)
    );
}

#[test]
fn apply_maps_values_and_refuses_what_does_not_fit() {
    let map = AxisMap::between(Range::new(0, units(1.0)), Range::new(units(80.0), units(920.0)))
        .unwrap();
    assert_eq!(map.apply(0), Some(units(80.0)));
    assert_eq!(map.apply(units(1.0)), Some(units(920.0)));
    assert_eq!(map.apply(units(0.5)), Some(units(500.0)));
    assert_eq!(map.apply(units(-1.0)), Some(units(-760.0)));
    assert_eq!(map.apply(1), Some(80_000_840));
    assert_eq!(map.apply(i64::MAX), None);
    assert_eq!(map.apply(i64::MIN), None);
}

#[test]
fn apply_truncates_toward_zero() {
    let map =
        AxisMap::between(Range::new(0, 3), Range::new(0, 1)).unwrap();
    assert_eq!(map.apply(1), Some(0));
    assert_eq!(map.apply(2), Some(0));
    assert_eq!(map.apply(3), Some(1));
    assert_eq!(map.apply(-2), Some(0));
    assert_eq!(map.apply(-3), Some(-1));
    let down = AxisMap::between(Range::new(3, 0), Range::new(0, 1)).unwrap();
    assert_eq!(down.apply(3), Some(0));
    assert_eq!(down.apply(2), Some(0));
    assert_eq!(down.apply(0), Some(1));
    assert_eq!(down.apply(5), Some(0));
    assert_eq!(down.apply(6), Some(-1));
}

#[test]
fn union_of_upward_ranges_can_be_grouped_either_way() {
    let ranges = [
        Range::new(units(1.0), units(3.0)),
        Range::new(units(-2.0), units(2.0)),
        Range::new(units(7.0), units(7.0)),
        Range::new(units(4.0), units(9.0)),
        Range::new(0, 0),
    ];
    for a in ranges {
        for b in ranges {
            for c in ranges {
                assert_eq!(a.union(b).union(c), a.union(b.union(c)));
            }
        }
    }
}
