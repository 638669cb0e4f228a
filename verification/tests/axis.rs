use neilplot::bounds::{DataRange, RangeUnit};
use neilplot::{Axis, Range, Scale, Ticks};
use polars::prelude::{Column, DataType, TimeUnit};

fn units(v: f64) -> i64 {
    (v * 1e6).round() as i64
}

fn same(v: i64) -> i64 {
    v
}

fn labels(texts: &[&str]) -> Vec<String> {
    texts.iter().map(|t| t.to_string()).collect()
}

const LIMIT: i64 = 1_000_000_000_000_000_000;

fn log10(v: i64) -> i64 {
    if v <= 0 {
        -LIMIT
    } else {
        ((v as f64 / 1e6).log10() * 1e6).round() as i64
    }
}

fn exp10(v: i64) -> i64 {
    let w = (10f64.powf(v as f64 / 1e6) * 1e6).round();
    if w > LIMIT as f64 {
        LIMIT
    } else {
        w as i64
    }
}

fn continuous(min: f64, max: f64, margin_min: bool, margin_max: bool) -> DataRange<'static> {
    DataRange::Continuous {
        range: Range::new(units(min), units(max)),
        unit: RangeUnit::Absolute,
        margin_min,
        margin_max,
    }
}

#[test]
fn default_axis() {
    let axis = Axis::default();
    assert_eq!(axis.title, None);
    assert_eq!(axis.scale, Scale::Linear);
    assert_eq!(axis.min, None);
    assert_eq!(axis.max, None);
    assert_eq!(axis.margin, units(0.1));
    assert_eq!(axis.ticks, Ticks::Auto);
    assert_eq!(Scale::default(), Scale::Linear);
    assert_eq!(Ticks::default(), Ticks::Auto);
}

#[test]
fn setters_chain() {
    let mut axis = Axis::default();
    axis.title("Y Axis".to_string()).min(0).max(units(5.0)).margin(units(0.2));
    axis.ticks_fixed(7).log_scale();
    assert_eq!(axis.title, Some("Y Axis".to_string()));
    assert_eq!(axis.min, Some(0));
    assert_eq!(axis.max, Some(units(5.0)));
    assert_eq!(axis.margin, units(0.2));
    assert_eq!(axis.ticks, Ticks::Fixed(7));
    assert_eq!(axis.scale, Scale::Logarithmic);
}

#[test]
fn from_range_wants_both_margins() {
    match DataRange::from(Range::new(1, 2)) {
        DataRange::Continuous { range, unit, margin_min, margin_max } => {
            assert_eq!(range, Range::new(1, 2));
            assert_eq!(unit, RangeUnit::Absolute);
            assert!(margin_min);
            assert!(margin_max);
        }
        DataRange::Categorical(_) => panic!("a range is continuous"),
    }
}

#[test]
fn linear_margins_on_both_sides() {
    let axis = Axis::default();
    // A tenth of 10 on each side.
    assert_eq!(
        axis.pretty_range(continuous(0.0, 10.0, true, true), &same, &same),
        Range::new(units(-1.0), units(11.0))
    );
}

#[test]
fn linear_margin_on_one_side_only() {
    let axis = Axis::default();
    assert_eq!(
        axis.pretty_range(continuous(0.0, 10.0, false, true), &same, &same),
        Range::new(units(0.0), units(11.0))
    );
    assert_eq!(
        axis.pretty_range(continuous(0.0, 10.0, true, false), &same, &same),
        Range::new(units(-1.0), units(10.0))
    );
    assert_eq!(
        axis.pretty_range(continuous(0.0, 10.0, false, false), &same, &same),
        Range::new(units(0.0), units(10.0))
    );
}

#[test]
fn margin_of_a_downward_range_is_a_magnitude() {
    let axis = Axis::default();
    assert_eq!(
        axis.pretty_range(continuous(10.0, 0.0, true, true), &same, &same),
        Range::new(units(9.0), units(1.0))
    );
}

#[test]
fn explicit_ends_win_over_margins() {
    for (margin_min, margin_max) in [(false, false), (false, true), (true, false), (true, true)] {
        let mut axis = Axis::default();
        axis.min(units(-7.0)).max(units(42.0));
        assert_eq!(
            axis.pretty_range(continuous(0.0, 10.0, margin_min, margin_max), &same, &same),
            Range::new(units(-7.0), units(42.0))
        );
        axis.log_scale();
        assert_eq!(
            axis.pretty_range(continuous(1.0, 10.0, margin_min, margin_max), &log10, &exp10),
            Range::new(units(-7.0), units(42.0))
        );
    }
}

#[test]
fn one_explicit_end_leaves_the_other_margined() {
    let mut axis = Axis::default();
    axis.min(0);
    assert_eq!(
        axis.pretty_range(continuous(0.0, 10.0, true, true), &same, &same),
        Range::new(units(0.0), units(11.0))
    );
    let mut axis = Axis::default();
    axis.max(units(10.0));
    assert_eq!(
        axis.pretty_range(continuous(0.0, 10.0, true, true), &same, &same),
        Range::new(units(-1.0), units(10.0))
    );
}

#[test]
fn logarithmic_margin_below() {
    let mut axis = Axis::default();
    axis.log_scale();
    // log10(1000) - log10(1) = 3; a tenth of it is 0.3; 10^0.3 = 1.995262.
    assert_eq!(
        axis.pretty_range(continuous(1.0, 1000.0, true, false), &log10, &exp10),
        Range::new(1_000_000 - 1_995_262, units(1000.0))
    );
}

#[test]
fn logarithmic_margin_above() {
    let mut axis = Axis::default();
    axis.log_scale();
    assert_eq!(
        axis.pretty_range(continuous(1.0, 1000.0, false, true), &log10, &exp10),
        Range::new(units(1.0), units(1000.0) + 1_995_262)
    );
}

#[test]
fn categorical_range_is_centred_on_the_indices() {
    let labels = labels(&["A", "B", "C", "D"]);
    for margin in [0.0, 0.1, 0.5] {
        let mut axis = Axis::default();
        axis.margin(units(margin));
        assert_eq!(
            axis.pretty_range(DataRange::Categorical(&labels), &same, &same),
            Range::new(units(-0.5), units(3.5))
        );
    }
    let mut axis = Axis::default();
    axis.min(units(-3.0)).max(units(9.0)).log_scale();
    assert_eq!(
        axis.pretty_range(DataRange::Categorical(&labels), &log10, &exp10),
        Range::new(units(-0.5), units(3.5))
    );
}

#[test]
fn categorical_range_of_no_labels() {
    let labels = labels(&[]);
    assert_eq!(
        Axis::default().pretty_range(DataRange::Categorical(&labels), &same, &same),
        Range::new(units(-0.5), units(-0.5))
    );
}

#[test]
fn scale_value_is_identity_or_logarithm() {
    assert_eq!(Scale::Linear.scale_value(units(100.0), &log10), units(100.0));
    assert_eq!(Scale::Logarithmic.scale_value(units(100.0), &log10), units(2.0));
}

#[test]
fn scaled_range() {
    let mut axis = Axis::default();
    let r = Range::new(units(1.0), units(1000.0));
    assert_eq!(axis.scaled(r, &log10), r);
    axis.log_scale();
    assert_eq!(axis.scaled(r, &log10), Range::new(0, units(3.0)));
}

#[test]
fn plottable_extents() {
    assert!(continuous(0.0, 1.0, true, true).is_plottable());
    let far = DataRange::from(Range::new(0, LIMIT + 1));
    assert!(!far.is_plottable());
    let labels = labels(&["A", "B"]);
    assert!(DataRange::Categorical(&labels).is_plottable());
}

#[test]
fn from_column_reads_the_unit() {
    let numbers = Column::new("n".into(), [1i32, 2, 3]);
    let dates = numbers.cast(&DataType::Date).unwrap();
    let spans = Column::new("s".into(), [1i64, 2, 3])
        .cast(&DataType::Duration(TimeUnit::Nanoseconds))
        .unwrap();
    for (column, expected) in [
        (&numbers, RangeUnit::Absolute),
        (&dates, RangeUnit::Date),
        (&spans, RangeUnit::Duration),
    ] {
        match DataRange::from_column(column, units(1.0), units(3.0)) {
            DataRange::Continuous { range, unit, margin_min, margin_max } => {
                assert_eq!(range, Range::new(units(1.0), units(3.0)));
                assert_eq!(unit, expected);
                assert!(margin_min);
                assert!(margin_max);
            }
            DataRange::Categorical(_) => panic!("a column of numbers is continuous"),
        }
    }
}

#[test]
fn margins_given_as_amounts() {
    let axis = Axis::default();
    let range = Range::new(units(2.0), units(8.0));
    assert_eq!(
        axis.with_margins(range, true, true, units(0.5), units(1.5)),
        Range::new(units(1.5), units(9.5))
    );
    assert_eq!(axis.with_margins(range, false, true, units(0.5), units(1.5)), Range::new(units(2.0), units(9.5)));
    assert_eq!(axis.with_margins(range, true, false, units(0.5), units(1.5)), Range::new(units(1.5), units(8.0)));
    assert_eq!(axis.with_margins(range, false, false, units(0.5), units(1.5)), range);
    let mut fixed = Axis::default();
    fixed.min(0);
    assert_eq!(
        fixed.with_margins(range, true, true, units(0.5), units(1.5)),
        Range::new(0, units(9.5))
    );
}

#[test]
fn margin_of_a_range() {
    let mut axis = Axis::default();
    let range = Range::new(units(1.0), units(1000.0));
    assert_eq!(axis.margin_of(range, &log10, &exp10), units(99.9));
    assert_eq!(axis.margin_of(Range::new(units(1000.0), units(1.0)), &log10, &exp10), units(99.9));
    axis.margin(units(-0.1));
    assert_eq!(axis.margin_of(range, &log10, &exp10), units(99.9));
    axis.log_scale();
    assert_eq!(axis.margin_of(range, &log10, &exp10), 1_995_262);
    axis.margin(units(0.5));
    assert_eq!(axis.margin_of(range, &log10, &exp10), 31_622_777);
}

#[test]
fn usable_settings() {
    let mut axis = Axis::default();
    assert!(axis.is_wf());
    axis.margin(units(1.5));
    assert!(axis.is_wf());
    axis.min(-LIMIT).max(LIMIT);
    assert!(axis.is_wf());
    axis.max(LIMIT + 1);
    assert!(!axis.is_wf());
    axis.max(0).min(-LIMIT - 1);
    assert!(!axis.is_wf());
}

#[test]
fn the_same_margin_on_both_sides() {
    let mut axis = Axis::default();
    axis.margin(units(0.25));
    assert_eq!(
        axis.pretty_range(continuous(0.0, 8.0, true, true), &same, &same),
        Range::new(units(-2.0), units(10.0))
    );
}

#[test]
fn a_margin_of_more_than_the_whole_length() {
    let mut axis = Axis::default();
    axis.margin(units(1.5));
    let data = continuous(0.0, 10.0, true, true);
    assert!(axis.margin_fits(&data));
    assert_eq!(
        axis.pretty_range(data, &same, &same),
        Range::new(units(-15.0), units(25.0))
    );
}

#[test]
fn margins_that_fit() {
    let mut axis = Axis::default();
    let widest = DataRange::from(Range::new(-LIMIT, LIMIT));
    axis.margin(units(2.0));
    assert!(axis.margin_fits(&widest));
    axis.margin(units(-2.0));
    assert!(axis.margin_fits(&widest));
    axis.margin(units(2.000001));
    assert!(!axis.margin_fits(&widest));
    axis.margin(i64::MAX);
    assert!(!axis.margin_fits(&continuous(0.0, 1.0, true, false)));
    assert!(axis.margin_fits(&continuous(0.0, 1.0, false, false)));
    assert!(axis.margin_fits(&continuous(3.0, 3.0, true, true)));
    assert!(axis.margin_fits(&DataRange::Categorical(&labels(&["A"]))));
    axis.log_scale().margin(units(4.0));
    assert!(axis.margin_fits(&widest));
    axis.margin(units(4.000001));
    assert!(!axis.margin_fits(&widest));
    assert!(axis.margin_fits(&continuous(0.0, 1.0, false, false)));
}
