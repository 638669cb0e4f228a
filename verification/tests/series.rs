use neilplot::bounds::{DataError, DataRange, RangeUnit};
use neilplot::series::{
    bin_counts, bin_index, counted_range, extent_of, max_count, max_of, Counts,
};
use neilplot::{BarChartAxes, HistogramAxes, Range};
use polars::prelude::Column;

fn units(v: f64) -> i64 {
    (v * 1e6).round() as i64
}

fn labels(texts: &[&str]) -> Vec<String> {
    texts.iter().map(|t| t.to_string()).collect()
}

fn parts(r: DataRange<'_>) -> (Range, RangeUnit, bool, bool) {
    match r {
        DataRange::Continuous { range, unit, margin_min, margin_max } => {
            (range, unit, margin_min, margin_max)
        }
        DataRange::Categorical(_) => panic!("expected a continuous range"),
    }
}

#[test]
fn counted_range_stands_on_zero() {
    assert_eq!(
        parts(counted_range(4, Some(25)).unwrap()),
        (Range::new(0, units(25.0)), RangeUnit::Absolute, false, true)
    );
    assert_eq!(
        parts(counted_range(1, Some(-3)).unwrap()),
        (Range::new(0, units(-3.0)), RangeUnit::Absolute, false, true)
    );
}

#[test]
fn counted_range_errors() {
    assert!(matches!(counted_range(0, Some(25)), Err(DataError::EmptyRange)));
    assert!(matches!(counted_range(0, None), Err(DataError::EmptyRange)));
    assert!(matches!(counted_range(4, None), Err(DataError::DataExtraction)));
    assert!(matches!(
        counted_range(4, Some(1_000_000_000_001)),
        Err(DataError::DataExtraction)
    ));
    assert!(matches!(
        counted_range(4, Some(-1_000_000_000_001)),
        Err(DataError::DataExtraction)
    ));
    assert!(counted_range(4, Some(1_000_000_000_000)).is_ok());
}

#[test]
fn greatest_value_of_a_column() {
    assert_eq!(max_of(&Column::new("v".into(), [10i64, 20, 15, 25])), Some(25));
    assert_eq!(max_of(&Column::new("v".into(), [-3i32, -7])), Some(-3));
    assert_eq!(max_of(&Column::new("v".into(), Vec::<i64>::new())), None);
}

#[test]
fn bar_chart_bounds() {
    let labels = labels(&["A", "B", "C", "D"]);
    let values = Column::new("value".into(), [10i64, 20, 15, 25]);
    let bounds = BarChartAxes::new(&labels, &values).data_bounds().unwrap();
    match bounds.x {
        DataRange::Categorical(labels) => assert_eq!(*labels, vec!["A", "B", "C", "D"]),
        DataRange::Continuous { .. } => panic!("labels are categorical"),
    }
    assert_eq!(
        parts(bounds.y),
        (Range::new(0, units(25.0)), RangeUnit::Absolute, false, true)
    );
}

#[test]
fn bar_chart_without_bars() {
    let labels = labels(&[]);
    let values = Column::new("value".into(), Vec::<i64>::new());
    assert!(matches!(
        BarChartAxes::new(&labels, &values).data_bounds(),
        Err(DataError::EmptyRange)
    ));
}

#[test]
fn extent_of_values() {
    assert_eq!(extent_of(&vec![3, -1, 7, 7, 0]), Range::new(-1, 7));
    assert_eq!(extent_of(&vec![5]), Range::new(5, 5));
}

#[test]
fn bins_are_half_open_but_for_the_last() {
    let range = Range::new(0, units(10.0));
    assert_eq!(bin_index(0, range, 5), 0);
    assert_eq!(bin_index(units(1.999999), range, 5), 0);
    assert_eq!(bin_index(units(2.0), range, 5), 1);
    assert_eq!(bin_index(units(9.999999), range, 5), 4);
    assert_eq!(bin_index(units(10.0), range, 5), 4);
    assert_eq!(bin_index(units(-1.0), range, 5), 0);
    assert_eq!(bin_index(units(11.0), range, 5), 4);
    assert_eq!(bin_index(units(3.0), Range::new(units(3.0), units(3.0)), 5), 0);
    assert_eq!(bin_index(0, Range::new(i64::MIN, i64::MAX), 2), 1);
    assert_eq!(bin_index(-1, Range::new(i64::MIN, i64::MAX), 2), 0);
}

#[test]
fn bin_counts_count_every_value_once() {
    let values: Vec<i64> = (0..=10).map(|v| units(v as f64)).collect();
    let counts = bin_counts(&values, Range::new(0, units(10.0)), 5);
    assert_eq!(counts, vec![2, 2, 2, 2, 3]);
    assert_eq!(bin_counts(&vec![], Range::new(0, 1), 3), vec![0, 0, 0]);
    assert_eq!(bin_counts(&vec![4, 4, 4], Range::new(4, 4), 2), vec![3, 0]);
}

#[test]
fn greatest_count() {
    assert_eq!(max_count(&vec![2, 2, 3, 1]), Some(3));
    assert_eq!(max_count(&vec![]), None);
    assert_eq!(max_count(&vec![1, u64::MAX]), None);
}

#[test]
fn histogram_of_values() {
    let values: Vec<i64> = [0.5, 1.5, 1.6, 2.5, 4.5].iter().map(|v| units(*v)).collect();
    let histogram = HistogramAxes::new(&values, 4).unwrap();
    assert_eq!(histogram.range, Range::new(units(0.5), units(4.5)));
    match &histogram.counts {
        Counts::Binned(counts) => assert_eq!(*counts, vec![1, 2, 1, 1]),
        Counts::Given(_) => panic!("the bins were counted"),
    }
    let bounds = histogram.data_bounds().unwrap();
    assert_eq!(
        parts(bounds.x),
        (Range::new(units(0.5), units(4.5)), RangeUnit::Absolute, false, false)
    );
    assert_eq!(parts(bounds.y), (Range::new(0, units(2.0)), RangeUnit::Absolute, false, true));
}

#[test]
fn histogram_without_values_or_bins() {
    assert!(matches!(HistogramAxes::new(&vec![], 4), Err(DataError::EmptyRange)));
    assert!(matches!(HistogramAxes::new(&vec![1, 2], 0), Err(DataError::EmptyRange)));
}

#[test]
fn histogram_of_given_counts() {
    let counts = Column::new("counts".into(), [3i64, 9, 4]);
    let histogram = HistogramAxes::new_counted(&counts).unwrap();
    assert_eq!(histogram.range, Range::new(0, units(3.0)));
    let bounds = histogram.data_bounds().unwrap();
    assert_eq!(
        parts(bounds.x),
        (Range::new(0, units(3.0)), RangeUnit::Absolute, false, false)
    );
    assert_eq!(parts(bounds.y), (Range::new(0, units(9.0)), RangeUnit::Absolute, false, true));
}

#[test]
fn histogram_of_no_counts() {
    let counts = Column::new("counts".into(), Vec::<i64>::new());
    let histogram = HistogramAxes::new_counted(&counts).unwrap();
    assert_eq!(histogram.range, Range::new(0, 0));
    assert!(matches!(histogram.data_bounds(), Err(DataError::EmptyRange)));
}

#[test]
fn bar_chart_of_words() {
    let labels = labels(&["A", "B"]);
    let values = Column::new("value".into(), ["tall", "short"]);
    assert_eq!(max_of(&values), None);
    assert!(matches!(
        BarChartAxes::new(&labels, &values).data_bounds(),
        Err(DataError::DataExtraction)
    ));
}
