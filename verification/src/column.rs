//! The parts of the data frame and formatting libraries that the layout reads.
//!
//! Nothing here is proved. Each function states what the source of the
//! library that it calls shows of the call; the rest of the crate is verified
//! against these statements.

use vstd::prelude::*;
use polars::prelude::{AnyValue, Column, DataType, PolarsError};
use crate::bounds::ColumnKind;

verus! {

/// A column of a data frame. Nothing of its inside is known here.
#[verifier::external_type_specification]
#[verifier::external_body]
pub struct ExColumn(Column);

/// The error of the data frame library. Nothing of its inside is known here.
#[verifier::external_type_specification]
#[verifier::external_body]
pub struct ExPolarsError(PolarsError);

/// The kind of a column's data type.
pub uninterp spec fn column_kind(column: Column) -> ColumnKind;

/// The greatest value of a column as a whole number, where it has one.
pub uninterp spec fn column_max(column: Column) -> Option<i64>;

/// What a column holds: its values as whole numbers, in order and as many as
/// the column has, and `None` for each that is none.
pub uninterp spec fn column_counts(column: Column) -> Seq<Option<i64>>;

/// The text of a date given in days since 1970-01-01.
pub uninterp spec fn spec_date_text(days: i32) -> Seq<char>;

/// The text of a duration given in nanoseconds.
pub uninterp spec fn spec_duration_text(nanos: u64) -> Seq<char>;

/// `Column::len`: the number of values in the column.
#[verifier::external_body]
pub(crate) fn len(column: &Column) -> (n: usize)
    ensures
        n == column_counts(*column).len(),
{
    column.len()
}

/// `Column::get` followed by `AnyValue::try_extract` to an `i64`: the value
/// at `index` as a whole number. Either call may fail: the first exactly when
/// the index is not below the length, the second on a value that is no
/// number.
#[verifier::external_body]
pub(crate) fn count(column: &Column, index: usize) -> (r: Option<i64>)
    ensures
        index < column_counts(*column).len() ==> r == column_counts(*column)[index as int],
        index >= column_counts(*column).len() ==> r.is_none(),
{
    match column.get(index) {
        Ok(value) => value.try_extract::<i64>().ok(),
        Err(_) => None,
    }
}

/// `Column::dtype`, told apart by variant: a duration type, the date type,
/// or any other type.
#[verifier::external_body]
pub(crate) fn kind(column: &Column) -> (k: ColumnKind)
    ensures
        k == column_kind(*column),
{
    match column.dtype() {
        DataType::Duration(_) => ColumnKind::Duration,
        DataType::Date => ColumnKind::Date,
        _ => ColumnKind::Other,
    }
}

/// `Column::max_reduce`, then `Scalar::into_value` and
/// `AnyValue::try_extract` to an `i64`. The reduction fails on a column whose
/// type has no order, and the extraction on a value that is no number, among
/// them the null that an empty column reduces to.
#[verifier::external_body]
pub(crate) fn max(column: &Column) -> (r: Result<i64, PolarsError>)
    ensures
        r matches Ok(v) ==> column_max(*column) == Some(v),
        r is Err ==> column_max(*column).is_none(),
{
    column.max_reduce()?.into_value().try_extract::<i64>()
}

/// The `Display` of `AnyValue::Date(days)`, which writes the calendar date
/// that lies `days` after 1970-01-01. The text depends on `days` alone. The
/// conversion to a calendar date panics outside the years that the calendar
/// type holds, which `requires` stays well within.
#[verifier::external_body]
pub(crate) fn date_text(days: i32) -> (s: String)
    requires
        -90_000_000 <= days <= 90_000_000,
    ensures
        s@ == spec_date_text(days),
{
    format!("{}", AnyValue::Date(days))
}

/// The `Debug` of `std::time::Duration::from_nanos(nanos)`. The text is the
/// standard library's to choose, and depends on `nanos` alone.
#[verifier::external_body]
pub(crate) fn duration_text(nanos: u64) -> (s: String)
    ensures
        s@ == spec_duration_text(nanos),
{
    format!("{:?}", std::time::Duration::from_nanos(nanos))
}

/// `String::push`: appends one character.
pub assume_specification[ String::push ](s: &mut String, c: char)
    ensures
        final(s)@ == old(s)@.push(c),
;

} // verus!
