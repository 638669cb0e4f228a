//! A plot: two axes, the extent of all that is plotted, and the map from data
//! to viewport.

use vstd::prelude::*;
use crate::axis::{tame, Axis, Scale};
use crate::bounds::{
    Affine, AxisMap, Bounds, DataBounds, DataError, DataRange, Range, RangeUnit,
};
use crate::fixed::{fits, spec_abs, LIMIT, ONE};

verus! {

/// The map from data to viewport for one drawing pass: the scale of each
/// axis, which is applied to a value first, and the affine map, which is
/// applied to the result.
#[derive(Clone, Copy, Debug, PartialEq, Eq, Structural)]
pub struct ViewportTransform {
    pub affine: Affine,
    pub x: Scale,
    pub y: Scale,
}

impl ViewportTransform {
    /// Whether `out` is the place in the viewport of the point `(x, y)` of
    /// the data: each coordinate goes through the scale of its axis, then
    /// through the affine map.
    pub open spec fn spec_apply<L: Fn(i64) -> i64>(
        self,
        x: i64,
        y: i64,
        log10: &L,
        out: Option<(i64, i64)>,
    ) -> bool {
        exists|sx: i64, sy: i64|
            {
                &&& if self.x == Scale::Linear {
                    sx == x
                } else {
                    call_ensures(*log10, (x,), sx)
                }
                &&& if self.y == Scale::Linear {
                    sy == y
                } else {
                    call_ensures(*log10, (y,), sy)
                }
                &&& if fits(self.affine.x.spec_apply(sx as int)) && fits(
                    self.affine.y.spec_apply(sy as int),
                ) {
                    out == Some(
                        (
                            self.affine.x.spec_apply(sx as int) as i64,
                            self.affine.y.spec_apply(sy as int) as i64,
                        ),
                    )
                } else {
                    out.is_none()
                }
            }
    }

    /// The place in the viewport of the point `(x, y)` of the data, and
    /// `None` where it lies farther out than an `i64` holds.
    pub fn apply<L: Fn(i64) -> i64>(&self, x: i64, y: i64, log10: &L) -> (out: Option<(i64, i64)>)
        requires
            tame(log10),
            self.affine.x.wf(),
            self.affine.y.wf(),
        ensures
            self.spec_apply(x, y, log10, out),
    {
        let sx = self.x.scale_value(x, log10);
        let sy = self.y.scale_value(y, log10);
        let out = match (self.affine.x.apply(sx), self.affine.y.apply(sy)) {
            (Some(px), Some(py)) => Some((px, py)),
            _ => None,
        };
        out
    }
}

/// The two axes of a plot and its title.
pub struct Plot {
    pub x: Axis,
    pub y: Axis,
    pub title: Option<String>,
}

/// The extent of a plot without series: from zero to one along both axes, in
/// plain numbers, without margins.
pub open spec fn spec_default_bounds<'a>() -> DataBounds<'a> {
    DataBounds {
        x: DataRange::Continuous {
            range: Range { min: 0, max: ONE },
            unit: RangeUnit::Absolute,
            margin_min: false,
            margin_max: false,
        },
        y: DataRange::Continuous {
            range: Range { min: 0, max: ONE },
            unit: RangeUnit::Absolute,
            margin_min: false,
            margin_max: false,
        },
    }
}

/// The union of the extents of the series in order, from the left. A series
/// whose extent could not be had is `None` and is passed over. The result is
/// `None` where no series has an extent, and the first error where a union
/// is refused.
pub open spec fn spec_union_all<'a>(series: Seq<Option<DataBounds<'a>>>) -> Result<
    Option<DataBounds<'a>>,
    DataError,
>
    decreases series.len(),
{
    if series.len() == 0 {
        Ok(None)
    } else {
        match spec_union_all(series.drop_last()) {
            Err(e) => Err(e),
            Ok(so_far) => match (so_far, series.last()) {
                (_, None) => Ok(so_far),
                (None, Some(next)) => Ok(Some(next)),
                (Some(acc), Some(next)) => match acc.spec_union(next) {
                    Ok(both) => Ok(Some(both)),
                    Err(e) => Err(e),
                },
            },
        }
    }
}

impl Plot {
    /// A plot with two default axes and no title.
    pub fn new() -> (p: Plot)
        ensures
            p == (Plot { x: Axis::spec_default(), y: Axis::spec_default(), title: None }),
            p.x.wf(),
            p.y.wf(),
    {
        Plot { x: Axis::default(), y: Axis::default(), title: None }
    }

    pub fn title(&mut self, title: &str) -> (r: &mut Self)
        ensures
            r.title.is_some(),
            r.title.unwrap()@ == title@,
            r.x == old(self).x,
            r.y == old(self).y,
            *final(self) == *final(r),
    {
        self.title = Some(title.to_owned());
        self
    }

    /// The extent of the plot: the union of the extents of its series, and
    /// the default extent where it has none.
    pub open spec fn spec_bounds<'a>(series: Seq<Option<DataBounds<'a>>>) -> Result<
        DataBounds<'a>,
        DataError,
    > {
        match spec_union_all(series) {
            Err(e) => Err(e),
            Ok(None) => Ok(spec_default_bounds()),
            Ok(Some(bounds)) => Ok(bounds),
        }
    }

    /// The extent of the plot. `series` holds the extent of each series in
    /// the order in which they were plotted, and `None` for a series whose
    /// extent could not be read: such a series takes no part. A plot without
    /// any extent reaches from zero to one along both axes, so that its frame
    /// can still be drawn.
    pub fn bounds<'a>(&self, series: &Vec<Option<DataBounds<'a>>>) -> (r: Result<
        DataBounds<'a>,
        DataError,
    >)
        ensures
            r == Self::spec_bounds(series@),
    {
        let mut bounds: Option<DataBounds<'a>> = None;
        let mut i: usize = 0;
        assert(series@.take(0) =~= Seq::empty());
        while i < series.len()
            invariant
                i <= series.len(),
                spec_union_all(series@.take(i as int)) == Ok::<Option<DataBounds<'a>>, DataError>(
                    bounds,
                ),
            decreases series.len() - i,
        {
            proof {
                assert(series@.take(i + 1).drop_last() =~= series@.take(i as int));
                assert(series@.take(i + 1).last() == series@[i as int]);
            }
            match series[i] {
                None => {},
                Some(bound) => {
                    bounds = Some(
                        match bounds {
                            Some(b) => match self.union_bounds(b, bound) {
                                Ok(both) => both,
                                Err(e) => {
                                    proof {
                                        lemma_union_all_fails(series@, i + 1);
                                    }
                                    return Err(e);
                                },
                            },
                            None => bound,
                        },
                    );
                },
            }
            i = i + 1;
        }
        assert(series@.take(i as int) =~= series@);
        match bounds {
            Some(b) => Ok(b),
            None => Ok(
                DataBounds {
                    x: DataRange::Continuous {
                        range: Range::new(0, ONE),
                        unit: RangeUnit::Absolute,
                        margin_min: false,
                        margin_max: false,
                    },
                    y: DataRange::Continuous {
                        range: Range::new(0, ONE),
                        unit: RangeUnit::Absolute,
                        margin_min: false,
                        margin_max: false,
                    },
                },
            ),
        }
    }

    /// The union of two extents, axis by axis.
    pub fn union_bounds<'a>(&self, a: DataBounds<'a>, b: DataBounds<'a>) -> (r: Result<
        DataBounds<'a>,
        DataError,
    >)
        ensures
            r == a.spec_union(b),
    {
        let x = match self.union_range(a.x, b.x) {
            Ok(x) => x,
            Err(e) => {
                return Err(e);
            },
        };
        match self.union_range(a.y, b.y) {
            Ok(y) => Ok(DataBounds { x, y }),
            Err(e) => Err(e),
        }
    }

    /// The union of two extents along one axis. Two continuous ranges unite
    /// to the union of their intervals, in the unit of the left one, with a
    /// margin on each side where either of them wants one. Labels are not
    /// numbers: a union in which either side is categorical is refused with
    /// [`DataError::IncompatibleRange`].
    pub fn union_range<'a>(&self, a: DataRange<'a>, b: DataRange<'a>) -> (r: Result<
        DataRange<'a>,
        DataError,
    >)
        ensures
            r == a.spec_union(b),
    {
        match (a, b) {
            (
                DataRange::Continuous {
                    range: range_a,
                    unit: unit_a,
                    margin_min: min_a,
                    margin_max: max_a,
                },
                DataRange::Continuous {
                    range: range_b,
                    unit: _,
                    margin_min: min_b,
                    margin_max: max_b,
                },
            ) => Ok(
                DataRange::Continuous {
                    range: range_a.union(range_b),
                    unit: unit_a,
                    margin_min: min_a || min_b,
                    margin_max: max_a || max_b,
                },
            ),
            _ => Err(DataError::IncompatibleRange),
        }
    }

    /// Whether `pretty` is the rectangle that the two axes show for the
    /// extent `data_bounds`.
    pub open spec fn spec_is_pretty<L: Fn(i64) -> i64, E: Fn(i64) -> i64>(
        &self,
        data_bounds: DataBounds<'_>,
        log10: &L,
        exp10: &E,
        pretty: Bounds,
    ) -> bool {
        &&& self.x.spec_is_pretty(data_bounds.x, log10, exp10, pretty.x)
        &&& self.y.spec_is_pretty(data_bounds.y, log10, exp10, pretty.y)
    }

    /// The rectangle that the two axes show for the extent `data_bounds`:
    /// the range that each axis shows for its side of it.
    pub fn pretty_bounds<L: Fn(i64) -> i64, E: Fn(i64) -> i64>(
        &self,
        data_bounds: DataBounds<'_>,
        log10: &L,
        exp10: &E,
    ) -> (pretty: Bounds)
        requires
            self.x.wf(),
            self.y.wf(),
            tame(log10),
            tame(exp10),
            data_bounds.x.spec_plottable(),
            data_bounds.y.spec_plottable(),
            self.x.spec_margin_fits(data_bounds.x),
            self.y.spec_margin_fits(data_bounds.y),
        ensures
            self.spec_is_pretty(data_bounds, log10, exp10, pretty),
            pretty.x.within(5 * LIMIT),
            pretty.y.within(5 * LIMIT),
    {
        Bounds {
            x: self.x.pretty_range(data_bounds.x, log10, exp10),
            y: self.y.pretty_range(data_bounds.y, log10, exp10),
        }
    }

    /// The transform that takes the rectangle `from`, in positions along the
    /// two scales, onto `viewport`.
    pub open spec fn spec_transform(&self, from: Bounds, viewport: Bounds) -> Result<
        ViewportTransform,
        DataError,
    > {
        if from.x.min == from.x.max || from.y.min == from.y.max {
            Err(DataError::EmptyRange)
        } else {
            Ok(
                ViewportTransform {
                    affine: Affine {
                        x: AxisMap::spec_between(from.x, viewport.x),
                        y: AxisMap::spec_between(from.y, viewport.y),
                    },
                    x: self.x.scale,
                    y: self.y.scale,
                },
            )
        }
    }

    /// The transform from data to `viewport`.
    ///
    /// The rectangle shown is placed along the two scales, each end by the
    /// scale of its axis, and the affine map takes the result onto
    /// `viewport` side by side. On a logarithmic axis the map therefore works
    /// on logarithms: whoever draws applies `log10` to a value before the
    /// map. Where the rectangle has no width or no height there is no map,
    /// and the error is [`DataError::EmptyRange`].
    pub fn viewport_transform<L: Fn(i64) -> i64, E: Fn(i64) -> i64>(
        &self,
        data_bounds: DataBounds<'_>,
        viewport: Bounds,
        log10: &L,
        exp10: &E,
    ) -> (r: Result<ViewportTransform, DataError>)
        requires
            self.x.wf(),
            self.y.wf(),
            tame(log10),
            tame(exp10),
            data_bounds.x.spec_plottable(),
            data_bounds.y.spec_plottable(),
            self.x.spec_margin_fits(data_bounds.x),
            self.y.spec_margin_fits(data_bounds.y),
            viewport.x.bounded(),
            viewport.y.bounded(),
        ensures
            exists|pretty: Bounds, from: Bounds|
                {
                    &&& self.spec_is_pretty(data_bounds, log10, exp10, pretty)
                    &&& self.x.spec_scaled(pretty.x, log10, from.x)
                    &&& self.y.spec_scaled(pretty.y, log10, from.y)
                    &&& r == self.spec_transform(from, viewport)
                },
            r matches Ok(t) ==> t.affine.x.wf() && t.affine.y.wf(),
    {
        let pretty = self.pretty_bounds(data_bounds, log10, exp10);
        let from = Bounds::new(self.x.scaled(pretty.x, log10), self.y.scaled(pretty.y, log10));
        let r = match from.transform_to(viewport) {
            Ok(affine) => Ok(ViewportTransform { affine, x: self.x.scale, y: self.y.scale }),
            Err(e) => Err(e),
        };
        assert(r == self.spec_transform(from, viewport));
        r
    }
}

/// A value on a logarithmic axis that goes through `log10`, through the map
/// from the range shown to the viewport, back through the map in reverse and
/// through `exp10` comes back to within `tolerance` of itself.
///
/// What `log10` and `exp10` compute is the caller's matter, so the law asks
/// of them what it needs: that `exp10` undoes `log10` at `v` to within
/// `tolerance`, and still does so where its argument is up to `slack` away
/// from the logarithm. The two maps lose less than
/// `|from.size / to.size| + 1`, which `slack` has to cover.
pub proof fn lemma_log_round_trip<L: Fn(i64) -> i64, E: Fn(i64) -> i64>(
    from: Range,
    to: Range,
    log10: &L,
    exp10: &E,
    v: i64,
    logarithm: i64,
    back: i64,
    slack: int,
    tolerance: int,
)
    requires
        from.min != from.max,
        to.min != to.max,
        from.bounded(),
        to.bounded(),
        call_ensures(*log10, (v,), logarithm),
        forall|z: i64, u: i64|
            spec_abs(z - logarithm) <= slack && #[trigger] call_ensures(*exp10, (z,), u)
                ==> spec_abs(u - v) <= tolerance,
        spec_abs(from.spec_size()) + spec_abs(to.spec_size()) <= slack * spec_abs(to.spec_size()),
        fits(
            AxisMap::spec_between(to, from).spec_apply(
                AxisMap::spec_between(from, to).spec_apply(logarithm as int),
            ),
        ),
        call_ensures(
            *exp10,
            (AxisMap::spec_between(to, from).spec_apply(
                AxisMap::spec_between(from, to).spec_apply(logarithm as int),
            ) as i64,),
            back,
        ),
    ensures
        spec_abs(back - v) <= tolerance,
{
    let s = to.spec_size();
    let d = from.spec_size();
    let returned = AxisMap::spec_between(to, from).spec_apply(
        AxisMap::spec_between(from, to).spec_apply(logarithm as int),
    );
    crate::bounds::lemma_between_round_trip(from, to, logarithm as int);
    let gap = returned - logarithm;
    assert(spec_abs(gap) <= slack) by (nonlinear_arith)
        requires
            spec_abs(gap * s) < spec_abs(d) + spec_abs(s),
            spec_abs(d) + spec_abs(s) <= slack * spec_abs(s),
            s != 0,
    ;
}

/// Once the union of the first `n` extents is refused, so is the union of
/// all.
pub proof fn lemma_union_all_fails<'a>(series: Seq<Option<DataBounds<'a>>>, n: int)
    requires
        0 <= n <= series.len(),
        spec_union_all(series.take(n)) is Err,
    ensures
        spec_union_all(series) == spec_union_all(series.take(n)),
    decreases series.len() - n,
{
    if n == series.len() {
        assert(series.take(n) =~= series);
    } else {
        assert(series.take(n + 1).drop_last() =~= series.take(n));
        lemma_union_all_fails(series, n + 1);
    }
}

/// A plot without series, and one of whose series none has an extent, has
/// the default extent; and two axes as a new plot has them show it as it is,
/// from zero to one, so that the transform to any viewport exists.
pub proof fn lemma_empty_plot<L: Fn(i64) -> i64, E: Fn(i64) -> i64>(
    plot: Plot,
    series: Seq<Option<DataBounds<'_>>>,
    viewport: Bounds,
    log10: &L,
    exp10: &E,
    pretty: Bounds,
)
    requires
        forall|i: int| 0 <= i < series.len() ==> series[i].is_none(),
        plot.x.scale == Scale::Linear && plot.x.min.is_none() && plot.x.max.is_none(),
        plot.y.scale == Scale::Linear && plot.y.min.is_none() && plot.y.max.is_none(),
        plot.spec_is_pretty(spec_default_bounds(), log10, exp10, pretty),
    ensures
        Plot::spec_bounds(series) == Ok::<DataBounds<'_>, DataError>(spec_default_bounds()),
        pretty == (Bounds { x: Range { min: 0, max: ONE }, y: Range { min: 0, max: ONE } }),
        plot.spec_transform(pretty, viewport).is_ok(),
{
    lemma_union_all_none(series);
}

/// The union of no extents at all is `None`.
pub proof fn lemma_union_all_none<'a>(series: Seq<Option<DataBounds<'a>>>)
    requires
        forall|i: int| 0 <= i < series.len() ==> series[i].is_none(),
    ensures
        spec_union_all(series) == Ok::<Option<DataBounds<'a>>, DataError>(None),
    decreases series.len(),
{
    if series.len() > 0 {
        lemma_union_all_none(series.drop_last());
    }
}

} // verus!
