//! The geometry sampler: frame-local drawable primitives.
//!
//! Each `draw` invocation of the script rebuilds the frame from scratch: the
//! script's geometry calls append named, styled primitives to the frame the
//! orchestrator hands out.  Parametric curves are sampled at `num_points + 1`
//! evenly spaced parameter values (both endpoints included); samples the
//! script answered with something malformed are skipped, best-effort, rather
//! than aborting the curve.

use vstd::prelude::*;
use crate::color::{Rgb, color_or, curve_default, vector_default, polygon_stroke_default,
    polygon_fill_default, resolve_color};
use crate::geom::{Point, pt_in_range, pt_sum, arrow_head, len_sq, wing_x, wing_y};
use crate::num::{in_range, clamped, clamp_scalar, tdiv, div_trunc, lemma_tdiv_scaled};

verus! {

/// Default line weight, in micro-units (1.5).
pub const WEIGHT_DEFAULT: i64 = 1_500_000;

/// Default upper end of a parametric range, in micro-units (two pi).
pub const RANGE_MAX_DEFAULT: i64 = 6_283_185;

/// Default number of sampling intervals for a parametric curve.
pub const NUM_POINTS_DEFAULT: u32 = 500;

/// A declared weight, or the default where the script supplied none.
pub open spec fn weight_or(declared: Option<i64>) -> i64 {
    match declared {
        Option::Some(w) => w,
        Option::None => WEIGHT_DEFAULT,
    }
}

/// A named polyline with stroke color and weight.
pub struct Curve {
    pub name: String,
    pub points: Vec<Point>,
    pub color: Rgb,
    pub weight: i64,
}

/// A named arrow: body from `origin` to `tip` plus an optional pair of
/// arrow-head wing endpoints (absent for degenerate vectors).
pub struct VectorPrim {
    pub name: String,
    pub origin: Point,
    pub tip: Point,
    pub head: Option<(Point, Point)>,
    pub color: Rgb,
    pub weight: i64,
}

/// A named filled polygon with stroke and fill colors and stroke weight.
pub struct PolygonPrim {
    pub name: String,
    pub vertices: Vec<Point>,
    pub stroke: Rgb,
    pub fill: Rgb,
    pub weight: i64,
}

/// The primitives of one frame.
pub struct Frame {
    pub curves: Vec<Curve>,
    pub vectors: Vec<VectorPrim>,
    pub polygons: Vec<PolygonPrim>,
}

/// The present sample results, in order, with the malformed ones dropped.
pub open spec fn somes_of(s: Seq<Option<Point>>) -> Seq<Point>
    decreases s.len(),
{
    if s.len() == 0 {
        Seq::empty()
    } else {
        let rest = somes_of(s.drop_last());
        match s.last() {
            Option::Some(p) => rest.push(p),
            Option::None => rest,
        }
    }
}

/// Where every sample is present, nothing is dropped: the curve keeps one
/// point per sample, in order.
pub proof fn lemma_somes_of_complete(s: Seq<Option<Point>>)
    requires
        forall|i: int| 0 <= i < s.len() ==> s[i] is Some,
    ensures
        somes_of(s).len() == s.len(),
        forall|i: int| 0 <= i < s.len() ==> somes_of(s)[i] == s[i]->0,
    decreases s.len(),
{
    if s.len() > 0 {
        lemma_somes_of_complete(s.drop_last());
    }
}

impl Frame {
    /// An empty frame.
    pub fn new() -> (f: Frame)
        ensures
            f.is_empty_spec(),
    {
        Frame { curves: Vec::new(), vectors: Vec::new(), polygons: Vec::new() }
    }

    /// No primitives at all.
    pub open spec fn is_empty_spec(self) -> bool {
        self.curves@.len() == 0 && self.vectors@.len() == 0 && self.polygons@.len() == 0
    }

    /// Whether the frame holds no primitives.
    pub fn is_empty(&self) -> (b: bool)
        ensures
            b == self.is_empty_spec(),
    {
        self.curves.len() == 0 && self.vectors.len() == 0 && self.polygons.len() == 0
    }

    /// Drop every primitive.
    pub fn clear(&mut self)
        ensures
            final(self).is_empty_spec(),
    {
        self.curves = Vec::new();
        self.vectors = Vec::new();
        self.polygons = Vec::new();
    }

    /// Append a curve built from the given sample results: present samples
    /// become the points of the polyline, in order; malformed (absent)
    /// samples are skipped.
    pub fn push_curve(
        &mut self,
        name: String,
        samples: Vec<Option<Point>>,
        color: Option<Rgb>,
        weight: Option<i64>,
    )
        ensures
            final(self).curves@.len() == old(self).curves@.len() + 1,
            forall|i: int| 0 <= i < old(self).curves@.len()
                ==> final(self).curves@[i] == old(self).curves@[i],
            ({
                let c = final(self).curves@.last();
                &&& c.name@ == name@
                &&& c.points@ == somes_of(samples@)
                &&& c.color == color_or(color, curve_default())
                &&& c.weight == weight_or(weight)
            }),
            final(self).vectors@ == old(self).vectors@,
            final(self).polygons@ == old(self).polygons@,
    {
        let mut points: Vec<Point> = Vec::new();
        let n = samples.len();
        let mut i: usize = 0;
        while i < n
            invariant
                n == samples@.len(),
                i <= n,
                points@ == somes_of(samples@.take(i as int)),
            decreases n - i,
        {
            proof {
                assert(samples@.take(i + 1).drop_last() =~= samples@.take(i as int));
                assert(samples@.take(i + 1).last() == samples@[i as int]);
            }
            match samples[i] {
                Option::Some(p) => points.push(p),
                Option::None => {},
            }
            i += 1;
        }
        proof {
            assert(samples@.take(n as int) =~= samples@);
        }
        let curve = Curve {
            name,
            points,
            color: resolve_color(color, Rgb { r: 200, g: 100, b: 0 }),
            weight: weight.unwrap_or(WEIGHT_DEFAULT),
        };
        self.curves.push(curve);
    }

    /// Append a vector primitive.  Where either endpoint function produced a
    /// malformed result (`None`), no vector is emitted and the frame is
    /// unchanged.  Otherwise the tip is exactly `start + delta` and the
    /// arrow-head wings follow the fixed-point head construction, absent for
    /// a degenerate (sub-threshold) vector.
    pub fn push_vector(
        &mut self,
        name: String,
        start: Option<Point>,
        delta: Option<Point>,
        color: Option<Rgb>,
        weight: Option<i64>,
    )
        requires
            start matches Some(p) ==> pt_in_range(p),
            delta matches Some(p) ==> pt_in_range(p),
        ensures
            final(self).curves@ == old(self).curves@,
            final(self).polygons@ == old(self).polygons@,
            match (start, delta) {
                (Some(s), Some(d)) => {
                    &&& final(self).vectors@.len() == old(self).vectors@.len() + 1
                    &&& forall|i: int| 0 <= i < old(self).vectors@.len()
                        ==> final(self).vectors@[i] == old(self).vectors@[i]
                    &&& ({
                        let v = final(self).vectors@.last();
                        &&& v.name@ == name@
                        &&& v.origin == s
                        &&& v.tip.x == s.x + d.x
                        &&& v.tip.y == s.y + d.y
                        &&& (v.head is Some <==> len_sq(v.origin, v.tip) > 0)
                        &&& (v.head matches Some((p1, p2)) ==> {
                            &&& p1.x == wing_x(v.origin, v.tip, 1)
                            &&& p1.y == wing_y(v.origin, v.tip, 1)
                            &&& p2.x == wing_x(v.origin, v.tip, -1)
                            &&& p2.y == wing_y(v.origin, v.tip, -1)
                        })
                        &&& v.color == color_or(color, vector_default())
                        &&& v.weight == weight_or(weight)
                    })
                },
                _ => final(self).vectors@ == old(self).vectors@,
            },
    {
        match (start, delta) {
            (Option::Some(s), Option::Some(d)) => {
                let tip = pt_sum(s, d);
                let head = arrow_head(s, tip);
                let v = VectorPrim {
                    name,
                    origin: s,
                    tip,
                    head,
                    color: resolve_color(color, Rgb { r: 0, g: 150, b: 200 }),
                    weight: weight.unwrap_or(WEIGHT_DEFAULT),
                };
                self.vectors.push(v);
            },
            _ => {},
        }
    }

    /// Append a polygon primitive with the given vertices.
    pub fn push_polygon(
        &mut self,
        name: String,
        vertices: Vec<Point>,
        stroke: Option<Rgb>,
        fill: Option<Rgb>,
        weight: Option<i64>,
    )
        ensures
            final(self).curves@ == old(self).curves@,
            final(self).vectors@ == old(self).vectors@,
            final(self).polygons@.len() == old(self).polygons@.len() + 1,
            forall|i: int| 0 <= i < old(self).polygons@.len()
                ==> final(self).polygons@[i] == old(self).polygons@[i],
            ({
                let p = final(self).polygons@.last();
                &&& p.name@ == name@
                &&& p.vertices@ == vertices@
                &&& p.stroke == color_or(stroke, polygon_stroke_default())
                &&& p.fill == color_or(fill, polygon_fill_default())
                &&& p.weight == weight_or(weight)
            }),
    {
        let p = PolygonPrim {
            name,
            vertices,
            stroke: resolve_color(stroke, Rgb { r: 0, g: 0, b: 0 }),
            fill: resolve_color(fill, Rgb { r: 128, g: 128, b: 255 }),
            weight: weight.unwrap_or(WEIGHT_DEFAULT),
        };
        self.polygons.push(p);
    }
}

/// The parameter step of a sampling plan: `(max - min) / n`, rounded toward
/// zero.  Always derived from the requested point count, never taken from the
/// script, so the count is honored exactly.
pub open spec fn sample_step(min_t: int, max_t: int, n: int) -> int
    recommends
        n > 0,
{
    tdiv(max_t - min_t, n)
}

/// Resolve a declared sampling range against the defaults: `min` falls back
/// to `0`, `max` to two pi, `num_points` to `NUM_POINTS_DEFAULT`; the bounds
/// are clamped into the representable scalar range.
pub fn resolve_range(min_t: Option<i64>, max_t: Option<i64>, n: Option<u32>) -> (r: (i64, i64, u32))
    ensures
        r.0 == clamped(min_t.unwrap_or(0) as int),
        r.1 == clamped(max_t.unwrap_or(RANGE_MAX_DEFAULT) as int),
        r.2 == n.unwrap_or(NUM_POINTS_DEFAULT),
        in_range(r.0 as int),
        in_range(r.1 as int),
{
    (
        clamp_scalar(min_t.unwrap_or(0)),
        clamp_scalar(max_t.unwrap_or(RANGE_MAX_DEFAULT)),
        n.unwrap_or(NUM_POINTS_DEFAULT),
    )
}

/// The parameter values a curve with `n` sampling intervals is evaluated at:
/// `n + 1` values, `min + i * step` for `i = 0 ..= n`, both endpoints
/// represented.  (With `n == 0` the single sample sits at `min`.)
pub fn plan_samples(min_t: i64, max_t: i64, n: u32) -> (ts: Vec<i64>)
    requires
        in_range(min_t as int),
        in_range(max_t as int),
    ensures
        ts@.len() == n + 1,
        ts@[0] == min_t,
        n > 0 ==> forall|i: int| 0 <= i <= n as int
            ==> ts@[i] == min_t + i * sample_step(min_t as int, max_t as int, n as int),
{
    let mut ts: Vec<i64> = Vec::new();
    if n == 0 {
        ts.push(min_t);
        return ts;
    }
    let step = div_trunc(max_t - min_t, n as i64);
    let mut i: u64 = 0;
    while i <= n as u64
        invariant
            n > 0,
            in_range(min_t as int),
            in_range(max_t as int),
            step == sample_step(min_t as int, max_t as int, n as int),
            i <= n as u64 + 1,
            ts@.len() == i,
            forall|j: int| 0 <= j < i as int
                ==> ts@[j] == min_t + j * sample_step(min_t as int, max_t as int, n as int),
        decreases n as u64 + 1 - i,
    {
        proof {
            lemma_tdiv_scaled((max_t - min_t) as int, n as int, i as int);
            assert((i as int) * (step as int) == (step as int) * (i as int))
                by (nonlinear_arith);
            assert(-2_000_000_000_000 <= (i as int) * (step as int) <= 2_000_000_000_000);
        }
        let t = min_t + (i as i64) * step;
        ts.push(t);
        i += 1;
    }
    ts
}

} // verus!
