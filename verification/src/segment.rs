//! Path segments: points, lines, arcs and Bézier curves given by their key
//! points, with mirroring and translation; and continuous paths made of
//! them, each segment starting where the one before it ends.

use crate::command::Coord;
use vstd::prelude::*;
use crate::command::can_move_by;
use vstd::std_specs::ops::{AddSpec, NegSpec, SubSpec};

verus! {

/// A straight line between two points.
#[derive(Debug, Clone, Copy, PartialEq)]
pub struct Line<S> {
    pub from: Coord<S>,
    pub to: Coord<S>,
}

/// An SVG arc from point to point, with its radii, rotation and flags.
#[derive(Debug, Clone, Copy, PartialEq)]
pub struct SvgArc<S, A> {
    pub from: Coord<S>,
    pub to: Coord<S>,
    pub radii: Coord<S>,
    pub x_rotation: A,
    pub large_arc: bool,
    pub sweep: bool,
}

/// An arc swept around a center, from a start angle by a sweep angle.
#[derive(Debug, Clone, Copy, PartialEq)]
pub struct Arc<S, A> {
    pub center: Coord<S>,
    pub radii: Coord<S>,
    pub start_angle: A,
    pub sweep_angle: A,
    pub x_rotation: A,
}

/// A quadratic Bézier curve with one control point.
#[derive(Debug, Clone, Copy, PartialEq)]
pub struct QuadraticCurve<S> {
    pub from: Coord<S>,
    pub ctrl: Coord<S>,
    pub to: Coord<S>,
}

/// A cubic Bézier curve with two control points.
#[derive(Debug, Clone, Copy, PartialEq)]
pub struct CubicCurve<S> {
    pub from: Coord<S>,
    pub ctrl1: Coord<S>,
    pub ctrl2: Coord<S>,
    pub to: Coord<S>,
}

/// One segment of a continuous path.
#[derive(Debug, Clone, Copy, PartialEq)]
pub enum PathSegment<S, A> {
    /// point
    Point(Coord<S>),
    /// staright line
    Line(Line<S>),
    /// svg arc from poit to point
    Arc(SvgArc<S, A>),
    /// sweep arc with center and angle
    SweepArc(Arc<S, A>),
    /// quadratic curve
    QuadraticCurve(QuadraticCurve<S>),
    /// cubic curv
    CubicCurve(CubicCurve<S>),
}

/// `p` mirrored at the vertical axis at `x = axis`.
pub open spec fn mirror_x<S: core::ops::Sub<Output = S>>(axis: S, p: Coord<S>) -> Coord<S> {
    Coord { x: axis.sub_spec(p.x.sub_spec(axis)), y: p.y }
}

/// `p` mirrored at the horizontal axis at `y = axis`.
pub open spec fn mirror_y<S: core::ops::Sub<Output = S>>(axis: S, p: Coord<S>) -> Coord<S> {
    Coord { x: p.x, y: axis.sub_spec(p.y.sub_spec(axis)) }
}

/// `p` moved by `by`.
pub open spec fn shifted<S: core::ops::Add<Output = S>>(p: Coord<S>, by: Coord<S>) -> Coord<S> {
    Coord { x: p.x.add_spec(by.x), y: p.y.add_spec(by.y) }
}

/// A sweep arc mirrored at a vertical axis and run backwards, so that it
/// starts at the image of its end (as the other mirrored segments do): an
/// angle `t` of the arc becomes `half_turn - t`, so the arc now starts at
/// `half_turn - (start + sweep)` and sweeps as far; its rotation is
/// negated. The center is mirrored apart.
pub open spec fn arc_mirrored_vertical<
    S,
    A: core::ops::Add<Output = A> + core::ops::Sub<Output = A> + core::ops::Neg<Output = A>,
>(a: Arc<S, A>, half_turn: A) -> Arc<S, A> {
    Arc {
        start_angle: half_turn.sub_spec(a.start_angle.add_spec(a.sweep_angle)),
        x_rotation: a.x_rotation.neg_spec(),
        ..a
    }
}

/// A sweep arc mirrored at a horizontal axis and run backwards: an angle
/// `t` of the arc becomes `-t`, so the arc now starts at
/// `-(start + sweep)` and sweeps as far; its rotation is negated.
pub open spec fn arc_mirrored_horizontal<S, A: core::ops::Add<Output = A> + core::ops::Neg<
    Output = A,
>>(a: Arc<S, A>) -> Arc<S, A> {
    Arc {
        start_angle: a.start_angle.add_spec(a.sweep_angle).neg_spec(),
        x_rotation: a.x_rotation.neg_spec(),
        ..a
    }
}

/// The segment with every key point mapped by `f`; a line, an SVG arc and
/// the curves run backwards when `reverse` holds (their start and end, and
/// the two control points of a cubic curve, trade places); the
/// angles of a sweep arc are those of `turn` applied to it.
pub open spec fn segment_with_points<S, A>(
    seg: PathSegment<S, A>,
    f: spec_fn(Coord<S>) -> Coord<S>,
    reverse: bool,
    turn: spec_fn(Arc<S, A>) -> Arc<S, A>,
) -> PathSegment<S, A> {
    match seg {
        PathSegment::Point(p) => PathSegment::Point(f(p)),
        PathSegment::Line(s) => if reverse {
            PathSegment::Line(Line { from: f(s.to), to: f(s.from) })
        } else {
            PathSegment::Line(Line { from: f(s.from), to: f(s.to) })
        },
        PathSegment::Arc(s) => if reverse {
            PathSegment::Arc(SvgArc { from: f(s.to), to: f(s.from), ..s })
        } else {
            PathSegment::Arc(SvgArc { from: f(s.from), to: f(s.to), ..s })
        },
        PathSegment::SweepArc(s) => PathSegment::SweepArc(Arc { center: f(s.center), ..turn(s) }),
        PathSegment::QuadraticCurve(s) => if reverse {
            PathSegment::QuadraticCurve(
                QuadraticCurve { from: f(s.to), ctrl: f(s.ctrl), to: f(s.from) },
            )
        } else {
            PathSegment::QuadraticCurve(
                QuadraticCurve { from: f(s.from), ctrl: f(s.ctrl), to: f(s.to) },
            )
        },
        PathSegment::CubicCurve(s) => if reverse {
            PathSegment::CubicCurve(
                CubicCurve { from: f(s.to), ctrl1: f(s.ctrl2), ctrl2: f(s.ctrl1), to: f(s.from) },
            )
        } else {
            PathSegment::CubicCurve(
                CubicCurve { from: f(s.from), ctrl1: f(s.ctrl1), ctrl2: f(s.ctrl2), to: f(s.to) },
            )
        },
    }
}

/// The segment mirrored at the vertical axis `x = axis` and reversed.
pub open spec fn flipped_along_y<
    S: core::ops::Sub<Output = S>,
    A: core::ops::Add<Output = A> + core::ops::Sub<Output = A> + core::ops::Neg<Output = A>,
>(seg: PathSegment<S, A>, axis: S, half_turn: A) -> PathSegment<S, A> {
    segment_with_points(
        seg,
        |p: Coord<S>| mirror_x(axis, p),
        true,
        |a: Arc<S, A>| arc_mirrored_vertical(a, half_turn),
    )
}

/// The segment mirrored at the horizontal axis `y = axis` and reversed.
pub open spec fn flipped_along_x<
    S: core::ops::Sub<Output = S>,
    A: core::ops::Add<Output = A> + core::ops::Neg<Output = A>,
>(seg: PathSegment<S, A>, axis: S) -> PathSegment<S, A> {
    segment_with_points(
        seg,
        |p: Coord<S>| mirror_y(axis, p),
        true,
        |a: Arc<S, A>| arc_mirrored_horizontal(a),
    )
}

/// The segment moved by `by`.
pub open spec fn translated<S: core::ops::Add<Output = S>, A>(
    seg: PathSegment<S, A>,
    by: Coord<S>,
) -> PathSegment<S, A> {
    segment_with_points(seg, |p: Coord<S>| shifted(p, by), false, |a: Arc<S, A>| a)
}

/// The key points of a segment, in order: its point; the ends of a line or
/// an SVG arc; the center of a sweep arc; the start, control points and end
/// of a curve.
pub open spec fn key_points<S, A>(seg: PathSegment<S, A>) -> Seq<Coord<S>> {
    match seg {
        PathSegment::Point(p) => seq![p],
        PathSegment::Line(s) => seq![s.from, s.to],
        PathSegment::Arc(s) => seq![s.from, s.to],
        PathSegment::SweepArc(s) => seq![s.center],
        PathSegment::QuadraticCurve(s) => seq![s.from, s.ctrl, s.to],
        PathSegment::CubicCurve(s) => seq![s.from, s.ctrl1, s.ctrl2, s.to],
    }
}

/// The start point of a segment that holds it; `None` for a sweep arc,
/// whose start is computed from its angles.
pub open spec fn segment_start<S, A>(seg: PathSegment<S, A>) -> Option<Coord<S>> {
    match seg {
        PathSegment::Point(p) => Some(p),
        PathSegment::Line(s) => Some(s.from),
        PathSegment::Arc(s) => Some(s.from),
        PathSegment::SweepArc(_) => None,
        PathSegment::QuadraticCurve(s) => Some(s.from),
        PathSegment::CubicCurve(s) => Some(s.from),
    }
}

/// The end point of a segment that holds it; `None` for a sweep arc, whose
/// end is computed from its angles.
pub open spec fn segment_end<S, A>(seg: PathSegment<S, A>) -> Option<Coord<S>> {
    match seg {
        PathSegment::Point(p) => Some(p),
        PathSegment::Line(s) => Some(s.to),
        PathSegment::Arc(s) => Some(s.to),
        PathSegment::SweepArc(_) => None,
        PathSegment::QuadraticCurve(s) => Some(s.to),
        PathSegment::CubicCurve(s) => Some(s.to),
    }
}

/// `r` is `seg` with each key point replaced by what `f` may make of it:
/// the same kind of segment, with the same radii, angles and flags.
pub open spec fn maps_key_points<S, A, F: Fn(&Coord<S>) -> Coord<S>>(
    seg: PathSegment<S, A>,
    r: PathSegment<S, A>,
    f: F,
) -> bool {
    &&& match (seg, r) {
        (PathSegment::SweepArc(a), PathSegment::SweepArc(b)) => b == Arc { center: b.center, ..a },
        (PathSegment::Arc(a), PathSegment::Arc(b)) => b == SvgArc { from: b.from, to: b.to, ..a },
        (PathSegment::Point(_), PathSegment::Point(_)) => true,
        (PathSegment::Line(_), PathSegment::Line(_)) => true,
        (PathSegment::QuadraticCurve(_), PathSegment::QuadraticCurve(_)) => true,
        (PathSegment::CubicCurve(_), PathSegment::CubicCurve(_)) => true,
        _ => false,
    }
    &&& key_points(r).len() == key_points(seg).len()
    &&& forall|i: int|
        0 <= i < key_points(seg).len() ==> f.ensures(
            (&key_points(seg)[i],),
            #[trigger] key_points(r)[i],
        )
}

/// The differences that mirror `p` at the vertical axis `x = axis` can be
/// computed: `p.x - axis`, then `axis` less that (less anything, when `-`
/// on `S` is not known to follow its spec).
pub open spec fn can_mirror_x<S: core::ops::Sub<Output = S>>(axis: S, p: Coord<S>) -> bool {
    &&& p.x.sub_req(axis)
    &&& if S::obeys_sub_spec() {
        axis.sub_req(p.x.sub_spec(axis))
    } else {
        forall|d: S| #[trigger] axis.sub_req(d)
    }
}

/// The differences that mirror `p` at the horizontal axis `y = axis` can be
/// computed.
pub open spec fn can_mirror_y<S: core::ops::Sub<Output = S>>(axis: S, p: Coord<S>) -> bool {
    &&& p.y.sub_req(axis)
    &&& if S::obeys_sub_spec() {
        axis.sub_req(p.y.sub_spec(axis))
    } else {
        forall|d: S| #[trigger] axis.sub_req(d)
    }
}

/// The angles of a sweep arc mirrored at a vertical axis can be computed:
/// the end angle, `half_turn` less it, and the negated rotation.
pub open spec fn can_turn_vertical<
    S,
    A: core::ops::Add<Output = A> + core::ops::Sub<Output = A> + core::ops::Neg<Output = A>,
>(a: Arc<S, A>, half_turn: A) -> bool {
    &&& a.start_angle.add_req(a.sweep_angle)
    &&& if A::obeys_add_spec() {
        half_turn.sub_req(a.start_angle.add_spec(a.sweep_angle))
    } else {
        forall|d: A| #[trigger] half_turn.sub_req(d)
    }
    &&& a.x_rotation.neg_req()
}

/// The angles of a sweep arc mirrored at a horizontal axis can be
/// computed: the end angle, its negation, and the negated rotation.
pub open spec fn can_turn_horizontal<S, A: core::ops::Add<Output = A> + core::ops::Neg<
    Output = A,
>>(a: Arc<S, A>) -> bool {
    &&& a.start_angle.add_req(a.sweep_angle)
    &&& if A::obeys_add_spec() {
        a.start_angle.add_spec(a.sweep_angle).neg_req()
    } else {
        forall|d: A| #[trigger] d.neg_req()
    }
    &&& a.x_rotation.neg_req()
}

/// Everything that `flip_along_y` computes of `seg` can be computed.
pub open spec fn can_flip_along_y<
    S: core::ops::Sub<Output = S>,
    A: core::ops::Add<Output = A> + core::ops::Sub<Output = A> + core::ops::Neg<Output = A>,
>(seg: PathSegment<S, A>, axis: S, half_turn: A) -> bool {
    &&& forall|i: int|
        0 <= i < key_points(seg).len() ==> #[trigger] can_mirror_x(axis, key_points(seg)[i])
    &&& seg matches PathSegment::SweepArc(a) ==> can_turn_vertical(a, half_turn)
}

/// Everything that `flip_along_x` computes of `seg` can be computed.
pub open spec fn can_flip_along_x<
    S: core::ops::Sub<Output = S>,
    A: core::ops::Add<Output = A> + core::ops::Neg<Output = A>,
>(seg: PathSegment<S, A>, axis: S) -> bool {
    &&& forall|i: int|
        0 <= i < key_points(seg).len() ==> #[trigger] can_mirror_y(axis, key_points(seg)[i])
    &&& seg matches PathSegment::SweepArc(a) ==> can_turn_horizontal(a)
}

/// Every key point of `seg` can be moved by `by`.
pub open spec fn can_translate<S: core::ops::Add<Output = S>, A>(
    seg: PathSegment<S, A>,
    by: Coord<S>,
) -> bool {
    forall|i: int| 0 <= i < key_points(seg).len() ==> #[trigger] can_move_by(key_points(seg)[i], by)
}

/// The laws under which the results of `flip_along_y` and `flip_along_x`
/// are known: those of `-` on coordinates, and for a sweep arc those of
/// `+`, `-` and negation on angles.
pub open spec fn flip_laws<S: core::ops::Sub<Output = S>, A: core::ops::Add<Output = A>
    + core::ops::Sub<Output = A> + core::ops::Neg<Output = A>>(seg: PathSegment<S, A>) -> bool {
    &&& S::obeys_sub_spec()
    &&& seg is SweepArc ==> A::obeys_add_spec() && A::obeys_sub_spec() && A::obeys_neg_spec()
}

fn flip_pt_x<S: Copy + core::ops::Sub<Output = S>>(axis: S, p: Coord<S>) -> (r: Coord<S>)
    requires
        can_mirror_x(axis, p),
    ensures
        S::obeys_sub_spec() ==> r == mirror_x(axis, p),
{
    Coord { x: axis - (p.x - axis), y: p.y }
}

fn flip_pt_y<S: Copy + core::ops::Sub<Output = S>>(axis: S, p: Coord<S>) -> (r: Coord<S>)
    requires
        can_mirror_y(axis, p),
    ensures
        S::obeys_sub_spec() ==> r == mirror_y(axis, p),
{
    Coord { x: p.x, y: axis - (p.y - axis) }
}

fn shift_pt<S: Copy + core::ops::Add<Output = S>>(p: Coord<S>, by: Coord<S>) -> (r: Coord<S>)
    requires
        can_move_by(p, by),
    ensures
        S::obeys_add_spec() ==> r == shifted(p, by),
{
    Coord { x: p.x + by.x, y: p.y + by.y }
}

impl<
    S: Copy + core::ops::Sub<Output = S>,
    A: Copy + core::ops::Add<Output = A> + core::ops::Sub<Output = A> + core::ops::Neg<Output = A>,
> PathSegment<S, A> {
    /// flip the segment along the vertical axis, where the axis is positioned at a given `x` coordinate
    ///
    /// Every key point is mirrored, and the segment is reversed: a line, an
    /// SVG arc and the curves trade their start and end, a cubic curve also
    /// its two control points (the radii,
    /// rotation and flags of an SVG arc stay as they are); a sweep arc
    /// mirrored with `half_turn` (the angle of half a turn) runs back from
    /// the image of its end.
    pub fn flip_along_y(&self, x_pos_axis: S, half_turn: A) -> (r: Self)
        requires
            can_flip_along_y(*self, x_pos_axis, half_turn),
        ensures
            flip_laws(*self) ==> r == flipped_along_y(*self, x_pos_axis, half_turn),
            *self matches PathSegment::Arc(s) ==> r matches PathSegment::Arc(q) && q.radii
                == s.radii && q.x_rotation == s.x_rotation && q.large_arc == s.large_arc && q.sweep
                == s.sweep,
    {
        let ghost kp = key_points(*self);
        match self {
            PathSegment::Point(p) => {
                proof { assert(can_mirror_x(x_pos_axis, kp[0])); }
                PathSegment::Point(flip_pt_x(x_pos_axis, *p))
            },
            PathSegment::Line(s) => {
                proof {
                    assert(can_mirror_x(x_pos_axis, kp[0]));
                    assert(can_mirror_x(x_pos_axis, kp[1]));
                }
                PathSegment::Line(
                    Line { to: flip_pt_x(x_pos_axis, s.from), from: flip_pt_x(x_pos_axis, s.to) },
                )
            },
            PathSegment::Arc(s) => {
                proof {
                    assert(can_mirror_x(x_pos_axis, kp[0]));
                    assert(can_mirror_x(x_pos_axis, kp[1]));
                }
                PathSegment::Arc(
                    SvgArc {
                        to: flip_pt_x(x_pos_axis, s.from),
                        from: flip_pt_x(x_pos_axis, s.to),
                        radii: s.radii,
                        x_rotation: s.x_rotation,
                        large_arc: s.large_arc,
                        sweep: s.sweep,
                    },
                )
            },
            PathSegment::SweepArc(s) => {
                proof { assert(can_mirror_x(x_pos_axis, kp[0])); }
                let end = s.start_angle + s.sweep_angle;
                PathSegment::SweepArc(
                    Arc {
                        center: flip_pt_x(x_pos_axis, s.center),
                        radii: s.radii,
                        start_angle: half_turn - end,
                        sweep_angle: s.sweep_angle,
                        x_rotation: core::ops::Neg::neg(s.x_rotation),
                    },
                )
            },
            PathSegment::QuadraticCurve(s) => {
                proof {
                    assert(can_mirror_x(x_pos_axis, kp[0]));
                    assert(can_mirror_x(x_pos_axis, kp[1]));
                    assert(can_mirror_x(x_pos_axis, kp[2]));
                }
                PathSegment::QuadraticCurve(
                    QuadraticCurve {
                        to: flip_pt_x(x_pos_axis, s.from),
                        ctrl: flip_pt_x(x_pos_axis, s.ctrl),
                        from: flip_pt_x(x_pos_axis, s.to),
                    },
                )
            },
            PathSegment::CubicCurve(s) => {
                proof {
                    assert(can_mirror_x(x_pos_axis, kp[0]));
                    assert(can_mirror_x(x_pos_axis, kp[1]));
                    assert(can_mirror_x(x_pos_axis, kp[2]));
                    assert(can_mirror_x(x_pos_axis, kp[3]));
                }
                PathSegment::CubicCurve(
                    CubicCurve {
                        to: flip_pt_x(x_pos_axis, s.from),
                        ctrl1: flip_pt_x(x_pos_axis, s.ctrl2),
                        ctrl2: flip_pt_x(x_pos_axis, s.ctrl1),
                        from: flip_pt_x(x_pos_axis, s.to),
                    },
                )
            },
        }
    }

    /// flip the segment along the horizontal axis, where the axis is positioned at a given `y` coordinate
    ///
    /// Every key point is mirrored, and the segment is reversed: a line, an
    /// SVG arc and the curves trade their start and end, a cubic curve also
    /// its two control points (the radii,
    /// rotation and flags of an SVG arc stay as they are); a mirrored sweep
    /// arc runs back from the image of its end.
    pub fn flip_along_x(&self, y_pos_axis: S) -> (r: Self)
        requires
            can_flip_along_x(*self, y_pos_axis),
        ensures
            flip_laws(*self) ==> r == flipped_along_x(*self, y_pos_axis),
            *self matches PathSegment::Arc(s) ==> r matches PathSegment::Arc(q) && q.radii
                == s.radii && q.x_rotation == s.x_rotation && q.large_arc == s.large_arc && q.sweep
                == s.sweep,
    {
        let ghost kp = key_points(*self);
        match self {
            PathSegment::Point(p) => {
                proof { assert(can_mirror_y(y_pos_axis, kp[0])); }
                PathSegment::Point(flip_pt_y(y_pos_axis, *p))
            },
            PathSegment::Line(s) => {
                proof {
                    assert(can_mirror_y(y_pos_axis, kp[0]));
                    assert(can_mirror_y(y_pos_axis, kp[1]));
                }
                PathSegment::Line(
                    Line { to: flip_pt_y(y_pos_axis, s.from), from: flip_pt_y(y_pos_axis, s.to) },
                )
            },
            PathSegment::Arc(s) => {
                proof {
                    assert(can_mirror_y(y_pos_axis, kp[0]));
                    assert(can_mirror_y(y_pos_axis, kp[1]));
                }
                PathSegment::Arc(
                    SvgArc {
                        to: flip_pt_y(y_pos_axis, s.from),
                        from: flip_pt_y(y_pos_axis, s.to),
                        radii: s.radii,
                        x_rotation: s.x_rotation,
                        large_arc: s.large_arc,
                        sweep: s.sweep,
                    },
                )
            },
            PathSegment::SweepArc(s) => {
                proof { assert(can_mirror_y(y_pos_axis, kp[0])); }
                let end = s.start_angle + s.sweep_angle;
                PathSegment::SweepArc(
                    Arc {
                        center: flip_pt_y(y_pos_axis, s.center),
                        radii: s.radii,
                        start_angle: core::ops::Neg::neg(end),
                        sweep_angle: s.sweep_angle,
                        x_rotation: core::ops::Neg::neg(s.x_rotation),
                    },
                )
            },
            PathSegment::QuadraticCurve(s) => {
                proof {
                    assert(can_mirror_y(y_pos_axis, kp[0]));
                    assert(can_mirror_y(y_pos_axis, kp[1]));
                    assert(can_mirror_y(y_pos_axis, kp[2]));
                }
                PathSegment::QuadraticCurve(
                    QuadraticCurve {
                        to: flip_pt_y(y_pos_axis, s.from),
                        ctrl: flip_pt_y(y_pos_axis, s.ctrl),
                        from: flip_pt_y(y_pos_axis, s.to),
                    },
                )
            },
            PathSegment::CubicCurve(s) => {
                proof {
                    assert(can_mirror_y(y_pos_axis, kp[0]));
                    assert(can_mirror_y(y_pos_axis, kp[1]));
                    assert(can_mirror_y(y_pos_axis, kp[2]));
                    assert(can_mirror_y(y_pos_axis, kp[3]));
                }
                PathSegment::CubicCurve(
                    CubicCurve {
                        to: flip_pt_y(y_pos_axis, s.from),
                        ctrl1: flip_pt_y(y_pos_axis, s.ctrl2),
                        ctrl2: flip_pt_y(y_pos_axis, s.ctrl1),
                        from: flip_pt_y(y_pos_axis, s.to),
                    },
                )
            },
        }
    }
}

impl<S: Copy + core::ops::Add<Output = S>, A: Copy> PathSegment<S, A> {
    /// translate the segment: every key point moves by `by`
    pub fn translate(&self, by: Coord<S>) -> (r: Self)
        requires
            can_translate(*self, by),
        ensures
            S::obeys_add_spec() ==> r == translated(*self, by),
            *self matches PathSegment::Arc(s) ==> r matches PathSegment::Arc(q) && q.radii
                == s.radii && q.x_rotation == s.x_rotation && q.large_arc == s.large_arc && q.sweep
                == s.sweep,
    {
        let ghost kp = key_points(*self);
        match self {
            PathSegment::Point(p) => {
                proof { assert(can_move_by(kp[0], by)); }
                PathSegment::Point(shift_pt(*p, by))
            },
            PathSegment::Line(s) => {
                proof {
                    assert(can_move_by(kp[0], by));
                    assert(can_move_by(kp[1], by));
                }
                PathSegment::Line(Line { from: shift_pt(s.from, by), to: shift_pt(s.to, by) })
            },
            PathSegment::Arc(s) => {
                proof {
                    assert(can_move_by(kp[0], by));
                    assert(can_move_by(kp[1], by));
                }
                PathSegment::Arc(
                    SvgArc {
                        from: shift_pt(s.from, by),
                        to: shift_pt(s.to, by),
                        radii: s.radii,
                        x_rotation: s.x_rotation,
                        large_arc: s.large_arc,
                        sweep: s.sweep,
                    },
                )
            },
            PathSegment::SweepArc(s) => {
                proof { assert(can_move_by(kp[0], by)); }
                PathSegment::SweepArc(
                    Arc {
                        center: shift_pt(s.center, by),
                        radii: s.radii,
                        start_angle: s.start_angle,
                        sweep_angle: s.sweep_angle,
                        x_rotation: s.x_rotation,
                    },
                )
            },
            PathSegment::QuadraticCurve(s) => {
                proof {
                    assert(can_move_by(kp[0], by));
                    assert(can_move_by(kp[1], by));
                    assert(can_move_by(kp[2], by));
                }
                PathSegment::QuadraticCurve(
                    QuadraticCurve {
                        from: shift_pt(s.from, by),
                        ctrl: shift_pt(s.ctrl, by),
                        to: shift_pt(s.to, by),
                    },
                )
            },
            PathSegment::CubicCurve(s) => {
                proof {
                    assert(can_move_by(kp[0], by));
                    assert(can_move_by(kp[1], by));
                    assert(can_move_by(kp[2], by));
                    assert(can_move_by(kp[3], by));
                }
                PathSegment::CubicCurve(
                    CubicCurve {
                        from: shift_pt(s.from, by),
                        ctrl1: shift_pt(s.ctrl1, by),
                        ctrl2: shift_pt(s.ctrl2, by),
                        to: shift_pt(s.to, by),
                    },
                )
            },
        }
    }
}

impl<S: Copy, A: Copy> PathSegment<S, A> {
    /// start point; that of a sweep arc is computed by `sweep_start`
    pub fn from<F: Fn(&Arc<S, A>) -> Coord<S>>(&self, sweep_start: &F) -> (r: Coord<S>)
        requires
            forall|a: &Arc<S, A>| #[trigger] sweep_start.requires((a,)),
        ensures
            match *self {
                PathSegment::SweepArc(a) => sweep_start.ensures((&a,), r),
                _ => segment_start(*self) == Some(r),
            },
    {
        match self {
            PathSegment::Point(p) => *p,
            PathSegment::Line(s) => s.from,
            PathSegment::Arc(s) => s.from,
            PathSegment::SweepArc(s) => sweep_start(s),
            PathSegment::QuadraticCurve(s) => s.from,
            PathSegment::CubicCurve(s) => s.from,
        }
    }

    /// end point; that of a sweep arc is computed by `sweep_end`
    pub fn to<F: Fn(&Arc<S, A>) -> Coord<S>>(&self, sweep_end: &F) -> (r: Coord<S>)
        requires
            forall|a: &Arc<S, A>| #[trigger] sweep_end.requires((a,)),
        ensures
            match *self {
                PathSegment::SweepArc(a) => sweep_end.ensures((&a,), r),
                _ => segment_end(*self) == Some(r),
            },
    {
        match self {
            PathSegment::Point(p) => *p,
            PathSegment::Line(s) => s.to,
            PathSegment::Arc(s) => s.to,
            PathSegment::SweepArc(s) => sweep_end(s),
            PathSegment::QuadraticCurve(s) => s.to,
            PathSegment::CubicCurve(s) => s.to,
        }
    }

    /// Key points of this segment
    pub fn key_pts(&self) -> (r: Vec<Coord<S>>)
        ensures
            r@ == key_points(*self),
    {
        let mut v: Vec<Coord<S>> = Vec::new();
        match self {
            PathSegment::Point(p) => {
                v.push(*p);
            },
            PathSegment::Line(l) => {
                v.push(l.from);
                v.push(l.to);
            },
            PathSegment::Arc(a) => {
                v.push(a.from);
                v.push(a.to);
            },
            PathSegment::SweepArc(a) => {
                v.push(a.center);
            },
            PathSegment::QuadraticCurve(q) => {
                v.push(q.from);
                v.push(q.ctrl);
                v.push(q.to);
            },
            PathSegment::CubicCurve(c) => {
                v.push(c.from);
                v.push(c.ctrl1);
                v.push(c.ctrl2);
                v.push(c.to);
            },
        }
        assert(v@ =~= key_points(*self));
        v
    }

    /// The segment with each key point replaced by what `f` makes of it.
    pub fn map_key_pts<F: Fn(&Coord<S>) -> Coord<S>>(&self, f: &F) -> (r: Self)
        requires
            forall|p: &Coord<S>| #[trigger] f.requires((p,)),
        ensures
            maps_key_points(*self, r, *f),
    {
        match self {
            PathSegment::Point(p) => PathSegment::Point(f(p)),
            PathSegment::Line(l) => PathSegment::Line(Line { from: f(&l.from), to: f(&l.to) }),
            PathSegment::Arc(a) => PathSegment::Arc(
                SvgArc {
                    from: f(&a.from),
                    to: f(&a.to),
                    radii: a.radii,
                    x_rotation: a.x_rotation,
                    large_arc: a.large_arc,
                    sweep: a.sweep,
                },
            ),
            PathSegment::SweepArc(a) => PathSegment::SweepArc(
                Arc {
                    center: f(&a.center),
                    radii: a.radii,
                    start_angle: a.start_angle,
                    sweep_angle: a.sweep_angle,
                    x_rotation: a.x_rotation,
                },
            ),
            PathSegment::QuadraticCurve(q) => PathSegment::QuadraticCurve(
                QuadraticCurve { from: f(&q.from), ctrl: f(&q.ctrl), to: f(&q.to) },
            ),
            PathSegment::CubicCurve(c) => PathSegment::CubicCurve(
                CubicCurve { from: f(&c.from), ctrl1: f(&c.ctrl1), ctrl2: f(&c.ctrl2), to: f(&c.to) },
            ),
        }
    }
}

/// The segment with its `j`-th key point (in the order of `key_points`)
/// replaced by `p`.
pub open spec fn with_key_point<S, A>(seg: PathSegment<S, A>, j: int, p: Coord<S>) -> PathSegment<
    S,
    A,
> {
    match seg {
        PathSegment::Point(_) => PathSegment::Point(p),
        PathSegment::Line(s) => if j == 0 {
            PathSegment::Line(Line { from: p, ..s })
        } else {
            PathSegment::Line(Line { to: p, ..s })
        },
        PathSegment::Arc(s) => if j == 0 {
            PathSegment::Arc(SvgArc { from: p, ..s })
        } else {
            PathSegment::Arc(SvgArc { to: p, ..s })
        },
        PathSegment::SweepArc(s) => PathSegment::SweepArc(Arc { center: p, ..s }),
        PathSegment::QuadraticCurve(s) => if j == 0 {
            PathSegment::QuadraticCurve(QuadraticCurve { from: p, ..s })
        } else if j == 1 {
            PathSegment::QuadraticCurve(QuadraticCurve { ctrl: p, ..s })
        } else {
            PathSegment::QuadraticCurve(QuadraticCurve { to: p, ..s })
        },
        PathSegment::CubicCurve(s) => if j == 0 {
            PathSegment::CubicCurve(CubicCurve { from: p, ..s })
        } else if j == 1 {
            PathSegment::CubicCurve(CubicCurve { ctrl1: p, ..s })
        } else if j == 2 {
            PathSegment::CubicCurve(CubicCurve { ctrl2: p, ..s })
        } else {
            PathSegment::CubicCurve(CubicCurve { to: p, ..s })
        },
    }
}

impl<S: Copy, A: Copy> PathSegment<S, A> {
    /// Replace the `j`-th key point (in the order of `key_pts`) by `p`.
    pub fn set_key_pt(&mut self, j: usize, p: Coord<S>)
        requires
            j < key_points(*old(self)).len(),
        ensures
            *final(self) == with_key_point(*old(self), j as int, p),
            key_points(*final(self)) == key_points(*old(self)).update(j as int, p),
    {
        let next = match *self {
            PathSegment::Point(_) => PathSegment::Point(p),
            PathSegment::Line(s) => if j == 0 {
                PathSegment::Line(Line { from: p, to: s.to })
            } else {
                PathSegment::Line(Line { from: s.from, to: p })
            },
            PathSegment::Arc(s) => if j == 0 {
                PathSegment::Arc(
                    SvgArc {
                        from: p,
                        to: s.to,
                        radii: s.radii,
                        x_rotation: s.x_rotation,
                        large_arc: s.large_arc,
                        sweep: s.sweep,
                    },
                )
            } else {
                PathSegment::Arc(
                    SvgArc {
                        from: s.from,
                        to: p,
                        radii: s.radii,
                        x_rotation: s.x_rotation,
                        large_arc: s.large_arc,
                        sweep: s.sweep,
                    },
                )
            },
            PathSegment::SweepArc(s) => PathSegment::SweepArc(
                Arc {
                    center: p,
                    radii: s.radii,
                    start_angle: s.start_angle,
                    sweep_angle: s.sweep_angle,
                    x_rotation: s.x_rotation,
                },
            ),
            PathSegment::QuadraticCurve(s) => if j == 0 {
                PathSegment::QuadraticCurve(QuadraticCurve { from: p, ctrl: s.ctrl, to: s.to })
            } else if j == 1 {
                PathSegment::QuadraticCurve(QuadraticCurve { from: s.from, ctrl: p, to: s.to })
            } else {
                PathSegment::QuadraticCurve(QuadraticCurve { from: s.from, ctrl: s.ctrl, to: p })
            },
            PathSegment::CubicCurve(s) => if j == 0 {
                PathSegment::CubicCurve(
                    CubicCurve { from: p, ctrl1: s.ctrl1, ctrl2: s.ctrl2, to: s.to },
                )
            } else if j == 1 {
                PathSegment::CubicCurve(
                    CubicCurve { from: s.from, ctrl1: p, ctrl2: s.ctrl2, to: s.to },
                )
            } else if j == 2 {
                PathSegment::CubicCurve(
                    CubicCurve { from: s.from, ctrl1: s.ctrl1, ctrl2: p, to: s.to },
                )
            } else {
                PathSegment::CubicCurve(
                    CubicCurve { from: s.from, ctrl1: s.ctrl1, ctrl2: s.ctrl2, to: p },
                )
            },
        };
        assert(key_points(next) =~= key_points(*self).update(j as int, p));
        *self = next;
    }
}

/// Mirroring a point at a vertical axis twice gives it back, when the
/// differences of both mirrorings fit in `i64`.
proof fn lemma_mirror_x_twice(axis: i64, p: Coord<i64>)
    requires
        can_mirror_x(axis, p),
        can_mirror_x(axis, mirror_x(axis, p)),
    ensures
        mirror_x(axis, mirror_x(axis, p)) == p,
{
}

/// Mirroring a point at a horizontal axis twice gives it back, when the
/// differences of both mirrorings fit in `i64`.
proof fn lemma_mirror_y_twice(axis: i64, p: Coord<i64>)
    requires
        can_mirror_y(axis, p),
        can_mirror_y(axis, mirror_y(axis, p)),
    ensures
        mirror_y(axis, mirror_y(axis, p)) == p,
{
}

/// Flipping a segment along a vertical axis twice gives the segment back:
/// stated for `i64` coordinates and angles, on the segments for which every
/// difference, sum and negation of both flips fits in `i64`.
pub proof fn lemma_flip_along_y_twice(seg: PathSegment<i64, i64>, axis: i64, half_turn: i64)
    requires
        can_flip_along_y(seg, axis, half_turn),
        can_flip_along_y(flipped_along_y(seg, axis, half_turn), axis, half_turn),
    ensures
        flipped_along_y(flipped_along_y(seg, axis, half_turn), axis, half_turn) == seg,
{
    let once = flipped_along_y(seg, axis, half_turn);
    let kp = key_points(seg);
    let kq = key_points(once);
    assert(forall|i: int| 0 <= i < kp.len() ==> can_mirror_x(axis, #[trigger] kp[i]));
    assert(forall|i: int| 0 <= i < kq.len() ==> can_mirror_x(axis, #[trigger] kq[i]));
    match seg {
        PathSegment::Point(p) => {
            assert(can_mirror_x(axis, kp[0]) && can_mirror_x(axis, kq[0]));
            lemma_mirror_x_twice(axis, p);
        },
        PathSegment::Line(s) => {
            assert(can_mirror_x(axis, kp[0]) && can_mirror_x(axis, kq[1]));
            assert(can_mirror_x(axis, kp[1]) && can_mirror_x(axis, kq[0]));
            lemma_mirror_x_twice(axis, s.from);
            lemma_mirror_x_twice(axis, s.to);
        },
        PathSegment::Arc(s) => {
            assert(can_mirror_x(axis, kp[0]) && can_mirror_x(axis, kq[1]));
            assert(can_mirror_x(axis, kp[1]) && can_mirror_x(axis, kq[0]));
            lemma_mirror_x_twice(axis, s.from);
            lemma_mirror_x_twice(axis, s.to);
        },
        PathSegment::SweepArc(s) => {
            assert(can_mirror_x(axis, kp[0]) && can_mirror_x(axis, kq[0]));
            lemma_mirror_x_twice(axis, s.center);
        },
        PathSegment::QuadraticCurve(s) => {
            assert(can_mirror_x(axis, kp[0]) && can_mirror_x(axis, kq[2]));
            assert(can_mirror_x(axis, kp[1]) && can_mirror_x(axis, kq[1]));
            assert(can_mirror_x(axis, kp[2]) && can_mirror_x(axis, kq[0]));
            lemma_mirror_x_twice(axis, s.from);
            lemma_mirror_x_twice(axis, s.ctrl);
            lemma_mirror_x_twice(axis, s.to);
        },
        PathSegment::CubicCurve(s) => {
            assert(can_mirror_x(axis, kp[0]) && can_mirror_x(axis, kq[3]));
            assert(can_mirror_x(axis, kp[1]) && can_mirror_x(axis, kq[2]));
            assert(can_mirror_x(axis, kp[2]) && can_mirror_x(axis, kq[1]));
            assert(can_mirror_x(axis, kp[3]) && can_mirror_x(axis, kq[0]));
            lemma_mirror_x_twice(axis, s.from);
            lemma_mirror_x_twice(axis, s.ctrl1);
            lemma_mirror_x_twice(axis, s.ctrl2);
            lemma_mirror_x_twice(axis, s.to);
        },
    }
}

/// Flipping a segment along a horizontal axis twice gives the segment back:
/// stated for `i64` coordinates and angles, on the segments for which every
/// difference, sum and negation of both flips fits in `i64`.
pub proof fn lemma_flip_along_x_twice(seg: PathSegment<i64, i64>, axis: i64)
    requires
        can_flip_along_x(seg, axis),
        can_flip_along_x(flipped_along_x(seg, axis), axis),
    ensures
        flipped_along_x(flipped_along_x(seg, axis), axis) == seg,
{
    let once = flipped_along_x(seg, axis);
    let kp = key_points(seg);
    let kq = key_points(once);
    assert(forall|i: int| 0 <= i < kp.len() ==> can_mirror_y(axis, #[trigger] kp[i]));
    assert(forall|i: int| 0 <= i < kq.len() ==> can_mirror_y(axis, #[trigger] kq[i]));
    match seg {
        PathSegment::Point(p) => {
            assert(can_mirror_y(axis, kp[0]) && can_mirror_y(axis, kq[0]));
            lemma_mirror_y_twice(axis, p);
        },
        PathSegment::Line(s) => {
            assert(can_mirror_y(axis, kp[0]) && can_mirror_y(axis, kq[1]));
            assert(can_mirror_y(axis, kp[1]) && can_mirror_y(axis, kq[0]));
            lemma_mirror_y_twice(axis, s.from);
            lemma_mirror_y_twice(axis, s.to);
        },
        PathSegment::Arc(s) => {
            assert(can_mirror_y(axis, kp[0]) && can_mirror_y(axis, kq[1]));
            assert(can_mirror_y(axis, kp[1]) && can_mirror_y(axis, kq[0]));
            lemma_mirror_y_twice(axis, s.from);
            lemma_mirror_y_twice(axis, s.to);
        },
        PathSegment::SweepArc(s) => {
            assert(can_mirror_y(axis, kp[0]) && can_mirror_y(axis, kq[0]));
            lemma_mirror_y_twice(axis, s.center);
        },
        PathSegment::QuadraticCurve(s) => {
            assert(can_mirror_y(axis, kp[0]) && can_mirror_y(axis, kq[2]));
            assert(can_mirror_y(axis, kp[1]) && can_mirror_y(axis, kq[1]));
            assert(can_mirror_y(axis, kp[2]) && can_mirror_y(axis, kq[0]));
            lemma_mirror_y_twice(axis, s.from);
            lemma_mirror_y_twice(axis, s.ctrl);
            lemma_mirror_y_twice(axis, s.to);
        },
        PathSegment::CubicCurve(s) => {
            assert(can_mirror_y(axis, kp[0]) && can_mirror_y(axis, kq[3]));
            assert(can_mirror_y(axis, kp[1]) && can_mirror_y(axis, kq[2]));
            assert(can_mirror_y(axis, kp[2]) && can_mirror_y(axis, kq[1]));
            assert(can_mirror_y(axis, kp[3]) && can_mirror_y(axis, kq[0]));
            lemma_mirror_y_twice(axis, s.from);
            lemma_mirror_y_twice(axis, s.ctrl1);
            lemma_mirror_y_twice(axis, s.ctrl2);
            lemma_mirror_y_twice(axis, s.to);
        },
    }
}

/// The image of an optional point under `f`.
pub open spec fn map_point<S>(p: Option<Coord<S>>, f: spec_fn(Coord<S>) -> Coord<S>) -> Option<
    Coord<S>,
> {
    match p {
        Some(q) => Some(f(q)),
        None => None,
    }
}

/// Mapping the key points of a segment maps its ends: the start of the
/// result is the image of the start (of the end, when the segment is
/// reversed, as mirroring does), and likewise for the end.
pub proof fn lemma_mapped_segment_ends<S, A>(
    seg: PathSegment<S, A>,
    f: spec_fn(Coord<S>) -> Coord<S>,
    reverse: bool,
    turn: spec_fn(Arc<S, A>) -> Arc<S, A>,
)
    ensures
        segment_start(segment_with_points(seg, f, reverse, turn)) == map_point(
            if reverse {
                segment_end(seg)
            } else {
                segment_start(seg)
            },
            f,
        ),
        segment_end(segment_with_points(seg, f, reverse, turn)) == map_point(
            if reverse {
                segment_start(seg)
            } else {
                segment_end(seg)
            },
            f,
        ),
{
}

/// Mapping the key points of a segment without reversing it (as
/// translating does) maps each key point in place.
pub proof fn lemma_mapped_segment_key_points<S, A>(
    seg: PathSegment<S, A>,
    f: spec_fn(Coord<S>) -> Coord<S>,
    turn: spec_fn(Arc<S, A>) -> Arc<S, A>,
)
    ensures
        key_points(segment_with_points(seg, f, false, turn)) == key_points(seg).map_values(f),
{
    assert(key_points(segment_with_points(seg, f, false, turn)) =~= key_points(seg).map_values(f));
}

/// Mapping the key points of a segment and reversing it (as mirroring does)
/// gives the images of its key points in reverse order: the reversed
/// segment runs through the mirror image of the original backwards.
pub proof fn lemma_reversed_segment_key_points<S, A>(
    seg: PathSegment<S, A>,
    f: spec_fn(Coord<S>) -> Coord<S>,
    turn: spec_fn(Arc<S, A>) -> Arc<S, A>,
)
    ensures
        key_points(segment_with_points(seg, f, true, turn)) == key_points(seg).reverse().map_values(f),
{
    assert(key_points(segment_with_points(seg, f, true, turn)) =~= key_points(seg).reverse().map_values(f));
}

/// Two segments meet when the first ends where the second starts. The ends
/// of a sweep arc are computed from its angles, not held as points, so as
/// far as this says a sweep arc meets any segment.
pub open spec fn meets<S, A>(a: PathSegment<S, A>, b: PathSegment<S, A>) -> bool {
    match (segment_end(a), segment_start(b)) {
        (Some(e), Some(s)) => e == s,
        _ => true,
    }
}

/// The segment at `i` meets the one before it.
pub open spec fn joined_at<S, A>(segs: Seq<PathSegment<S, A>>, i: int) -> bool {
    meets(segs[i - 1], segs[i])
}

/// Each segment meets the next one.
pub open spec fn continuous<S, A>(segs: Seq<PathSegment<S, A>>) -> bool {
    forall|i: int| 0 < i < segs.len() ==> #[trigger] joined_at(segs, i)
}

/// Each segment with its key points mapped by `f` and the angles of a sweep
/// arc by `turn`; when `reverse` holds each segment is also reversed, and
/// so is their order, so that the result runs backwards through the images
/// of the segments.
pub open spec fn mapped_segments<S, A>(
    segs: Seq<PathSegment<S, A>>,
    f: spec_fn(Coord<S>) -> Coord<S>,
    reverse: bool,
    turn: spec_fn(Arc<S, A>) -> Arc<S, A>,
) -> Seq<PathSegment<S, A>> {
    if reverse {
        Seq::new(
            segs.len(),
            |i: int| segment_with_points(segs[segs.len() - 1 - i], f, true, turn),
        )
    } else {
        Seq::new(segs.len(), |i: int| segment_with_points(segs[i], f, false, turn))
    }
}

/// The key points of all segments, the last drawn segment's first.
pub open spec fn path_key_points<S, A>(segs: Seq<PathSegment<S, A>>) -> Seq<Coord<S>>
    decreases segs.len(),
{
    if segs.len() == 0 {
        Seq::empty()
    } else {
        path_key_points(segs.drop_first()) + key_points(segs.first())
    }
}

/// The key points of a path of one segment are those of the segment.
proof fn lemma_path_key_points_single<S, A>(seg: PathSegment<S, A>)
    ensures
        path_key_points(seq![seg]) == key_points(seg),
{
    assert(seq![seg].drop_first() =~= Seq::<PathSegment<S, A>>::empty());
    assert(path_key_points(Seq::<PathSegment<S, A>>::empty()) =~= Seq::<Coord<S>>::empty());
    assert(path_key_points(seq![seg]) =~= key_points(seg));
}

/// The key points of two runs of segments drawn one after the other: those
/// of the later run, then those of the earlier one.
pub proof fn lemma_path_key_points_concat<S, A>(a: Seq<PathSegment<S, A>>, b: Seq<PathSegment<S, A>>)
    ensures
        path_key_points(a + b) == path_key_points(b) + path_key_points(a),
    decreases a.len(),
{
    if a.len() == 0 {
        assert(a + b =~= b);
        assert(path_key_points(b) + path_key_points(a) =~= path_key_points(b));
    } else {
        lemma_path_key_points_concat(a.drop_first(), b);
        assert((a + b).drop_first() =~= a.drop_first() + b);
        assert((a + b).first() == a.first());
        assert(path_key_points(a + b) =~= path_key_points(b) + path_key_points(a));
    }
}

/// Replacing the `j`-th key point of the segment at `i` replaces the key
/// point of the path that comes after those of the later segments.
proof fn lemma_path_key_points_set<S, A>(
    segs: Seq<PathSegment<S, A>>,
    i: int,
    seg: PathSegment<S, A>,
    j: int,
    p: Coord<S>,
)
    requires
        0 <= i < segs.len(),
        0 <= j < key_points(segs[i]).len(),
        key_points(seg) == key_points(segs[i]).update(j, p),
    ensures
        path_key_points(segs.update(i, seg)) == path_key_points(segs).update(
            path_key_points(segs.subrange(i + 1, segs.len() as int)).len() + j,
            p,
        ),
{
    let n = segs.len() as int;
    let before = segs.subrange(0, i);
    let later = segs.subrange(i + 1, n);
    let s = segs[i];
    assert(segs =~= before + (seq![s] + later));
    assert(segs.update(i, seg) =~= before + (seq![seg] + later));
    lemma_path_key_points_concat(before, seq![s] + later);
    lemma_path_key_points_concat(seq![s], later);
    lemma_path_key_points_concat(before, seq![seg] + later);
    lemma_path_key_points_concat(seq![seg], later);
    lemma_path_key_points_single(s);
    lemma_path_key_points_single(seg);
    assert(path_key_points(segs.update(i, seg)) =~= path_key_points(segs).update(
        path_key_points(later).len() + j,
        p,
    ));
}

/// Mapping the key points of a continuous path keeps it continuous: segment
/// by segment, or (as mirroring does, reversing each segment) in reverse
/// order.
pub proof fn lemma_mapped_path_is_continuous<S, A>(
    segs: Seq<PathSegment<S, A>>,
    f: spec_fn(Coord<S>) -> Coord<S>,
    reverse: bool,
    turn: spec_fn(Arc<S, A>) -> Arc<S, A>,
)
    requires
        continuous(segs),
    ensures
        continuous(mapped_segments(segs, f, reverse, turn)),
{
    let m = mapped_segments(segs, f, reverse, turn);
    let n = segs.len();
    assert forall|i: int| 0 < i < m.len() implies #[trigger] joined_at(m, i) by {
        if reverse {
            lemma_mapped_segment_ends(segs[n - i], f, true, turn);
            lemma_mapped_segment_ends(segs[n - 1 - i], f, true, turn);
            assert(joined_at(segs, n - i));
        } else {
            lemma_mapped_segment_ends(segs[i - 1], f, false, turn);
            lemma_mapped_segment_ends(segs[i], f, false, turn);
            assert(joined_at(segs, i));
        }
    }
}

/// A continuous path: its segments in the order drawn, each starting where
/// the one before it ends.
#[derive(Debug, Clone, PartialEq)]
pub struct Path<S, A> {
    segments: Vec<PathSegment<S, A>>,
}

impl<S, A> View for Path<S, A> {
    type V = Seq<PathSegment<S, A>>;

    closed spec fn view(&self) -> Seq<PathSegment<S, A>> {
        self.segments@
    }
}

impl<S, A> Default for Path<S, A> {
    /// A path without segments.
    fn default() -> (r: Self)
        ensures
            r@ == Seq::<PathSegment<S, A>>::empty(),
    {
        Path { segments: Vec::new() }
    }
}

impl<S: Copy, A: Copy> Path<S, A> {
    /// Given the first segment create new path
    pub fn new(first: PathSegment<S, A>) -> (r: Self)
        ensures
            r@ == seq![first],
            continuous(r@),
    {
        let mut segments: Vec<PathSegment<S, A>> = Vec::new();
        segments.push(first);
        Path { segments }
    }

    /// A path of these segments, in this order.
    pub fn from_segments(segments: Vec<PathSegment<S, A>>) -> (r: Self)
        ensures
            r@ == segments@,
    {
        Path { segments }
    }

    /// The segments, in the order drawn.
    pub fn segments(&self) -> (r: &Vec<PathSegment<S, A>>)
        ensures
            r@ == self@,
    {
        &self.segments
    }

    /// Draw next segment of a continuoous path based on the last one
    ///
    /// `draw` is given the last segment; what it returns must start where
    /// that one ends.
    pub fn draw_next<F: FnOnce(&PathSegment<S, A>) -> PathSegment<S, A>>(&mut self, draw: F)
        requires
            old(self)@.len() > 0,
            draw.requires((&old(self)@.last(),)),
            forall|next: PathSegment<S, A>|
                #[trigger] draw.ensures((&old(self)@.last(),), next) ==> meets(
                    old(self)@.last(),
                    next,
                ),
        ensures
            final(self)@.len() == old(self)@.len() + 1,
            final(self)@.drop_last() == old(self)@,
            draw.ensures((&old(self)@.last(),), final(self)@.last()),
            continuous(old(self)@) ==> continuous(final(self)@),
    {
        let n = self.segments.len();
        let last = self.segments[n - 1];
        let next = draw(&last);
        self.segments.push(next);
        proof {
            assert(self.segments@.drop_last() =~= old(self)@);
            if continuous(old(self)@) {
                assert forall|i: int| 0 < i < self@.len() implies #[trigger] joined_at(
                    self@,
                    i,
                ) by {
                    if i < n {
                        assert(joined_at(old(self)@, i));
                    }
                }
            }
        }
    }

    /// Startingg point of the path: that of its first segment (computed by
    /// `sweep_start` for a sweep arc), or `empty` for a path without
    /// segments
    pub fn from<F: Fn(&Arc<S, A>) -> Coord<S>>(&self, sweep_start: &F, empty: Coord<S>) -> (r:
        Coord<S>)
        requires
            forall|a: &Arc<S, A>| #[trigger] sweep_start.requires((a,)),
        ensures
            self@.len() == 0 ==> r == empty,
            self@.len() > 0 ==> match self@[0] {
                PathSegment::SweepArc(a) => sweep_start.ensures((&a,), r),
                _ => segment_start(self@[0]) == Some(r),
            },
    {
        if self.segments.len() == 0 {
            empty
        } else {
            self.segments[0].from(sweep_start)
        }
    }

    /// end point of the path: that of its last segment (computed by
    /// `sweep_end` for a sweep arc), or `empty` for a path without segments
    pub fn to<F: Fn(&Arc<S, A>) -> Coord<S>>(&self, sweep_end: &F, empty: Coord<S>) -> (r: Coord<
        S,
    >)
        requires
            forall|a: &Arc<S, A>| #[trigger] sweep_end.requires((a,)),
        ensures
            self@.len() == 0 ==> r == empty,
            self@.len() > 0 ==> match self@.last() {
                PathSegment::SweepArc(a) => sweep_end.ensures((&a,), r),
                _ => segment_end(self@.last()) == Some(r),
            },
    {
        let n = self.segments.len();
        if n == 0 {
            empty
        } else {
            self.segments[n - 1].to(sweep_end)
        }
    }

    /// Every key point of every segment replaced by what `f` makes of it
    pub fn map_key_pts<F: Fn(&Coord<S>) -> Coord<S>>(&self, f: &F) -> (r: Self)
        requires
            forall|p: &Coord<S>| #[trigger] f.requires((p,)),
        ensures
            r@.len() == self@.len(),
            forall|i: int| 0 <= i < self@.len() ==> #[trigger] maps_key_points(self@[i], r@[i], *f),
    {
        let mut out: Vec<PathSegment<S, A>> = Vec::new();
        let n = self.segments.len();
        let mut i: usize = 0;
        while i < n
            invariant
                i <= n,
                n == self@.len(),
                out@.len() == i,
                forall|p: &Coord<S>| #[trigger] f.requires((p,)),
                forall|k: int| 0 <= k < i ==> #[trigger] maps_key_points(self@[k], out@[k], *f),
            decreases n - i,
        {
            out.push(self.segments[i].map_key_pts(f));
            i = i + 1;
        }
        Path { segments: out }
    }

    /// Key points of all path segments, the last drawn segment's first
    pub fn key_pts(&self) -> (r: Vec<Coord<S>>)
        ensures
            r@ == path_key_points(self@),
    {
        let mut out: Vec<Coord<S>> = Vec::new();
        let n = self.segments.len();
        let mut i: usize = n;
        while i > 0
            invariant
                i <= n,
                n == self@.len(),
                out@ == path_key_points(self@.subrange(i as int, n as int)),
            decreases i,
        {
            i = i - 1;
            let mut pts = self.segments[i].key_pts();
            assert(self@.subrange(i as int, n as int).drop_first() =~= self@.subrange(
                i + 1,
                n as int,
            ));
            assert(self@.subrange(i as int, n as int).first() == self@[i as int]);
            out.append(&mut pts);
        }
        assert(self@.subrange(0, n as int) =~= self@);
        out
    }

    /// Replace the `k`-th key point (in the order of `key_pts`) by `p`,
    /// in the segment that holds it.
    pub fn set_key_pt(&mut self, k: usize, p: Coord<S>)
        requires
            k < path_key_points(old(self)@).len(),
        ensures
            final(self)@.len() == old(self)@.len(),
            path_key_points(final(self)@) == path_key_points(old(self)@).update(k as int, p),
            exists|i: int, j: int|
                0 <= i < old(self)@.len() && final(self)@ == old(self)@.update(
                    i,
                    with_key_point(old(self)@[i], j, p),
                ),
    {
        let ghost segs = self@;
        let n = self.segments.len();
        let mut i: usize = n;
        let mut base: usize = 0;
        while i > 0
            invariant
                i <= n,
                n == segs.len(),
                segs == old(self)@,
                self@ == segs,
                base == path_key_points(segs.subrange(i as int, n as int)).len(),
                base <= k,
                k < path_key_points(segs).len(),
            decreases i,
        {
            let ghost later = segs.subrange(i as int, n as int);
            i = i - 1;
            proof {
                assert(segs.subrange(i as int, n as int).drop_first() =~= later);
                assert(segs.subrange(i as int, n as int).first() == segs[i as int]);
            }
            let m = self.segments[i].key_pts().len();
            if k - base < m {
                let j = k - base;
                let mut seg = self.segments[i];
                seg.set_key_pt(j, p);
                self.segments.set(i, seg);
                proof {
                    lemma_path_key_points_set(segs, i as int, seg, j as int, p);
                    assert(self@ =~= segs.update(i as int, seg));
                }
                return;
            }
            proof {
                lemma_path_key_points_concat(seq![segs[i as int]], later);
                assert(seq![segs[i as int]] + later =~= segs.subrange(i as int, n as int));
                lemma_path_key_points_single(segs[i as int]);
            }
            base = base + m;
        }
        proof {
            assert(segs.subrange(0, n as int) =~= segs);
        }
    }
}

impl<S: Copy + core::ops::Add<Output = S>, A: Copy> Path<S, A> {
    /// Translate all segments
    pub fn translate(&self, by: Coord<S>) -> (r: Self)
        requires
            forall|i: int| 0 <= i < self@.len() ==> #[trigger] can_translate(self@[i], by),
        ensures
            r@.len() == self@.len(),
            S::obeys_add_spec() ==> r@ == mapped_segments(
                self@,
                |p: Coord<S>| shifted(p, by),
                false,
                |a: Arc<S, A>| a,
            ),
            S::obeys_add_spec() && continuous(self@) ==> continuous(r@),
    {
        let mut out: Vec<PathSegment<S, A>> = Vec::new();
        let n = self.segments.len();
        let mut i: usize = 0;
        while i < n
            invariant
                i <= n,
                n == self@.len(),
                out@.len() == i,
                forall|k: int| 0 <= k < self@.len() ==> #[trigger] can_translate(self@[k], by),
                S::obeys_add_spec() ==> forall|k: int|
                    0 <= k < i ==> #[trigger] out@[k] == translated(self@[k], by),
            decreases n - i,
        {
            proof { assert(can_translate(self@[i as int], by)); }
            out.push(self.segments[i].translate(by));
            i = i + 1;
        }
        proof {
            if S::obeys_add_spec() {
                assert(out@ =~= mapped_segments(
                    self@,
                    |p: Coord<S>| shifted(p, by),
                    false,
                    |a: Arc<S, A>| a,
                ));
                if continuous(self@) {
                    lemma_mapped_path_is_continuous(
                        self@,
                        |p: Coord<S>| shifted(p, by),
                        false,
                        |a: Arc<S, A>| a,
                    );
                }
            }
        }
        Path { segments: out }
    }
}

impl<
    S: Copy + core::ops::Sub<Output = S>,
    A: Copy + core::ops::Add<Output = A> + core::ops::Sub<Output = A> + core::ops::Neg<Output = A>,
> Path<S, A> {
    /// Mirror the path at the vertical axis `x = x_pos_axis` (`half_turn` is
    /// the angle of half a turn): each segment is mirrored and reversed,
    /// and the path runs through them from the last to the first, so it
    /// stays continuous
    pub fn flip_along_y(&self, x_pos_axis: S, half_turn: A) -> (r: Self)
        requires
            forall|i: int|
                0 <= i < self@.len() ==> #[trigger] can_flip_along_y(self@[i], x_pos_axis, half_turn),
        ensures
            r@.len() == self@.len(),
            (forall|i: int| 0 <= i < self@.len() ==> #[trigger] flip_laws(self@[i])) ==> r@
                == mapped_segments(
                self@,
                |p: Coord<S>| mirror_x(x_pos_axis, p),
                true,
                |a: Arc<S, A>| arc_mirrored_vertical(a, half_turn),
            ),
            (forall|i: int| 0 <= i < self@.len() ==> #[trigger] flip_laws(self@[i])) && continuous(
                self@,
            ) ==> continuous(r@),
    {
        let mut out: Vec<PathSegment<S, A>> = Vec::new();
        let n = self.segments.len();
        let mut i: usize = 0;
        while i < n
            invariant
                i <= n,
                n == self@.len(),
                out@.len() == i,
                forall|k: int|
                    0 <= k < self@.len() ==> #[trigger] can_flip_along_y(
                        self@[k],
                        x_pos_axis,
                        half_turn,
                    ),
                forall|k: int|
                    0 <= k < i ==> flip_laws(self@[n - 1 - k]) ==> #[trigger] out@[k]
                        == flipped_along_y(self@[n - 1 - k], x_pos_axis, half_turn),
            decreases n - i,
        {
            proof { assert(can_flip_along_y(self@[n - 1 - i], x_pos_axis, half_turn)); }
            out.push(self.segments[n - 1 - i].flip_along_y(x_pos_axis, half_turn));
            i = i + 1;
        }
        proof {
            if forall|k: int| 0 <= k < self@.len() ==> #[trigger] flip_laws(self@[k]) {
                assert forall|k: int| 0 <= k < n implies #[trigger] out@[k] == flipped_along_y(
                    self@[n - 1 - k],
                    x_pos_axis,
                    half_turn,
                ) by {
                    assert(flip_laws(self@[n - 1 - k]));
                }
                assert(out@ =~= mapped_segments(
                    self@,
                    |p: Coord<S>| mirror_x(x_pos_axis, p),
                    true,
                    |a: Arc<S, A>| arc_mirrored_vertical(a, half_turn),
                ));
                if continuous(self@) {
                    lemma_mapped_path_is_continuous(
                        self@,
                        |p: Coord<S>| mirror_x(x_pos_axis, p),
                        true,
                        |a: Arc<S, A>| arc_mirrored_vertical(a, half_turn),
                    );
                }
            }
        }
        Path { segments: out }
    }

    /// Mirror the path at the horizontal axis `y = y_pos_axis`: each segment
    /// is mirrored and reversed, and the path runs through them from the
    /// last to the first, so it stays continuous
    pub fn flip_along_x(&self, y_pos_axis: S) -> (r: Self)
        requires
            forall|i: int| 0 <= i < self@.len() ==> #[trigger] can_flip_along_x(self@[i], y_pos_axis),
        ensures
            r@.len() == self@.len(),
            (forall|i: int| 0 <= i < self@.len() ==> #[trigger] flip_laws(self@[i])) ==> r@
                == mapped_segments(
                self@,
                |p: Coord<S>| mirror_y(y_pos_axis, p),
                true,
                |a: Arc<S, A>| arc_mirrored_horizontal(a),
            ),
            (forall|i: int| 0 <= i < self@.len() ==> #[trigger] flip_laws(self@[i])) && continuous(
                self@,
            ) ==> continuous(r@),
    {
        let mut out: Vec<PathSegment<S, A>> = Vec::new();
        let n = self.segments.len();
        let mut i: usize = 0;
        while i < n
            invariant
                i <= n,
                n == self@.len(),
                out@.len() == i,
                forall|k: int|
                    0 <= k < self@.len() ==> #[trigger] can_flip_along_x(self@[k], y_pos_axis),
                forall|k: int|
                    0 <= k < i ==> flip_laws(self@[n - 1 - k]) ==> #[trigger] out@[k]
                        == flipped_along_x(self@[n - 1 - k], y_pos_axis),
            decreases n - i,
        {
            proof { assert(can_flip_along_x(self@[n - 1 - i], y_pos_axis)); }
            out.push(self.segments[n - 1 - i].flip_along_x(y_pos_axis));
            i = i + 1;
        }
        proof {
            if forall|k: int| 0 <= k < self@.len() ==> #[trigger] flip_laws(self@[k]) {
                assert forall|k: int| 0 <= k < n implies #[trigger] out@[k] == flipped_along_x(
                    self@[n - 1 - k],
                    y_pos_axis,
                ) by {
                    assert(flip_laws(self@[n - 1 - k]));
                }
                assert(out@ =~= mapped_segments(
                    self@,
                    |p: Coord<S>| mirror_y(y_pos_axis, p),
                    true,
                    |a: Arc<S, A>| arc_mirrored_horizontal(a),
                ));
                if continuous(self@) {
                    lemma_mapped_path_is_continuous(
                        self@,
                        |p: Coord<S>| mirror_y(y_pos_axis, p),
                        true,
                        |a: Arc<S, A>| arc_mirrored_horizontal(a),
                    );
                }
            }
        }
        Path { segments: out }
    }
}

/// Mapping the points of an SVG arc, whether or not it is reversed, changes
/// only its end points: its radii, rotation and flags stay those of the
/// input, whatever `turn` does to sweep arcs.
pub proof fn lemma_mapped_svg_arc_keeps_shape<S, A>(
    s: SvgArc<S, A>,
    f: spec_fn(Coord<S>) -> Coord<S>,
    reverse: bool,
    turn: spec_fn(Arc<S, A>) -> Arc<S, A>,
)
    ensures
        segment_with_points(PathSegment::Arc(s), f, reverse, turn) matches PathSegment::Arc(r)
            && r.radii == s.radii && r.x_rotation == s.x_rotation && r.large_arc == s.large_arc
            && r.sweep == s.sweep,
{
}

/// Mirroring an SVG arc at a vertical or a horizontal axis mirrors its end
/// points and swaps them; its radii, rotation and flags are those of the
/// input. Translating it moves its end points and keeps the rest.
pub proof fn lemma_arc_flips_and_translation<
    S: core::ops::Add<Output = S> + core::ops::Sub<Output = S>,
    A: core::ops::Add<Output = A> + core::ops::Sub<Output = A> + core::ops::Neg<Output = A>,
>(s: SvgArc<S, A>, axis: S, half_turn: A, by: Coord<S>)
    ensures
        flipped_along_y(PathSegment::Arc(s), axis, half_turn) == PathSegment::Arc(
            SvgArc {
                from: mirror_x(axis, s.to),
                to: mirror_x(axis, s.from),
                radii: s.radii,
                x_rotation: s.x_rotation,
                large_arc: s.large_arc,
                sweep: s.sweep,
            },
        ),
        flipped_along_x(PathSegment::<S, A>::Arc(s), axis) == PathSegment::Arc(
            SvgArc {
                from: mirror_y(axis, s.to),
                to: mirror_y(axis, s.from),
                radii: s.radii,
                x_rotation: s.x_rotation,
                large_arc: s.large_arc,
                sweep: s.sweep,
            },
        ),
        translated(PathSegment::Arc(s), by) == PathSegment::Arc(
            SvgArc {
                from: shifted(s.from, by),
                to: shifted(s.to, by),
                radii: s.radii,
                x_rotation: s.x_rotation,
                large_arc: s.large_arc,
                sweep: s.sweep,
            },
        ),
{
}

/// Translating a sweep arc moves its center and keeps its radii and angles.
pub proof fn lemma_sweep_arc_translation<S: core::ops::Add<Output = S>, A>(
    a: Arc<S, A>,
    by: Coord<S>,
)
    ensures
        translated(PathSegment::SweepArc(a), by) == PathSegment::SweepArc(
            Arc {
                center: shifted(a.center, by),
                radii: a.radii,
                start_angle: a.start_angle,
                sweep_angle: a.sweep_angle,
                x_rotation: a.x_rotation,
            },
        ),
{
}

} // verus!
