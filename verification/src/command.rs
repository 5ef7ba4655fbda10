//! Path commands: what one step of a path draws, either to an absolute
//! point or by a relative vector.
//!
//! Commands are generic in the scalar `S` of their coordinates and in the
//! angle type `A`, so that the same command logic serves numeric drawing
//! and the textual form of SVG path data.

use vstd::prelude::*;
use crate::segment::{CubicCurve, Line, QuadraticCurve, SvgArc};
use vstd::std_specs::ops::AddSpec;
use vstd::string::*;

verus! {

/// A pair of coordinates: a point, or a vector.
#[derive(Debug, Clone, Copy, PartialEq)]
pub struct Coord<S> {
    pub x: S,
    pub y: S,
}

/// One drawing operation, over points (`To`) or vectors (`By`).
#[derive(Debug, Clone, Copy, PartialEq)]
pub enum PathCommandOp<S, A> {
    Move(Coord<S>),
    Line(Coord<S>),
    CubicCurve { to: Coord<S>, ctrl1: Coord<S>, ctrl2: Coord<S> },
    QudraticCurve { to: Coord<S>, ctrl: Coord<S> },
    Arc { to: Coord<S>, radii: Coord<S>, x_rotation: A, large_arc: bool, sweep: bool },
    ClosePath,
}

/// A path command: draw to an absolute point, or by a relative vector.
#[derive(Debug, Clone, Copy, PartialEq)]
pub enum PathCommand<S, A> {
    /// draw to Point
    To(PathCommandOp<S, A>),
    /// draw by Vector
    By(PathCommandOp<S, A>),
}

/// The coordinates at which an operation ends (meaningless for `ClosePath`).
pub open spec fn op_target<S, A>(op: PathCommandOp<S, A>) -> Coord<S> {
    match op {
        PathCommandOp::Move(p) => p,
        PathCommandOp::Line(p) => p,
        PathCommandOp::CubicCurve { to, .. } => to,
        PathCommandOp::QudraticCurve { to, .. } => to,
        PathCommandOp::Arc { to, .. } => to,
        PathCommandOp::ClosePath => arbitrary(),
    }
}

/// `from` moved by `by`, coordinate by coordinate.
pub open spec fn moved_by<S: core::ops::Add<Output = S>>(from: Coord<S>, by: Coord<S>) -> Coord<S> {
    Coord { x: from.x.add_spec(by.x), y: from.y.add_spec(by.y) }
}

/// Two operations of the same kind, with the same flags, whose points are
/// related by `pr`, whose radii are related by `vr` and whose rotations are
/// related by `ar`.
pub open spec fn op_related<S, A, S2, A2>(
    a: PathCommandOp<S, A>,
    b: PathCommandOp<S2, A2>,
    pr: spec_fn(Coord<S>, Coord<S2>) -> bool,
    vr: spec_fn(Coord<S>, Coord<S2>) -> bool,
    ar: spec_fn(A, A2) -> bool,
) -> bool {
    match (a, b) {
        (PathCommandOp::Move(p), PathCommandOp::Move(q)) => pr(p, q),
        (PathCommandOp::Line(p), PathCommandOp::Line(q)) => pr(p, q),
        (
            PathCommandOp::CubicCurve { to, ctrl1, ctrl2 },
            PathCommandOp::CubicCurve { to: to2, ctrl1: ctrl1_2, ctrl2: ctrl2_2 },
        ) => pr(to, to2) && pr(ctrl1, ctrl1_2) && pr(ctrl2, ctrl2_2),
        (
            PathCommandOp::QudraticCurve { to, ctrl },
            PathCommandOp::QudraticCurve { to: to2, ctrl: ctrl_2 },
        ) => pr(to, to2) && pr(ctrl, ctrl_2),
        (
            PathCommandOp::Arc { to, radii, x_rotation, large_arc, sweep },
            PathCommandOp::Arc {
                to: to2,
                radii: radii2,
                x_rotation: x_rotation2,
                large_arc: large_arc2,
                sweep: sweep2,
            },
        ) => pr(to, to2) && vr(radii, radii2) && ar(x_rotation, x_rotation2) && large_arc
            == large_arc2 && sweep == sweep2,
        (PathCommandOp::ClosePath, PathCommandOp::ClosePath) => true,
        _ => false,
    }
}

/// Two commands of the same kind: absolute points of `a` are related to
/// those of `b` by `pr`, vectors (relative coordinates and radii) by `vr`,
/// rotations by `ar`.
pub open spec fn command_related<S, A, S2, A2>(
    a: PathCommand<S, A>,
    b: PathCommand<S2, A2>,
    pr: spec_fn(Coord<S>, Coord<S2>) -> bool,
    vr: spec_fn(Coord<S>, Coord<S2>) -> bool,
    ar: spec_fn(A, A2) -> bool,
) -> bool {
    match (a, b) {
        (PathCommand::To(o1), PathCommand::To(o2)) => op_related(o1, o2, pr, vr, ar),
        (PathCommand::By(o1), PathCommand::By(o2)) => op_related(o1, o2, vr, vr, ar),
        _ => false,
    }
}

/// Absolute point reached by `cmd` when drawn from `from`.
pub open spec fn command_target<S: core::ops::Add<Output = S>, A>(
    cmd: PathCommand<S, A>,
    from: Coord<S>,
) -> Coord<S> {
    match cmd {
        PathCommand::To(op) => op_target(op),
        PathCommand::By(op) => moved_by(from, op_target(op)),
    }
}

impl<S, A> PathCommand<S, A> {
    /// The operation of the command, absolute or relative.
    pub open spec fn operation(self) -> PathCommandOp<S, A> {
        match self {
            PathCommand::To(op) => op,
            PathCommand::By(op) => op,
        }
    }

    /// true for an arc
    pub fn is_arc(&self) -> (r: bool)
        ensures
            r == self.operation() is Arc,
    {
        match self {
            PathCommand::To(PathCommandOp::Arc { .. }) | PathCommand::By(PathCommandOp::Arc { .. }) => true,
            _ => false,
        }
    }

    /// true for a straight line
    pub fn is_line(&self) -> (r: bool)
        ensures
            r == self.operation() is Line,
    {
        match self {
            PathCommand::To(PathCommandOp::Line(_)) | PathCommand::By(PathCommandOp::Line(_)) => true,
            _ => false,
        }
    }

    /// true for a cubic curve
    pub fn is_cubic_curve(&self) -> (r: bool)
        ensures
            r == self.operation() is CubicCurve,
    {
        match self {
            PathCommand::To(PathCommandOp::CubicCurve { .. })
            | PathCommand::By(PathCommandOp::CubicCurve { .. }) => true,
            _ => false,
        }
    }

    /// true for a quadratic curve
    pub fn is_quadratic_curve(&self) -> (r: bool)
        ensures
            r == self.operation() is QudraticCurve,
    {
        match self {
            PathCommand::To(PathCommandOp::QudraticCurve { .. })
            | PathCommand::By(PathCommandOp::QudraticCurve { .. }) => true,
            _ => false,
        }
    }

    /// true for the command that closes the path
    pub fn is_close(&self) -> (r: bool)
        ensures
            r == self.operation() is ClosePath,
    {
        match self {
            PathCommand::To(PathCommandOp::ClosePath) | PathCommand::By(PathCommandOp::ClosePath) => true,
            _ => false,
        }
    }
}

impl<S, A> PathCommandOp<S, A> {
    /// The operation with every point mapped by `point_fn`, the radii by
    /// `radii_fn` and the rotation by `angle_fn`; flags are kept.
    pub fn map_with<S2, A2, FP, FR, FA>(&self, point_fn: &FP, radii_fn: &FR, angle_fn: &FA) -> (r:
        PathCommandOp<S2, A2>) where
        FP: Fn(&Coord<S>) -> Coord<S2>,
        FR: Fn(&Coord<S>) -> Coord<S2>,
        FA: Fn(&A) -> A2,

        requires
            forall|c: &Coord<S>| #[trigger] point_fn.requires((c,)),
            forall|c: &Coord<S>| #[trigger] radii_fn.requires((c,)),
            forall|a: &A| #[trigger] angle_fn.requires((a,)),
        ensures
            op_related(
                *self,
                r,
                |p: Coord<S>, q: Coord<S2>| point_fn.ensures((&p,), q),
                |p: Coord<S>, q: Coord<S2>| radii_fn.ensures((&p,), q),
                |a: A, b: A2| angle_fn.ensures((&a,), b),
            ),
    {
        match self {
            PathCommandOp::Move(p) => PathCommandOp::Move(point_fn(p)),
            PathCommandOp::Line(p) => PathCommandOp::Line(point_fn(p)),
            PathCommandOp::CubicCurve { to, ctrl1, ctrl2 } => PathCommandOp::CubicCurve {
                to: point_fn(to),
                ctrl1: point_fn(ctrl1),
                ctrl2: point_fn(ctrl2),
            },
            PathCommandOp::QudraticCurve { to, ctrl } => PathCommandOp::QudraticCurve {
                to: point_fn(to),
                ctrl: point_fn(ctrl),
            },
            PathCommandOp::Arc { to, radii, x_rotation, large_arc, sweep } => PathCommandOp::Arc {
                to: point_fn(to),
                radii: radii_fn(radii),
                x_rotation: angle_fn(x_rotation),
                large_arc: *large_arc,
                sweep: *sweep,
            },
            PathCommandOp::ClosePath => PathCommandOp::ClosePath,
        }
    }
}

impl<S, A> PathCommand<S, A> {
    /// The command with its coordinates and rotation mapped: absolute points
    /// by `point_fn`, vectors (relative coordinates and radii) by
    /// `vector_fn`, the rotation by `angle_fn`.
    pub fn map_with<S2, A2, FP, FV, FA>(&self, point_fn: &FP, vector_fn: &FV, angle_fn: &FA) -> (r:
        PathCommand<S2, A2>) where
        FP: Fn(&Coord<S>) -> Coord<S2>,
        FV: Fn(&Coord<S>) -> Coord<S2>,
        FA: Fn(&A) -> A2,

        requires
            forall|c: &Coord<S>| #[trigger] point_fn.requires((c,)),
            forall|c: &Coord<S>| #[trigger] vector_fn.requires((c,)),
            forall|a: &A| #[trigger] angle_fn.requires((a,)),
        ensures
            command_related(
                *self,
                r,
                |p: Coord<S>, q: Coord<S2>| point_fn.ensures((&p,), q),
                |p: Coord<S>, q: Coord<S2>| vector_fn.ensures((&p,), q),
                |a: A, b: A2| angle_fn.ensures((&a,), b),
            ),
    {
        match self {
            PathCommand::To(op) => PathCommand::To(op.map_with(point_fn, vector_fn, angle_fn)),
            PathCommand::By(op) => PathCommand::By(op.map_with(vector_fn, vector_fn, angle_fn)),
        }
    }
}

impl<S, A: Copy> PathCommand<S, A> {
    /// The command with absolute points transformed by `point_fn` and
    /// vectors (relative coordinates and radii) by `vector_fn`; the rotation
    /// and the flags of an arc are kept.
    pub fn transformed<FP, FV>(&self, point_fn: &FP, vector_fn: &FV) -> (r: Self) where
        FP: Fn(&Coord<S>) -> Coord<S>,
        FV: Fn(&Coord<S>) -> Coord<S>,

        requires
            forall|c: &Coord<S>| #[trigger] point_fn.requires((c,)),
            forall|c: &Coord<S>| #[trigger] vector_fn.requires((c,)),
        ensures
            command_related(
                *self,
                r,
                |p: Coord<S>, q: Coord<S>| point_fn.ensures((&p,), q),
                |p: Coord<S>, q: Coord<S>| vector_fn.ensures((&p,), q),
                |a: A, b: A| a == b,
            ),
    {
        let keep = |a: &A| -> (b: A)
            ensures
                b == *a,
            { *a };
        self.map_with(point_fn, vector_fn, &keep)
    }
}

impl<S: Copy + core::ops::Add<Output = S>, A> PathCommand<S, A> {
    /// The absolute point at which the command ends when drawn from `from`.
    pub fn to(&self, from: Coord<S>) -> (r: Coord<S>)
        requires
            !(self.operation() is ClosePath),
            self is By ==> from.x.add_req(op_target(self.operation()).x) && from.y.add_req(
                op_target(self.operation()).y,
            ),
        ensures
            self is To ==> r == op_target(self.operation()),
            S::obeys_add_spec() ==> r == command_target(*self, from),
    {
        match self {
            PathCommand::To(PathCommandOp::Move(to))
            | PathCommand::To(PathCommandOp::Line(to))
            | PathCommand::To(PathCommandOp::CubicCurve { to, .. })
            | PathCommand::To(PathCommandOp::QudraticCurve { to, .. })
            | PathCommand::To(PathCommandOp::Arc { to, .. }) => *to,
            PathCommand::By(PathCommandOp::Move(by))
            | PathCommand::By(PathCommandOp::Line(by))
            | PathCommand::By(PathCommandOp::CubicCurve { to: by, .. })
            | PathCommand::By(PathCommandOp::QudraticCurve { to: by, .. })
            | PathCommand::By(PathCommandOp::Arc { to: by, .. }) => Coord {
                x: from.x + by.x,
                y: from.y + by.y,
            },
            PathCommand::To(PathCommandOp::ClosePath) | PathCommand::By(PathCommandOp::ClosePath) => from,
        }
    }
}

/// `c` as SVG coordinates: `x,y`.
pub open spec fn coord_text(c: Coord<String>) -> Seq<char> {
    c.x@ + seq![','] + c.y@
}

/// An SVG flag: `1` or `0`.
pub open spec fn flag_text(b: bool) -> Seq<char> {
    if b {
        seq!['1']
    } else {
        seq!['0']
    }
}

/// The SVG letter of a command: upper case when absolute, lower case when
/// relative.
pub open spec fn command_letter<S, A>(cmd: PathCommand<S, A>) -> char {
    let upper = cmd is To;
    match cmd.operation() {
        PathCommandOp::Move(_) => if upper { 'M' } else { 'm' },
        PathCommandOp::Line(_) => if upper { 'L' } else { 'l' },
        PathCommandOp::CubicCurve { .. } => if upper { 'C' } else { 'c' },
        PathCommandOp::QudraticCurve { .. } => if upper { 'Q' } else { 'q' },
        PathCommandOp::Arc { .. } => if upper { 'A' } else { 'a' },
        PathCommandOp::ClosePath => if upper { 'Z' } else { 'z' },
    }
}

/// The operands of an operation in SVG path data, each followed by a space:
/// control points come before the end point, and an arc gives its radii,
/// rotation and flags before its end point.
pub open spec fn operands_text(op: PathCommandOp<String, String>) -> Seq<char> {
    match op {
        PathCommandOp::Move(p) => coord_text(p) + seq![' '],
        PathCommandOp::Line(p) => coord_text(p) + seq![' '],
        PathCommandOp::CubicCurve { to, ctrl1, ctrl2 } => coord_text(ctrl1) + seq![' '] + coord_text(
            ctrl2,
        ) + seq![' '] + coord_text(to) + seq![' '],
        PathCommandOp::QudraticCurve { to, ctrl } => coord_text(ctrl) + seq![' '] + coord_text(to)
            + seq![' '],
        PathCommandOp::Arc { to, radii, x_rotation, large_arc, sweep } => coord_text(radii) + seq![
            ' ',
        ] + x_rotation@ + seq![' '] + flag_text(large_arc) + seq![' '] + flag_text(sweep) + seq![' ']
            + coord_text(to) + seq![' '],
        PathCommandOp::ClosePath => Seq::empty(),
    }
}

/// A command as SVG path data: its letter, a space, and its operands.
pub open spec fn svg_command_text(cmd: PathCommand<String, String>) -> Seq<char> {
    seq![command_letter(cmd), ' '] + operands_text(cmd.operation())
}

fn append_space(s: &mut String)
    ensures
        final(s)@ == old(s)@ + seq![' '],
{
    s.append(" ");
    proof {
        reveal_strlit(" ");
    }
}

fn append_coord(s: &mut String, c: &Coord<String>)
    ensures
        final(s)@ == old(s)@ + coord_text(*c),
{
    s.append(c.x.as_str());
    s.append(",");
    proof {
        reveal_strlit(",");
    }
    s.append(c.y.as_str());
}

fn append_flag(s: &mut String, b: bool)
    ensures
        final(s)@ == old(s)@ + flag_text(b),
{
    if b {
        s.append("1");
        proof {
            reveal_strlit("1");
        }
    } else {
        s.append("0");
        proof {
            reveal_strlit("0");
        }
    }
}

impl PathCommandOp<String, String> {
    fn append_operands(&self, s: &mut String)
        ensures
            final(s)@ == old(s)@ + operands_text(*self),
    {
        match self {
            PathCommandOp::Move(p) | PathCommandOp::Line(p) => {
                append_coord(s, p);
                append_space(s);
            },
            PathCommandOp::CubicCurve { to, ctrl1, ctrl2 } => {
                append_coord(s, ctrl1);
                append_space(s);
                append_coord(s, ctrl2);
                append_space(s);
                append_coord(s, to);
                append_space(s);
            },
            PathCommandOp::QudraticCurve { to, ctrl } => {
                append_coord(s, ctrl);
                append_space(s);
                append_coord(s, to);
                append_space(s);
            },
            PathCommandOp::Arc { to, radii, x_rotation, large_arc, sweep } => {
                append_coord(s, radii);
                append_space(s);
                s.append(x_rotation.as_str());
                append_space(s);
                append_flag(s, *large_arc);
                append_space(s);
                append_flag(s, *sweep);
                append_space(s);
                append_coord(s, to);
                append_space(s);
            },
            PathCommandOp::ClosePath => {},
        }
        assert(final(s)@ =~= old(s)@ + operands_text(*self));
    }
}

impl PathCommand<String, String> {
    fn letter_and_space(&self) -> (r: &'static str)
        ensures
            r@ == seq![command_letter(*self), ' '],
    {
        proof {
            reveal_strlit("M ");
            reveal_strlit("L ");
            reveal_strlit("C ");
            reveal_strlit("Q ");
            reveal_strlit("A ");
            reveal_strlit("Z ");
            reveal_strlit("m ");
            reveal_strlit("l ");
            reveal_strlit("c ");
            reveal_strlit("q ");
            reveal_strlit("a ");
            reveal_strlit("z ");
        }
        match self {
            PathCommand::To(PathCommandOp::Move(_)) => "M ",
            PathCommand::To(PathCommandOp::Line(_)) => "L ",
            PathCommand::To(PathCommandOp::CubicCurve { .. }) => "C ",
            PathCommand::To(PathCommandOp::QudraticCurve { .. }) => "Q ",
            PathCommand::To(PathCommandOp::Arc { .. }) => "A ",
            PathCommand::To(PathCommandOp::ClosePath) => "Z ",
            PathCommand::By(PathCommandOp::Move(_)) => "m ",
            PathCommand::By(PathCommandOp::Line(_)) => "l ",
            PathCommand::By(PathCommandOp::CubicCurve { .. }) => "c ",
            PathCommand::By(PathCommandOp::QudraticCurve { .. }) => "q ",
            PathCommand::By(PathCommandOp::Arc { .. }) => "a ",
            PathCommand::By(PathCommandOp::ClosePath) => "z ",
        }
    }

    /// render path command as SVG path command
    ///
    /// The coordinates and the rotation (in degrees) are given as text.
    pub fn to_svg_path_d(&self) -> (r: String)
        ensures
            r@ == svg_command_text(*self),
    {
        let mut s = String::new();
        s.append(self.letter_and_space());
        match self {
            PathCommand::To(op) => op.append_operands(&mut s),
            PathCommand::By(op) => op.append_operands(&mut s),
        }
        s
    }
}

/// A command is of at most one of the kinds that `is_arc`, `is_line`,
/// `is_cubic_curve`, `is_quadratic_curve` and `is_close` recognise, and of
/// none of them exactly when it is a move.
pub proof fn lemma_command_kinds_exclusive<S, A>(cmd: PathCommand<S, A>)
    ensures
        (cmd.operation() is Arc) as int + (cmd.operation() is Line) as int + (
        cmd.operation() is CubicCurve) as int + (cmd.operation() is QudraticCurve) as int + (
        cmd.operation() is ClosePath) as int <= 1,
        (cmd.operation() is Move) <==> !(cmd.operation() is Arc) && !(cmd.operation() is Line)
            && !(cmd.operation() is CubicCurve) && !(cmd.operation() is QudraticCurve) && !(
        cmd.operation() is ClosePath),
{
}

/// Mapping or transforming a command keeps whether it is absolute or
/// relative, its kind, and the flags of an arc.
pub proof fn lemma_related_keeps_kind<S, A, S2, A2>(
    a: PathCommand<S, A>,
    b: PathCommand<S2, A2>,
    pr: spec_fn(Coord<S>, Coord<S2>) -> bool,
    vr: spec_fn(Coord<S>, Coord<S2>) -> bool,
    ar: spec_fn(A, A2) -> bool,
)
    requires
        command_related(a, b, pr, vr, ar),
    ensures
        (a is To) == (b is To),
        (a.operation() is Move) == (b.operation() is Move),
        (a.operation() is Line) == (b.operation() is Line),
        (a.operation() is CubicCurve) == (b.operation() is CubicCurve),
        (a.operation() is QudraticCurve) == (b.operation() is QudraticCurve),
        (a.operation() is Arc) == (b.operation() is Arc),
        (a.operation() is ClosePath) == (b.operation() is ClosePath),
        a.operation() is Arc ==> a.operation()->large_arc == b.operation()->large_arc
            && a.operation()->sweep == b.operation()->sweep,
        command_letter(a) == command_letter(b),
{
}

/// `from` can be moved by `by`: both coordinate sums can be computed.
pub open spec fn can_move_by<S: core::ops::Add<Output = S>>(from: Coord<S>, by: Coord<S>) -> bool {
    from.x.add_req(by.x) && from.y.add_req(by.y)
}

/// Every point of a relative command can be taken relative to `from`; an
/// absolute command needs no sum.
pub open spec fn relative_points_fit<S: core::ops::Add<Output = S>, A>(
    cmd: PathCommand<S, A>,
    from: Coord<S>,
) -> bool {
    match cmd {
        PathCommand::By(PathCommandOp::CubicCurve { to, ctrl1, ctrl2 }) => can_move_by(from, to)
            && can_move_by(from, ctrl1) && can_move_by(from, ctrl2),
        PathCommand::By(PathCommandOp::QudraticCurve { to, ctrl }) => can_move_by(from, to)
            && can_move_by(from, ctrl),
        PathCommand::By(PathCommandOp::ClosePath) => true,
        PathCommand::By(op) => can_move_by(from, op_target(op)),
        PathCommand::To(_) => true,
    }
}

impl<S: Copy + core::ops::Add<Output = S>, A> PathCommand<S, A> {
    /// The line that a line command draws from `from`.
    pub fn unwrap_line(&self, from: Coord<S>) -> (r: Line<S>)
        requires
            self.operation() is Line,
            relative_points_fit(*self, from),
        ensures
            r.from == from,
            self is To ==> r.to == op_target(self.operation()),
            S::obeys_add_spec() ==> r.to == command_target(*self, from),
    {
        match self {
            PathCommand::By(PathCommandOp::Line(by)) => Line {
                from,
                to: Coord { x: from.x + by.x, y: from.y + by.y },
            },
            PathCommand::To(PathCommandOp::Line(to)) => Line { from, to: *to },
            _ => vstd::pervasive::unreached(),
        }
    }

    /// The cubic curve that a cubic curve command draws from `from`; the
    /// end and control points of a relative command are relative to `from`.
    pub fn unwrap_cubic_curve(&self, from: Coord<S>) -> (r: CubicCurve<S>)
        requires
            self.operation() is CubicCurve,
            relative_points_fit(*self, from),
        ensures
            r.from == from,
            match *self {
                PathCommand::To(PathCommandOp::CubicCurve { to, ctrl1, ctrl2 }) => r.to == to
                    && r.ctrl1 == ctrl1 && r.ctrl2 == ctrl2,
                PathCommand::By(PathCommandOp::CubicCurve { to, ctrl1, ctrl2 }) => S::obeys_add_spec()
                    ==> r.to == moved_by(from, to) && r.ctrl1 == moved_by(from, ctrl1) && r.ctrl2
                    == moved_by(from, ctrl2),
                _ => false,
            },
    {
        match self {
            PathCommand::By(PathCommandOp::CubicCurve { to, ctrl1, ctrl2 }) => CubicCurve {
                from,
                to: Coord { x: from.x + to.x, y: from.y + to.y },
                ctrl1: Coord { x: from.x + ctrl1.x, y: from.y + ctrl1.y },
                ctrl2: Coord { x: from.x + ctrl2.x, y: from.y + ctrl2.y },
            },
            PathCommand::To(PathCommandOp::CubicCurve { to, ctrl1, ctrl2 }) => CubicCurve {
                from,
                to: *to,
                ctrl1: *ctrl1,
                ctrl2: *ctrl2,
            },
            _ => vstd::pervasive::unreached(),
        }
    }

    /// The quadratic curve that a quadratic curve command draws from
    /// `from`; the end and control point of a relative command are relative
    /// to `from`.
    pub fn unwrap_quadratic_curve(&self, from: Coord<S>) -> (r: QuadraticCurve<S>)
        requires
            self.operation() is QudraticCurve,
            relative_points_fit(*self, from),
        ensures
            r.from == from,
            match *self {
                PathCommand::To(PathCommandOp::QudraticCurve { to, ctrl }) => r.to == to && r.ctrl
                    == ctrl,
                PathCommand::By(PathCommandOp::QudraticCurve { to, ctrl }) => S::obeys_add_spec()
                    ==> r.to == moved_by(from, to) && r.ctrl == moved_by(from, ctrl),
                _ => false,
            },
    {
        match self {
            PathCommand::By(PathCommandOp::QudraticCurve { to, ctrl }) => QuadraticCurve {
                from,
                to: Coord { x: from.x + to.x, y: from.y + to.y },
                ctrl: Coord { x: from.x + ctrl.x, y: from.y + ctrl.y },
            },
            PathCommand::To(PathCommandOp::QudraticCurve { to, ctrl }) => QuadraticCurve {
                from,
                to: *to,
                ctrl: *ctrl,
            },
            _ => vstd::pervasive::unreached(),
        }
    }
}

impl<S: Copy + core::ops::Add<Output = S>, A: Copy> PathCommand<S, A> {
    /// The SVG arc that an arc command draws from `from`: it starts at
    /// `from` and ends at the command's end point, which for a relative arc
    /// is `from` moved by its vector.
    pub fn unwrap_arc(&self, from: Coord<S>) -> (r: SvgArc<S, A>)
        requires
            self.operation() is Arc,
            relative_points_fit(*self, from),
        ensures
            match *self {
                PathCommand::To(PathCommandOp::Arc { to, radii, x_rotation, large_arc, sweep }) => r
                    == (SvgArc { from, to, radii, x_rotation, large_arc, sweep }),
                PathCommand::By(PathCommandOp::Arc { to, radii, x_rotation, large_arc, sweep }) => {
                    &&& r.from == from
                    &&& r.radii == radii
                    &&& r.x_rotation == x_rotation
                    &&& r.large_arc == large_arc
                    &&& r.sweep == sweep
                    &&& S::obeys_add_spec() ==> r.to == moved_by(from, to)
                },
                _ => false,
            },
            S::obeys_add_spec() ==> r.to == command_target(*self, from),
    {
        match self {
            PathCommand::To(PathCommandOp::Arc { to, radii, x_rotation, large_arc, sweep }) => SvgArc {
                from,
                to: *to,
                radii: *radii,
                x_rotation: *x_rotation,
                large_arc: *large_arc,
                sweep: *sweep,
            },
            PathCommand::By(PathCommandOp::Arc { to, radii, x_rotation, large_arc, sweep }) => SvgArc {
                from,
                to: Coord { x: from.x + to.x, y: from.y + to.y },
                radii: *radii,
                x_rotation: *x_rotation,
                large_arc: *large_arc,
                sweep: *sweep,
            },
            _ => vstd::pervasive::unreached(),
        }
    }
}

/// Mapping a relative command treats every coordinate it holds as a
/// vector: its end point, control points and radii are related to those of
/// the result by the vector relation `vr`, never by the point relation; its
/// rotation by `ar`, and its flags are kept.
pub proof fn lemma_relative_commands_map_as_vectors<S, A, S2, A2>(
    a: PathCommand<S, A>,
    b: PathCommand<S2, A2>,
    pr: spec_fn(Coord<S>, Coord<S2>) -> bool,
    vr: spec_fn(Coord<S>, Coord<S2>) -> bool,
    ar: spec_fn(A, A2) -> bool,
)
    requires
        command_related(a, b, pr, vr, ar),
        a is By,
    ensures
        b is By,
        match (a.operation(), b.operation()) {
            (PathCommandOp::Move(p), PathCommandOp::Move(q)) => vr(p, q),
            (PathCommandOp::Line(p), PathCommandOp::Line(q)) => vr(p, q),
            (
                PathCommandOp::CubicCurve { to, ctrl1, ctrl2 },
                PathCommandOp::CubicCurve { to: t2, ctrl1: c1, ctrl2: c2 },
            ) => vr(to, t2) && vr(ctrl1, c1) && vr(ctrl2, c2),
            (
                PathCommandOp::QudraticCurve { to, ctrl },
                PathCommandOp::QudraticCurve { to: t2, ctrl: c2 },
            ) => vr(to, t2) && vr(ctrl, c2),
            (
                PathCommandOp::Arc { to, radii, x_rotation, large_arc, sweep },
                PathCommandOp::Arc { to: t2, radii: r2, x_rotation: x2, large_arc: l2, sweep: s2 },
            ) => vr(to, t2) && vr(radii, r2) && ar(x_rotation, x2) && large_arc == l2 && sweep == s2,
            (PathCommandOp::ClosePath, PathCommandOp::ClosePath) => true,
            _ => false,
        },
{
}

/// Mapping an absolute command relates its end and control points to those
/// of the result by the point relation `pr`; the radii of an arc, which are
/// lengths and not a position, by the vector relation `vr`; its rotation by
/// `ar`, and its flags are kept.
pub proof fn lemma_absolute_commands_map_points<S, A, S2, A2>(
    a: PathCommand<S, A>,
    b: PathCommand<S2, A2>,
    pr: spec_fn(Coord<S>, Coord<S2>) -> bool,
    vr: spec_fn(Coord<S>, Coord<S2>) -> bool,
    ar: spec_fn(A, A2) -> bool,
)
    requires
        command_related(a, b, pr, vr, ar),
        a is To,
    ensures
        b is To,
        match (a.operation(), b.operation()) {
            (PathCommandOp::Move(p), PathCommandOp::Move(q)) => pr(p, q),
            (PathCommandOp::Line(p), PathCommandOp::Line(q)) => pr(p, q),
            (
                PathCommandOp::CubicCurve { to, ctrl1, ctrl2 },
                PathCommandOp::CubicCurve { to: t2, ctrl1: c1, ctrl2: c2 },
            ) => pr(to, t2) && pr(ctrl1, c1) && pr(ctrl2, c2),
            (
                PathCommandOp::QudraticCurve { to, ctrl },
                PathCommandOp::QudraticCurve { to: t2, ctrl: c2 },
            ) => pr(to, t2) && pr(ctrl, c2),
            (
                PathCommandOp::Arc { to, radii, x_rotation, large_arc, sweep },
                PathCommandOp::Arc { to: t2, radii: r2, x_rotation: x2, large_arc: l2, sweep: s2 },
            ) => pr(to, t2) && vr(radii, r2) && ar(x_rotation, x2) && large_arc == l2 && sweep == s2,
            (PathCommandOp::ClosePath, PathCommandOp::ClosePath) => true,
            _ => false,
        },
{
}

/// The text of a pair of coordinates `x,y` followed by a space.
pub open spec fn pair_then_space(c: Coord<String>) -> Seq<char> {
    c.x@ + seq![','] + c.y@ + seq![' ']
}

/// The SVG text of a command: its letter (`M`, `L`, `C`, `Q`, `A` or `Z`,
/// in lower case when relative) and a space, then its operands, each
/// followed by a space: nothing for a close; the end coordinates of a move
/// or a line; the control points, then the end, of a curve; and for an arc
/// its radii, rotation, large-arc flag and sweep flag, with its end
/// coordinates last.
pub proof fn lemma_svg_command_layout(cmd: PathCommand<String, String>)
    ensures
        svg_command_text(cmd) == seq![
            match cmd.operation() {
                PathCommandOp::Move(_) => if cmd is To { 'M' } else { 'm' },
                PathCommandOp::Line(_) => if cmd is To { 'L' } else { 'l' },
                PathCommandOp::CubicCurve { .. } => if cmd is To { 'C' } else { 'c' },
                PathCommandOp::QudraticCurve { .. } => if cmd is To { 'Q' } else { 'q' },
                PathCommandOp::Arc { .. } => if cmd is To { 'A' } else { 'a' },
                PathCommandOp::ClosePath => if cmd is To { 'Z' } else { 'z' },
            },
            ' ',
        ] + match cmd.operation() {
            PathCommandOp::Move(p) => pair_then_space(p),
            PathCommandOp::Line(p) => pair_then_space(p),
            PathCommandOp::CubicCurve { to, ctrl1, ctrl2 } => pair_then_space(ctrl1)
                + pair_then_space(ctrl2) + pair_then_space(to),
            PathCommandOp::QudraticCurve { to, ctrl } => pair_then_space(ctrl) + pair_then_space(to),
            PathCommandOp::Arc { to, radii, x_rotation, large_arc, sweep } => pair_then_space(radii)
                + x_rotation@ + seq![
                ' ',
                if large_arc {
                    '1'
                } else {
                    '0'
                },
                ' ',
                if sweep {
                    '1'
                } else {
                    '0'
                },
                ' ',
            ] + pair_then_space(to),
            PathCommandOp::ClosePath => Seq::<char>::empty(),
        },
{
    let op = cmd.operation();
    match op {
        PathCommandOp::CubicCurve { to, ctrl1, ctrl2 } => {
            assert(operands_text(op) =~= pair_then_space(ctrl1) + pair_then_space(ctrl2)
                + pair_then_space(to));
        },
        PathCommandOp::QudraticCurve { to, ctrl } => {
            assert(operands_text(op) =~= pair_then_space(ctrl) + pair_then_space(to));
        },
        PathCommandOp::Arc { to, radii, x_rotation, large_arc, sweep } => {
            assert(operands_text(op) =~= pair_then_space(radii) + x_rotation@ + seq![
                ' ',
                if large_arc {
                    '1'
                } else {
                    '0'
                },
                ' ',
                if sweep {
                    '1'
                } else {
                    '0'
                },
                ' ',
            ] + pair_then_space(to));
        },
        _ => {
            assert(operands_text(op) =~= match op {
                PathCommandOp::Move(p) => pair_then_space(p),
                PathCommandOp::Line(p) => pair_then_space(p),
                _ => Seq::<char>::empty(),
            });
        },
    }
}

/// An absolute and a relative command of the same operation have the same
/// SVG text but for the case of their letter: the relative one's letter is
/// the lower case of the absolute one's.
pub proof fn lemma_svg_text_relative_is_lower_case(op: PathCommandOp<String, String>)
    ensures
        svg_command_text(PathCommand::By(op)).len() == svg_command_text(PathCommand::To(op)).len(),
        svg_command_text(PathCommand::By(op)).drop_first() == svg_command_text(
            PathCommand::To(op),
        ).drop_first(),
        svg_command_text(PathCommand::By(op))[0] as int == svg_command_text(PathCommand::To(op))[0]
            as int + 32,
{
    lemma_svg_command_layout(PathCommand::By(op));
    lemma_svg_command_layout(PathCommand::To(op));
    assert(svg_command_text(PathCommand::By(op)).drop_first() =~= svg_command_text(
        PathCommand::To(op),
    ).drop_first());
}

} // verus!
