//! Paths: chains of path commands drawing a continuous line or shape.

use crate::command::{
    can_move_by, command_related, command_target, op_target, svg_command_text, Coord, PathCommand,
    PathCommandOp,
};
use vstd::prelude::*;
use vstd::std_specs::ops::AddSpec;
use vstd::string::*;

verus! {

/// A width and a height.
#[derive(Debug, Clone, Copy, PartialEq)]
pub struct Size<S> {
    pub width: S,
    pub height: S,
}

/// chain of path commands drawing continuous line or shape, optionally
/// styled
#[derive(Debug, Clone, PartialEq)]
pub struct Path<S, A, T = ()> {
    /// all commands defining the path
    pub commands: Vec<PathCommand<S, A>>,
    /// individual style applied to this path
    pub style: Option<T>,
}

impl<S, A, T> Default for Path<S, A, T> {
    /// A path with no command and no style.
    fn default() -> (r: Self)
        ensures
            r.commands@.len() == 0,
            r.style is None,
    {
        Path { commands: Vec::new(), style: None }
    }
}

/// `b` is what cloning the style `a` gives: none for none, and a clone of
/// a style.
pub open spec fn style_cloned<T: Clone>(a: Option<T>, b: Option<T>) -> bool {
    match (a, b) {
        (None, None) => true,
        (Some(x), Some(y)) => cloned::<T>(x, y),
        _ => false,
    }
}

/// The commands of a closed polyline through `vertices`: a move to the
/// first vertex, a line to each further vertex, and the closing command.
pub open spec fn closed_polyline_commands<S, A>(vertices: Seq<Coord<S>>) -> Seq<PathCommand<S, A>> {
    Seq::new(vertices.len(), |i: int|
        if i == 0 {
            PathCommand::To(PathCommandOp::Move(vertices[i]))
        } else {
            PathCommand::To(PathCommandOp::Line(vertices[i]))
        }).push(PathCommand::To(PathCommandOp::ClosePath))
}

/// The corners of the rectangle of `size` whose top left corner is
/// `top_left`, clockwise from it (with the y axis pointing down).
pub open spec fn rect_corners<S: core::ops::Add<Output = S>>(top_left: Coord<S>, size: Size<S>) -> Seq<
    Coord<S>,
> {
    let right = top_left.x.add_spec(size.width);
    let bottom = top_left.y.add_spec(size.height);
    seq![
        top_left,
        Coord { x: right, y: top_left.y },
        Coord { x: right, y: bottom },
        Coord { x: top_left.x, y: bottom },
    ]
}

/// The commands of a closed shape of arcs: a move to `start`, an arc to
/// each of `ends` in turn (with the given radii and rotation, the small arc,
/// swept with positive angles), and the closing command.
pub open spec fn closed_arcs_commands<S, A>(
    start: Coord<S>,
    ends: Seq<Coord<S>>,
    radii: Coord<S>,
    x_rotation: A,
) -> Seq<PathCommand<S, A>> {
    seq![PathCommand::To(PathCommandOp::Move(start))] + Seq::new(
        ends.len(),
        |i: int|
            PathCommand::To(
                PathCommandOp::Arc { to: ends[i], radii, x_rotation, large_arc: false, sweep: true },
            ),
    ).push(PathCommand::To(PathCommandOp::ClosePath))
}

/// The SVG path data of a sequence of commands: the text of each command in
/// turn.
pub open spec fn svg_path_text(cmds: Seq<PathCommand<String, String>>) -> Seq<char>
    decreases cmds.len(),
{
    if cmds.len() == 0 {
        Seq::empty()
    } else {
        svg_path_text(cmds.drop_last()) + svg_command_text(cmds.last())
    }
}

impl<S, A, T> Path<S, A, T> {
    /// draw to a point without drawing a line
    pub fn move_to(&mut self, to: Coord<S>) -> (r: &mut Self)
        ensures
            r.commands@ == old(self).commands@.push(PathCommand::To(PathCommandOp::Move(to))),
            r.style == old(self).style,
            *final(self) == *final(r),
    {
        self.commands.push(PathCommand::To(PathCommandOp::Move(to)));
        self
    }

    /// move by a vector without drawing a line
    pub fn move_by(&mut self, by: Coord<S>) -> (r: &mut Self)
        ensures
            r.commands@ == old(self).commands@.push(PathCommand::By(PathCommandOp::Move(by))),
            r.style == old(self).style,
            *final(self) == *final(r),
    {
        self.commands.push(PathCommand::By(PathCommandOp::Move(by)));
        self
    }

    /// draw a straight line to a point
    pub fn line_to(&mut self, to: Coord<S>) -> (r: &mut Self)
        ensures
            r.commands@ == old(self).commands@.push(PathCommand::To(PathCommandOp::Line(to))),
            r.style == old(self).style,
            *final(self) == *final(r),
    {
        self.commands.push(PathCommand::To(PathCommandOp::Line(to)));
        self
    }

    /// draw a straight line by a vector
    pub fn line_by(&mut self, by: Coord<S>) -> (r: &mut Self)
        ensures
            r.commands@ == old(self).commands@.push(PathCommand::By(PathCommandOp::Line(by))),
            r.style == old(self).style,
            *final(self) == *final(r),
    {
        self.commands.push(PathCommand::By(PathCommandOp::Line(by)));
        self
    }

    /// draw a cubic curve to a point
    pub fn cubic_curve_to(&mut self, to: Coord<S>, ctrl1: Coord<S>, ctrl2: Coord<S>) -> (r:
        &mut Self)
        ensures
            r.commands@ == old(self).commands@.push(
                PathCommand::To(PathCommandOp::CubicCurve { to, ctrl1, ctrl2 }),
            ),
            r.style == old(self).style,
            *final(self) == *final(r),
    {
        self.commands.push(PathCommand::To(PathCommandOp::CubicCurve { to, ctrl1, ctrl2 }));
        self
    }

    /// draw a cubic curve by a vector, with control points relative to the start
    pub fn cubic_curve_by(&mut self, by: Coord<S>, ctrl1: Coord<S>, ctrl2: Coord<S>) -> (r:
        &mut Self)
        ensures
            r.commands@ == old(self).commands@.push(
                PathCommand::By(PathCommandOp::CubicCurve { to: by, ctrl1, ctrl2 }),
            ),
            r.style == old(self).style,
            *final(self) == *final(r),
    {
        self.commands.push(PathCommand::By(PathCommandOp::CubicCurve { to: by, ctrl1, ctrl2 }));
        self
    }

    /// draw a quadratic curve to a point
    pub fn quadratic_curve_to(&mut self, to: Coord<S>, ctrl: Coord<S>) -> (r: &mut Self)
        ensures
            r.commands@ == old(self).commands@.push(
                PathCommand::To(PathCommandOp::QudraticCurve { to, ctrl }),
            ),
            r.style == old(self).style,
            *final(self) == *final(r),
    {
        self.commands.push(PathCommand::To(PathCommandOp::QudraticCurve { to, ctrl }));
        self
    }

    /// draw a quadratic curve by a vector, with the control point relative to the start
    pub fn quadratic_curve_by(&mut self, by: Coord<S>, ctrl: Coord<S>) -> (r: &mut Self)
        ensures
            r.commands@ == old(self).commands@.push(
                PathCommand::By(PathCommandOp::QudraticCurve { to: by, ctrl }),
            ),
            r.style == old(self).style,
            *final(self) == *final(r),
    {
        self.commands.push(PathCommand::By(PathCommandOp::QudraticCurve { to: by, ctrl }));
        self
    }

    /// draw an elliptic arc to a point
    pub fn arc_to(
        &mut self,
        to: Coord<S>,
        radii: Coord<S>,
        x_rotation: A,
        large_arc: bool,
        sweep: bool,
    ) -> (r: &mut Self)
        ensures
            r.commands@ == old(self).commands@.push(
                PathCommand::To(PathCommandOp::Arc { to, radii, x_rotation, large_arc, sweep }),
            ),
            r.style == old(self).style,
            *final(self) == *final(r),
    {
        self.commands.push(
            PathCommand::To(PathCommandOp::Arc { to, radii, x_rotation, large_arc, sweep }),
        );
        self
    }

    /// draw an elliptic arc by a vector
    pub fn arc_by(
        &mut self,
        by: Coord<S>,
        radii: Coord<S>,
        x_rotation: A,
        large_arc: bool,
        sweep: bool,
    ) -> (r: &mut Self)
        ensures
            r.commands@ == old(self).commands@.push(
                PathCommand::By(PathCommandOp::Arc { to: by, radii, x_rotation, large_arc, sweep }),
            ),
            r.style == old(self).style,
            *final(self) == *final(r),
    {
        self.commands.push(
            PathCommand::By(PathCommandOp::Arc { to: by, radii, x_rotation, large_arc, sweep }),
        );
        self
    }

    /// close the path with a line back to its start
    pub fn close_path(&mut self)
        ensures
            final(self).commands@ == old(self).commands@.push(
                PathCommand::To(PathCommandOp::ClosePath),
            ),
            final(self).style == old(self).style,
    {
        self.commands.push(PathCommand::To(PathCommandOp::ClosePath));
    }
}

/// Where a path starts: the point of its first command when that is a move,
/// `origin` otherwise.
pub open spec fn path_start<S, A>(cmds: Seq<PathCommand<S, A>>, origin: Coord<S>) -> Coord<S> {
    if cmds.len() > 0 && cmds[0].operation() is Move {
        op_target(cmds[0].operation())
    } else {
        origin
    }
}

impl<S: Copy, A, T> Path<S, A, T> {
    /// A closed polyline through `vertices`: a move to the first vertex, a
    /// line to each further vertex, and the closing command.
    ///
    /// This is how rectangles and regular polygons are drawn.
    pub fn closed_polyline(vertices: &[Coord<S>]) -> (r: Self)
        ensures
            r.commands@ == closed_polyline_commands::<S, A>(vertices@),
            r.style is None,
    {
        let mut path = Self::default();
        let n = vertices.len();
        let mut i: usize = 0;
        while i < n
            invariant
                i <= n,
                n == vertices@.len(),
                path.style is None,
                path.commands@ == Seq::new(
                    i as nat,
                    |k: int|
                        if k == 0 {
                            PathCommand::<S, A>::To(PathCommandOp::Move(vertices@[k]))
                        } else {
                            PathCommand::<S, A>::To(PathCommandOp::Line(vertices@[k]))
                        },
                ),
            decreases n - i,
        {
            let ghost before = path.commands@;
            if i == 0 {
                path.move_to(vertices[i]);
            } else {
                path.line_to(vertices[i]);
            }
            i = i + 1;
            assert(path.commands@ =~= Seq::new(
                i as nat,
                |k: int|
                    if k == 0 {
                        PathCommand::<S, A>::To(PathCommandOp::Move(vertices@[k]))
                    } else {
                        PathCommand::<S, A>::To(PathCommandOp::Line(vertices@[k]))
                    },
            ));
        }
        path.close_path();
        assert(path.commands@ =~= closed_polyline_commands::<S, A>(vertices@));
        path
    }

    /// The starting point of the path: the point of its first command when
    /// that is a move (absolute or relative), `origin` otherwise.
    pub fn start_point(&self, origin: Coord<S>) -> (r: Coord<S>)
        ensures
            r == path_start(self.commands@, origin),
    {
        if self.commands.len() == 0 {
            return origin;
        }
        match &self.commands[0] {
            PathCommand::To(PathCommandOp::Move(pt)) => *pt,
            PathCommand::By(PathCommandOp::Move(by)) => *by,
            _ => origin,
        }
    }
}

impl<S: Copy + core::ops::Add<Output = S>, A: Copy, T> Path<S, A, T> {
    /// draw a closed rectangle shape
    pub fn rect(top_left: Coord<S>, size: Size<S>) -> (r: Self)
        requires
            top_left.x.add_req(size.width),
            top_left.y.add_req(size.height),
        ensures
            r.commands@.len() == 5,
            r.style is None,
            S::obeys_add_spec() ==> r.commands@ == closed_polyline_commands::<S, A>(
                rect_corners(top_left, size),
            ),
    {
        let right = top_left.x + size.width;
        let bottom = top_left.y + size.height;
        let corners = [
            top_left,
            Coord { x: right, y: top_left.y },
            Coord { x: right, y: bottom },
            Coord { x: top_left.x, y: bottom },
        ];
        proof {
            if S::obeys_add_spec() {
                assert(corners@ =~= rect_corners(top_left, size));
            }
        }
        Self::closed_polyline(&corners)
    }
}

impl<S: Copy, A: Copy, T> Path<S, A, T> {
    /// A closed shape of arcs from `start` through each of `ends`.
    ///
    /// This is how ellipses are drawn, with four quarter arcs.
    pub fn closed_arcs(start: Coord<S>, ends: &[Coord<S>], radii: Coord<S>, x_rotation: A) -> (r:
        Self)
        ensures
            r.commands@ == closed_arcs_commands(start, ends@, radii, x_rotation),
            r.style is None,
    {
        let mut path = Self::default();
        path.move_to(start);
        let n = ends.len();
        let mut i: usize = 0;
        while i < n
            invariant
                i <= n,
                n == ends@.len(),
                path.style is None,
                path.commands@ == seq![PathCommand::<S, A>::To(PathCommandOp::Move(start))]
                    + Seq::new(
                    i as nat,
                    |k: int|
                        PathCommand::<S, A>::To(
                            PathCommandOp::Arc {
                                to: ends@[k],
                                radii,
                                x_rotation,
                                large_arc: false,
                                sweep: true,
                            },
                        ),
                ),
            decreases n - i,
        {
            path.arc_to(ends[i], radii, x_rotation, false, true);
            i = i + 1;
            assert(path.commands@ =~= seq![PathCommand::<S, A>::To(PathCommandOp::Move(start))]
                + Seq::new(
                i as nat,
                |k: int|
                    PathCommand::<S, A>::To(
                        PathCommandOp::Arc {
                            to: ends@[k],
                            radii,
                            x_rotation,
                            large_arc: false,
                            sweep: true,
                        },
                    ),
            ));
        }
        path.close_path();
        assert(path.commands@ =~= closed_arcs_commands(start, ends@, radii, x_rotation));
        path
    }
}

impl<S: Copy, A: Copy, T: Clone> Path<S, A, T> {
    /// The path drawn from `from`: an absolute move to `from`, then its own
    /// commands. Such a path starts at `from`.
    pub fn starting_at(&self, from: Coord<S>) -> (r: Self)
        ensures
            r.commands@ == seq![PathCommand::<S, A>::To(PathCommandOp::Move(from))]
                + self.commands@,
            style_cloned(self.style, r.style),
            forall|origin: Coord<S>| path_start(r.commands@, origin) == from,
    {
        let mut commands: Vec<PathCommand<S, A>> = Vec::new();
        commands.push(PathCommand::To(PathCommandOp::Move(from)));
        let n = self.commands.len();
        let mut i: usize = 0;
        while i < n
            invariant
                i <= n,
                n == self.commands@.len(),
                commands@ == seq![PathCommand::<S, A>::To(PathCommandOp::Move(from))]
                    + self.commands@.take(i as int),
            decreases n - i,
        {
            commands.push(self.commands[i]);
            assert(self.commands@.take(i + 1) =~= self.commands@.take(i as int).push(
                self.commands@[i as int],
            ));
            i = i + 1;
        }
        assert(self.commands@.take(n as int) =~= self.commands@);
        Path { commands, style: self.style.clone() }
    }
}

impl<S, A, T: Clone> Path<S, A, T> {
    /// The path with every command mapped as by `PathCommand::map_with`.
    pub fn map_with<S2, A2, FP, FV, FA>(&self, point_fn: &FP, vector_fn: &FV, angle_fn: &FA) -> (r:
        Path<S2, A2, T>) where
        FP: Fn(&Coord<S>) -> Coord<S2>,
        FV: Fn(&Coord<S>) -> Coord<S2>,
        FA: Fn(&A) -> A2,

        requires
            forall|c: &Coord<S>| #[trigger] point_fn.requires((c,)),
            forall|c: &Coord<S>| #[trigger] vector_fn.requires((c,)),
            forall|a: &A| #[trigger] angle_fn.requires((a,)),
        ensures
            r.commands@.len() == self.commands@.len(),
            style_cloned(self.style, r.style),
            forall|i: int|
                0 <= i < self.commands@.len() ==> command_related(
                    #[trigger] self.commands@[i],
                    r.commands@[i],
                    |p: Coord<S>, q: Coord<S2>| point_fn.ensures((&p,), q),
                    |p: Coord<S>, q: Coord<S2>| vector_fn.ensures((&p,), q),
                    |a: A, b: A2| angle_fn.ensures((&a,), b),
                ),
    {
        let mut commands: Vec<PathCommand<S2, A2>> = Vec::new();
        let n = self.commands.len();
        let mut i: usize = 0;
        while i < n
            invariant
                i <= n,
                n == self.commands@.len(),
                commands@.len() == i,
                forall|c: &Coord<S>| #[trigger] point_fn.requires((c,)),
                forall|c: &Coord<S>| #[trigger] vector_fn.requires((c,)),
                forall|a: &A| #[trigger] angle_fn.requires((a,)),
                forall|k: int|
                    0 <= k < i ==> command_related(
                        #[trigger] self.commands@[k],
                        commands@[k],
                        |p: Coord<S>, q: Coord<S2>| point_fn.ensures((&p,), q),
                        |p: Coord<S>, q: Coord<S2>| vector_fn.ensures((&p,), q),
                        |a: A, b: A2| angle_fn.ensures((&a,), b),
                    ),
            decreases n - i,
        {
            let c = self.commands[i].map_with(point_fn, vector_fn, angle_fn);
            commands.push(c);
            i = i + 1;
        }
        Path { commands, style: self.style.clone() }
    }
}

impl<S, A: Copy, T: Clone> Path<S, A, T> {
    /// apply transformation to all commands: absolute points by `point_fn`,
    /// vectors (relative coordinates and radii) by `vector_fn`
    pub fn transformed<FP, FV>(&self, point_fn: &FP, vector_fn: &FV) -> (r: Self) where
        FP: Fn(&Coord<S>) -> Coord<S>,
        FV: Fn(&Coord<S>) -> Coord<S>,

        requires
            forall|c: &Coord<S>| #[trigger] point_fn.requires((c,)),
            forall|c: &Coord<S>| #[trigger] vector_fn.requires((c,)),
        ensures
            r.commands@.len() == self.commands@.len(),
            style_cloned(self.style, r.style),
            forall|i: int|
                0 <= i < self.commands@.len() ==> command_related(
                    #[trigger] self.commands@[i],
                    r.commands@[i],
                    |p: Coord<S>, q: Coord<S>| point_fn.ensures((&p,), q),
                    |p: Coord<S>, q: Coord<S>| vector_fn.ensures((&p,), q),
                    |a: A, b: A| a == b,
                ),
    {
        let mut commands: Vec<PathCommand<S, A>> = Vec::new();
        let n = self.commands.len();
        let mut i: usize = 0;
        while i < n
            invariant
                i <= n,
                n == self.commands@.len(),
                commands@.len() == i,
                forall|c: &Coord<S>| #[trigger] point_fn.requires((c,)),
                forall|c: &Coord<S>| #[trigger] vector_fn.requires((c,)),
                forall|k: int|
                    0 <= k < i ==> command_related(
                        #[trigger] self.commands@[k],
                        commands@[k],
                        |p: Coord<S>, q: Coord<S>| point_fn.ensures((&p,), q),
                        |p: Coord<S>, q: Coord<S>| vector_fn.ensures((&p,), q),
                        |a: A, b: A| a == b,
                    ),
            decreases n - i,
        {
            let c = self.commands[i].transformed(point_fn, vector_fn);
            commands.push(c);
            i = i + 1;
        }
        Path { commands, style: self.style.clone() }
    }
}

impl<T> Path<String, String, T> {
    /// render all path commands as 2D SVG path `d` attribute value
    pub fn to_svg_path_d(&self) -> (r: String)
        ensures
            r@ == svg_path_text(self.commands@),
    {
        let mut s = String::new();
        let n = self.commands.len();
        let mut i: usize = 0;
        while i < n
            invariant
                i <= n,
                n == self.commands@.len(),
                s@ == svg_path_text(self.commands@.take(i as int)),
            decreases n - i,
        {
            let t = self.commands[i].to_svg_path_d();
            s.append(t.as_str());
            assert(self.commands@.take(i + 1).drop_last() =~= self.commands@.take(i as int));
            i = i + 1;
        }
        assert(self.commands@.take(n as int) =~= self.commands@);
        s
    }
}

/// The index of the first closing command at or after `j`, or the number of
/// commands when there is none.
pub open spec fn first_close_from<S, A>(cmds: Seq<PathCommand<S, A>>, j: int) -> int
    decreases cmds.len() - j,
{
    if j >= cmds.len() {
        cmds.len() as int
    } else if cmds[j].operation() is ClosePath {
        j
    } else {
        first_close_from(cmds, j + 1)
    }
}

/// How many commands are measured: those before the first closing command
/// that follows the first command, or all of them.
pub open spec fn measured_count<S, A>(cmds: Seq<PathCommand<S, A>>) -> int {
    first_close_from(cmds, 1)
}

/// How many lengths a path has: one per measured command, and one more for
/// the closing line when a closing command stops the measuring.
pub open spec fn lengths_count<S, A>(cmds: Seq<PathCommand<S, A>>) -> int {
    if measured_count(cmds) < cmds.len() {
        measured_count(cmds) + 1
    } else {
        cmds.len() as int
    }
}

/// The absolute point reached after drawing the first `i` commands from
/// `start`.
pub open spec fn position_after<S: core::ops::Add<Output = S>, A>(
    cmds: Seq<PathCommand<S, A>>,
    start: Coord<S>,
    i: nat,
) -> Coord<S>
    decreases i,
{
    if i == 0 {
        start
    } else {
        command_target(cmds[i - 1], position_after(cmds, start, (i - 1) as nat))
    }
}

/// The sum that takes command `k` of `cmds` from the point reached after the
/// commands before it (drawn from `start`) can be computed.
pub open spec fn position_step_fits<S: core::ops::Add<Output = S>, A>(
    cmds: Seq<PathCommand<S, A>>,
    start: Coord<S>,
    k: int,
) -> bool {
    cmds[k] is By ==> can_move_by(position_after(cmds, start, k as nat), op_target(cmds[k].operation()))
}

/// The sums that `lengths` computes, to find where each measured command
/// starts, can be computed (any two coordinates, when `+` on `S` is not
/// known to follow its spec).
pub open spec fn positions_fit<S: core::ops::Add<Output = S>, A>(
    cmds: Seq<PathCommand<S, A>>,
    start: Coord<S>,
) -> bool {
    if S::obeys_add_spec() {
        forall|k: int| 0 <= k < measured_count(cmds) ==> #[trigger] position_step_fits(cmds, start, k)
    } else {
        forall|a: S, b: S| #[trigger] a.add_req(b)
    }
}

proof fn lemma_first_close_from<S, A>(cmds: Seq<PathCommand<S, A>>, j: int)
    requires
        0 <= j,
    ensures
        j <= first_close_from(cmds, j) <= cmds.len() || (j > cmds.len() && first_close_from(cmds, j)
            == cmds.len()),
        forall|k: int|
            j <= k < first_close_from(cmds, j) ==> !(#[trigger] cmds[k].operation() is ClosePath),
        first_close_from(cmds, j) < cmds.len() ==> cmds[first_close_from(cmds, j)].operation() is ClosePath,
    decreases cmds.len() - j,
{
    if j < cmds.len() && !(cmds[j].operation() is ClosePath) {
        lemma_first_close_from(cmds, j + 1);
    }
}

impl<S: Copy + core::ops::Add<Output = S>, A, T> Path<S, A, T> {
    /// The lengths of the path's pieces, measured from where the path starts
    /// (see `start_point`, with `origin` when it does not start with a move):
    /// `len_fn` measures each command from the point reached before it, up to
    /// the first closing command after the first command; when such a
    /// closing command exists, `dist_fn` measures the closing line from the
    /// point reached back to the start, and nothing after it is measured.
    pub fn lengths<L, FL, FD>(&self, origin: Coord<S>, len_fn: &FL, dist_fn: &FD) -> (r: Vec<L>) where
        FL: Fn(&PathCommand<S, A>, &Coord<S>) -> L,
        FD: Fn(&Coord<S>, &Coord<S>) -> L,

        requires
            self.commands@.len() > 0 ==> !(self.commands@[0].operation() is ClosePath),
            positions_fit(self.commands@, path_start(self.commands@, origin)),
            forall|c: &PathCommand<S, A>, p: &Coord<S>| #[trigger] len_fn.requires((c, p)),
            forall|p: &Coord<S>, q: &Coord<S>| #[trigger] dist_fn.requires((p, q)),
        ensures
            r@.len() == lengths_count(self.commands@),
            S::obeys_add_spec() ==> forall|i: int|
                0 <= i < measured_count(self.commands@) ==> len_fn.ensures(
                    (
                        &self.commands@[i],
                        &position_after(
                            self.commands@,
                            path_start(self.commands@, origin),
                            i as nat,
                        ),
                    ),
                    #[trigger] r@[i],
                ),
            S::obeys_add_spec() && measured_count(self.commands@) < self.commands@.len()
                ==> dist_fn.ensures(
                (
                    &position_after(
                        self.commands@,
                        path_start(self.commands@, origin),
                        measured_count(self.commands@) as nat,
                    ),
                    &path_start(self.commands@, origin),
                ),
                r@[measured_count(self.commands@)],
            ),
    {
        let ghost cmds = self.commands@;
        proof {
            lemma_first_close_from(cmds, 1);
        }
        let start = self.start_point(origin);
        let mut from = start;
        let mut len: Vec<L> = Vec::new();
        let n = self.commands.len();
        let mut i: usize = 0;
        while i < n
            invariant_except_break
                i < n ==> i < measured_count(cmds),
                len@.len() == i,
                S::obeys_add_spec() ==> from == position_after(cmds, start, i as nat),
            invariant
                n == cmds.len(),
                cmds == self.commands@,
                start == path_start(cmds, origin),
                i <= measured_count(cmds),
                measured_count(cmds) <= n,
                i <= len@.len(),
                forall|k: int|
                    1 <= k < measured_count(cmds) ==> !(#[trigger] cmds[k].operation() is ClosePath),
                measured_count(cmds) < n ==> cmds[measured_count(cmds)].operation() is ClosePath,
                n > 0 ==> !(cmds[0].operation() is ClosePath),
                positions_fit(cmds, start),
                forall|c: &PathCommand<S, A>, p: &Coord<S>| #[trigger] len_fn.requires((c, p)),
                forall|p: &Coord<S>, q: &Coord<S>| #[trigger] dist_fn.requires((p, q)),
                S::obeys_add_spec() ==> forall|k: int|
                    0 <= k < i ==> len_fn.ensures(
                        (&cmds[k], &position_after(cmds, start, k as nat)),
                        #[trigger] len@[k],
                    ),
            ensures
                len@.len() == lengths_count(cmds),
                S::obeys_add_spec() ==> forall|k: int|
                    0 <= k < measured_count(cmds) ==> len_fn.ensures(
                        (&cmds[k], &position_after(cmds, start, k as nat)),
                        #[trigger] len@[k],
                    ),
                S::obeys_add_spec() && measured_count(cmds) < cmds.len() ==> dist_fn.ensures(
                    (&position_after(cmds, start, measured_count(cmds) as nat), &start),
                    len@[measured_count(cmds)],
                ),
            decreases n - i,
        {
            let cm = &self.commands[i];
            let l = len_fn(cm, &from);
            len.push(l);
            proof {
                if S::obeys_add_spec() {
                    assert(position_step_fits(cmds, start, i as int));
                }
            }
            from = cm.to(from);
            if i + 1 < n && self.commands[i + 1].is_close() {
                let d = dist_fn(&from, &start);
                len.push(d);
                assert(measured_count(cmds) == i + 1);
                break;
            }
            i = i + 1;
        }
        len
    }
}

/// The SVG path data of commands drawn one after the other is the data of
/// the first ones followed by the data of the others.
pub proof fn lemma_svg_path_text_concat(
    a: Seq<PathCommand<String, String>>,
    b: Seq<PathCommand<String, String>>,
)
    ensures
        svg_path_text(a + b) == svg_path_text(a) + svg_path_text(b),
    decreases b.len(),
{
    if b.len() == 0 {
        assert(a + b =~= a);
    } else {
        lemma_svg_path_text_concat(a, b.drop_last());
        assert((a + b).drop_last() =~= a + b.drop_last());
        assert((a + b).last() == b.last());
    }
}

/// A closed polyline through at least one vertex starts at its first vertex,
/// measures one piece per vertex and one closing piece.
pub proof fn lemma_closed_polyline_shape<S, A>(vertices: Seq<Coord<S>>, origin: Coord<S>)
    requires
        vertices.len() > 0,
    ensures
        path_start(closed_polyline_commands::<S, A>(vertices), origin) == vertices[0],
        measured_count(closed_polyline_commands::<S, A>(vertices)) == vertices.len(),
        lengths_count(closed_polyline_commands::<S, A>(vertices)) == vertices.len() + 1,
{
    let cmds = closed_polyline_commands::<S, A>(vertices);
    lemma_first_close_from(cmds, 1);
    assert(cmds[vertices.len() as int].operation() is ClosePath);
    let m = measured_count(cmds);
    if m < vertices.len() {
        assert(!(cmds[m].operation() is ClosePath));
    }
}

} // verus!
