//! Epochs: which segment numbers a drawing request covers, what each
//! segment is told when it is drawn, and where the replicas of a segment go.

use core::ops::Range;
use vstd::prelude::*;
use vstd::std_specs::ops::{AddSpec, SubSpec};

verus! {

/// One end of a range of segment numbers, as given by a caller.
#[derive(Debug, Clone, Copy, PartialEq, Eq, Structural)]
pub enum RangeBound {
    Included(usize),
    Excluded(usize),
    Unbounded,
}

/// The first number that a start bound lets in.
pub open spec fn start_of(start: RangeBound) -> int {
    match start {
        RangeBound::Included(s) => s as int,
        RangeBound::Excluded(s) => s + 1,
        RangeBound::Unbounded => 0,
    }
}

/// The first number after the range that an end bound closes.
pub open spec fn end_of(end: RangeBound) -> int {
    match end {
        RangeBound::Included(e) => e + 1,
        RangeBound::Excluded(e) => e as int,
        RangeBound::Unbounded => usize::MAX as int,
    }
}

/// The half-open range of segment numbers described by two bounds; an
/// unbounded end stops at `usize::MAX`.
pub fn bounds_to_range(start: RangeBound, end: RangeBound) -> (r: Range<usize>)
    requires
        start_of(start) <= usize::MAX,
        end_of(end) <= usize::MAX,
    ensures
        r.start == start_of(start),
        r.end == end_of(end),
{
    let s = match start {
        RangeBound::Included(s) => s,
        RangeBound::Excluded(s) => s + 1,
        RangeBound::Unbounded => 0,
    };
    let e = match end {
        RangeBound::Included(e) => e + 1,
        RangeBound::Excluded(e) => e,
        RangeBound::Unbounded => usize::MAX,
    };
    Range { start: s, end: e }
}

/// How many numbers a half-open range holds.
pub fn range_len(r: &Range<usize>) -> (n: usize)
    ensures
        n == if r.start < r.end {
            r.end - r.start
        } else {
            0
        },
{
    if r.start < r.end {
        r.end - r.start
    } else {
        0
    }
}

/// What a drawing function is told about the segment it draws.
#[derive(Debug, Clone, Copy, PartialEq)]
pub struct DrawArgs<A, C> {
    /// segment number
    ///
    /// 1-based
    pub n: usize,
    /// the starting angle of this draw
    pub start_angle: A,
    /// available anuglar space
    pub max_sweep: A,
    /// center of the epoch
    pub center: C,
}

/// The angle at which the next segment starts: from `start`, each drawn
/// segment (given as its base angle and its sweep) adds its base angle,
/// then its sweep.
pub open spec fn angle_after<A: core::ops::Add<Output = A>>(segments: Seq<(A, A)>, start: A) -> A
    decreases segments.len(),
{
    if segments.len() == 0 {
        start
    } else {
        angle_after(segments.drop_last(), start).add_spec(segments.last().0).add_spec(
            segments.last().1,
        )
    }
}

/// The angular space left: `full` less the sweep of each drawn segment.
pub open spec fn sweep_left<A: core::ops::Sub<Output = A>>(segments: Seq<(A, A)>, full: A) -> A
    decreases segments.len(),
{
    if segments.len() == 0 {
        full
    } else {
        sweep_left(segments.drop_last(), full).sub_spec(segments.last().1)
    }
}

/// The sums that start the segment after the first `k` drawn ones can be
/// computed: the base angle of the `k`-th, then its sweep, added to the
/// angle reached so far.
pub open spec fn start_step_fits<A: core::ops::Add<Output = A>>(
    segments: Seq<(A, A)>,
    zero: A,
    k: int,
) -> bool {
    let before = angle_after(segments.take(k), zero);
    before.add_req(segments[k].0) && before.add_spec(segments[k].0).add_req(segments[k].1)
}

/// The sums that `next_draw_args` computes can be computed. When `+` on `A`
/// is known to follow its spec, these are the sums along the drawn
/// segments; otherwise no sum can be known in advance, and any two angles
/// must be addable.
pub open spec fn start_angles_fit<A: core::ops::Add<Output = A>>(
    segments: Seq<(A, A)>,
    zero: A,
) -> bool {
    if A::obeys_add_spec() {
        forall|k: int| 0 <= k < segments.len() ==> #[trigger] start_step_fits(segments, zero, k)
    } else {
        forall|a: A, b: A| #[trigger] a.add_req(b)
    }
}

/// The differences that `next_draw_args` computes can be computed: each
/// sweep taken from what is left of `full` before it (any two angles when
/// `-` on `A` is not known to follow its spec).
pub open spec fn sweeps_left_fit<A: core::ops::Sub<Output = A>>(
    segments: Seq<(A, A)>,
    full: A,
) -> bool {
    if A::obeys_sub_spec() {
        forall|k: int|
            0 <= k < segments.len() ==> #[trigger] sweep_left(segments.take(k), full).sub_req(
                segments[k].1,
            )
    } else {
        forall|a: A, b: A| #[trigger] a.sub_req(b)
    }
}

/// The arguments for drawing the next segment of an epoch whose drawn
/// segments have these base angles and sweeps: its 1-based number, the
/// angle after the drawn segments (counted from `zero`), and what is left
/// of `full_turn` after their sweeps.
pub fn next_draw_args<A, C>(segments: &[(A, A)], zero: A, full_turn: A, center: C) -> (r: DrawArgs<
    A,
    C,
>) where A: Copy + core::ops::Add<Output = A> + core::ops::Sub<Output = A>
    requires
        segments@.len() < usize::MAX,
        start_angles_fit(segments@, zero),
        sweeps_left_fit(segments@, full_turn),
    ensures
        r.n == segments@.len() + 1,
        r.center == center,
        A::obeys_add_spec() ==> r.start_angle == angle_after(segments@, zero),
        A::obeys_sub_spec() ==> r.max_sweep == sweep_left(segments@, full_turn),
{
    let n = segments.len();
    let mut start_angle = zero;
    let mut max_sweep = full_turn;
    let mut i: usize = 0;
    while i < n
        invariant
            i <= n,
            n == segments@.len(),
            start_angles_fit(segments@, zero),
            sweeps_left_fit(segments@, full_turn),
            A::obeys_add_spec() ==> start_angle == angle_after(segments@.take(i as int), zero),
            A::obeys_sub_spec() ==> max_sweep == sweep_left(segments@.take(i as int), full_turn),
        decreases n - i,
    {
        let (base, sweep) = segments[i];
        proof {
            if A::obeys_add_spec() {
                assert(start_step_fits(segments@, zero, i as int));
            }
            if A::obeys_sub_spec() {
                assert(sweep_left(segments@.take(i as int), full_turn).sub_req(segments@[i as int].1));
            }
        }
        start_angle = start_angle + base + sweep;
        max_sweep = max_sweep - sweep;
        assert(segments@.take(i + 1).drop_last() =~= segments@.take(i as int));
        i = i + 1;
    }
    assert(segments@.take(n as int) =~= segments@);
    DrawArgs { n: n + 1, start_angle, max_sweep, center }
}

/// The angle reached from `start` after segments of these sweeps, in turn.
pub open spec fn swept_from<A: core::ops::Add<Output = A>>(start: A, sweeps: Seq<A>) -> A
    decreases sweeps.len(),
{
    if sweeps.len() == 0 {
        start
    } else {
        swept_from(start, sweeps.drop_last()).add_spec(sweeps.last())
    }
}

/// The sweeps of drawn segments, each kept beside its segment.
pub open spec fn sweeps_of<S, A>(drawn: Seq<(S, A)>) -> Seq<A> {
    drawn.map_values(|d: (S, A)| d.1)
}

/// What a segment drawn after the segments `before` is told, when the
/// first was told `first`: its number counts on from the first's, it
/// starts where the previous one ended, and the free sweep and the center
/// stay those of the first.
pub open spec fn told_after<S, A: core::ops::Add<Output = A>, C>(
    first: DrawArgs<A, C>,
    before: Seq<(S, A)>,
    args: DrawArgs<A, C>,
) -> bool {
    &&& args.n == first.n + before.len()
    &&& args.max_sweep == first.max_sweep
    &&& args.center == first.center
    &&& A::obeys_add_spec() ==> args.start_angle == swept_from(
        first.start_angle,
        sweeps_of(before),
    )
}

/// The `k`-th of the segments `drawn` is what `draw_fn` may return when
/// told what a segment drawn after the ones before it is told.
pub open spec fn drawn_as_told<A: core::ops::Add<Output = A>, C, S, D: FnMut(DrawArgs<A, C>) -> (
    S,
    A,
)>(draw_fn: D, first: DrawArgs<A, C>, drawn: Seq<(S, A)>, k: int) -> bool {
    exists|given: DrawArgs<A, C>|
        #![trigger call_ensures(draw_fn, (given,), drawn[k])]
        call_ensures(draw_fn, (given,), drawn[k]) && told_after(first, drawn.take(k), given)
}

/// Draws `count` segments in turn with `draw_fn`, which returns each
/// segment with the sweep it takes. The first segment is told `first`;
/// each next one is told the next number and the angle at which the
/// previous one ended. Returns the segments in the order drawn.
pub fn draw_segments<A, C, S, D>(first: DrawArgs<A, C>, count: usize, draw_fn: D) -> (drawn:
    Vec<(S, A)>) where
    A: Copy + core::ops::Add<Output = A>,
    C: Copy,
    D: FnMut(DrawArgs<A, C>) -> (S, A),

    requires
        first.n + count <= usize::MAX,
        forall|given: DrawArgs<A, C>| #[trigger] call_requires(draw_fn, (given,)),
        forall|given: DrawArgs<A, C>, out: (S, A)|
            #[trigger] call_ensures(draw_fn, (given,), out) ==> given.start_angle.add_req(out.1),
    ensures
        drawn@.len() == count,
        forall|k: int| 0 <= k < count ==> #[trigger] drawn_as_told(draw_fn, first, drawn@, k),
{
    let mut f = draw_fn;
    let mut drawn: Vec<(S, A)> = Vec::new();
    let mut args = first;
    let mut i: usize = 0;
    while i < count
        invariant
            i <= count,
            first.n + count <= usize::MAX,
            drawn@.len() == i,
            f == draw_fn,
            forall|given: DrawArgs<A, C>| #[trigger] call_requires(draw_fn, (given,)),
            forall|given: DrawArgs<A, C>, out: (S, A)|
                #[trigger] call_ensures(draw_fn, (given,), out) ==> given.start_angle.add_req(out.1),
            told_after(first, drawn@, args),
            forall|k: int| 0 <= k < i ==> #[trigger] drawn_as_told(draw_fn, first, drawn@, k),
        decreases count - i,
    {
        let told = args;
        let (segment, sweep) = f(told);
        let ghost before = drawn@;
        drawn.push((segment, sweep));
        proof {
            assert(drawn@.drop_last() =~= before);
            assert(sweeps_of(drawn@).drop_last() =~= sweeps_of(before));
            assert forall|k: int| 0 <= k < i + 1 implies #[trigger] drawn_as_told(
                draw_fn,
                first,
                drawn@,
                k,
            ) by {
                if k < i {
                    assert(drawn_as_told(draw_fn, first, before, k));
                    assert(drawn@.take(k) =~= before.take(k));
                    assert(drawn@[k] == before[k]);
                } else {
                    assert(drawn@.take(k) =~= before);
                    assert(call_ensures(draw_fn, (told,), drawn@[k]));
                }
            }
        }
        args = DrawArgs {
            n: args.n + 1,
            start_angle: args.start_angle + sweep,
            max_sweep: args.max_sweep,
            center: args.center,
        };
        i = i + 1;
    }
    drawn
}

/// Each drawn segment is told to start where the one before it ended: the
/// start angle after `k + 1` drawn segments is the start angle after `k`
/// of them, advanced by the sweep of the `k`-th.
pub proof fn lemma_next_starts_where_previous_ended<S, A: core::ops::Add<Output = A>>(
    start: A,
    drawn: Seq<(S, A)>,
    k: int,
)
    requires
        0 <= k < drawn.len(),
    ensures
        swept_from(start, sweeps_of(drawn.take(k + 1))) == swept_from(
            start,
            sweeps_of(drawn.take(k)),
        ).add_spec(drawn[k].1),
{
    assert(sweeps_of(drawn.take(k + 1)).drop_last() =~= sweeps_of(drawn.take(k)));
}

/// `start` advanced by `k` steps of `step`.
pub open spec fn stepped<A: core::ops::Add<Output = A>>(start: A, step: A, k: nat) -> A
    decreases k,
{
    if k == 0 {
        start
    } else {
        stepped(start, step, (k - 1) as nat).add_spec(step)
    }
}

/// The sums that `replica_angles` computes can be computed: each replica
/// angle plus the sweep (any angle plus the sweep, when `+` on `A` is not
/// known to follow its spec).
pub open spec fn replicas_fit<A: core::ops::Add<Output = A>>(base: A, sweep: A, steps: nat) -> bool {
    if A::obeys_add_spec() {
        forall|k: nat| k < steps ==> #[trigger] stepped(base, sweep, k).add_req(sweep)
    } else {
        forall|a: A| #[trigger] a.add_req(sweep)
    }
}

/// The base angles of `steps` replicas that follow a segment at `base`
/// whose sweep is `sweep`, each one sweep after the one before.
pub fn replica_angles<A>(base: A, sweep: A, steps: usize) -> (angles: Vec<A>) where
    A: Copy + core::ops::Add<Output = A>,

    requires
        replicas_fit(base, sweep, steps as nat),
    ensures
        angles@.len() == steps,
        A::obeys_add_spec() ==> forall|k: int|
            0 <= k < steps ==> #[trigger] angles@[k] == stepped(base, sweep, (k + 1) as nat),
{
    let mut angles: Vec<A> = Vec::new();
    let mut angle = base;
    let mut i: usize = 0;
    while i < steps
        invariant
            i <= steps,
            angles@.len() == i,
            replicas_fit(base, sweep, steps as nat),
            A::obeys_add_spec() ==> angle == stepped(base, sweep, i as nat),
            A::obeys_add_spec() ==> forall|k: int|
                0 <= k < i ==> #[trigger] angles@[k] == stepped(base, sweep, (k + 1) as nat),
        decreases steps - i,
    {
        proof {
            if A::obeys_add_spec() {
                assert(stepped(base, sweep, i as nat).add_req(sweep));
            }
        }
        angle = angle + sweep;
        angles.push(angle);
        i = i + 1;
    }
    angles
}

} // verus!

verus! {

/// How many segment numbers the range from `start` to `end` holds.
pub open spec fn range_count(start: RangeBound, end: RangeBound) -> int {
    if start_of(start) < end_of(end) {
        end_of(end) - start_of(start)
    } else {
        0
    }
}

/// What the first segment drawn for a range request is told, after the
/// segments `drawn` (base angles and sweeps): the next number, the angle
/// after the drawn segments, the free sweep as `share` splits it among the
/// `count` requested segments, and the center.
pub open spec fn first_told<A: core::ops::Add<Output = A> + core::ops::Sub<Output = A>, C, F: Fn(
    A,
    usize,
) -> A>(
    drawn: Seq<(A, A)>,
    zero: A,
    full_turn: A,
    center: C,
    share: F,
    count: usize,
    first: DrawArgs<A, C>,
) -> bool {
    &&& first.n == drawn.len() + 1
    &&& first.center == center
    &&& A::obeys_add_spec() ==> first.start_angle == angle_after(drawn, zero)
    &&& A::obeys_sub_spec() ==> share.ensures(
        (sweep_left(drawn, full_turn), count),
        first.max_sweep,
    )
}

/// Draws the segments numbered by the range from `start` to `end`, after
/// the segments `drawn` (given by their base angles and sweeps), with
/// `draw_fn`, which returns each segment with its sweep. What is left of
/// `full_turn` after the drawn sweeps is split among the requested segments
/// by `share`, given it and their count. Returns the new segments in the
/// order drawn, each with its sweep.
pub fn draw_range<A, C, S, D, F>(
    drawn: &[(A, A)],
    zero: A,
    full_turn: A,
    center: C,
    start: RangeBound,
    end: RangeBound,
    share: &F,
    draw_fn: D,
) -> (r: Vec<(S, A)>) where
    A: Copy + core::ops::Add<Output = A> + core::ops::Sub<Output = A>,
    C: Copy,
    D: FnMut(DrawArgs<A, C>) -> (S, A),
    F: Fn(A, usize) -> A,

    requires
        start_of(start) <= usize::MAX,
        end_of(end) <= usize::MAX,
        drawn@.len() + 1 + range_count(start, end) <= usize::MAX,
        start_angles_fit(drawn@, zero),
        sweeps_left_fit(drawn@, full_turn),
        forall|free: A, count: usize| #[trigger] share.requires((free, count)),
        forall|given: DrawArgs<A, C>| #[trigger] call_requires(draw_fn, (given,)),
        forall|given: DrawArgs<A, C>, out: (S, A)|
            #[trigger] call_ensures(draw_fn, (given,), out) ==> given.start_angle.add_req(out.1),
    ensures
        r@.len() == range_count(start, end),
        exists|first: DrawArgs<A, C>|
            #![trigger first_told(drawn@, zero, full_turn, center, *share, range_count(start, end) as usize, first)]
            {
                &&& first_told(
                    drawn@,
                    zero,
                    full_turn,
                    center,
                    *share,
                    range_count(start, end) as usize,
                    first,
                )
                &&& forall|k: int|
                    0 <= k < r@.len() ==> #[trigger] drawn_as_told(draw_fn, first, r@, k)
            },
{
    let range = bounds_to_range(start, end);
    let count = range_len(&range);
    let next = next_draw_args(drawn, zero, full_turn, center);
    let max_sweep = share(next.max_sweep, count);
    let first = DrawArgs { n: next.n, start_angle: next.start_angle, max_sweep, center };
    let r = draw_segments(first, count, draw_fn);
    assert(count == range_count(start, end));
    assert(share.ensures((next.max_sweep, count), max_sweep));
    assert(first_told(
        drawn@,
        zero,
        full_turn,
        center,
        *share,
        range_count(start, end) as usize,
        first,
    ));
    assert(forall|k: int| 0 <= k < r@.len() ==> #[trigger] drawn_as_told(draw_fn, first, r@, k));
    r
}

} // verus!
