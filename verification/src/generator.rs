//! Fill pattern generation: the values applied at each fill step, and the
//! modes that lay out and mirror the generated drawings.

use rand::rngs::StdRng;
use rand::seq::SliceRandom;
use vstd::prelude::*;
use vstd::std_specs::ops::AddSpec;

verus! {

/// The random number generator that drives random fill values.
#[verifier::external_type_specification]
#[verifier::external_body]
pub struct ExStdRng(StdRng);

/// A value that varies (or not) with the index of the fill step.
#[derive(Debug, Clone)]
pub enum FillValue<T> {
    /// apply same value to every fill step
    Static(T),
    /// increment the initial value by T*n
    Incremental { init: T, increment: T },
    /// apply varying values, start over if the number of values needed is greater than vec length
    Varying(Vec<T>),
    /// apply random value
    Rand(Vec<T>),
}

/// `init` with `increment` added `n` times, left to right.
pub open spec fn incremented<T: core::ops::Add<Output = T>>(init: T, increment: T, n: nat) -> T
    decreases n,
{
    if n == 0 {
        init
    } else {
        incremented(init, increment, (n - 1) as nat).add_spec(increment)
    }
}

/// Picks one element of `options` with `rng`.
///
/// Calls `SliceRandom::choose` of `rand`, which gives `None` exactly for an
/// empty slice and otherwise one of its elements. Which element comes back
/// depends on the state of `rng` and is not stated.
#[verifier::external_body]
fn choose_one<T: Copy>(options: &[T], rng: &mut StdRng) -> (r: Option<T>)
    ensures
        r is None <==> options@.len() == 0,
        r matches Some(v) ==> options@.contains(v),
{
    options.choose(rng).copied()
}

impl<T: Copy + core::ops::Add<Output = T>> FillValue<T> {
    /// The inputs on which `value_at` gives the value of step `i`: the lists
    /// of varying and random values are not empty, and the increment can be
    /// added along the first `i` steps (to any value, when `+` on `T` is not
    /// known to follow its spec).
    pub open spec fn can_fill(&self, i: nat) -> bool {
        match self {
            FillValue::Static(_) => true,
            FillValue::Incremental { init, increment } => if T::obeys_add_spec() {
                forall|k: nat| k < i ==> #[trigger] incremented(*init, *increment, k).add_req(*increment)
            } else {
                forall|a: T| #[trigger] a.add_req(*increment)
            },
            FillValue::Varying(opts) => opts@.len() > 0,
            FillValue::Rand(opts) => opts@.len() > 0,
        }
    }

    /// The value of the `i`-th fill step.
    pub fn value_at(&self, i: usize, rng: &mut StdRng) -> (r: T)
        requires
            self.can_fill(i as nat),
        ensures
            match self {
                FillValue::Static(v) => r == *v,
                FillValue::Incremental { init, increment } => T::obeys_add_spec() ==> r
                    == incremented(*init, *increment, i as nat),
                FillValue::Varying(opts) => r == opts@[i as int % opts@.len() as int],
                FillValue::Rand(opts) => opts@.contains(r),
            },
    {
        match self {
            FillValue::Static(v) => *v,
            FillValue::Incremental { init, increment } => {
                let mut val = *init;
                let mut k: usize = 0;
                while k < i
                    invariant
                        k <= i,
                        T::obeys_add_spec() ==> forall|j: nat|
                            j < i ==> #[trigger] incremented(*init, *increment, j).add_req(*increment),
                        !T::obeys_add_spec() ==> forall|a: T| #[trigger] a.add_req(*increment),
                        T::obeys_add_spec() ==> val == incremented(*init, *increment, k as nat),
                    decreases i - k,
                {
                    proof {
                        if T::obeys_add_spec() {
                            assert(incremented(*init, *increment, k as nat).add_req(*increment));
                        }
                    }
                    val = val + *increment;
                    k = k + 1;
                }
                val
            },
            FillValue::Varying(opts) => opts[i % opts.len()],
            FillValue::Rand(opts) => {
                let picked = choose_one(opts.as_slice(), rng);
                match picked {
                    Some(v) => v,
                    None => opts[0],
                }
            },
        }
    }
}

/// Fill modes, with step sizes and axes of type `S`.
#[derive(Debug)]
pub enum GeneratorMode<S> {
    /// Render one block
    Block,
    /// repeat every N units along X axis
    XStep(S),
    /// repeat every N units along Y axis
    YStep(S),
    /// repeat every N units along XY axes (diagonal)
    XYStep { x: S, y: S },
    /// fill the grid
    GridStep { row_height: S, column_width: S },
    /// symmetrical along X axis
    XSymmetry { mode: Box<GeneratorMode<S>>, axis: S },
    /// symmetrical along Y axis
    YSymmetry { mode: Box<GeneratorMode<S>>, axis: S },
}

/// `mid` holds, in order, each input drawing mirrored at `axis` (as `flip`
/// relates them), then the input drawings themselves.
pub open spec fn mirrored_then_kept<P, S>(
    input: Seq<P>,
    mid: Seq<P>,
    axis: S,
    flip: spec_fn(P, S, P) -> bool,
) -> bool {
    &&& mid.len() == 2 * input.len()
    &&& mid.skip(input.len() as int) == input
    &&& forall|i: int| 0 <= i < input.len() ==> flip(input[i], axis, #[trigger] mid[i])
}

/// What the post-generation step of `mode` makes of `input`: for each
/// symmetry, from the outside in, the drawings mirrored at its axis are put
/// before the drawings; other modes keep the drawings as they are.
pub open spec fn post_generated<P, S>(
    mode: GeneratorMode<S>,
    input: Seq<P>,
    output: Seq<P>,
    flip_x: spec_fn(P, S, P) -> bool,
    flip_y: spec_fn(P, S, P) -> bool,
) -> bool
    decreases mode,
{
    match mode {
        GeneratorMode::XSymmetry { mode: inner, axis } => {
            let mid = output.skip(output.len() - 2 * input.len());
            &&& output.len() >= 2 * input.len()
            &&& mirrored_then_kept(input, mid, axis, flip_x)
            &&& post_generated(*inner, mid, output, flip_x, flip_y)
        },
        GeneratorMode::YSymmetry { mode: inner, axis } => {
            let mid = output.skip(output.len() - 2 * input.len());
            &&& output.len() >= 2 * input.len()
            &&& mirrored_then_kept(input, mid, axis, flip_y)
            &&& post_generated(*inner, mid, output, flip_x, flip_y)
        },
        _ => output == input,
    }
}

/// The drawings that the post-generation step starts from end its output.
pub proof fn lemma_post_generated_keeps_input<P, S>(
    mode: GeneratorMode<S>,
    input: Seq<P>,
    output: Seq<P>,
    flip_x: spec_fn(P, S, P) -> bool,
    flip_y: spec_fn(P, S, P) -> bool,
)
    requires
        post_generated(mode, input, output, flip_x, flip_y),
    ensures
        output.len() >= input.len(),
        output.skip(output.len() - input.len()) == input,
    decreases mode,
{
    match mode {
        GeneratorMode::XSymmetry { mode: inner, axis } => {
            let mid = output.skip(output.len() - 2 * input.len());
            lemma_post_generated_keeps_input(*inner, mid, output, flip_x, flip_y);
            assert(output.skip(output.len() - input.len()) =~= mid.skip(input.len() as int));
        },
        GeneratorMode::YSymmetry { mode: inner, axis } => {
            let mid = output.skip(output.len() - 2 * input.len());
            lemma_post_generated_keeps_input(*inner, mid, output, flip_x, flip_y);
            assert(output.skip(output.len() - input.len()) =~= mid.skip(input.len() as int));
        },
        _ => {
            assert(output.skip(0) =~= output);
        },
    }
}

/// Each drawing mirrored at `axis` by `flip`, followed by the drawings.
fn mirrored<P, S, F>(generated: Vec<P>, axis: &S, flip: &F) -> (r: Vec<P>) where
    F: Fn(&P, &S) -> P,

    requires
        forall|p: &P, s: &S| #[trigger] flip.requires((p, s)),
    ensures
        mirrored_then_kept(generated@, r@, *axis, |p: P, s: S, q: P| flip.ensures((&p, &s), q)),
{
    let mut out: Vec<P> = Vec::new();
    let n = generated.len();
    let mut i: usize = 0;
    while i < n
        invariant
            i <= n,
            n == generated@.len(),
            out@.len() == i,
            forall|p: &P, s: &S| #[trigger] flip.requires((p, s)),
            forall|k: int| 0 <= k < i ==> flip.ensures((&generated@[k], axis), #[trigger] out@[k]),
        decreases n - i,
    {
        let m = flip(&generated[i], axis);
        out.push(m);
        i = i + 1;
    }
    let ghost flipped = out@;
    let mut kept = generated;
    out.append(&mut kept);
    assert(out@.skip(n as int) =~= generated@);
    assert forall|k: int| 0 <= k < n implies flip.ensures((&generated@[k], axis), #[trigger] out@[k]) by {
        assert(out@[k] == flipped[k]);
    }
    out
}

impl<S> GeneratorMode<S> {
    /// After generation, mirror the drawings for each symmetry of the mode:
    /// `flip_x` mirrors a drawing at an axis of an X symmetry, `flip_y` at an
    /// axis of a Y symmetry.
    pub fn handle_post_gen<P, FX, FY>(&self, generated: Vec<P>, flip_x: &FX, flip_y: &FY) -> (r:
        Vec<P>) where
        FX: Fn(&P, &S) -> P,
        FY: Fn(&P, &S) -> P,

        requires
            forall|p: &P, s: &S| #[trigger] flip_x.requires((p, s)),
            forall|p: &P, s: &S| #[trigger] flip_y.requires((p, s)),
        ensures
            post_generated(
                *self,
                generated@,
                r@,
                |p: P, s: S, q: P| flip_x.ensures((&p, &s), q),
                |p: P, s: S, q: P| flip_y.ensures((&p, &s), q),
            ),
        decreases self,
    {
        match self {
            GeneratorMode::XSymmetry { axis, mode } => {
                let mid = mirrored(generated, axis, flip_x);
                let out = mode.handle_post_gen(mid, flip_x, flip_y);
                proof {
                    lemma_post_generated_keeps_input(
                        **mode,
                        mid@,
                        out@,
                        |p: P, s: S, q: P| flip_x.ensures((&p, &s), q),
                        |p: P, s: S, q: P| flip_y.ensures((&p, &s), q),
                    );
                }
                out
            },
            GeneratorMode::YSymmetry { axis, mode } => {
                let mid = mirrored(generated, axis, flip_y);
                let out = mode.handle_post_gen(mid, flip_x, flip_y);
                proof {
                    lemma_post_generated_keeps_input(
                        **mode,
                        mid@,
                        out@,
                        |p: P, s: S, q: P| flip_x.ensures((&p, &s), q),
                        |p: P, s: S, q: P| flip_y.ensures((&p, &s), q),
                    );
                }
                out
            },
            _ => generated,
        }
    }
}

/// How many copies of each generated drawing the post-generation step of a
/// mode makes: two per symmetry.
pub open spec fn copies<S>(mode: GeneratorMode<S>) -> nat
    decreases mode,
{
    match mode {
        GeneratorMode::XSymmetry { mode: inner, .. } => 2 * copies(*inner),
        GeneratorMode::YSymmetry { mode: inner, .. } => 2 * copies(*inner),
        _ => 1,
    }
}

/// Each symmetry of a mode doubles the number of drawings.
pub proof fn lemma_post_generated_len<P, S>(
    mode: GeneratorMode<S>,
    input: Seq<P>,
    output: Seq<P>,
    flip_x: spec_fn(P, S, P) -> bool,
    flip_y: spec_fn(P, S, P) -> bool,
)
    requires
        post_generated(mode, input, output, flip_x, flip_y),
    ensures
        output.len() as int == input.len() as int * copies(mode) as int,
    decreases mode,
{
    match mode {
        GeneratorMode::XSymmetry { mode: inner, axis } => {
            let mid = output.skip(output.len() - 2 * input.len());
            lemma_post_generated_len(*inner, mid, output, flip_x, flip_y);
            let n = input.len() as int;
            let c = copies(*inner) as int;
            let m = mid.len() as int;
            let o = output.len() as int;
            let k = copies(mode) as int;
            assert(o == n * k) by (nonlinear_arith)
                requires
                    m == 2 * n,
                    o == m * c,
                    k == 2 * c,
            ;
        },
        GeneratorMode::YSymmetry { mode: inner, axis } => {
            let mid = output.skip(output.len() - 2 * input.len());
            lemma_post_generated_len(*inner, mid, output, flip_x, flip_y);
            let n = input.len() as int;
            let c = copies(*inner) as int;
            let m = mid.len() as int;
            let o = output.len() as int;
            let k = copies(mode) as int;
            assert(o == n * k) by (nonlinear_arith)
                requires
                    m == 2 * n,
                    o == m * c,
                    k == 2 * c,
            ;
        },
        _ => {
            assert(copies(mode) == 1);
            assert(output.len() as int == input.len() as int * 1);
        },
    }
}

/// Varying fill values repeat with the period of their list: step
/// `i + len` gets the value of step `i`.
pub proof fn lemma_varying_is_periodic<T>(opts: Seq<T>, i: nat)
    requires
        opts.len() > 0,
    ensures
        opts[(i + opts.len()) as int % opts.len() as int] == opts[i as int % opts.len() as int],
{
    let n = opts.len() as int;
    assert((i + n) % n == i as int % n) by (nonlinear_arith)
        requires
            n > 0,
            i >= 0,
    {
        vstd::arithmetic::div_mod::lemma_mod_add_multiples_vanish(i as int, n);
    }
}

/// Each incremental fill step adds the increment once more.
pub proof fn lemma_incremented_step<T: core::ops::Add<Output = T>>(init: T, increment: T, n: nat)
    ensures
        incremented(init, increment, n + 1) == incremented(init, increment, n).add_spec(increment),
        incremented(init, increment, 0) == init,
{
}

} // verus!
