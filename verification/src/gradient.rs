//! The order of work for one value or gradient of an objective set.
//!
//! Forward kinematics is the costly part of an evaluation. A schedule asks
//! for it once at the configuration itself and, where any term is
//! differentiated numerically, once for each perturbed coordinate; all
//! such terms then share the frames of a perturbation. The arithmetic that
//! a step stands for is done by the numeric layer.

use crate::objective::GradientMode;
use vstd::prelude::*;

verus! {

/// One unit of work.
#[derive(Clone, Copy, Debug, PartialEq, Eq, Structural)]
pub enum Step {
    /// Run forward kinematics: at the configuration where `perturbed` is
    /// `None`, else with the step added to that coordinate. The frames
    /// stay in use until the next such step.
    Frames { perturbed: Option<usize> },
    /// Take the value and the closed-form gradient of a term.
    Analytic { objective: usize },
    /// Take the value of a term at the configuration.
    Value { objective: usize },
    /// Take the value of a term at the configuration perturbed in `dim`;
    /// its difference from the term's value at the configuration goes into
    /// entry `dim` of the gradient.
    Perturbed { objective: usize, dim: usize },
}

/// A term of an objective set as a schedule sees it: its index in the set
/// and how its gradient is obtained.
#[derive(Clone, Copy, Debug, PartialEq, Eq, Structural)]
pub struct Term {
    pub objective: usize,
    pub mode: GradientMode,
}

/// The indices of the terms that are differentiated numerically, in the
/// order of `terms`.
pub open spec fn finite_diff_list(terms: Seq<Term>) -> Seq<usize>
    decreases terms.len(),
{
    if terms.len() == 0 {
        Seq::empty()
    } else if terms.last().mode == GradientMode::FiniteDiff {
        finite_diff_list(terms.drop_last()).push(terms.last().objective)
    } else {
        finite_diff_list(terms.drop_last())
    }
}

/// What is done with a term at the configuration itself.
pub open spec fn base_step(term: Term) -> Step {
    match term.mode {
        GradientMode::Analytic => Step::Analytic { objective: term.objective },
        GradientMode::FiniteDiff => Step::Value { objective: term.objective },
    }
}

/// The work at the configuration itself: one step per term, in order.
pub open spec fn base_steps(terms: Seq<Term>) -> Seq<Step> {
    Seq::new(terms.len(), |i: int| base_step(terms[i]))
}

/// The work for coordinate `dim`: forward kinematics at the perturbed
/// configuration, then the value of every listed term there.
pub open spec fn sweep(list: Seq<usize>, dim: usize) -> Seq<Step> {
    seq![Step::Frames { perturbed: Some(dim) }] + Seq::new(
        list.len(),
        |k: int| Step::Perturbed { objective: list[k], dim },
    )
}

/// The sweeps for the coordinates below `dims`, in order.
pub open spec fn sweeps(list: Seq<usize>, dims: nat) -> Seq<Step>
    decreases dims,
{
    if dims == 0 {
        Seq::empty()
    } else {
        sweeps(list, (dims - 1) as nat) + sweep(list, (dims - 1) as usize)
    }
}

/// The whole order of work for the gradient of `terms` in `dims`
/// coordinates: forward kinematics at the configuration, every term
/// there, and then, where a term is differentiated numerically, one sweep
/// per coordinate.
pub open spec fn schedule(terms: Seq<Term>, dims: nat) -> Seq<Step> {
    seq![Step::Frames { perturbed: None }] + base_steps(terms) + if finite_diff_list(terms).len()
        > 0 {
        sweeps(finite_diff_list(terms), dims)
    } else {
        Seq::empty()
    }
}

/// How many steps of `steps` run forward kinematics.
pub open spec fn frames_steps(steps: Seq<Step>) -> nat
    decreases steps.len(),
{
    if steps.len() == 0 {
        0
    } else {
        frames_steps(steps.drop_last()) + if steps.last() is Frames {
            1nat
        } else {
            0nat
        }
    }
}

/// Forward-kinematics steps add up over a concatenation.
pub proof fn lemma_frames_steps_concat(a: Seq<Step>, b: Seq<Step>)
    ensures
        frames_steps(a + b) == frames_steps(a) + frames_steps(b),
    decreases b.len(),
{
    if b.len() == 0 {
    } else {
        lemma_frames_steps_concat(a, b.drop_last());
        assert((a + b).drop_last() == a + b.drop_last());
    }
}

/// A run of steps none of which runs forward kinematics counts none.
pub proof fn lemma_frames_steps_none(steps: Seq<Step>)
    requires
        forall|i: int| 0 <= i < steps.len() ==> !(#[trigger] steps[i] is Frames),
    ensures
        frames_steps(steps) == 0,
    decreases steps.len(),
{
    if steps.len() > 0 {
        lemma_frames_steps_none(steps.drop_last());
    }
}

/// A lone forward-kinematics step counts one.
pub proof fn lemma_frames_steps_single(perturbed: Option<usize>)
    ensures
        frames_steps(seq![Step::Frames { perturbed }]) == 1,
{
    let head = seq![Step::Frames { perturbed }];
    assert(head.drop_last() == Seq::<Step>::empty());
    assert(frames_steps(Seq::<Step>::empty()) == 0);
}

/// A sweep runs forward kinematics once, whatever the number of terms.
pub proof fn lemma_sweep_frames(list: Seq<usize>, dim: usize)
    ensures
        sweep(list, dim).len() == 1 + list.len(),
        frames_steps(sweep(list, dim)) == 1,
{
    let head = seq![Step::Frames { perturbed: Some(dim) }];
    let tail = Seq::new(list.len(), |k: int| Step::Perturbed { objective: list[k], dim });
    lemma_frames_steps_concat(head, tail);
    lemma_frames_steps_none(tail);
    lemma_frames_steps_single(Some(dim));
}

/// The sweeps for `dims` coordinates run forward kinematics `dims` times
/// and hold `dims` times one step more than there are listed terms.
pub proof fn lemma_sweeps_frames(list: Seq<usize>, dims: nat)
    requires
        dims <= usize::MAX,
    ensures
        sweeps(list, dims).len() == dims * (1 + list.len()),
        frames_steps(sweeps(list, dims)) == dims,
    decreases dims,
{
    if dims > 0 {
        let before = (dims - 1) as nat;
        lemma_sweeps_frames(list, before);
        lemma_sweep_frames(list, before as usize);
        lemma_frames_steps_concat(sweeps(list, before), sweep(list, before as usize));
        assert(dims * (1 + list.len()) == before * (1 + list.len()) + (1 + list.len()))
            by (nonlinear_arith)
            requires
                dims == before + 1,
        ;
    } else {
        assert(dims * (1 + list.len()) == 0) by (nonlinear_arith)
            requires
                dims == 0,
        ;
    }
}

/// A schedule runs forward kinematics once at the configuration and, where
/// a term is differentiated numerically, once more per coordinate: never
/// once per term.
pub proof fn lemma_schedule_frames(terms: Seq<Term>, dims: nat)
    requires
        dims <= usize::MAX,
    ensures
        frames_steps(schedule(terms, dims)) == if finite_diff_list(terms).len() > 0 {
            1 + dims
        } else {
            1
        },
        schedule(terms, dims).len() == 1 + terms.len() + if finite_diff_list(terms).len() > 0 {
            dims * (1 + finite_diff_list(terms).len())
        } else {
            0
        },
{
    let head = seq![Step::Frames { perturbed: None }];
    let base = base_steps(terms);
    let list = finite_diff_list(terms);
    let rest = if list.len() > 0 {
        sweeps(list, dims)
    } else {
        Seq::empty()
    };
    lemma_frames_steps_single(None);
    lemma_frames_steps_none(base);
    lemma_frames_steps_concat(head, base);
    lemma_frames_steps_concat(head + base, rest);
    if list.len() > 0 {
        lemma_sweeps_frames(list, dims);
    }
}

/// The frames that the step after the first `n` steps works with: the
/// perturbation of the last forward-kinematics step among them, and
/// `None` where there is no such step.
pub open spec fn frames_in_force(steps: Seq<Step>, n: nat) -> Option<Option<usize>>
    decreases n,
{
    if n == 0 || n > steps.len() {
        None
    } else {
        match steps[n - 1] {
            Step::Frames { perturbed } => Some(perturbed),
            _ => frames_in_force(steps, (n - 1) as nat),
        }
    }
}

/// What is in force within a prefix does not depend on what follows it.
pub proof fn lemma_in_force_prefix(a: Seq<Step>, b: Seq<Step>, n: nat)
    requires
        n <= a.len(),
    ensures
        frames_in_force(a + b, n) == frames_in_force(a, n),
    decreases n,
{
    if n > 0 {
        lemma_in_force_prefix(a, b, (n - 1) as nat);
    }
}

/// What is in force within the second part of a concatenation is what is
/// in force within that part alone, once it has run forward kinematics.
pub proof fn lemma_in_force_suffix(a: Seq<Step>, b: Seq<Step>, n: nat)
    requires
        n <= b.len(),
        frames_in_force(b, n) is Some,
    ensures
        frames_in_force(a + b, a.len() + n) == frames_in_force(b, n),
    decreases n,
{
    if n > 0 {
        if !(b[n - 1] is Frames) {
            lemma_in_force_suffix(a, b, (n - 1) as nat);
        }
    }
}

/// Step `p` of a schedule takes a value at the configuration itself and
/// works with the frames computed there.
pub open spec fn reads_base_frames(steps: Seq<Step>, p: int) -> bool {
    (steps[p] is Value || steps[p] is Analytic) ==> frames_in_force(steps, (p + 1) as nat) == Some(
        None::<usize>,
    )
}

/// Step `p` of a schedule, where it takes a value at a perturbed
/// configuration, works with the frames of that very perturbation, which
/// is one of the first `dims` coordinates, on a term of `list`.
pub open spec fn reads_own_frames(steps: Seq<Step>, list: Seq<usize>, dims: nat, p: int) -> bool {
    steps[p] matches Step::Perturbed { objective, dim } ==> {
        &&& frames_in_force(steps, (p + 1) as nat) == Some(Some(dim))
        &&& dim < dims
        &&& list.contains(objective)
    }
}

/// Within a sweep every value is taken with the frames of the sweep's
/// own coordinate, and nothing is taken at the configuration itself.
pub proof fn lemma_sweep_in_force(list: Seq<usize>, dim: usize, p: int)
    requires
        0 <= p < sweep(list, dim).len(),
    ensures
        frames_in_force(sweep(list, dim), (p + 1) as nat) == Some(Some(dim)),
        p == 0 ==> sweep(list, dim)[p] == (Step::Frames { perturbed: Some(dim) }),
        p > 0 ==> sweep(list, dim)[p] == (Step::Perturbed { objective: list[p - 1], dim }),
    decreases p,
{
    if p > 0 {
        lemma_sweep_in_force(list, dim, p - 1);
    }
}

/// Within the sweeps every step either runs forward kinematics or takes a
/// value with the frames of its own coordinate.
pub proof fn lemma_sweeps_in_force(list: Seq<usize>, dims: nat, p: int)
    requires
        dims <= usize::MAX,
        0 <= p < sweeps(list, dims).len(),
    ensures
        frames_in_force(sweeps(list, dims), (p + 1) as nat) is Some,
        reads_own_frames(sweeps(list, dims), list, dims, p),
        !(sweeps(list, dims)[p] is Value),
        !(sweeps(list, dims)[p] is Analytic),
    decreases dims,
{
    if dims > 0 {
        let before = (dims - 1) as nat;
        let a = sweeps(list, before);
        let b = sweep(list, before as usize);
        if p < a.len() {
            lemma_sweeps_in_force(list, before, p);
            lemma_in_force_prefix(a, b, (p + 1) as nat);
        } else {
            let q = p - a.len();
            lemma_sweep_in_force(list, before as usize, q);
            lemma_in_force_suffix(a, b, (q + 1) as nat);
        }
    }
}

/// Every step of a schedule works with the right frames: a value at the
/// configuration with the frames computed there, a value at a perturbed
/// configuration with the frames of that perturbation. Only terms that
/// are differentiated numerically are perturbed, and only in coordinates
/// below `dims`.
pub proof fn lemma_schedule_in_force(terms: Seq<Term>, dims: nat, p: int)
    requires
        dims <= usize::MAX,
        0 <= p < schedule(terms, dims).len(),
    ensures
        reads_base_frames(schedule(terms, dims), p),
        reads_own_frames(schedule(terms, dims), finite_diff_list(terms), dims, p),
{
    let head = seq![Step::Frames { perturbed: None }];
    let front = head + base_steps(terms);
    let list = finite_diff_list(terms);
    let rest = if list.len() > 0 {
        sweeps(list, dims)
    } else {
        Seq::empty()
    };
    if p < front.len() {
        lemma_front_in_force(terms, p);
        lemma_in_force_prefix(front, rest, (p + 1) as nat);
    } else {
        let q = p - front.len();
        lemma_sweeps_in_force(list, dims, q);
        lemma_in_force_suffix(front, rest, (q + 1) as nat);
    }
}

/// Up to the last term, a schedule works with the frames computed at the
/// configuration itself and perturbs nothing.
pub proof fn lemma_front_in_force(terms: Seq<Term>, p: int)
    requires
        0 <= p <= terms.len(),
    ensures
        frames_in_force(
            seq![Step::Frames { perturbed: None }] + base_steps(terms),
            (p + 1) as nat,
        ) == Some(None::<usize>),
        !((seq![Step::Frames { perturbed: None }] + base_steps(terms))[p] is Perturbed),
    decreases p,
{
    if p > 0 {
        lemma_front_in_force(terms, p - 1);
    }
}

/// The indices of the terms that are differentiated numerically, in the
/// order of `terms`.
pub fn collect_finite_diff(terms: &Vec<Term>) -> (r: Vec<usize>)
    ensures
        r@ == finite_diff_list(terms@),
{
    let mut list: Vec<usize> = Vec::new();
    let mut i: usize = 0;
    while i < terms.len()
        invariant
            i <= terms.len(),
            list@ == finite_diff_list(terms@.take(i as int)),
        decreases terms.len() - i,
    {
        proof {
            assert(terms@.take(i + 1).drop_last() == terms@.take(i as int));
        }
        match terms[i].mode {
            GradientMode::FiniteDiff => {
                list.push(terms[i].objective);
            },
            GradientMode::Analytic => {},
        }
        i += 1;
    }
    proof {
        assert(terms@.take(terms.len() as int) == terms@);
    }
    list
}

/// Lays out the order of work for the gradient of `terms` in `dims`
/// coordinates.
pub fn build_schedule(terms: &Vec<Term>, dims: usize) -> (r: Vec<Step>)
    ensures
        r@ == schedule(terms@, dims as nat),
{
    let list = collect_finite_diff(terms);
    let mut steps: Vec<Step> = Vec::new();
    steps.push(Step::Frames { perturbed: None });
    let mut i: usize = 0;
    while i < terms.len()
        invariant
            i <= terms.len(),
            steps@ == seq![Step::Frames { perturbed: None }] + base_steps(terms@.take(i as int)),
        decreases terms.len() - i,
    {
        let step = match terms[i].mode {
            GradientMode::Analytic => Step::Analytic { objective: terms[i].objective },
            GradientMode::FiniteDiff => Step::Value { objective: terms[i].objective },
        };
        steps.push(step);
        proof {
            assert(steps@ == seq![Step::Frames { perturbed: None }] + base_steps(
                terms@.take(i + 1),
            ));
        }
        i += 1;
    }
    if list.len() == 0 {
        return steps;
    }
    let ghost front = steps@;
    let mut dim: usize = 0;
    while dim < dims
        invariant
            dim <= dims,
            list@ == finite_diff_list(terms@),
            front == seq![Step::Frames { perturbed: None }] + base_steps(terms@),
            steps@ == front + sweeps(list@, dim as nat),
        decreases dims - dim,
    {
        let ghost done = steps@;
        steps.push(Step::Frames { perturbed: Some(dim) });
        let mut k: usize = 0;
        while k < list.len()
            invariant
                k <= list.len(),
                steps@ == done + seq![Step::Frames { perturbed: Some(dim) }] + Seq::new(
                    k as nat,
                    |t: int| Step::Perturbed { objective: list@[t], dim },
                ),
            decreases list.len() - k,
        {
            steps.push(Step::Perturbed { objective: list[k], dim });
            k += 1;
        }
        proof {
            assert(done + sweep(list@, dim) == front + (sweeps(list@, dim as nat) + sweep(
                list@,
                dim,
            )));
        }
        dim += 1;
    }
    steps
}

} // verus!
