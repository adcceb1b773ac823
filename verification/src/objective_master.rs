//! An objective set: the penalty terms with a weight each, the two
//! ready-made sets, and the plan of work for a value or a gradient.

use crate::gradient::build_schedule;
use crate::gradient::schedule;
use crate::gradient::Step;
use crate::gradient::Term;
use crate::layout::dof_count;
use crate::layout::has_entry;
use crate::layout::spec_dof_count;
use crate::layout::RobotLayout;
use crate::objective::EachJointLimits;
use crate::objective::GradientMode;
use crate::objective::MatchEEPosGoals;
use crate::objective::MatchEEPosiDoF;
use crate::objective::MatchEEQuatGoals;
use crate::objective::MatchEERotaDoF;
use crate::objective::MaximizeManipulability;
use crate::objective::MinimizeAcceleration;
use crate::objective::MinimizeJerk;
use crate::objective::MinimizeVelocity;
use crate::objective::Objective;
use crate::objective::SelfCollision;
use crate::vars::RelaxedIKVars;
use vstd::prelude::*;

verus! {

/// A positive weight as the ratio of two whole numbers, so that the
/// weights of the ready-made sets are exact. The numeric layer turns it
/// into a scalar by one division.
#[derive(Clone, Copy, Debug, PartialEq, Eq, Structural)]
pub struct Weight {
    pub numerator: u32,
    pub denominator: u32,
}

impl Weight {
    /// Both parts are positive.
    pub open spec fn is_positive(self) -> bool {
        self.numerator > 0 && self.denominator > 0
    }

    /// The weight `numerator / denominator`; `None` unless both are
    /// positive.
    pub fn new(numerator: u32, denominator: u32) -> (r: Option<Weight>)
        ensures
            r == if numerator > 0 && denominator > 0 {
                Some(Weight { numerator, denominator })
            } else {
                None
            },
    {
        if numerator > 0 && denominator > 0 {
            Some(Weight { numerator, denominator })
        } else {
            None
        }
    }
}

/// The step of a numerical derivative, as the whole number it is one
/// over.
#[derive(Clone, Copy, Debug, PartialEq, Eq, Structural)]
pub struct StepSize {
    pub one_over: u32,
}

/// The step used where every term is differenced on its own: `1e-7`.
pub const TERM_STEP_ONE_OVER: u32 = 10_000_000;

/// The step used where the weighted sum is differenced as a whole:
/// `1e-6`.
pub const SUM_STEP_ONE_OVER: u32 = 1_000_000;

/// The terms of a set with a weight each, and how the set is evaluated.
///
/// With `lite` the terms read end-effector poses only; without it, the
/// frames of every link. With `finite_diff_grad` the gradient is the
/// difference of the weighted sum as a whole; without it every term is
/// differentiated on its own, numerically or in closed form.
#[derive(Clone, Debug, PartialEq)]
pub struct ObjectiveMaster {
    pub objectives: Vec<Objective>,
    pub num_chains: usize,
    pub weight_priors: Vec<Weight>,
    pub lite: bool,
    pub finite_diff_grad: bool,
}

/// What the numeric layer is to do for one value or gradient.
#[derive(Clone, Debug, PartialEq)]
pub struct Plan {
    /// Whether the terms read end-effector poses only.
    pub lite: bool,
    /// Whether the weighted sum is differenced as a whole, rather than
    /// each term on its own.
    pub whole: bool,
    /// The step of the numerical derivatives.
    pub step: StepSize,
    /// The work, in order.
    pub steps: Vec<Step>,
}

/// The terms of the plain set for `num_chains` chains: per chain, the
/// position term and then the orientation term of its end effector.
pub open spec fn standard_objectives(num_chains: nat) -> Seq<Objective> {
    Seq::new(
        2 * num_chains,
        |k: int|
            if k % 2 == 0 {
                Objective::MatchEEPosGoals(MatchEEPosGoals { arm_idx: (k / 2) as usize })
            } else {
                Objective::MatchEEQuatGoals(MatchEEQuatGoals { arm_idx: (k / 2) as usize })
            },
    )
}

/// The terms of the relaxed set for `num_chains` chains and `num_dofs`
/// degrees of freedom: per chain, the end-effector position on the axes
/// 0, 1, 2 and then its orientation about them; after all chains, the
/// limits of every degree of freedom.
pub open spec fn relaxed_objectives(num_chains: nat, num_dofs: nat) -> Seq<Objective> {
    Seq::new(
        6 * num_chains + num_dofs,
        |k: int|
            if k < 6 * num_chains {
                if k % 6 < 3 {
                    Objective::MatchEEPosiDoF(
                        MatchEEPosiDoF { arm_idx: (k / 6) as usize, axis: (k % 6) as usize },
                    )
                } else {
                    Objective::MatchEERotaDoF(
                        MatchEERotaDoF { arm_idx: (k / 6) as usize, axis: (k % 6 - 3) as usize },
                    )
                }
            } else {
                Objective::EachJointLimits(
                    EachJointLimits { joint_idx: (k - 6 * num_chains) as usize },
                )
            },
    )
}

/// The weights of the relaxed set: 50 on every end-effector term, one
/// tenth on every joint limit.
pub open spec fn relaxed_weights(num_chains: nat, num_dofs: nat) -> Seq<Weight> {
    Seq::new(
        6 * num_chains + num_dofs,
        |k: int|
            if k < 6 * num_chains {
                Weight { numerator: 50, denominator: 1 }
            } else {
                Weight { numerator: 1, denominator: 10 }
            },
    )
}

/// The terms that count under a mask, in the order of the set, each with
/// the way its gradient is obtained; with `all_numeric` every term is
/// differentiated numerically whatever it offers.
pub open spec fn driven_terms(
    objectives: Seq<Objective>,
    layout: RobotLayout,
    valid_chains: Seq<usize>,
    all_numeric: bool,
) -> Seq<Term>
    decreases objectives.len(),
{
    if objectives.len() == 0 {
        Seq::empty()
    } else {
        let front = driven_terms(objectives.drop_last(), layout, valid_chains, all_numeric);
        if objectives.last().spec_is_driven(layout, valid_chains) {
            front.push(
                Term {
                    objective: (objectives.len() - 1) as usize,
                    mode: if all_numeric {
                        GradientMode::FiniteDiff
                    } else {
                        objectives.last().spec_gradient_type()
                    },
                },
            )
        } else {
            front
        }
    }
}

impl ObjectiveMaster {
    /// Every term has a weight, and every weight is positive.
    pub open spec fn wf(&self) -> bool {
        &&& self.objectives.len() == self.weight_priors.len()
        &&& forall|i: int|
            0 <= i < self.weight_priors.len() ==> (#[trigger] self.weight_priors[i]).is_positive()
    }

    /// The plain set: per chain, the position and the orientation of the
    /// end effector, each with weight one. It is evaluated on
    /// end-effector poses, and its gradient is the difference of the
    /// weighted sum as a whole.
    pub fn standard_ik(num_chains: usize) -> (r: Self)
        ensures
            r.objectives@ == standard_objectives(num_chains as nat),
            r.weight_priors@ == Seq::new(
                2 * num_chains as nat,
                |k: int| Weight { numerator: 1, denominator: 1 },
            ),
            r.num_chains == num_chains,
            r.lite,
            r.finite_diff_grad,
            r.wf(),
    {
        let mut objectives: Vec<Objective> = Vec::new();
        let mut weight_priors: Vec<Weight> = Vec::new();
        let mut i: usize = 0;
        while i < num_chains
            invariant
                i <= num_chains,
                objectives@ == standard_objectives(i as nat),
                weight_priors@ == Seq::new(
                    2 * i as nat,
                    |k: int| Weight { numerator: 1, denominator: 1 },
                ),
            decreases num_chains - i,
        {
            objectives.push(Objective::MatchEEPosGoals(MatchEEPosGoals::new(i)));
            weight_priors.push(Weight { numerator: 1, denominator: 1 });
            objectives.push(Objective::MatchEEQuatGoals(MatchEEQuatGoals::new(i)));
            weight_priors.push(Weight { numerator: 1, denominator: 1 });
            i += 1;
        }
        ObjectiveMaster {
            objectives,
            num_chains,
            weight_priors,
            lite: true,
            finite_diff_grad: true,
        }
    }

    /// The relaxed set for a robot whose chains hold the degrees of
    /// freedom `chain_indices`: per chain, the end-effector position and
    /// orientation on each axis with weight 50, and for every degree of
    /// freedom its limits with weight one tenth. It is evaluated on the
    /// frames of every link, and every term is differentiated on its own.
    ///
    /// The number of degrees of freedom is one more than the largest
    /// index named. So the chains must name an index, and the largest
    /// must be below the largest machine word.
    pub fn relaxed_ik(chain_indices: &[Vec<usize>]) -> (r: Self)
        requires
            has_entry(chain_indices@),
            spec_dof_count(chain_indices@) <= usize::MAX,
        ensures
            r.objectives@ == relaxed_objectives(
                chain_indices@.len(),
                spec_dof_count(chain_indices@),
            ),
            r.weight_priors@ == relaxed_weights(
                chain_indices@.len(),
                spec_dof_count(chain_indices@),
            ),
            r.num_chains == chain_indices@.len(),
            !r.lite,
            !r.finite_diff_grad,
            r.wf(),
    {
        let num_chains = chain_indices.len();
        let num_dofs = match dof_count(chain_indices) {
            Some(n) => n,
            None => 0,
        };
        let mut objectives: Vec<Objective> = Vec::new();
        let mut weight_priors: Vec<Weight> = Vec::new();
        let mut i: usize = 0;
        while i < num_chains
            invariant
                i <= num_chains,
                objectives@ == relaxed_objectives(i as nat, 0),
                weight_priors@ == relaxed_weights(i as nat, 0),
            decreases num_chains - i,
        {
            objectives.push(Objective::MatchEEPosiDoF(MatchEEPosiDoF::new(i, 0)));
            weight_priors.push(Weight { numerator: 50, denominator: 1 });
            objectives.push(Objective::MatchEEPosiDoF(MatchEEPosiDoF::new(i, 1)));
            weight_priors.push(Weight { numerator: 50, denominator: 1 });
            objectives.push(Objective::MatchEEPosiDoF(MatchEEPosiDoF::new(i, 2)));
            weight_priors.push(Weight { numerator: 50, denominator: 1 });
            objectives.push(Objective::MatchEERotaDoF(MatchEERotaDoF::new(i, 0)));
            weight_priors.push(Weight { numerator: 50, denominator: 1 });
            objectives.push(Objective::MatchEERotaDoF(MatchEERotaDoF::new(i, 1)));
            weight_priors.push(Weight { numerator: 50, denominator: 1 });
            objectives.push(Objective::MatchEERotaDoF(MatchEERotaDoF::new(i, 2)));
            weight_priors.push(Weight { numerator: 50, denominator: 1 });
            i += 1;
        }
        let mut j: usize = 0;
        while j < num_dofs
            invariant
                j <= num_dofs,
                objectives@ == relaxed_objectives(num_chains as nat, j as nat),
                weight_priors@ == relaxed_weights(num_chains as nat, j as nat),
            decreases num_dofs - j,
        {
            objectives.push(Objective::EachJointLimits(EachJointLimits::new(j)));
            weight_priors.push(Weight { numerator: 1, denominator: 10 });
            j += 1;
        }
        ObjectiveMaster {
            objectives,
            num_chains,
            weight_priors,
            lite: false,
            finite_diff_grad: false,
        }
    }

    /// Adds the three smoothness terms: velocity with weight seven
    /// tenths, acceleration with one half, jerk with three tenths.
    pub fn with_smoothness(self) -> (r: Self)
        ensures
            r.objectives@ == self.objectives@ + seq![
                Objective::MinimizeVelocity(MinimizeVelocity),
                Objective::MinimizeAcceleration(MinimizeAcceleration),
                Objective::MinimizeJerk(MinimizeJerk),
            ],
            r.weight_priors@ == self.weight_priors@ + seq![
                Weight { numerator: 7, denominator: 10 },
                Weight { numerator: 1, denominator: 2 },
                Weight { numerator: 3, denominator: 10 },
            ],
            r.num_chains == self.num_chains,
            r.lite == self.lite,
            r.finite_diff_grad == self.finite_diff_grad,
            self.wf() ==> r.wf(),
    {
        let mut master = self;
        master.objectives.push(Objective::MinimizeVelocity(MinimizeVelocity));
        master.weight_priors.push(Weight { numerator: 7, denominator: 10 });
        master.objectives.push(Objective::MinimizeAcceleration(MinimizeAcceleration));
        master.weight_priors.push(Weight { numerator: 1, denominator: 2 });
        master.objectives.push(Objective::MinimizeJerk(MinimizeJerk));
        master.weight_priors.push(Weight { numerator: 3, denominator: 10 });
        master
    }

    /// Adds the manipulability term with weight one.
    pub fn with_manipulability(self) -> (r: Self)
        ensures
            r.objectives@ == self.objectives@.push(
                Objective::MaximizeManipulability(MaximizeManipulability),
            ),
            r.weight_priors@ == self.weight_priors@.push(Weight { numerator: 1, denominator: 1 }),
            r.num_chains == self.num_chains,
            r.lite == self.lite,
            r.finite_diff_grad == self.finite_diff_grad,
            self.wf() ==> r.wf(),
    {
        let mut master = self;
        master.objectives.push(Objective::MaximizeManipulability(MaximizeManipulability));
        master.weight_priors.push(Weight { numerator: 1, denominator: 1 });
        master
    }

    /// Adds one collision term for each pair of links in `pairs`, each
    /// with weight one hundredth.
    pub fn with_self_collision(self, pairs: &Vec<SelfCollision>) -> (r: Self)
        ensures
            r.objectives@ == self.objectives@ + Seq::new(
                pairs@.len(),
                |k: int| Objective::SelfCollision(pairs@[k]),
            ),
            r.weight_priors@ == self.weight_priors@ + Seq::new(
                pairs@.len(),
                |k: int| Weight { numerator: 1, denominator: 100 },
            ),
            r.num_chains == self.num_chains,
            r.lite == self.lite,
            r.finite_diff_grad == self.finite_diff_grad,
            self.wf() ==> r.wf(),
    {
        let mut master = self;
        let mut i: usize = 0;
        while i < pairs.len()
            invariant
                i <= pairs.len(),
                master.objectives@ == self.objectives@ + Seq::new(
                    i as nat,
                    |k: int| Objective::SelfCollision(pairs@[k]),
                ),
                master.weight_priors@ == self.weight_priors@ + Seq::new(
                    i as nat,
                    |k: int| Weight { numerator: 1, denominator: 100 },
                ),
                master.num_chains == self.num_chains,
                master.lite == self.lite,
                master.finite_diff_grad == self.finite_diff_grad,
            decreases pairs.len() - i,
        {
            master.objectives.push(Objective::SelfCollision(pairs[i]));
            master.weight_priors.push(Weight { numerator: 1, denominator: 100 });
            i += 1;
        }
        master
    }

    /// The terms that count under the mask of `vars`, in the order of the
    /// set, each with the way its gradient is obtained; with `all_numeric`
    /// every term is differentiated numerically.
    pub fn driven<S>(
        &self,
        layout: &RobotLayout,
        vars: &RelaxedIKVars<S>,
        all_numeric: bool,
    ) -> (r: Vec<Term>)
        ensures
            r@ == driven_terms(self.objectives@, *layout, vars.valid_chains@, all_numeric),
    {
        let mut terms: Vec<Term> = Vec::new();
        let mut i: usize = 0;
        while i < self.objectives.len()
            invariant
                i <= self.objectives.len(),
                terms@ == driven_terms(
                    self.objectives@.take(i as int),
                    *layout,
                    vars.valid_chains@,
                    all_numeric,
                ),
            decreases self.objectives.len() - i,
        {
            proof {
                assert(self.objectives@.take(i + 1).drop_last() == self.objectives@.take(i as int));
            }
            if self.objectives[i].is_driven(layout, vars) {
                let mode = if all_numeric {
                    GradientMode::FiniteDiff
                } else {
                    self.objectives[i].gradient_type()
                };
                terms.push(Term { objective: i, mode });
            }
            i += 1;
        }
        proof {
            assert(self.objectives@.take(self.objectives.len() as int) == self.objectives@);
        }
        terms
    }

    /// The work for the value of the set at a configuration: forward
    /// kinematics once, then every term that counts under the mask.
    pub fn call<S>(&self, layout: &RobotLayout, vars: &RelaxedIKVars<S>) -> (r: Plan)
        ensures
            r.lite == self.lite,
            r.whole == self.finite_diff_grad,
            r.step.one_over == if self.finite_diff_grad {
                SUM_STEP_ONE_OVER
            } else {
                TERM_STEP_ONE_OVER
            },
            r.steps@ == schedule(
                driven_terms(self.objectives@, *layout, vars.valid_chains@, true),
                0,
            ),
    {
        let terms = self.driven(layout, vars, true);
        Plan {
            lite: self.lite,
            whole: self.finite_diff_grad,
            step: StepSize {
                one_over: if self.finite_diff_grad {
                    SUM_STEP_ONE_OVER
                } else {
                    TERM_STEP_ONE_OVER
                },
            },
            steps: build_schedule(&terms, 0),
        }
    }

    /// The work for the value and the gradient of the set in `dims`
    /// coordinates, in the way the set asks for: the weighted sum
    /// differenced as a whole with step `1e-6`, or every term on its own
    /// with step `1e-7`.
    pub fn gradient<S>(&self, layout: &RobotLayout, vars: &RelaxedIKVars<S>, dims: usize) -> (r:
        Plan)
        ensures
            r.lite == self.lite,
            r.whole == self.finite_diff_grad,
            r.step.one_over == if self.finite_diff_grad {
                SUM_STEP_ONE_OVER
            } else {
                TERM_STEP_ONE_OVER
            },
            r.steps@ == schedule(
                driven_terms(
                    self.objectives@,
                    *layout,
                    vars.valid_chains@,
                    self.finite_diff_grad,
                ),
                dims as nat,
            ),
    {
        let terms = self.driven(layout, vars, self.finite_diff_grad);
        Plan {
            lite: self.lite,
            whole: self.finite_diff_grad,
            step: StepSize {
                one_over: if self.finite_diff_grad {
                    SUM_STEP_ONE_OVER
                } else {
                    TERM_STEP_ONE_OVER
                },
            },
            steps: build_schedule(&terms, dims),
        }
    }

    /// The work for the value and the gradient of the set in `dims`
    /// coordinates with the weighted sum differenced as a whole, whatever
    /// the set asks for.
    pub fn gradient_finite_diff<S>(
        &self,
        layout: &RobotLayout,
        vars: &RelaxedIKVars<S>,
        dims: usize,
    ) -> (r: Plan)
        ensures
            r.lite == self.lite,
            r.whole,
            r.step.one_over == SUM_STEP_ONE_OVER,
            r.steps@ == schedule(
                driven_terms(self.objectives@, *layout, vars.valid_chains@, true),
                dims as nat,
            ),
    {
        let terms = self.driven(layout, vars, true);
        Plan {
            lite: self.lite,
            whole: true,
            step: StepSize { one_over: SUM_STEP_ONE_OVER },
            steps: build_schedule(&terms, dims),
        }
    }
}

} // verus!
