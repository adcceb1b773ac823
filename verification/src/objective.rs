//! The penalty terms an objective set is built from.
//!
//! A term here is what identifies it: which chain, joint, axis or links it
//! looks at. Its value is arithmetic on scalars and is computed by the
//! numeric layer; this module says which entries of the state and of the
//! forward-kinematics output that arithmetic is to read.

use crate::frames::end_effector;
use crate::frames::joint_pose;
use crate::frames::link_pose;
use crate::frames::spec_end_effector;
use crate::frames::spec_joint_pose;
use crate::frames::spec_link_pose;
use crate::geometry::Pose;
use crate::geometry::Position;
use crate::geometry::Rotation;
use crate::layout::RobotLayout;
use crate::vars::RelaxedIKVars;
use vstd::prelude::*;

verus! {

/// How the gradient of a term is obtained.
#[derive(Clone, Copy, Debug, PartialEq, Eq, Structural)]
pub enum GradientMode {
    /// The term supplies its gradient in closed form.
    Analytic,
    /// The gradient is estimated from values at perturbed configurations.
    FiniteDiff,
}

/// Penalises the end-effector offset of one chain along one axis of the goal's frame.
#[derive(Clone, Copy, Debug, PartialEq, Eq, Structural)]
pub struct MatchEEPosiDoF {
    pub arm_idx: usize,
    pub axis: usize,
}

impl MatchEEPosiDoF {
    pub fn new(arm_idx: usize, axis: usize) -> (r: Self)
        ensures
            r.arm_idx == arm_idx,
            r.axis == axis,
    {
        Self { arm_idx, axis }
    }
}

/// Penalises the turn between one chain's end effector and its goal about one axis.
#[derive(Clone, Copy, Debug, PartialEq, Eq, Structural)]
pub struct MatchEERotaDoF {
    pub arm_idx: usize,
    pub axis: usize,
}

impl MatchEERotaDoF {
    pub fn new(arm_idx: usize, axis: usize) -> (r: Self)
        ensures
            r.arm_idx == arm_idx,
            r.axis == axis,
    {
        Self { arm_idx, axis }
    }
}

/// Penalises the offset of one joint's frame from its goal along one axis of the goal's frame.
#[derive(Clone, Copy, Debug, PartialEq, Eq, Structural)]
pub struct MatchJointPosiDoF {
    pub joint_idx: usize,
    pub axis: usize,
}

impl MatchJointPosiDoF {
    pub fn new(joint_idx: usize, axis: usize) -> (r: Self)
        ensures
            r.joint_idx == joint_idx,
            r.axis == axis,
    {
        Self { joint_idx, axis }
    }
}

/// Penalises closeness between one link of one chain and one link of another.
#[derive(Clone, Copy, Debug, PartialEq, Eq, Structural)]
pub struct SelfCollision {
    pub first_arm: usize,
    pub second_arm: usize,
    pub first_link: usize,
    pub second_link: usize,
}

impl SelfCollision {
    pub fn new(first_arm: usize, second_arm: usize, first_link: usize, second_link: usize) -> (r: Self)
        ensures
            r.first_arm == first_arm,
            r.second_arm == second_arm,
            r.first_link == first_link,
            r.second_link == second_link,
    {
        Self { first_arm, second_arm, first_link, second_link }
    }
}

/// Pulls the robot's manipulability towards one.
#[derive(Clone, Copy, Debug, PartialEq, Eq, Structural)]
pub struct MaximizeManipulability;

/// Keeps one degree of freedom between its limits.
#[derive(Clone, Copy, Debug, PartialEq, Eq, Structural)]
pub struct EachJointLimits {
    pub joint_idx: usize,
}

impl EachJointLimits {
    pub fn new(joint_idx: usize) -> (r: Self)
        ensures
            r.joint_idx == joint_idx,
    {
        Self { joint_idx }
    }
}

/// Penalises the step from the previous configuration.
#[derive(Clone, Copy, Debug, PartialEq, Eq, Structural)]
pub struct MinimizeVelocity;

/// Penalises the change between the last two steps.
#[derive(Clone, Copy, Debug, PartialEq, Eq, Structural)]
pub struct MinimizeAcceleration;

/// Penalises the change of that change over the last three steps.
#[derive(Clone, Copy, Debug, PartialEq, Eq, Structural)]
pub struct MinimizeJerk;

/// Penalises the distance between one chain's end effector and its goal.
#[derive(Clone, Copy, Debug, PartialEq, Eq, Structural)]
pub struct MatchEEPosGoals {
    pub arm_idx: usize,
}

impl MatchEEPosGoals {
    pub fn new(arm_idx: usize) -> (r: Self)
        ensures
            r.arm_idx == arm_idx,
    {
        Self { arm_idx }
    }
}

/// Penalises the angle between one chain's end effector and its goal.
#[derive(Clone, Copy, Debug, PartialEq, Eq, Structural)]
pub struct MatchEEQuatGoals {
    pub arm_idx: usize,
}

impl MatchEEQuatGoals {
    pub fn new(arm_idx: usize) -> (r: Self)
        ensures
            r.arm_idx == arm_idx,
    {
        Self { arm_idx }
    }
}

/// Any one of the penalty terms.
#[derive(Clone, Copy, Debug, PartialEq, Eq, Structural)]
pub enum Objective {
    MatchEEPosiDoF(MatchEEPosiDoF),
    MatchEERotaDoF(MatchEERotaDoF),
    MatchJointPosiDoF(MatchJointPosiDoF),
    SelfCollision(SelfCollision),
    MaximizeManipulability(MaximizeManipulability),
    EachJointLimits(EachJointLimits),
    MinimizeVelocity(MinimizeVelocity),
    MinimizeAcceleration(MinimizeAcceleration),
    MinimizeJerk(MinimizeJerk),
    MatchEEPosGoals(MatchEEPosGoals),
    MatchEEQuatGoals(MatchEEQuatGoals),
}

/// What a position term reads: where the frame is, where and how turned
/// its goal is, and the width of the band on the term's axis.
#[derive(Clone, Copy, Debug, PartialEq)]
pub struct PositionOperands<S> {
    pub frame: Position<S>,
    pub goal_position: Position<S>,
    pub goal_rotation: Rotation<S>,
    pub bound: S,
}

/// What a rotation term reads: how the frame is turned, how its goal is,
/// and the width of the band on the term's axis.
#[derive(Clone, Copy, Debug, PartialEq)]
pub struct RotationOperands<S> {
    pub frame: Rotation<S>,
    pub goal: Rotation<S>,
    pub bound: S,
}

/// What a collision term reads: the poses of its two links, and the place
/// of each link's shape among the shapes of its chain.
#[derive(Clone, Copy, Debug, PartialEq)]
pub struct LinkPair<S> {
    pub first: Pose<S>,
    pub second: Pose<S>,
    pub first_shape: usize,
    pub second_shape: usize,
}

impl MatchEEPosiDoF {
    /// The operands of the term: the end effector of chain `arm_idx`, goal
    /// `arm_idx`, and the translational width on `axis`. `None` where the
    /// chain has no frame, the state no such goal, or `axis` is not 0, 1
    /// or 2.
    pub open spec fn spec_operands<S>(
        self,
        vars: RelaxedIKVars<S>,
        frames: Seq<Vec<Pose<S>>>,
    ) -> Option<PositionOperands<S>> {
        match (spec_end_effector(frames, self.arm_idx as int), vars.spec_goal(self.arm_idx as int)) {
            (Some(ee), Some(goal)) => if self.axis < 3 {
                Some(
                    PositionOperands {
                        frame: ee.position,
                        goal_position: goal.position,
                        goal_rotation: goal.rotation,
                        bound: goal.tolerance.spec_translational(self.axis as int),
                    },
                )
            } else {
                None
            },
            _ => None,
        }
    }

    pub fn operands<S: Copy>(&self, vars: &RelaxedIKVars<S>, frames: &Vec<Vec<Pose<S>>>) -> (r:
        Option<PositionOperands<S>>)
        ensures
            r == self.spec_operands(*vars, frames@),
    {
        let ee = end_effector(frames, self.arm_idx)?;
        let goal = vars.goal(self.arm_idx)?;
        let bound = goal.tolerance.translational(self.axis)?;
        Some(
            PositionOperands {
                frame: ee.position,
                goal_position: goal.position,
                goal_rotation: goal.rotation,
                bound,
            },
        )
    }
}

impl MatchEERotaDoF {
    /// The operands of the term: the end effector of chain `arm_idx`, goal
    /// `arm_idx`, and the rotational width on `axis`. `None` where the
    /// chain has no frame, the state no such goal, or `axis` is not 0, 1
    /// or 2.
    pub open spec fn spec_operands<S>(
        self,
        vars: RelaxedIKVars<S>,
        frames: Seq<Vec<Pose<S>>>,
    ) -> Option<RotationOperands<S>> {
        match (spec_end_effector(frames, self.arm_idx as int), vars.spec_goal(self.arm_idx as int)) {
            (Some(ee), Some(goal)) => if self.axis < 3 {
                Some(
                    RotationOperands {
                        frame: ee.rotation,
                        goal: goal.rotation,
                        bound: goal.tolerance.spec_rotational(self.axis as int),
                    },
                )
            } else {
                None
            },
            _ => None,
        }
    }

    pub fn operands<S: Copy>(&self, vars: &RelaxedIKVars<S>, frames: &Vec<Vec<Pose<S>>>) -> (r:
        Option<RotationOperands<S>>)
        ensures
            r == self.spec_operands(*vars, frames@),
    {
        let ee = end_effector(frames, self.arm_idx)?;
        let goal = vars.goal(self.arm_idx)?;
        let bound = goal.tolerance.rotational(self.axis)?;
        Some(RotationOperands { frame: ee.rotation, goal: goal.rotation, bound })
    }
}

impl MatchJointPosiDoF {
    /// The operands of the term: the frame of degree of freedom
    /// `joint_idx`, goal `joint_idx`, and the translational width on
    /// `axis`. `None` where no chain holds the joint, `frames` lacks its
    /// frame, the state has no such goal, or `axis` is not 0, 1 or 2.
    pub open spec fn spec_operands<S>(
        self,
        layout: RobotLayout,
        vars: RelaxedIKVars<S>,
        frames: Seq<Vec<Pose<S>>>,
    ) -> Option<PositionOperands<S>> {
        match (
            spec_joint_pose(layout, frames, self.joint_idx),
            vars.spec_goal(self.joint_idx as int),
        ) {
            (Some(pose), Some(goal)) => if self.axis < 3 {
                Some(
                    PositionOperands {
                        frame: pose.position,
                        goal_position: goal.position,
                        goal_rotation: goal.rotation,
                        bound: goal.tolerance.spec_translational(self.axis as int),
                    },
                )
            } else {
                None
            },
            _ => None,
        }
    }

    pub fn operands<S: Copy>(
        &self,
        layout: &RobotLayout,
        vars: &RelaxedIKVars<S>,
        frames: &Vec<Vec<Pose<S>>>,
    ) -> (r: Option<PositionOperands<S>>)
        ensures
            r == self.spec_operands(*layout, *vars, frames@),
    {
        let pose = joint_pose(layout, frames, self.joint_idx)?;
        let goal = vars.goal(self.joint_idx)?;
        let bound = goal.tolerance.translational(self.axis)?;
        Some(
            PositionOperands {
                frame: pose.position,
                goal_position: goal.position,
                goal_rotation: goal.rotation,
                bound,
            },
        )
    }
}

impl SelfCollision {
    /// The operands of the term: the poses of the two links, and for each
    /// the place of its shape, which is one past the link's index. `None`
    /// where `frames` lacks one of the links or a link's index is the
    /// largest machine word.
    pub open spec fn spec_operands<S>(self, frames: Seq<Vec<Pose<S>>>) -> Option<LinkPair<S>> {
        match (
            spec_link_pose(frames, self.first_arm as int, self.first_link as int),
            spec_link_pose(frames, self.second_arm as int, self.second_link as int),
        ) {
            (Some(first), Some(second)) => if self.first_link < usize::MAX && self.second_link
                < usize::MAX {
                Some(
                    LinkPair {
                        first,
                        second,
                        first_shape: (self.first_link + 1) as usize,
                        second_shape: (self.second_link + 1) as usize,
                    },
                )
            } else {
                None
            },
            _ => None,
        }
    }

    pub fn operands<S: Copy>(&self, frames: &Vec<Vec<Pose<S>>>) -> (r: Option<LinkPair<S>>)
        ensures
            r == self.spec_operands(frames@),
    {
        let first = link_pose(frames, self.first_arm, self.first_link)?;
        let second = link_pose(frames, self.second_arm, self.second_link)?;
        if self.first_link < usize::MAX && self.second_link < usize::MAX {
            Some(
                LinkPair {
                    first,
                    second,
                    first_shape: self.first_link + 1,
                    second_shape: self.second_link + 1,
                },
            )
        } else {
            None
        }
    }
}

impl EachJointLimits {
    /// The operand of the term: entry `joint_idx` of the configuration;
    /// `None` where the configuration has no such entry.
    pub fn operand<S: Copy>(&self, x: &Vec<S>) -> (r: Option<S>)
        ensures
            r == if self.joint_idx < x.len() {
                Some(x[self.joint_idx as int])
            } else {
                None
            },
    {
        if self.joint_idx < x.len() {
            Some(x[self.joint_idx])
        } else {
            None
        }
    }
}

impl MatchEEPosGoals {
    /// The operands of the term: where the end effector of chain
    /// `arm_idx` is, and where its goal is. `None` where the chain has no
    /// frame or the state no such goal.
    pub fn operands<S: Copy>(&self, vars: &RelaxedIKVars<S>, frames: &Vec<Vec<Pose<S>>>) -> (r:
        Option<(Position<S>, Position<S>)>)
        ensures
            r == match (
                spec_end_effector(frames@, self.arm_idx as int),
                vars.spec_goal(self.arm_idx as int),
            ) {
                (Some(ee), Some(goal)) => Some((ee.position, goal.position)),
                _ => None,
            },
    {
        let ee = end_effector(frames, self.arm_idx)?;
        let goal = vars.goal(self.arm_idx)?;
        Some((ee.position, goal.position))
    }
}

impl MatchEEQuatGoals {
    /// The operands of the term: how the end effector of chain `arm_idx`
    /// is turned, and how its goal is. `None` where the chain has no frame
    /// or the state no such goal.
    pub fn operands<S: Copy>(&self, vars: &RelaxedIKVars<S>, frames: &Vec<Vec<Pose<S>>>) -> (r:
        Option<(Rotation<S>, Rotation<S>)>)
        ensures
            r == match (
                spec_end_effector(frames@, self.arm_idx as int),
                vars.spec_goal(self.arm_idx as int),
            ) {
                (Some(ee), Some(goal)) => Some((ee.rotation, goal.rotation)),
                _ => None,
            },
    {
        let ee = end_effector(frames, self.arm_idx)?;
        let goal = vars.goal(self.arm_idx)?;
        Some((ee.rotation, goal.rotation))
    }
}

/// What a term reads in the cheap mode, which has end-effector poses only:
/// pose `index` and goal `index`. `None` where either is absent.
pub fn lite_operands<S: Copy>(vars: &RelaxedIKVars<S>, ee_poses: &Vec<Pose<S>>, index: usize) -> (r:
    Option<(Pose<S>, Pose<S>)>)
    ensures
        r == match vars.spec_goal(index as int) {
            Some(goal) => if index < ee_poses.len() {
                Some(
                    (
                        ee_poses[index as int],
                        Pose { position: goal.position, rotation: goal.rotation },
                    ),
                )
            } else {
                None
            },
            None => None,
        },
{
    let goal = vars.goal(index)?;
    if index < ee_poses.len() {
        Some((ee_poses[index], Pose { position: goal.position, rotation: goal.rotation }))
    } else {
        None
    }
}

impl Objective {
    /// How the gradient of the term is obtained. Every term here is
    /// differentiated numerically.
    pub open spec fn spec_gradient_type(&self) -> GradientMode {
        GradientMode::FiniteDiff
    }

    #[verifier::when_used_as_spec(spec_gradient_type)]
    pub fn gradient_type(&self) -> (r: GradientMode)
        ensures
            r == self.spec_gradient_type(),
    {
        GradientMode::FiniteDiff
    }

    /// Whether the term counts under the mask `valid_chains`.
    ///
    /// A term that tracks the goal of a chain counts while that chain is
    /// driven; a term on a joint, while the first chain that holds the
    /// joint is driven; a collision term, while both of its chains are.
    /// All other terms always count, and so does a joint-position term
    /// whose joint no chain holds.
    pub open spec fn spec_is_driven(self, layout: RobotLayout, valid_chains: Seq<usize>) -> bool {
        match self {
            Objective::MatchEEPosiDoF(o) => valid_chains.contains(o.arm_idx),
            Objective::MatchEERotaDoF(o) => valid_chains.contains(o.arm_idx),
            Objective::MatchEEPosGoals(o) => valid_chains.contains(o.arm_idx),
            Objective::MatchEEQuatGoals(o) => valid_chains.contains(o.arm_idx),
            Objective::MatchJointPosiDoF(o) => match layout.spec_joint_frame(o.joint_idx) {
                Some(f) => valid_chains.contains(f.0 as usize),
                None => true,
            },
            Objective::SelfCollision(o) => valid_chains.contains(o.first_arm)
                && valid_chains.contains(o.second_arm),
            _ => true,
        }
    }

    pub fn is_driven<S>(&self, layout: &RobotLayout, vars: &RelaxedIKVars<S>) -> (r: bool)
        ensures
            r == self.spec_is_driven(*layout, vars.valid_chains@),
    {
        match self {
            Objective::MatchEEPosiDoF(o) => vars.is_valid_chain(o.arm_idx),
            Objective::MatchEERotaDoF(o) => vars.is_valid_chain(o.arm_idx),
            Objective::MatchEEPosGoals(o) => vars.is_valid_chain(o.arm_idx),
            Objective::MatchEEQuatGoals(o) => vars.is_valid_chain(o.arm_idx),
            Objective::MatchJointPosiDoF(o) => match layout.joint_frame(o.joint_idx) {
                Some((chain, _)) => vars.is_valid_chain(chain),
                None => true,
            },
            Objective::SelfCollision(o) => vars.is_valid_chain(o.first_arm) && vars.is_valid_chain(
                o.second_arm,
            ),
            _ => true,
        }
    }
}

} // verus!
