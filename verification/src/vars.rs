//! The state a solver carries from tick to tick: the current configuration
//! and its history, the goals and tolerances, the end-effector poses at
//! the starting configuration, and which chains are driven.
//!
//! The state never computes with a scalar. Forward kinematics is done
//! outside; wherever the state needs end-effector poses it takes them as an
//! argument, together with the scalar zero where it needs it.

use crate::geometry::copy_vec;
use crate::geometry::filled;
use crate::geometry::Pose;
use crate::geometry::Position;
use crate::geometry::Rotation;
use crate::geometry::Tolerance;
use crate::layout::RobotLayout;
use crate::settings::Settings;
use vstd::prelude::*;
use vstd::slice::slice_to_vec;

verus! {

/// What a host hands over to build a solver.
#[derive(Clone, Debug, PartialEq)]
pub struct VarsConstructorData<S> {
    pub link_radius: S,
    pub base_links: Vec<String>,
    pub ee_links: Vec<String>,
    pub joint_ordering: Vec<String>,
    pub starting_config: Vec<S>,
    pub ee_only: bool,
}

/// Why a solver state could not be built.
#[derive(Clone, Copy, Debug, PartialEq, Eq, Structural)]
pub enum ConfigError {
    /// The lists of base links and of end-effector links differ in length.
    ChainCountMismatch,
    /// The number of end-effector poses is not the number of chains.
    PoseCountMismatch,
    /// The starting configuration has not one entry per degree of freedom.
    StartingConfigLength,
    /// There is not one goal pose per goal of the mode.
    GoalPoseCount,
}

/// Why a set of goals was turned down.
#[derive(Clone, Copy, Debug, PartialEq, Eq, Structural)]
pub enum InputError {
    /// The positions are not three scalars per goal.
    PositionLength,
    /// The rotations are not four scalars per goal (three for velocities).
    RotationLength,
    /// The tolerances are not six scalars per goal.
    ToleranceLength,
    /// The number of goals is not the number the state holds.
    GoalCount,
}

impl ConfigError {
    /// What went wrong, in words.
    pub open spec fn spec_message(self) -> Seq<char> {
        match self {
            ConfigError::ChainCountMismatch =>
                "there must be as many end-effector links as base links"@,
            ConfigError::PoseCountMismatch => "there must be one end-effector pose per chain"@,
            ConfigError::StartingConfigLength =>
                "the starting configuration must have one entry per degree of freedom"@,
            ConfigError::GoalPoseCount => "there must be one pose per goal"@,
        }
    }

    pub fn message(&self) -> (r: String)
        ensures
            r@ == self.spec_message(),
    {
        match self {
            ConfigError::ChainCountMismatch => String::from_str(
                "there must be as many end-effector links as base links",
            ),
            ConfigError::PoseCountMismatch => String::from_str(
                "there must be one end-effector pose per chain",
            ),
            ConfigError::StartingConfigLength => String::from_str(
                "the starting configuration must have one entry per degree of freedom",
            ),
            ConfigError::GoalPoseCount => String::from_str("there must be one pose per goal"),
        }
    }
}

impl InputError {
    /// What went wrong, in words.
    pub open spec fn spec_message(self) -> Seq<char> {
        match self {
            InputError::PositionLength => "positions must be three numbers per goal"@,
            InputError::RotationLength =>
                "rotations must be four numbers per goal, rotation rates three"@,
            InputError::ToleranceLength => "tolerances must be six numbers per goal"@,
            InputError::GoalCount => "there must be as many goals as the solver holds"@,
        }
    }

    pub fn message(&self) -> (r: String)
        ensures
            r@ == self.spec_message(),
    {
        match self {
            InputError::PositionLength => String::from_str(
                "positions must be three numbers per goal",
            ),
            InputError::RotationLength => String::from_str(
                "rotations must be four numbers per goal, rotation rates three",
            ),
            InputError::ToleranceLength => String::from_str(
                "tolerances must be six numbers per goal",
            ),
            InputError::GoalCount => String::from_str(
                "there must be as many goals as the solver holds",
            ),
        }
    }
}

/// One goal: where a frame is to be, how it is to be turned, and how far
/// off it may be on each axis.
#[derive(Clone, Copy, Debug, PartialEq)]
pub struct Goal<S> {
    pub position: Position<S>,
    pub rotation: Rotation<S>,
    pub tolerance: Tolerance<S>,
}

/// Entry `i` of a configuration and of the configurations before it, as
/// far back as they hold such an entry.
#[derive(Clone, Copy, Debug, PartialEq)]
pub struct MotionSample<S> {
    /// The entry of the configuration under evaluation.
    pub now: S,
    /// The entry one tick back: the current solution.
    pub prev: S,
    /// The entry two ticks back, where there is one.
    pub prev2: Option<S>,
    /// The entry three ticks back, where there is one.
    pub prev3: Option<S>,
}

/// The state of a solver.
///
/// `goal_positions`, `goal_quats` and `tolerances` are parallel: entry `i`
/// of each belongs to goal `i`. With `ee_only` there is one goal per chain,
/// without it one per degree of freedom. `init_ee_positions` and
/// `init_ee_quats` are parallel too, one entry per chain.
#[derive(Clone, Debug, PartialEq)]
pub struct RelaxedIKVars<S> {
    pub init_state: Vec<S>,
    pub xopt: Vec<S>,
    pub prev_state: Vec<S>,
    pub prev_state2: Vec<S>,
    pub prev_state3: Vec<S>,
    pub goal_positions: Vec<Position<S>>,
    pub goal_quats: Vec<Rotation<S>>,
    pub tolerances: Vec<Tolerance<S>>,
    pub init_ee_positions: Vec<Position<S>>,
    pub init_ee_quats: Vec<Rotation<S>>,
    pub ee_only: bool,
    pub valid_chains: Vec<usize>,
}

/// The positions of `poses`, one for one.
pub open spec fn positions_of<S>(poses: Seq<Pose<S>>) -> Seq<Position<S>> {
    Seq::new(poses.len(), |i: int| poses[i].position)
}

/// The rotations of `poses`, one for one.
pub open spec fn rotations_of<S>(poses: Seq<Pose<S>>) -> Seq<Rotation<S>> {
    Seq::new(poses.len(), |i: int| poses[i].rotation)
}

/// The tolerance that allows no band on any axis.
pub open spec fn strict<S>(zero: S) -> Tolerance<S> {
    Tolerance { tx: zero, ty: zero, tz: zero, rx: zero, ry: zero, rz: zero }
}

/// `n` copies of `value`.
pub open spec fn repeated<T>(n: nat, value: T) -> Seq<T> {
    Seq::new(n, |i: int| value)
}

/// The chain indices `0, 1, .., n - 1`.
pub open spec fn all_chains(n: nat) -> Seq<usize> {
    Seq::new(n, |i: int| i as usize)
}

/// The positions and the rotations of `poses`, as two parallel vectors.
pub fn split_poses<S: Copy>(poses: &Vec<Pose<S>>) -> (r: (Vec<Position<S>>, Vec<Rotation<S>>))
    ensures
        r.0@ == positions_of(poses@),
        r.1@ == rotations_of(poses@),
{
    let mut positions: Vec<Position<S>> = Vec::new();
    let mut rotations: Vec<Rotation<S>> = Vec::new();
    let mut i: usize = 0;
    while i < poses.len()
        invariant
            i <= poses.len(),
            positions@ == positions_of(poses@.take(i as int)),
            rotations@ == rotations_of(poses@.take(i as int)),
        decreases poses.len() - i,
    {
        positions.push(poses[i].position);
        rotations.push(poses[i].rotation);
        i += 1;
    }
    (positions, rotations)
}

/// The chain indices `0, 1, .., n - 1`.
pub fn chain_range(n: usize) -> (r: Vec<usize>)
    ensures
        r@ == all_chains(n as nat),
{
    let mut out: Vec<usize> = Vec::new();
    let mut i: usize = 0;
    while i < n
        invariant
            i <= n,
            out@ == all_chains(i as nat),
        decreases n - i,
    {
        out.push(i);
        i += 1;
    }
    out
}

impl<S> RelaxedIKVars<S> {
    /// The three goal vectors are parallel, and so are the two vectors of
    /// the end-effector snapshot.
    pub open spec fn wf(&self) -> bool {
        &&& self.goal_positions.len() == self.goal_quats.len()
        &&& self.goal_positions.len() == self.tolerances.len()
        &&& self.init_ee_positions.len() == self.init_ee_quats.len()
    }

    /// The current configuration and the three before it all have `d`
    /// entries, and so has the starting configuration.
    pub open spec fn has_dimension(&self, d: nat) -> bool {
        &&& self.init_state.len() == d
        &&& self.xopt.len() == d
        &&& self.prev_state.len() == d
        &&& self.prev_state2.len() == d
        &&& self.prev_state3.len() == d
    }

    /// What the goals are right after they were snapped to `poses`: the
    /// poses themselves, one goal for each, and no tolerance.
    pub open spec fn goals_snapped(&self, poses: Seq<Pose<S>>, zero: S) -> bool {
        &&& self.goal_positions@ == positions_of(poses)
        &&& self.goal_quats@ == rotations_of(poses)
        &&& self.tolerances@ == repeated(poses.len(), strict(zero))
    }

    /// What a newly built state is: the whole history equal to the
    /// starting configuration, the snapshot equal to `ee_poses`, the goals
    /// snapped to `goal_poses`, every chain driven.
    pub open spec fn is_fresh(
        &self,
        start: Seq<S>,
        ee_only: bool,
        ee_poses: Seq<Pose<S>>,
        goal_poses: Seq<Pose<S>>,
        zero: S,
    ) -> bool {
        &&& self.init_state@ == start
        &&& self.xopt@ == start
        &&& self.prev_state@ == start
        &&& self.prev_state2@ == start
        &&& self.prev_state3@ == start
        &&& self.init_ee_positions@ == positions_of(ee_poses)
        &&& self.init_ee_quats@ == rotations_of(ee_poses)
        &&& self.ee_only == ee_only
        &&& self.valid_chains@ == all_chains(ee_poses.len())
        &&& self.goals_snapped(goal_poses, zero)
    }

    /// The current configuration and the three before it, newest first.
    pub open spec fn history(&self) -> Seq<Seq<S>> {
        seq![self.xopt@, self.prev_state@, self.prev_state2@, self.prev_state3@]
    }

    /// Goal `i`, where all three goal vectors hold an entry `i`.
    pub open spec fn spec_goal(&self, i: int) -> Option<Goal<S>> {
        if 0 <= i < self.goal_positions.len() && i < self.goal_quats.len() && i
            < self.tolerances.len() {
            Some(
                Goal {
                    position: self.goal_positions[i],
                    rotation: self.goal_quats[i],
                    tolerance: self.tolerances[i],
                },
            )
        } else {
            None
        }
    }

    /// Entry `i` of `x` and of the current solution, with the same entry
    /// two and three ticks back where the history holds it; `None` where
    /// `x` or the current solution has no entry `i`.
    pub open spec fn spec_motion_at(&self, x: Seq<S>, i: int) -> Option<MotionSample<S>> {
        if 0 <= i < x.len() && i < self.xopt.len() {
            Some(
                MotionSample {
                    now: x[i],
                    prev: self.xopt[i],
                    prev2: if i < self.prev_state.len() {
                        Some(self.prev_state[i])
                    } else {
                        None
                    },
                    prev3: if i < self.prev_state2.len() {
                        Some(self.prev_state2[i])
                    } else {
                        None
                    },
                },
            )
        } else {
            None
        }
    }

    /// The snapshot pose that a relative goal is measured from: for goal
    /// `goal`, the end effector of chain `goal` with `ee_only`, and
    /// without it that of the first chain that holds degree of freedom
    /// `goal`. `None` where there is no such chain or the snapshot does
    /// not hold it.
    pub open spec fn spec_reference_pose(&self, layout: RobotLayout, goal: usize) -> Option<
        Pose<S>,
    > {
        let chain = if self.ee_only {
            Some(goal as int)
        } else {
            match layout.spec_joint_frame(goal) {
                Some(f) => Some(f.0),
                None => None,
            }
        };
        match chain {
            Some(c) => if c < self.init_ee_positions.len() && c < self.init_ee_quats.len() {
                Some(
                    Pose { position: self.init_ee_positions[c], rotation: self.init_ee_quats[c] },
                )
            } else {
                None
            },
            None => None,
        }
    }

    /// Takes `xopt` as the new current configuration and moves every
    /// earlier one a step back; the oldest is dropped.
    pub fn update(&mut self, xopt: Vec<S>)
        ensures
            final(self).prev_state3@ == old(self).prev_state2@,
            final(self).prev_state2@ == old(self).prev_state@,
            final(self).prev_state@ == old(self).xopt@,
            final(self).xopt@ == xopt@,
            final(self).history() == shifted(old(self).history(), xopt@),
            old(self).wf() ==> final(self).wf(),
            final(self).init_state == old(self).init_state,
            final(self).goal_positions == old(self).goal_positions,
            final(self).goal_quats == old(self).goal_quats,
            final(self).tolerances == old(self).tolerances,
            final(self).init_ee_positions == old(self).init_ee_positions,
            final(self).init_ee_quats == old(self).init_ee_quats,
            final(self).ee_only == old(self).ee_only,
            final(self).valid_chains == old(self).valid_chains,
    {
        let mut newest = xopt;
        std::mem::swap(&mut self.prev_state3, &mut self.prev_state2);
        std::mem::swap(&mut self.prev_state2, &mut self.prev_state);
        std::mem::swap(&mut self.prev_state, &mut self.xopt);
        std::mem::swap(&mut self.xopt, &mut newest);
    }

    /// Says which chains are driven by goals from now on.
    pub fn set_valid_chains(&mut self, valid_chains: &[usize])
        ensures
            final(self).valid_chains@ == valid_chains@,
            old(self).wf() ==> final(self).wf(),
            final(self).init_state == old(self).init_state,
            final(self).xopt == old(self).xopt,
            final(self).prev_state == old(self).prev_state,
            final(self).prev_state2 == old(self).prev_state2,
            final(self).prev_state3 == old(self).prev_state3,
            final(self).goal_positions == old(self).goal_positions,
            final(self).goal_quats == old(self).goal_quats,
            final(self).tolerances == old(self).tolerances,
            final(self).init_ee_positions == old(self).init_ee_positions,
            final(self).init_ee_quats == old(self).init_ee_quats,
            final(self).ee_only == old(self).ee_only,
    {
        self.valid_chains = slice_to_vec(valid_chains);
    }

    /// Whether `chain` is driven by a goal.
    pub fn is_valid_chain(&self, chain: usize) -> (r: bool)
        ensures
            r == self.valid_chains@.contains(chain),
    {
        let mut i: usize = 0;
        while i < self.valid_chains.len()
            invariant
                i <= self.valid_chains.len(),
                forall|k: int| 0 <= k < i ==> self.valid_chains@[k] != chain,
            decreases self.valid_chains.len() - i,
        {
            if self.valid_chains[i] == chain {
                return true;
            }
            i += 1;
        }
        false
    }

    /// How many goals the state holds: the length that all three goal
    /// vectors share, or `None` where they do not share one.
    pub fn goal_count(&self) -> (r: Option<usize>)
        ensures
            r is Some <==> self.goal_positions.len() == self.goal_quats.len()
                && self.goal_positions.len() == self.tolerances.len(),
            r matches Some(n) ==> n == self.goal_positions.len(),
    {
        let n = self.goal_positions.len();
        if self.goal_quats.len() == n && self.tolerances.len() == n {
            Some(n)
        } else {
            None
        }
    }

    /// Replaces all goals and tolerances. The three vectors must be as
    /// long as the goal vectors that the state holds; otherwise the state
    /// is left as it is and the error is `GoalCount`.
    pub fn set_goals(
        &mut self,
        positions: Vec<Position<S>>,
        quats: Vec<Rotation<S>>,
        tolerances: Vec<Tolerance<S>>,
    ) -> (r: Result<(), InputError>)
        ensures
            r is Ok <==> positions.len() == old(self).goal_positions.len() && quats.len() == old(
                self,
            ).goal_quats.len() && tolerances.len() == old(self).tolerances.len(),
            r is Err ==> r == Err::<(), InputError>(InputError::GoalCount) && *final(self) == *old(
                self,
            ),
            old(self).wf() ==> final(self).wf(),
            r is Ok ==> {
                &&& final(self).goal_positions@ == positions@
                &&& final(self).goal_quats@ == quats@
                &&& final(self).tolerances@ == tolerances@
                &&& final(self).init_state == old(self).init_state
                &&& final(self).xopt == old(self).xopt
                &&& final(self).prev_state == old(self).prev_state
                &&& final(self).prev_state2 == old(self).prev_state2
                &&& final(self).prev_state3 == old(self).prev_state3
                &&& final(self).init_ee_positions == old(self).init_ee_positions
                &&& final(self).init_ee_quats == old(self).init_ee_quats
                &&& final(self).ee_only == old(self).ee_only
                &&& final(self).valid_chains == old(self).valid_chains
            },
    {
        if positions.len() != self.goal_positions.len() || quats.len() != self.goal_quats.len()
            || tolerances.len() != self.tolerances.len() {
            return Err(InputError::GoalCount);
        }
        self.goal_positions = positions;
        self.goal_quats = quats;
        self.tolerances = tolerances;
        Ok(())
    }
}

impl<S: Copy> RelaxedIKVars<S> {
    /// Goal `i`; `None` where one of the goal vectors has no entry `i`.
    pub fn goal(&self, i: usize) -> (r: Option<Goal<S>>)
        ensures
            r == self.spec_goal(i as int),
    {
        if i < self.goal_positions.len() && i < self.goal_quats.len() && i < self.tolerances.len() {
            Some(
                Goal {
                    position: self.goal_positions[i],
                    rotation: self.goal_quats[i],
                    tolerance: self.tolerances[i],
                },
            )
        } else {
            None
        }
    }

    /// Entry `i` of `x` together with the same entry one tick back, and
    /// two and three ticks back where the history holds them, `x` being
    /// the configuration one tick ahead of the current solution. `None`
    /// where `x` or the current solution has no entry `i`.
    pub fn motion_at(&self, x: &Vec<S>, i: usize) -> (r: Option<MotionSample<S>>)
        ensures
            r == self.spec_motion_at(x@, i as int),
    {
        if i < x.len() && i < self.xopt.len() {
            let prev2 = if i < self.prev_state.len() {
                Some(self.prev_state[i])
            } else {
                None
            };
            let prev3 = if i < self.prev_state2.len() {
                Some(self.prev_state2[i])
            } else {
                None
            };
            Some(MotionSample { now: x[i], prev: self.xopt[i], prev2, prev3 })
        } else {
            None
        }
    }

    /// The snapshot pose that the relative goal number `goal` is measured
    /// from.
    pub fn reference_pose(&self, layout: &RobotLayout, goal: usize) -> (r: Option<Pose<S>>)
        ensures
            r == self.spec_reference_pose(*layout, goal),
    {
        let chain = if self.ee_only {
            goal
        } else {
            match layout.joint_frame(goal) {
                Some((c, _)) => c,
                None => {
                    return None;
                },
            }
        };
        if chain < self.init_ee_positions.len() && chain < self.init_ee_quats.len() {
            Some(
                Pose {
                    position: self.init_ee_positions[chain],
                    rotation: self.init_ee_quats[chain],
                },
            )
        } else {
            None
        }
    }

    /// The configuration a host's reset request stands for: the requested
    /// one where it has `num_dofs` entries, and the starting configuration
    /// where the host named none or one of another length.
    pub fn reset_target(&self, requested: Option<Vec<S>>, num_dofs: usize) -> (r: Vec<S>)
        ensures
            r@ == match requested {
                Some(v) => if v@.len() == num_dofs {
                    v@
                } else {
                    self.init_state@
                },
                None => self.init_state@,
            },
    {
        match requested {
            Some(v) => {
                if v.len() == num_dofs {
                    v
                } else {
                    copy_vec(&self.init_state)
                }
            },
            None => copy_vec(&self.init_state),
        }
    }

    /// A state at rest at `starting_config`, with `ee_poses` the poses of
    /// the end effectors there and `goal_poses` the pose of every frame
    /// that has a goal: the end effectors again with `ee_only`, the frame
    /// of every degree of freedom without.
    pub fn new(
        starting_config: Vec<S>,
        ee_only: bool,
        ee_poses: &Vec<Pose<S>>,
        goal_poses: &Vec<Pose<S>>,
        zero: S,
    ) -> (r: Self)
        ensures
            r.is_fresh(starting_config@, ee_only, ee_poses@, goal_poses@, zero),
            r.wf(),
            r.has_dimension(starting_config@.len()),
    {
        let (init_ee_positions, init_ee_quats) = split_poses(ee_poses);
        let mut vars = RelaxedIKVars {
            init_state: copy_vec(&starting_config),
            xopt: copy_vec(&starting_config),
            prev_state: copy_vec(&starting_config),
            prev_state2: copy_vec(&starting_config),
            prev_state3: starting_config,
            goal_positions: Vec::new(),
            goal_quats: Vec::new(),
            tolerances: Vec::new(),
            init_ee_positions,
            init_ee_quats,
            ee_only,
            valid_chains: chain_range(ee_poses.len()),
        };
        vars.set_ee_only(ee_only, goal_poses, zero);
        vars
    }

    /// The state for a host's constructor data. `ee_poses` are the poses
    /// of the end effectors at the starting configuration, `goal_poses`
    /// the poses of the frames that have a goal there, and `num_dofs` the
    /// number of degrees of freedom of the robot that was loaded.
    ///
    /// The data is turned down where the two lists of links differ in
    /// length, where there is not one end-effector pose per chain, where
    /// the starting configuration has not one entry per degree of freedom,
    /// or where there is not one goal pose per goal of the mode, in this
    /// order.
    pub fn from_jsvalue(
        configs: &VarsConstructorData<S>,
        ee_poses: &Vec<Pose<S>>,
        goal_poses: &Vec<Pose<S>>,
        num_dofs: usize,
        zero: S,
    ) -> (r: Result<Self, ConfigError>)
        ensures
            match r {
                Ok(vars) => {
                    &&& config_verdict(
                        configs.base_links@.len(),
                        configs.ee_links@.len(),
                        ee_poses@.len(),
                        configs.starting_config@.len(),
                        num_dofs,
                        configs.ee_only,
                        goal_poses@.len(),
                    ) is None
                    &&& vars.is_fresh(
                        configs.starting_config@,
                        configs.ee_only,
                        ee_poses@,
                        goal_poses@,
                        zero,
                    )
                    &&& vars.wf()
                    &&& vars.has_dimension(num_dofs as nat)
                },
                Err(e) => config_verdict(
                    configs.base_links@.len(),
                    configs.ee_links@.len(),
                    ee_poses@.len(),
                    configs.starting_config@.len(),
                    num_dofs,
                    configs.ee_only,
                    goal_poses@.len(),
                ) == Some(e),
            },
    {
        if configs.base_links.len() != configs.ee_links.len() {
            return Err(ConfigError::ChainCountMismatch);
        }
        if ee_poses.len() != configs.base_links.len() {
            return Err(ConfigError::PoseCountMismatch);
        }
        if configs.starting_config.len() != num_dofs {
            return Err(ConfigError::StartingConfigLength);
        }
        let goals = if configs.ee_only {
            ee_poses.len()
        } else {
            num_dofs
        };
        if goal_poses.len() != goals {
            return Err(ConfigError::GoalPoseCount);
        }
        Ok(
            RelaxedIKVars::new(
                copy_vec(&configs.starting_config),
                configs.ee_only,
                ee_poses,
                goal_poses,
                zero,
            ),
        )
    }

    /// The state for a settings file. `starting_config` holds the scalars
    /// of the file's starting configuration where it gives one; where it
    /// gives none the state starts with every joint at `zero`.
    ///
    /// The settings are turned down on the same grounds and in the same
    /// order as in [`RelaxedIKVars::from_jsvalue`].
    pub fn from_local_settings(
        settings: &Settings,
        starting_config: Option<Vec<S>>,
        ee_poses: &Vec<Pose<S>>,
        goal_poses: &Vec<Pose<S>>,
        num_dofs: usize,
        zero: S,
    ) -> (r: Result<Self, ConfigError>)
        ensures
            match r {
                Ok(vars) => {
                    &&& config_verdict(
                        settings.base_links@.len(),
                        settings.ee_links@.len(),
                        ee_poses@.len(),
                        starting_or_zeros(starting_config, num_dofs as nat, zero).len(),
                        num_dofs,
                        settings.ee_only,
                        goal_poses@.len(),
                    ) is None
                    &&& vars.is_fresh(
                        starting_or_zeros(starting_config, num_dofs as nat, zero),
                        settings.ee_only,
                        ee_poses@,
                        goal_poses@,
                        zero,
                    )
                    &&& vars.wf()
                    &&& vars.has_dimension(num_dofs as nat)
                },
                Err(e) => config_verdict(
                    settings.base_links@.len(),
                    settings.ee_links@.len(),
                    ee_poses@.len(),
                    starting_or_zeros(starting_config, num_dofs as nat, zero).len(),
                    num_dofs,
                    settings.ee_only,
                    goal_poses@.len(),
                ) == Some(e),
            },
    {
        if settings.base_links.len() != settings.ee_links.len() {
            return Err(ConfigError::ChainCountMismatch);
        }
        if ee_poses.len() != settings.base_links.len() {
            return Err(ConfigError::PoseCountMismatch);
        }
        let start = match starting_config {
            Some(given) => given,
            None => filled(num_dofs, zero),
        };
        if start.len() != num_dofs {
            return Err(ConfigError::StartingConfigLength);
        }
        let goals = if settings.ee_only {
            ee_poses.len()
        } else {
            num_dofs
        };
        if goal_poses.len() != goals {
            return Err(ConfigError::GoalPoseCount);
        }
        Ok(RelaxedIKVars::new(start, settings.ee_only, ee_poses, goal_poses, zero))
    }

    /// Sets the whole history anew and takes `init_state` as both the
    /// current and the starting configuration; `ee_poses` are the poses
    /// of the end effectors at `init_state`. Goals, tolerances, mode and
    /// driven chains stay.
    pub fn reset(
        &mut self,
        prev_state3: Vec<S>,
        prev_state2: Vec<S>,
        prev_state: Vec<S>,
        init_state: Vec<S>,
        ee_poses: &Vec<Pose<S>>,
    )
        ensures
            final(self).prev_state3@ == prev_state3@,
            final(self).prev_state2@ == prev_state2@,
            final(self).prev_state@ == prev_state@,
            final(self).xopt@ == init_state@,
            final(self).init_state@ == init_state@,
            final(self).init_ee_positions@ == positions_of(ee_poses@),
            final(self).init_ee_quats@ == rotations_of(ee_poses@),
            old(self).wf() ==> final(self).wf(),
            final(self).goal_positions == old(self).goal_positions,
            final(self).goal_quats == old(self).goal_quats,
            final(self).tolerances == old(self).tolerances,
            final(self).ee_only == old(self).ee_only,
            final(self).valid_chains == old(self).valid_chains,
    {
        let (init_ee_positions, init_ee_quats) = split_poses(ee_poses);
        self.prev_state3 = prev_state3;
        self.prev_state2 = prev_state2;
        self.prev_state = prev_state;
        self.xopt = copy_vec(&init_state);
        self.init_state = init_state;
        self.init_ee_positions = init_ee_positions;
        self.init_ee_quats = init_ee_quats;
    }

    /// Comes to rest at `init_state`: the whole history, the current and
    /// the starting configuration all become `init_state`.
    pub fn reset_to(&mut self, init_state: Vec<S>, ee_poses: &Vec<Pose<S>>)
        ensures
            final(self).prev_state3@ == init_state@,
            final(self).prev_state2@ == init_state@,
            final(self).prev_state@ == init_state@,
            final(self).xopt@ == init_state@,
            final(self).init_state@ == init_state@,
            final(self).init_ee_positions@ == positions_of(ee_poses@),
            final(self).init_ee_quats@ == rotations_of(ee_poses@),
            old(self).wf() ==> final(self).wf(),
            final(self).goal_positions == old(self).goal_positions,
            final(self).goal_quats == old(self).goal_quats,
            final(self).tolerances == old(self).tolerances,
            final(self).ee_only == old(self).ee_only,
            final(self).valid_chains == old(self).valid_chains,
    {
        let oldest = copy_vec(&init_state);
        let older = copy_vec(&init_state);
        let old = copy_vec(&init_state);
        self.reset(oldest, older, old, init_state, ee_poses);
    }

    /// Picks the mode and snaps the goals to the poses the frames have
    /// now: `poses` holds the pose of every frame that has a goal in the
    /// mode, at the current configuration, which is one per chain with
    /// `ee_only` and one per degree of freedom without. Every tolerance
    /// becomes zero.
    pub fn set_ee_only(&mut self, ee_only: bool, poses: &Vec<Pose<S>>, zero: S)
        ensures
            final(self).ee_only == ee_only,
            final(self).goal_positions@ == positions_of(poses@),
            final(self).goal_quats@ == rotations_of(poses@),
            final(self).tolerances@ == repeated(poses@.len(), strict(zero)),
            final(self).goals_snapped(poses@, zero),
            old(self).wf() ==> final(self).wf(),
            final(self).init_state == old(self).init_state,
            final(self).xopt == old(self).xopt,
            final(self).prev_state == old(self).prev_state,
            final(self).prev_state2 == old(self).prev_state2,
            final(self).prev_state3 == old(self).prev_state3,
            final(self).init_ee_positions == old(self).init_ee_positions,
            final(self).init_ee_quats == old(self).init_ee_quats,
            final(self).valid_chains == old(self).valid_chains,
    {
        let (positions, quats) = split_poses(poses);
        self.ee_only = ee_only;
        self.goal_positions = positions;
        self.goal_quats = quats;
        self.tolerances = filled(poses.len(), Tolerance::splat(zero));
    }
}

/// A history after one more tick: `newest` in front, the oldest entry
/// dropped.
pub open spec fn shifted<S>(history: Seq<Seq<S>>, newest: Seq<S>) -> Seq<Seq<S>> {
    seq![newest] + history.drop_last()
}

/// A tick keeps the length of a history, and every earlier configuration
/// is found one place further back.
pub proof fn lemma_shift_moves_back<S>(history: Seq<Seq<S>>, newest: Seq<S>, i: int)
    requires
        0 <= i < history.len(),
    ensures
        shifted(history, newest).len() == history.len(),
        shifted(history, newest)[0] == newest,
        0 < i ==> shifted(history, newest)[i] == history[i - 1],
{
}

/// After three ticks a history of four holds the three new
/// configurations, newest first, and then what was current before them.
pub proof fn lemma_three_ticks<S>(history: Seq<Seq<S>>, a: Seq<S>, b: Seq<S>, c: Seq<S>)
    requires
        history.len() == 4,
    ensures
        shifted(shifted(shifted(history, a), b), c) == seq![c, b, a, history[0]],
{
}

/// The starting configuration that a settings file stands for: the one it
/// gives, or every joint at `zero`.
pub open spec fn starting_or_zeros<S>(given: Option<Vec<S>>, num_dofs: nat, zero: S) -> Seq<S> {
    match given {
        Some(v) => v@,
        None => repeated(num_dofs, zero),
    }
}

/// The verdict on the sizes a state is built from: the first mismatch, if
/// there is one. There must be one goal pose per chain with `ee_only` and
/// one per degree of freedom without.
pub open spec fn config_verdict(
    base_links: nat,
    ee_links: nat,
    poses: nat,
    starting_config: nat,
    num_dofs: usize,
    ee_only: bool,
    goal_poses: nat,
) -> Option<ConfigError> {
    if base_links != ee_links {
        Some(ConfigError::ChainCountMismatch)
    } else if poses != base_links {
        Some(ConfigError::PoseCountMismatch)
    } else if starting_config != num_dofs {
        Some(ConfigError::StartingConfigLength)
    } else if goal_poses != (if ee_only {
        poses
    } else {
        num_dofs as nat
    }) {
        Some(ConfigError::GoalPoseCount)
    } else {
        None
    }
}

} // verus!
