//! Reading the forward-kinematics output: per chain, the pose of every
//! link from base to tip.

use crate::geometry::Pose;
use crate::layout::RobotLayout;
use vstd::prelude::*;

verus! {

/// The pose of link `link` of chain `arm`, where `frames` holds it.
pub open spec fn spec_link_pose<S>(frames: Seq<Vec<Pose<S>>>, arm: int, link: int) -> Option<
    Pose<S>,
> {
    if 0 <= arm < frames.len() && 0 <= link < frames[arm].len() {
        Some(frames[arm][link])
    } else {
        None
    }
}

/// The pose of link `link` of chain `arm`; `None` where `frames` has no
/// such chain or the chain no such link.
pub fn link_pose<S: Copy>(frames: &Vec<Vec<Pose<S>>>, arm: usize, link: usize) -> (r: Option<
    Pose<S>,
>)
    ensures
        r == spec_link_pose(frames@, arm as int, link as int),
{
    if arm < frames.len() && link < frames[arm].len() {
        Some(frames[arm][link])
    } else {
        None
    }
}

/// The pose of the last link of `chain`, if the chain exists and has a link.
pub open spec fn spec_end_effector<S>(frames: Seq<Vec<Pose<S>>>, chain: int) -> Option<Pose<S>> {
    if 0 <= chain < frames.len() && frames[chain].len() > 0 {
        Some(frames[chain][frames[chain].len() - 1])
    } else {
        None
    }
}

/// The pose of the last link of `chain`; `None` where `frames` has no such
/// chain or the chain has no link.
pub fn end_effector<S: Copy>(frames: &Vec<Vec<Pose<S>>>, chain: usize) -> (r: Option<Pose<S>>)
    ensures
        r == spec_end_effector(frames@, chain as int),
{
    if chain < frames.len() {
        let n = frames[chain].len();
        if n > 0 {
            return Some(frames[chain][n - 1]);
        }
    }
    None
}

/// The end-effector pose of every chain, in chain order; `None` where some
/// chain has no link.
pub fn end_effectors<S: Copy>(frames: &Vec<Vec<Pose<S>>>) -> (r: Option<Vec<Pose<S>>>)
    ensures
        r is Some <==> forall|c: int| 0 <= c < frames.len() ==> #[trigger] frames[c].len() > 0,
        r matches Some(poses) ==> {
            &&& poses.len() == frames.len()
            &&& forall|c: int|
                0 <= c < frames.len() ==> spec_end_effector(frames@, c) == Some(#[trigger] poses[c])
        },
{
    let mut out: Vec<Pose<S>> = Vec::new();
    let mut c: usize = 0;
    while c < frames.len()
        invariant
            c <= frames.len(),
            out.len() == c,
            forall|c2: int| 0 <= c2 < c ==> #[trigger] frames[c2].len() > 0,
            forall|c2: int| 0 <= c2 < c ==> spec_end_effector(frames@, c2) == Some(#[trigger] out[c2]),
        decreases frames.len() - c,
    {
        match end_effector(frames, c) {
            Some(pose) => {
                out.push(pose);
            },
            None => {
                return None;
            },
        }
        c += 1;
    }
    Some(out)
}

/// The pose of the frame of degree of freedom `dof`: `None` where no chain
/// holds `dof` or `frames` lacks that frame.
pub open spec fn spec_joint_pose<S>(
    layout: RobotLayout,
    frames: Seq<Vec<Pose<S>>>,
    dof: usize,
) -> Option<Pose<S>> {
    match layout.spec_joint_frame(dof) {
        Some(f) => if f.0 < frames.len() && f.1 < frames[f.0].len() {
            Some(frames[f.0][f.1])
        } else {
            None
        },
        None => None,
    }
}

/// The pose of the frame of degree of freedom `dof`.
pub fn joint_pose<S: Copy>(layout: &RobotLayout, frames: &Vec<Vec<Pose<S>>>, dof: usize) -> (r:
    Option<Pose<S>>)
    ensures
        r == spec_joint_pose(*layout, frames@, dof),
{
    match layout.joint_frame(dof) {
        Some((c, k)) => {
            if c < frames.len() && k < frames[c].len() {
                Some(frames[c][k])
            } else {
                None
            }
        },
        None => None,
    }
}

/// Every degree of freedom below `n` that some chain holds has its frame
/// in `frames`.
pub open spec fn frames_cover<S>(layout: RobotLayout, frames: Seq<Vec<Pose<S>>>, n: int) -> bool {
    forall|dof: usize|
        dof < n && #[trigger] layout.spec_joint_frame(dof) is Some ==> spec_joint_pose(
            layout,
            frames,
            dof,
        ) is Some
}

/// The joint poses of the degrees of freedom below `n`, in order and seven
/// scalars each; a degree of freedom that no chain holds adds nothing.
pub open spec fn gathered_joint_poses<S>(
    layout: RobotLayout,
    frames: Seq<Vec<Pose<S>>>,
    n: nat,
) -> Seq<S>
    decreases n,
{
    if n == 0 {
        Seq::empty()
    } else {
        gathered_joint_poses(layout, frames, (n - 1) as nat) + match spec_joint_pose(
            layout,
            frames,
            (n - 1) as usize,
        ) {
            Some(pose) => pose.flat(),
            None => Seq::empty(),
        }
    }
}

/// The pose of the frame of every degree of freedom, in the order of the
/// configuration vector, seven scalars each as [`Pose::flat`] lays them
/// out. A degree of freedom that no chain holds is passed over. `None`
/// where `frames` lacks the frame of one that a chain does hold.
pub fn joint_frames<S: Copy>(layout: &RobotLayout, frames: &Vec<Vec<Pose<S>>>) -> (r: Option<
    Vec<S>,
>)
    ensures
        r is Some <==> frames_cover(*layout, frames@, layout.dofs() as int),
        r matches Some(out) ==> out@ == gathered_joint_poses(
            *layout,
            frames@,
            layout.dofs() as nat,
        ),
{
    let n = layout.num_dofs();
    let mut out: Vec<S> = Vec::new();
    let mut dof: usize = 0;
    while dof < n
        invariant
            dof <= n,
            n == layout.dofs(),
            frames_cover(*layout, frames@, dof as int),
            out@ == gathered_joint_poses(*layout, frames@, dof as nat),
        decreases n - dof,
    {
        match layout.joint_frame(dof) {
            Some((c, k)) => {
                if c < frames.len() && k < frames[c].len() {
                    frames[c][k].append_flat(&mut out);
                } else {
                    return None;
                }
            },
            None => {
            },
        }
        dof += 1;
    }
    Some(out)
}

/// The pose that the goal of degree of freedom `dof` snaps to: the pose of
/// its frame, and `fallback` where no chain holds it.
pub open spec fn spec_joint_goal_pose<S>(
    layout: RobotLayout,
    frames: Seq<Vec<Pose<S>>>,
    dof: usize,
    fallback: Pose<S>,
) -> Pose<S> {
    match spec_joint_pose(layout, frames, dof) {
        Some(pose) => pose,
        None => fallback,
    }
}

/// One pose per degree of freedom, in the order of the configuration
/// vector: the pose of its frame, and `fallback` for a degree of freedom
/// that no chain holds. `None` where `frames` lacks the frame of one that
/// a chain does hold.
pub fn joint_goal_poses<S: Copy>(
    layout: &RobotLayout,
    frames: &Vec<Vec<Pose<S>>>,
    fallback: Pose<S>,
) -> (r: Option<Vec<Pose<S>>>)
    ensures
        r is Some <==> frames_cover(*layout, frames@, layout.dofs() as int),
        r matches Some(out) ==> out@ == Seq::new(
            layout.dofs() as nat,
            |d: int| spec_joint_goal_pose(*layout, frames@, d as usize, fallback),
        ),
{
    let n = layout.num_dofs();
    let mut out: Vec<Pose<S>> = Vec::new();
    let mut dof: usize = 0;
    while dof < n
        invariant
            dof <= n,
            n == layout.dofs(),
            frames_cover(*layout, frames@, dof as int),
            out@ == Seq::new(
                dof as nat,
                |d: int| spec_joint_goal_pose(*layout, frames@, d as usize, fallback),
            ),
        decreases n - dof,
    {
        match layout.joint_frame(dof) {
            Some((c, k)) => {
                if c < frames.len() && k < frames[c].len() {
                    out.push(frames[c][k]);
                } else {
                    proof {
                        assert(layout.spec_joint_frame(dof) is Some);
                        assert(spec_joint_pose(*layout, frames@, dof) is None);
                    }
                    return None;
                }
            },
            None => {
                out.push(fallback);
            },
        }
        dof += 1;
    }
    Some(out)
}

} // verus!
