use relaxed_ik::frames::{
    end_effector, end_effectors, joint_frames, joint_goal_poses, joint_pose,
};
use relaxed_ik::geometry::{copy_vec, filled, flatten_poses, Pose, Position, Rotation, Tolerance};
use relaxed_ik::layout::{
    count_actuated, dof_count, find_actuated, largest_index, locate_dof, JointKind, LayoutError,
    RobotLayout,
};

fn pose(seed: f64) -> Pose<f64> {
    Pose {
        position: Position { x: seed, y: seed + 0.1, z: seed + 0.2 },
        rotation: Rotation { w: seed + 0.3, i: seed + 0.4, j: seed + 0.5, k: seed + 0.6 },
    }
}

fn flat(seed: f64) -> Vec<f64> {
    vec![seed, seed + 0.1, seed + 0.2, seed + 0.3, seed + 0.4, seed + 0.5, seed + 0.6]
}

fn kinds() -> Vec<JointKind> {
    vec![
        JointKind::Fixed,
        JointKind::Revolute,
        JointKind::Fixed,
        JointKind::Prismatic,
        JointKind::Revolute,
        JointKind::Fixed,
    ]
}

fn bimanual() -> RobotLayout {
    RobotLayout::new(
        vec![vec![0, 1, 2], vec![0, 3]],
        vec![kinds(), vec![JointKind::Revolute, JointKind::Fixed, JointKind::Prismatic]],
        4,
    )
    .unwrap()
}

fn bimanual_frames() -> Vec<Vec<Pose<f64>>> {
    vec![
        vec![pose(10.0), pose(11.0), pose(12.0), pose(13.0), pose(14.0), pose(15.0)],
        vec![pose(20.0), pose(21.0), pose(22.0)],
    ]
}

#[test]
fn joint_names_map_to_kinds() {
    assert_eq!(JointKind::from_name("fixed"), JointKind::Fixed);
    assert_eq!(JointKind::from_name("prismatic"), JointKind::Prismatic);
    assert_eq!(JointKind::from_name("revolute"), JointKind::Revolute);
    assert_eq!(JointKind::from_name("continuous"), JointKind::Revolute);
    assert_eq!(JointKind::from_name("Fixed"), JointKind::Revolute);
    assert_eq!(JointKind::from_name(""), JointKind::Revolute);
    assert!(!JointKind::Fixed.is_actuated());
    assert!(JointKind::Prismatic.is_actuated());
    assert!(JointKind::Revolute.is_actuated());
}

#[test]
fn actuated_joints_are_found_past_fixed_ones() {
    let k = kinds();
    assert_eq!(count_actuated(&k), 3);
    assert_eq!(find_actuated(&k, 0), Some(1));
    assert_eq!(find_actuated(&k, 1), Some(3));
    assert_eq!(find_actuated(&k, 2), Some(4));
    assert_eq!(find_actuated(&k, 3), None);
    assert_eq!(find_actuated(&vec![], 0), None);
    assert_eq!(count_actuated(&vec![JointKind::Fixed]), 0);
}

#[test]
fn a_degree_of_freedom_is_located_at_its_first_place() {
    let chains = vec![vec![4, 5], vec![5, 6, 4], vec![]];
    assert_eq!(locate_dof(&chains, 4), Some((0, 0)));
    assert_eq!(locate_dof(&chains, 5), Some((0, 1)));
    assert_eq!(locate_dof(&chains, 6), Some((1, 1)));
    assert_eq!(locate_dof(&chains, 7), None);
    assert_eq!(locate_dof(&[], 0), None);
}

#[test]
fn degrees_of_freedom_span_to_the_largest_index() {
    assert_eq!(largest_index(&[vec![0, 5, 2], vec![3]]), Some(5));
    assert_eq!(dof_count(&[vec![0, 5, 2], vec![3]]), Some(6));
    assert_eq!(largest_index(&[vec![], vec![]]), None);
    assert_eq!(dof_count(&[vec![], vec![]]), Some(0));
    assert_eq!(dof_count(&[]), Some(0));
    assert_eq!(dof_count(&[vec![0]]), Some(1));
    assert_eq!(largest_index(&[vec![usize::MAX]]), Some(usize::MAX));
    assert_eq!(dof_count(&[vec![1, usize::MAX]]), None);
}

#[test]
fn layout_is_turned_down_for_each_reason() {
    let r = RobotLayout::new(vec![vec![0]], vec![], 1);
    assert_eq!(r.err(), Some(LayoutError::ChainCountMismatch));
    let r = RobotLayout::new(vec![vec![0, 1]], vec![vec![JointKind::Revolute]], 2);
    assert_eq!(r.err(), Some(LayoutError::JointCountMismatch));
    let r = RobotLayout::new(vec![vec![0, 2]], vec![vec![JointKind::Revolute; 2]], 2);
    assert_eq!(r.err(), Some(LayoutError::IndexOutOfRange));
    let r = RobotLayout::new(
        vec![vec![9], vec![0, 1]],
        vec![vec![JointKind::Revolute], vec![JointKind::Revolute]],
        2,
    );
    assert_eq!(r.err(), Some(LayoutError::JointCountMismatch));
}

#[test]
fn layout_gives_back_what_it_was_built_from() {
    let l = bimanual();
    assert_eq!(l.num_chains(), 2);
    assert_eq!(l.num_dofs(), 4);
    assert_eq!(l.chain_indices(), &vec![vec![0, 1, 2], vec![0, 3]]);
    assert_eq!(l.joint_kinds()[0], kinds());
}

#[test]
fn joint_frame_skips_fixed_joints() {
    let l = bimanual();
    assert_eq!(l.joint_frame(0), Some((0, 1)));
    assert_eq!(l.joint_frame(1), Some((0, 3)));
    assert_eq!(l.joint_frame(2), Some((0, 4)));
    assert_eq!(l.joint_frame(3), Some((1, 2)));
    assert_eq!(l.joint_frame(4), None);
    assert_eq!(l.dof_kind(1), Some(JointKind::Prismatic));
    assert_eq!(l.dof_kind(2), Some(JointKind::Revolute));
    assert_eq!(l.dof_kind(3), Some(JointKind::Prismatic));
    assert_eq!(l.dof_kind(4), None);
}

#[test]
fn end_effector_is_the_last_link() {
    let f = bimanual_frames();
    assert_eq!(end_effector(&f, 0), Some(pose(15.0)));
    assert_eq!(end_effector(&f, 1), Some(pose(22.0)));
    assert_eq!(end_effector(&f, 2), None);
    assert_eq!(end_effectors(&f), Some(vec![pose(15.0), pose(22.0)]));
    let with_empty: Vec<Vec<Pose<f64>>> = vec![vec![pose(1.0)], vec![]];
    assert_eq!(end_effector(&with_empty, 1), None);
    assert_eq!(end_effectors(&with_empty), None);
}

#[test]
fn joint_pose_is_the_frame_of_the_joint() {
    let l = bimanual();
    let f = bimanual_frames();
    assert_eq!(joint_pose(&l, &f, 1), Some(pose(13.0)));
    assert_eq!(joint_pose(&l, &f, 3), Some(pose(22.0)));
    assert_eq!(joint_pose(&l, &f, 4), None);
    let short = vec![vec![pose(10.0), pose(11.0)], vec![pose(20.0)]];
    assert_eq!(joint_pose(&l, &short, 0), Some(pose(11.0)));
    assert_eq!(joint_pose(&l, &short, 1), None);
}

#[test]
fn joint_frames_lists_every_joint_in_order() {
    let l = bimanual();
    let mut expected = Vec::new();
    for seed in [11.0, 13.0, 14.0, 22.0] {
        expected.extend(flat(seed));
    }
    assert_eq!(joint_frames(&l, &bimanual_frames()), Some(expected));
}

#[test]
fn joint_frames_passes_over_joints_on_no_chain() {
    let l = RobotLayout::new(vec![vec![2]], vec![vec![JointKind::Fixed, JointKind::Revolute]], 4)
        .unwrap();
    let f = vec![vec![pose(1.0), pose(2.0)]];
    assert_eq!(joint_frames(&l, &f), Some(flat(2.0)));
}

#[test]
fn joint_frames_needs_every_frame() {
    let l = bimanual();
    let short = vec![vec![pose(10.0), pose(11.0)], vec![pose(20.0), pose(21.0), pose(22.0)]];
    assert_eq!(joint_frames(&l, &short), None);
    let no_second: Vec<Vec<Pose<f64>>> = vec![bimanual_frames()[0].clone()];
    assert_eq!(joint_frames(&l, &no_second), None);
}

#[test]
fn goal_poses_hold_one_pose_per_degree_of_freedom() {
    let l = bimanual();
    assert_eq!(
        joint_goal_poses(&l, &bimanual_frames(), pose(0.0)),
        Some(vec![pose(11.0), pose(13.0), pose(14.0), pose(22.0)])
    );
    let spare = RobotLayout::new(
        vec![vec![2]],
        vec![vec![JointKind::Fixed, JointKind::Revolute]],
        4,
    )
    .unwrap();
    let f = vec![vec![pose(1.0), pose(2.0)]];
    assert_eq!(
        joint_goal_poses(&spare, &f, pose(9.0)),
        Some(vec![pose(9.0), pose(9.0), pose(2.0), pose(9.0)])
    );
    let short = vec![vec![pose(1.0)]];
    assert_eq!(joint_goal_poses(&spare, &short, pose(9.0)), None);
    assert_eq!(joint_goal_poses(&l, &vec![], pose(9.0)), None);
}

#[test]
fn poses_flatten_scalar_part_first() {
    let p = Pose {
        position: Position { x: 1.0, y: 2.0, z: 3.0 },
        rotation: Rotation { w: 4.0, i: 5.0, j: 6.0, k: 7.0 },
    };
    assert_eq!(flatten_poses(&vec![p]), vec![1.0, 2.0, 3.0, 4.0, 5.0, 6.0, 7.0]);
    let mut both = flat(1.0);
    both.extend(flat(2.0));
    assert_eq!(flatten_poses(&vec![pose(1.0), pose(2.0)]), both);
    assert_eq!(flatten_poses(&Vec::<Pose<f64>>::new()), Vec::<f64>::new());
    let mut out = vec![9.0];
    p.append_flat(&mut out);
    assert_eq!(out, vec![9.0, 1.0, 2.0, 3.0, 4.0, 5.0, 6.0, 7.0]);
}

#[test]
fn components_are_picked_by_axis() {
    let p = Position::new(1.0, 2.0, 3.0);
    assert_eq!(p, Position { x: 1.0, y: 2.0, z: 3.0 });
    let t = Tolerance { tx: 1.0, ty: 2.0, tz: 3.0, rx: 4.0, ry: 5.0, rz: 6.0 };
    assert_eq!(t.translational(1), Some(2.0));
    assert_eq!(t.rotational(0), Some(4.0));
    assert_eq!(t.rotational(2), Some(6.0));
    assert_eq!(t.translational(3), None);
    assert_eq!(t.rotational(3), None);
    assert_eq!(Tolerance::splat(0.5).rz, 0.5);
    assert_eq!(Rotation::new(1.0, 0.0, 0.0, 0.0), Rotation { w: 1.0, i: 0.0, j: 0.0, k: 0.0 });
    assert_eq!(Pose::new(p, Rotation::new(1.0, 0.0, 0.0, 0.0)).position, p);
}

#[test]
fn vectors_are_copied_and_filled() {
    assert_eq!(copy_vec(&vec![1.5, 2.5]), vec![1.5, 2.5]);
    assert_eq!(copy_vec(&Vec::<f64>::new()), Vec::<f64>::new());
    assert_eq!(filled(3, 0.25), vec![0.25, 0.25, 0.25]);
    assert_eq!(filled(0, 0.25), Vec::<f64>::new());
}
