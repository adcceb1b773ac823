use relaxed_ik::frames::link_pose;
use relaxed_ik::geometry::{Pose, Position, Rotation, Tolerance};
use relaxed_ik::layout::{JointKind, RobotLayout};
use relaxed_ik::objective::{
    lite_operands, EachJointLimits, GradientMode, LinkPair, MatchEEPosGoals,
    MatchEEPosiDoF, MatchEEQuatGoals, MatchEERotaDoF, MatchJointPosiDoF, Objective,
    PositionOperands, RotationOperands, SelfCollision,
};
use relaxed_ik::vars::RelaxedIKVars;

fn pose(seed: f64) -> Pose<f64> {
    Pose {
        position: Position { x: seed, y: seed + 0.1, z: seed + 0.2 },
        rotation: Rotation { w: seed + 0.3, i: seed + 0.4, j: seed + 0.5, k: seed + 0.6 },
    }
}

fn two_chain_frames() -> Vec<Vec<Pose<f64>>> {
    vec![vec![pose(1.0), pose(2.0), pose(3.0)], vec![pose(4.0), pose(5.0)]]
}

fn state() -> RelaxedIKVars<f64> {
    let ee = vec![pose(10.0), pose(20.0)];
    let mut vars = RelaxedIKVars::new(vec![0.0, 0.0, 0.0], true, &ee, &ee, 0.0);
    vars.tolerances[1] = Tolerance { tx: 0.01, ty: 0.02, tz: 0.03, rx: 0.04, ry: 0.05, rz: 0.06 };
    vars
}

#[test]
fn constructors_keep_their_arguments() {
    let a = MatchEEPosiDoF::new(1, 2);
    assert_eq!((a.arm_idx, a.axis), (1, 2));
    let b = MatchEERotaDoF::new(3, 0);
    assert_eq!((b.arm_idx, b.axis), (3, 0));
    let c = MatchJointPosiDoF::new(5, 1);
    assert_eq!((c.joint_idx, c.axis), (5, 1));
    let d = SelfCollision::new(0, 1, 2, 3);
    assert_eq!((d.first_arm, d.second_arm, d.first_link, d.second_link), (0, 1, 2, 3));
    let e = EachJointLimits::new(4);
    assert_eq!(e.joint_idx, 4);
    let f = MatchEEPosGoals::new(7);
    assert_eq!(f.arm_idx, 7);
    let g = MatchEEQuatGoals::new(8);
    assert_eq!(g.arm_idx, 8);
}

#[test]
fn every_shipped_term_is_differentiated_numerically() {
    let terms = vec![
        Objective::MatchEEPosiDoF(MatchEEPosiDoF::new(0, 0)),
        Objective::EachJointLimits(EachJointLimits::new(0)),
        Objective::MatchEEQuatGoals(MatchEEQuatGoals::new(0)),
    ];
    for t in terms.iter() {
        assert_eq!(t.gradient_type(), GradientMode::FiniteDiff);
    }
}

#[test]
fn position_term_reads_end_effector_goal_and_band() {
    let got = MatchEEPosiDoF::new(1, 2).operands(&state(), &two_chain_frames());
    assert_eq!(
        got,
        Some(PositionOperands {
            frame: pose(5.0).position,
            goal_position: pose(20.0).position,
            goal_rotation: pose(20.0).rotation,
            bound: 0.03,
        })
    );
}

#[test]
fn position_term_has_no_operands_out_of_range() {
    let vars = state();
    let frames = two_chain_frames();
    assert_eq!(MatchEEPosiDoF::new(2, 0).operands(&vars, &frames), None);
    assert_eq!(MatchEEPosiDoF::new(0, 3).operands(&vars, &frames), None);
    let empty: Vec<Vec<Pose<f64>>> = vec![vec![], vec![pose(1.0)]];
    assert_eq!(MatchEEPosiDoF::new(0, 0).operands(&vars, &empty), None);
}

#[test]
fn rotation_term_reads_rotational_band() {
    let got = MatchEERotaDoF::new(1, 0).operands(&state(), &two_chain_frames());
    assert_eq!(
        got,
        Some(RotationOperands {
            frame: pose(5.0).rotation,
            goal: pose(20.0).rotation,
            bound: 0.04,
        })
    );
    assert_eq!(MatchEERotaDoF::new(1, 3).operands(&state(), &two_chain_frames()), None);
}

#[test]
fn joint_term_reads_the_frame_of_its_joint() {
    let layout = RobotLayout::new(
        vec![vec![0, 1], vec![2]],
        vec![
            vec![JointKind::Fixed, JointKind::Revolute, JointKind::Prismatic],
            vec![JointKind::Revolute, JointKind::Fixed],
        ],
        3,
    )
    .unwrap();
    let mut vars = state();
    vars.set_ee_only(false, &vec![pose(30.0), pose(31.0), pose(32.0)], 0.0);
    vars.tolerances[1] = Tolerance { tx: 0.5, ty: 0.6, tz: 0.7, rx: 0.0, ry: 0.0, rz: 0.0 };
    let got = MatchJointPosiDoF::new(1, 1).operands(&layout, &vars, &two_chain_frames());
    assert_eq!(
        got,
        Some(PositionOperands {
            frame: pose(3.0).position,
            goal_position: pose(31.0).position,
            goal_rotation: pose(31.0).rotation,
            bound: 0.6,
        })
    );
    assert_eq!(MatchJointPosiDoF::new(7, 0).operands(&layout, &vars, &two_chain_frames()), None);
}

#[test]
fn collision_term_reads_both_links_and_their_shapes() {
    let got = SelfCollision::new(0, 1, 2, 0).operands(&two_chain_frames());
    assert_eq!(
        got,
        Some(LinkPair { first: pose(3.0), second: pose(4.0), first_shape: 3, second_shape: 1 })
    );
    assert_eq!(SelfCollision::new(0, 1, 3, 0).operands(&two_chain_frames()), None);
    assert_eq!(SelfCollision::new(0, 2, 0, 0).operands(&two_chain_frames()), None);
}

#[test]
fn link_pose_is_none_outside_the_frames() {
    assert_eq!(link_pose(&two_chain_frames(), 1, 1), Some(pose(5.0)));
    assert_eq!(link_pose(&two_chain_frames(), 1, 2), None);
    assert_eq!(link_pose(&two_chain_frames(), 2, 0), None);
}

#[test]
fn joint_limit_term_reads_its_coordinate() {
    let x = vec![0.5, -0.25, 1.5];
    assert_eq!(EachJointLimits::new(1).operand(&x), Some(-0.25));
    assert_eq!(EachJointLimits::new(3).operand(&x), None);
}

#[test]
fn goal_terms_read_end_effector_and_goal() {
    let vars = state();
    let frames = two_chain_frames();
    assert_eq!(
        MatchEEPosGoals::new(0).operands(&vars, &frames),
        Some((pose(3.0).position, pose(10.0).position))
    );
    assert_eq!(
        MatchEEQuatGoals::new(1).operands(&vars, &frames),
        Some((pose(5.0).rotation, pose(20.0).rotation))
    );
    assert_eq!(MatchEEPosGoals::new(2).operands(&vars, &frames), None);
    assert_eq!(MatchEEQuatGoals::new(2).operands(&vars, &frames), None);
}

#[test]
fn cheap_mode_reads_pose_and_goal_of_one_index() {
    let vars = state();
    let ee = vec![pose(7.0), pose(8.0)];
    assert_eq!(lite_operands(&vars, &ee, 1), Some((pose(8.0), pose(20.0))));
    assert_eq!(lite_operands(&vars, &ee, 2), None);
    let short = vec![pose(7.0)];
    assert_eq!(lite_operands(&vars, &short, 1), None);
}
