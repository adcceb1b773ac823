use relaxed_ik::geometry::{Pose, Position, Rotation};
use relaxed_ik::gradient::{build_schedule, collect_finite_diff, Step, Term};
use relaxed_ik::layout::{JointKind, RobotLayout};
use relaxed_ik::objective::{
    EachJointLimits, GradientMode, MatchEEPosGoals, MatchEEPosiDoF, MatchEEQuatGoals,
    MatchEERotaDoF, MatchJointPosiDoF, MaximizeManipulability, MinimizeAcceleration, MinimizeJerk,
    MinimizeVelocity, Objective, SelfCollision,
};
use relaxed_ik::objective_master::{
    ObjectiveMaster, StepSize, Weight, SUM_STEP_ONE_OVER, TERM_STEP_ONE_OVER,
};
use relaxed_ik::vars::RelaxedIKVars;

fn w(numerator: u32, denominator: u32) -> Weight {
    Weight { numerator, denominator }
}

fn pose() -> Pose<f64> {
    Pose {
        position: Position { x: 0.0, y: 0.0, z: 0.0 },
        rotation: Rotation { w: 1.0, i: 0.0, j: 0.0, k: 0.0 },
    }
}

fn layout() -> RobotLayout {
    RobotLayout::new(
        vec![vec![0, 1], vec![2]],
        vec![vec![JointKind::Revolute, JointKind::Revolute], vec![JointKind::Revolute]],
        3,
    )
    .unwrap()
}

fn vars() -> RelaxedIKVars<f64> {
    RelaxedIKVars::new(vec![0.0; 3], true, &vec![pose(), pose()], &vec![pose(), pose()], 0.0)
}

fn frames_steps(steps: &[Step]) -> usize {
    steps.iter().filter(|s| matches!(s, Step::Frames { .. })).count()
}

#[test]
fn weights_must_be_positive() {
    assert_eq!(Weight::new(1, 10), Some(w(1, 10)));
    assert_eq!(Weight::new(0, 10), None);
    assert_eq!(Weight::new(1, 0), None);
}

#[test]
fn plain_set_has_two_terms_per_chain() {
    let m = ObjectiveMaster::standard_ik(2);
    assert_eq!(
        m.objectives,
        vec![
            Objective::MatchEEPosGoals(MatchEEPosGoals::new(0)),
            Objective::MatchEEQuatGoals(MatchEEQuatGoals::new(0)),
            Objective::MatchEEPosGoals(MatchEEPosGoals::new(1)),
            Objective::MatchEEQuatGoals(MatchEEQuatGoals::new(1)),
        ]
    );
    assert_eq!(m.weight_priors, vec![w(1, 1); 4]);
    assert_eq!(m.num_chains, 2);
    assert!(m.lite);
    assert!(m.finite_diff_grad);
}

#[test]
fn plain_set_for_no_chain_is_empty() {
    let m = ObjectiveMaster::standard_ik(0);
    assert!(m.objectives.is_empty());
    assert!(m.weight_priors.is_empty());
}

#[test]
fn relaxed_set_has_six_terms_per_chain_and_one_per_joint() {
    let m = ObjectiveMaster::relaxed_ik(&[vec![0, 1], vec![2]]);
    let mut expected = Vec::new();
    for chain in 0..2 {
        for axis in 0..3 {
            expected.push(Objective::MatchEEPosiDoF(MatchEEPosiDoF::new(chain, axis)));
        }
        for axis in 0..3 {
            expected.push(Objective::MatchEERotaDoF(MatchEERotaDoF::new(chain, axis)));
        }
    }
    for joint in 0..3 {
        expected.push(Objective::EachJointLimits(EachJointLimits::new(joint)));
    }
    assert_eq!(m.objectives, expected);
    let mut weights = vec![w(50, 1); 12];
    weights.extend(vec![w(1, 10); 3]);
    assert_eq!(m.weight_priors, weights);
    assert_eq!(m.num_chains, 2);
    assert!(!m.lite);
    assert!(!m.finite_diff_grad);
}

#[test]
fn relaxed_set_counts_joints_by_the_largest_index() {
    let m = ObjectiveMaster::relaxed_ik(&[vec![4]]);
    assert_eq!(m.objectives.len(), 6 + 5);
    assert_eq!(m.objectives[10], Objective::EachJointLimits(EachJointLimits::new(4)));
    let idle = ObjectiveMaster::relaxed_ik(&[vec![], vec![0]]);
    assert_eq!(idle.objectives.len(), 12 + 1);
    assert_eq!(idle.num_chains, 2);
}

#[test]
fn optional_terms_are_appended_with_their_weights() {
    let m = ObjectiveMaster::standard_ik(1).with_smoothness().with_manipulability();
    assert_eq!(
        m.objectives[2..],
        [
            Objective::MinimizeVelocity(MinimizeVelocity),
            Objective::MinimizeAcceleration(MinimizeAcceleration),
            Objective::MinimizeJerk(MinimizeJerk),
            Objective::MaximizeManipulability(MaximizeManipulability),
        ]
    );
    assert_eq!(m.weight_priors[2..], [w(7, 10), w(1, 2), w(3, 10), w(1, 1)]);
    assert!(m.lite);
    let pairs = vec![SelfCollision::new(0, 1, 2, 3), SelfCollision::new(1, 0, 0, 0)];
    let m = ObjectiveMaster::standard_ik(0).with_self_collision(&pairs);
    assert_eq!(
        m.objectives,
        vec![Objective::SelfCollision(pairs[0]), Objective::SelfCollision(pairs[1])]
    );
    assert_eq!(m.weight_priors, vec![w(1, 100); 2]);
}

#[test]
fn schedule_shares_frames_among_numeric_terms() {
    let terms = vec![
        Term { objective: 0, mode: GradientMode::FiniteDiff },
        Term { objective: 1, mode: GradientMode::Analytic },
        Term { objective: 4, mode: GradientMode::FiniteDiff },
    ];
    assert_eq!(collect_finite_diff(&terms), vec![0, 4]);
    let steps = build_schedule(&terms, 2);
    assert_eq!(
        steps,
        vec![
            Step::Frames { perturbed: None },
            Step::Value { objective: 0 },
            Step::Analytic { objective: 1 },
            Step::Value { objective: 4 },
            Step::Frames { perturbed: Some(0) },
            Step::Perturbed { objective: 0, dim: 0 },
            Step::Perturbed { objective: 4, dim: 0 },
            Step::Frames { perturbed: Some(1) },
            Step::Perturbed { objective: 0, dim: 1 },
            Step::Perturbed { objective: 4, dim: 1 },
        ]
    );
    assert_eq!(frames_steps(&steps), 3);
}

#[test]
fn schedule_without_numeric_terms_needs_frames_once() {
    let terms = vec![Term { objective: 3, mode: GradientMode::Analytic }];
    let steps = build_schedule(&terms, 6);
    assert_eq!(
        steps,
        vec![Step::Frames { perturbed: None }, Step::Analytic { objective: 3 }]
    );
    assert_eq!(build_schedule(&vec![], 6), vec![Step::Frames { perturbed: None }]);
}

#[test]
fn schedule_length_grows_with_dimensions_not_with_frames_per_term() {
    let terms: Vec<Term> =
        (0..5).map(|i| Term { objective: i, mode: GradientMode::FiniteDiff }).collect();
    let steps = build_schedule(&terms, 7);
    assert_eq!(steps.len(), 1 + 5 + 7 * (1 + 5));
    assert_eq!(frames_steps(&steps), 1 + 7);
    assert_eq!(build_schedule(&terms, 0).len(), 6);
}

#[test]
fn value_plan_visits_every_term_once() {
    let m = ObjectiveMaster::standard_ik(2);
    let plan = m.call(&layout(), &vars());
    assert!(plan.lite);
    assert_eq!(
        plan.steps,
        vec![
            Step::Frames { perturbed: None },
            Step::Value { objective: 0 },
            Step::Value { objective: 1 },
            Step::Value { objective: 2 },
            Step::Value { objective: 3 },
        ]
    );
}

#[test]
fn gradient_plan_follows_the_set() {
    let plain = ObjectiveMaster::standard_ik(1);
    let plan = plain.gradient(&layout(), &vars(), 2);
    assert!(plan.lite);
    assert!(plan.whole);
    assert_eq!(plan.step, StepSize { one_over: SUM_STEP_ONE_OVER });
    assert_eq!(plan.step.one_over, 1_000_000);
    assert_eq!(
        plan.steps,
        vec![
            Step::Frames { perturbed: None },
            Step::Value { objective: 0 },
            Step::Value { objective: 1 },
            Step::Frames { perturbed: Some(0) },
            Step::Perturbed { objective: 0, dim: 0 },
            Step::Perturbed { objective: 1, dim: 0 },
            Step::Frames { perturbed: Some(1) },
            Step::Perturbed { objective: 0, dim: 1 },
            Step::Perturbed { objective: 1, dim: 1 },
        ]
    );
    let relaxed = ObjectiveMaster::relaxed_ik(&[vec![0, 1], vec![2]]);
    let plan = relaxed.gradient(&layout(), &vars(), 3);
    assert!(!plan.lite);
    assert!(!plan.whole);
    assert_eq!(plan.step.one_over, TERM_STEP_ONE_OVER);
    assert_eq!(plan.step.one_over, 10_000_000);
    assert_eq!(plan.steps.len(), 1 + 15 + 3 * 16);
    assert_eq!(frames_steps(&plan.steps), 4);
    let forced = relaxed.gradient_finite_diff(&layout(), &vars(), 3);
    assert!(forced.whole);
    assert!(!forced.lite);
    assert_eq!(forced.step.one_over, SUM_STEP_ONE_OVER);
    assert_eq!(forced.steps, plan.steps);
}

#[test]
fn terms_of_a_chain_outside_the_mask_are_left_out() {
    let m = ObjectiveMaster::standard_ik(2);
    let mut v = vars();
    v.set_valid_chains(&[1]);
    let terms = m.driven(&layout(), &v, false);
    assert_eq!(
        terms,
        vec![
            Term { objective: 2, mode: GradientMode::FiniteDiff },
            Term { objective: 3, mode: GradientMode::FiniteDiff },
        ]
    );
    let plan = m.gradient(&layout(), &v, 1);
    assert_eq!(
        plan.steps,
        vec![
            Step::Frames { perturbed: None },
            Step::Value { objective: 2 },
            Step::Value { objective: 3 },
            Step::Frames { perturbed: Some(0) },
            Step::Perturbed { objective: 2, dim: 0 },
            Step::Perturbed { objective: 3, dim: 0 },
        ]
    );
    v.set_valid_chains(&[]);
    assert_eq!(m.call(&layout(), &v).steps, vec![Step::Frames { perturbed: None }]);
}

#[test]
fn the_mask_reaches_terms_through_their_chains() {
    let l = layout();
    let mut v = vars();
    v.set_valid_chains(&[0]);
    let driven = |o: Objective| o.is_driven(&l, &v);
    assert!(driven(Objective::MatchEEPosiDoF(MatchEEPosiDoF::new(0, 1))));
    assert!(!driven(Objective::MatchEEPosiDoF(MatchEEPosiDoF::new(1, 1))));
    assert!(!driven(Objective::MatchEERotaDoF(MatchEERotaDoF::new(1, 0))));
    assert!(driven(Objective::MatchJointPosiDoF(MatchJointPosiDoF::new(1, 0))));
    assert!(!driven(Objective::MatchJointPosiDoF(MatchJointPosiDoF::new(2, 0))));
    assert!(driven(Objective::MatchJointPosiDoF(MatchJointPosiDoF::new(9, 0))));
    assert!(!driven(Objective::SelfCollision(SelfCollision::new(0, 1, 0, 0))));
    assert!(driven(Objective::SelfCollision(SelfCollision::new(0, 0, 0, 1))));
    assert!(driven(Objective::EachJointLimits(EachJointLimits::new(2))));
    assert!(driven(Objective::MinimizeVelocity(MinimizeVelocity)));
    assert!(driven(Objective::MaximizeManipulability(MaximizeManipulability)));
}
