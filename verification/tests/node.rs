use ahcontrol::node::{
    all_valid, completed_pair, decision_status, fault_status, is_supported_hand, next_feedback_cursor,
    select_joint_indexes,
};
use ahcontrol::safety::FaultReason;
use ahcontrol::soft_grasp::{FingerDecision, GraspState, HoldUpdate, TargetRule};

fn pair(a: &str, b: &str) -> (String, String) {
    (a.to_string(), b.to_string())
}

#[test]
fn four_scs0009_pairs_are_supported() {
    let good = vec![pair("SCS0009", "SCS0009"); 4];
    assert!(is_supported_hand(&good));
    assert!(!is_supported_hand(&vec![pair("SCS0009", "SCS0009"); 3]));
    let mut other = good.clone();
    other[2] = pair("SCS0009", "STS3215");
    assert!(!is_supported_hand(&other));
}

#[test]
fn joint_indexes_are_selected_per_finger() {
    let indexes = vec![Some(vec![0, 1]), Some(vec![3, 2])];
    assert_eq!(select_joint_indexes(&indexes, 4), Some(vec![(0, 1), (3, 2)]));
}

#[test]
fn bad_joint_indexes_drop_the_command() {
    assert_eq!(select_joint_indexes(&vec![Some(vec![0, 4])], 4), None);
    assert_eq!(select_joint_indexes(&vec![Some(vec![0])], 4), None);
    assert_eq!(select_joint_indexes(&vec![Some(vec![0, 1, 2])], 4), None);
    assert_eq!(select_joint_indexes(&vec![Some(vec![0, 1]), None], 4), None);
    assert_eq!(select_joint_indexes(&vec![Some(vec![-1, 1])], 4), None);
    assert_eq!(select_joint_indexes(&vec![], 0), Some(vec![]));
}

#[test]
fn feedback_cursor_wraps() {
    assert_eq!(next_feedback_cursor(0, 8), 1);
    assert_eq!(next_feedback_cursor(7, 8), 0);
    assert_eq!(next_feedback_cursor(0, 1), 0);
}

#[test]
fn pair_completes_on_second_motor() {
    let valid = vec![true, true, false, true];
    assert_eq!(completed_pair(1, &valid), Some(0));
    assert_eq!(completed_pair(0, &valid), None);
    assert_eq!(completed_pair(3, &valid), None);
    assert!(!all_valid(&valid));
    assert!(all_valid(&vec![true, true]));
    assert!(all_valid(&vec![]));
}

#[test]
fn status_numbers() {
    assert_eq!(fault_status(None), 0);
    assert_eq!(fault_status(Some(FaultReason::FeedbackTimeout)), 4);
    let d = FingerDecision {
        target: TargetRule::HoldOrPrevious,
        hold: HoldUpdate::Keep,
        state: GraspState::Fault,
        contact_detected: false,
        overload: true,
        fault_reason: Some(FaultReason::Overload),
    };
    assert_eq!(decision_status(&d), [5, 0, 1, 1]);
}
