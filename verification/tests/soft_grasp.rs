use ahcontrol::safety::FaultReason;
use ahcontrol::soft_grasp::{
    state_code, state_name, step_finger, FingerRuntime, GraspState, HoldUpdate, SoftGraspController,
    StepInputs, TargetRule,
};

fn quiet() -> StepInputs {
    StepInputs {
        external_fault: None,
        overload: false,
        opening: false,
        closing: false,
        contact_load: false,
        below_hold_load: false,
    }
}

fn closing_with_contact() -> StepInputs {
    StepInputs { closing: true, contact_load: true, ..quiet() }
}

fn controller(contact_confirm_samples: u32) -> SoftGraspController {
    SoftGraspController::new(contact_confirm_samples, 25, &vec!["finger1".to_string()])
}

#[test]
fn new_controller_tracks_every_finger() {
    let c = SoftGraspController::new(5, 25, &vec!["a".to_string(), "b".to_string()]);
    assert_eq!(c.finger_count(), 2);
    for k in 0..2 {
        let r = c.runtime(k);
        assert_eq!(r.state, GraspState::Tracking);
        assert_eq!(r.contact_samples, 0);
        assert_eq!(r.baseline_samples, 0);
        assert_eq!(r.fault_reason, None);
    }
}

#[test]
fn closing_request_is_step_limited() {
    let mut c = controller(3);
    c.update(0, quiet());
    let d = c.update(0, StepInputs { closing: true, ..quiet() });
    assert_eq!(d.target, TargetRule::StepLimited);
    assert_eq!(d.state, GraspState::Closing);
    assert_eq!(d.hold, HoldUpdate::Keep);
    assert!(!d.contact_detected);
}

#[test]
fn quiet_request_is_followed() {
    let mut c = controller(3);
    let d = c.update(0, quiet());
    assert_eq!(d.target, TargetRule::Requested);
    assert_eq!(d.state, GraspState::Tracking);
}

#[test]
fn single_contact_sample_does_not_confirm_contact() {
    let mut c = controller(3);
    c.update(0, quiet());
    let d = c.update(0, closing_with_contact());
    assert!(!d.contact_detected);
    assert_eq!(d.state, GraspState::Closing);
    assert_eq!(c.runtime(0).contact_samples, 1);
}

#[test]
fn confirmed_contact_holds_and_opening_releases() {
    let mut c = controller(3);
    c.update(0, quiet());
    let first = c.update(0, closing_with_contact());
    let second = c.update(0, closing_with_contact());
    assert!(!first.contact_detected && !second.contact_detected);
    let third = c.update(0, closing_with_contact());
    assert_eq!(third.state, GraspState::Holding);
    assert!(third.contact_detected);
    assert_eq!(third.hold, HoldUpdate::SetToPrevious);
    assert_eq!(third.target, TargetRule::HoldOrPrevious);
    // A further closing request leaves the finger on its held target.
    let held = c.update(0, closing_with_contact());
    assert_eq!(held.state, GraspState::Holding);
    assert_eq!(held.target, TargetRule::HoldOrPrevious);
    // Opening releases at once and follows the request.
    let released = c.update(0, StepInputs { opening: true, ..quiet() });
    assert_eq!(released.state, GraspState::Releasing);
    assert_eq!(released.target, TargetRule::Requested);
    assert_eq!(released.hold, HoldUpdate::Clear);
    assert!(!released.contact_detected);
    // A quiet step after the release goes back to tracking.
    assert_eq!(c.update(0, quiet()).state, GraspState::Tracking);
}

#[test]
fn contact_count_resets_without_contact_load() {
    let mut c = controller(3);
    c.update(0, closing_with_contact());
    c.update(0, closing_with_contact());
    c.update(0, StepInputs { closing: true, ..quiet() });
    assert_eq!(c.runtime(0).contact_samples, 0);
    let d = c.update(0, closing_with_contact());
    assert_eq!(d.state, GraspState::Closing);
}

#[test]
fn holding_below_target_load_nudges_closed() {
    let mut c = controller(1);
    let d = c.update(0, closing_with_contact());
    assert_eq!(d.state, GraspState::Holding);
    let nudge = c.update(0, StepInputs { below_hold_load: true, ..quiet() });
    assert_eq!(nudge.state, GraspState::Holding);
    assert_eq!(nudge.target, TargetRule::NudgedFromHoldOrPrevious);
    assert_eq!(nudge.hold, HoldUpdate::SetToTargets);
}

#[test]
fn overload_puts_finger_in_fault() {
    let mut c = controller(3);
    let d = c.update(0, StepInputs { overload: true, ..quiet() });
    assert_eq!(d.state, GraspState::Fault);
    assert_eq!(d.fault_reason, Some(FaultReason::Overload));
    assert!(d.overload);
    assert_eq!(d.target, TargetRule::HoldOrPrevious);
}

#[test]
fn outside_fault_wins_over_overload() {
    let mut c = controller(3);
    let d = c.update(
        0,
        StepInputs { external_fault: Some(FaultReason::OverTemperature), overload: true, ..quiet() },
    );
    assert_eq!(d.state, GraspState::Fault);
    assert_eq!(d.fault_reason, Some(FaultReason::OverTemperature));
}

#[test]
fn fault_is_permanent_and_blocks_release() {
    let mut c = controller(3);
    c.update(0, StepInputs { overload: true, ..quiet() });
    let opened = c.update(0, StepInputs { opening: true, ..quiet() });
    assert_eq!(opened.state, GraspState::Fault);
    assert_eq!(opened.target, TargetRule::HoldOrPrevious);
    assert_eq!(opened.hold, HoldUpdate::Keep);
    let later = c.update(0, quiet());
    assert_eq!(later.state, GraspState::Fault);
    assert_eq!(later.fault_reason, Some(FaultReason::Overload));
}

#[test]
fn step_finger_counts_releases() {
    let mut r = FingerRuntime {
        state: GraspState::Closing,
        baseline_samples: 0,
        contact_samples: 2,
        release_samples: 0,
        fault_reason: None,
    };
    let d = step_finger(&mut r, StepInputs { opening: true, contact_load: true, ..quiet() }, 5);
    assert_eq!(d.state, GraspState::Releasing);
    assert_eq!(r.release_samples, 1);
    // An opening step ends the contact streak.
    assert_eq!(r.contact_samples, 0);
    step_finger(&mut r, quiet(), 5);
    assert_eq!(r.release_samples, 0);
    assert_eq!(r.contact_samples, 0);
}

#[test]
fn baseline_counts_up_to_its_target() {
    let mut c = SoftGraspController::new(3, 2, &vec!["a".to_string(), "b".to_string()]);
    assert!(!c.baseline_ready());
    assert_eq!(c.observe_baseline(0), Some(0));
    assert_eq!(c.observe_baseline(0), Some(1));
    assert_eq!(c.observe_baseline(0), None);
    assert_eq!(c.runtime(0).baseline_samples, 2);
    assert!(!c.baseline_ready());
    c.observe_baseline(1);
    c.observe_baseline(1);
    assert!(c.baseline_ready());
    c.update(1, StepInputs { overload: true, ..quiet() });
    assert!(c.baseline_ready());
}

#[test]
fn empty_controller_is_baseline_ready() {
    let c = SoftGraspController::new(3, 25, &vec![]);
    assert!(c.baseline_ready());
    assert_eq!(c.finger_count(), 0);
}

#[test]
fn state_names_and_codes() {
    let states = [
        GraspState::Tracking,
        GraspState::Closing,
        GraspState::Contact,
        GraspState::Holding,
        GraspState::Releasing,
        GraspState::Fault,
    ];
    let names = ["Tracking", "Closing", "Contact", "Holding", "Releasing", "Fault"];
    for (k, state) in states.iter().enumerate() {
        assert_eq!(state_name(*state), names[k]);
        assert_eq!(state_code(*state) as usize, k);
    }
}

#[test]
fn opening_step_breaks_the_contact_streak() {
    let mut c = controller(3);
    c.update(0, closing_with_contact());
    c.update(0, closing_with_contact());
    let opened = c.update(0, StepInputs { opening: true, ..quiet() });
    assert_eq!(opened.state, GraspState::Releasing);
    assert_eq!(c.runtime(0).contact_samples, 0);
    let d = c.update(0, closing_with_contact());
    assert!(!d.contact_detected);
    assert_ne!(d.state, GraspState::Holding);
    assert_eq!(c.runtime(0).contact_samples, 1);
}
