// The controller's scenarios with floating-point loads and positions. The
// harness below does the node's arithmetic (load filter, thresholds, target
// rules) around the verified state machine, as the node does.

use ahcontrol::safety::FaultReason;
use ahcontrol::soft_grasp::{
    FingerDecision as StepDecision, GraspState, HoldUpdate, SoftGraspController, StepInputs,
    TargetRule,
};
use std::time::Instant;

const ALPHA: f64 = 0.2;
const STEP: f64 = 0.02;
const HOLD_DEADBAND: f64 = 20.0;
const CONTACT_LOAD_THRESHOLD: f64 = 100.0;
const TARGET_HOLD_LOAD: f64 = 140.0;
const MAX_LOAD: f64 = 300.0;
const SIGN1: f64 = 1.0;
const SIGN2: f64 = -1.0;

struct Sample {
    raw_load: f64,
    timestamp: Instant,
}

fn fb(load: f64) -> Sample {
    Sample { raw_load: load, timestamp: Instant::now() }
}

struct Decision {
    targets: [f64; 2],
    state: GraspState,
    contact_detected: bool,
    fault_reason: Option<FaultReason>,
}

struct Harness {
    machine: SoftGraspController,
    previous_target: Option<[f64; 2]>,
    hold_target: Option<[f64; 2]>,
    filtered_loads: [f64; 2],
    filtered_excess_loads: [f64; 2],
    last_filtered_at: Option<Instant>,
}

impl Harness {
    fn new() -> Self {
        Harness {
            machine: SoftGraspController::new(3, 25, &vec!["finger1".to_string()]),
            previous_target: None,
            hold_target: None,
            filtered_loads: [0.0; 2],
            filtered_excess_loads: [0.0; 2],
            last_filtered_at: None,
        }
    }

    fn update(&mut self, requested: [f64; 2], feedback: [&Sample; 2]) -> Decision {
        if self.last_filtered_at != Some(feedback[1].timestamp) {
            for k in 0..2 {
                let load = feedback[k].raw_load.abs();
                self.filtered_loads[k] = ALPHA * load + (1.0 - ALPHA) * self.filtered_loads[k];
                // No baseline was observed, so the whole load is excess load.
                let baseline = 0.0;
                let excess = (load - baseline).max(0.0);
                self.filtered_excess_loads[k] =
                    ALPHA * excess + (1.0 - ALPHA) * self.filtered_excess_loads[k];
            }
            self.last_filtered_at = Some(feedback[1].timestamp);
        }
        let estimated = self.filtered_excess_loads[0].max(self.filtered_excess_loads[1]);
        let previous = self.previous_target.unwrap_or(requested);
        let progress =
            ((requested[0] - previous[0]) * SIGN1 + (requested[1] - previous[1]) * SIGN2) / 2.0;
        let d: StepDecision = self.machine.update(
            0,
            StepInputs {
                external_fault: None,
                overload: estimated >= MAX_LOAD,
                opening: progress < -STEP / 2.0,
                closing: progress > 0.0,
                contact_load: estimated >= CONTACT_LOAD_THRESHOLD,
                below_hold_load: estimated < TARGET_HOLD_LOAD - HOLD_DEADBAND,
            },
        );
        match d.hold {
            HoldUpdate::Clear => self.hold_target = None,
            HoldUpdate::SetToPrevious => self.hold_target = Some(previous),
            _ => {}
        }
        let held = self.hold_target.unwrap_or(previous);
        let nudge = STEP.min(0.002);
        let targets = match d.target {
            TargetRule::Requested => requested,
            TargetRule::StepLimited => [
                requested[0].clamp(previous[0] - STEP, previous[0] + STEP),
                requested[1].clamp(previous[1] - STEP, previous[1] + STEP),
            ],
            TargetRule::HoldOrPrevious => held,
            TargetRule::NudgedFromHoldOrPrevious => {
                [held[0] + SIGN1 * nudge, held[1] + SIGN2 * nudge]
            }
        };
        if d.hold == HoldUpdate::SetToTargets {
            self.hold_target = Some(targets);
        }
        self.previous_target = Some(targets);
        Decision {
            targets,
            state: d.state,
            contact_detected: d.contact_detected,
            fault_reason: d.fault_reason,
        }
    }
}

#[test]
fn low_pass_filter_is_exponential() {
    let mut c = Harness::new();
    let a = fb(100.0);
    c.update([0.0, 0.0], [&a, &a]);
    assert_eq!(c.filtered_loads, [20.0, 20.0]);
}

#[test]
fn spike_does_not_trigger_contact() {
    let mut c = Harness::new();
    let hi = fb(800.0);
    let lo = fb(0.0);
    c.update([0.0, 0.0], [&lo, &lo]);
    let d = c.update([0.02, -0.02], [&hi, &hi]);
    assert!(!d.contact_detected);
}

#[test]
fn contact_freezes_closing_and_opening_releases() {
    let mut c = Harness::new();
    let hi = fb(500.0);
    let lo = fb(0.0);
    c.update([0.0, 0.0], [&lo, &lo]);
    for _ in 0..3 {
        let hi = fb(500.0);
        c.update([0.02, -0.02], [&hi, &hi]);
    }
    let held = c.update([0.5, -0.5], [&hi, &hi]);
    assert_eq!(held.state, GraspState::Holding);
    assert!(held.targets[0] < 0.1);
    let released = c.update([-0.2, 0.2], [&lo, &lo]);
    assert_eq!(released.state, GraspState::Releasing);
    assert_eq!(released.targets, [-0.2, 0.2]);
}

#[test]
fn closing_step_is_limited() {
    let mut c = Harness::new();
    let lo = fb(0.0);
    c.update([0.0, 0.0], [&lo, &lo]);
    let d = c.update([1.0, -1.0], [&lo, &lo]);
    assert_eq!(d.targets, [0.02, -0.02]);
}

#[test]
fn first_command_is_limited_from_the_initialized_target() {
    let mut c = Harness::new();
    c.previous_target = Some([0.0, 0.0]);
    let lo = fb(0.0);
    let d = c.update([1.0, -1.0], [&lo, &lo]);
    assert_eq!(d.targets, [0.02, -0.02]);
}

#[test]
fn overload_faults() {
    let mut c = Harness::new();
    let hi = fb(2_000.0);
    let d = c.update([0.0, 0.0], [&hi, &hi]);
    assert_eq!(d.state, GraspState::Fault);
    assert_eq!(d.fault_reason, Some(FaultReason::Overload));
}
