use vstd::prelude::*;

use crate::safety::FaultReason;

verus! {

/// Where a finger stands in the soft-grasp cycle.
#[derive(Clone, Copy, Debug, PartialEq, Eq, Structural)]
pub enum GraspState {
    Tracking,
    Closing,
    Contact,
    Holding,
    Releasing,
    Fault,
}

/// What one control step reads of a finger's situation.
///
/// The flags are the finger's measured load and commanded motion already held
/// against its thresholds: `overload` (estimated load at or above the maximum
/// load), `opening` / `closing` (the requested motion opens by more than half a
/// step, or closes at all), `contact_load` (estimated load at or above the
/// contact threshold) and `below_hold_load` (estimated load under the target
/// holding load less the dead band).
#[derive(Clone, Copy, Debug, PartialEq, Eq, Structural)]
pub struct StepInputs {
    pub external_fault: Option<FaultReason>,
    pub overload: bool,
    pub opening: bool,
    pub closing: bool,
    pub contact_load: bool,
    pub below_hold_load: bool,
}

/// Which position pair a step commands.
#[derive(Clone, Copy, Debug, PartialEq, Eq, Structural)]
pub enum TargetRule {
    /// The requested pair as it is.
    Requested,
    /// The requested pair, each position clamped to one step around the
    /// previous target.
    StepLimited,
    /// The held target, or the previous target where none is held.
    HoldOrPrevious,
    /// The held (else previous) target moved one small step further closed.
    NudgedFromHoldOrPrevious,
}

/// What a step does to the finger's held target.
#[derive(Clone, Copy, Debug, PartialEq, Eq, Structural)]
pub enum HoldUpdate {
    Keep,
    Clear,
    /// Hold the previous target (done before the target rule is applied).
    SetToPrevious,
    /// Hold the targets this step commands (done after the rule is applied).
    SetToTargets,
}

/// The outcome of one control step of a finger.
#[derive(Clone, Copy, Debug, PartialEq, Eq, Structural)]
pub struct FingerDecision {
    pub target: TargetRule,
    pub hold: HoldUpdate,
    pub state: GraspState,
    pub contact_detected: bool,
    pub overload: bool,
    pub fault_reason: Option<FaultReason>,
}

/// The discrete state that the controller keeps for one finger.
#[derive(Clone, Copy, Debug, PartialEq, Eq, Structural)]
pub struct FingerRuntime {
    pub state: GraspState,
    pub baseline_samples: u32,
    pub contact_samples: u32,
    pub release_samples: u32,
    pub fault_reason: Option<FaultReason>,
}

/// A finger as the controller starts it.
pub open spec fn fresh_runtime() -> FingerRuntime {
    FingerRuntime {
        state: GraspState::Tracking,
        baseline_samples: 0,
        contact_samples: 0,
        release_samples: 0,
        fault_reason: None,
    }
}

/// The fault that a step's inputs raise: a fault from outside wins over an
/// overload.
pub open spec fn raised_fault(inputs: StepInputs) -> Option<FaultReason> {
    match inputs.external_fault {
        Some(reason) => Some(reason),
        None => if inputs.overload { Some(FaultReason::Overload) } else { None },
    }
}

/// The finger is in fault after this step.
pub open spec fn faulted(r: FingerRuntime, inputs: StepInputs) -> bool {
    r.state == GraspState::Fault || raised_fault(inputs) is Some
}

/// The step releases the finger: an opening command, and no fault.
pub open spec fn releases(r: FingerRuntime, inputs: StepInputs) -> bool {
    inputs.opening && !faulted(r, inputs)
}

/// The step counts one more contact sample.
pub open spec fn counts_contact(r: FingerRuntime, inputs: StepInputs) -> bool {
    !faulted(r, inputs) && !inputs.opening && inputs.contact_load
}

/// The step confirms contact: the count of contact samples reaches the
/// configured number.
pub open spec fn confirms_contact(r: FingerRuntime, inputs: StepInputs, confirm: u32) -> bool {
    counts_contact(r, inputs) && r.contact_samples + 1 >= confirm
}

/// The state that fault, release and contact detection give, before the
/// targets are chosen.
pub open spec fn detected_state(r: FingerRuntime, inputs: StepInputs, confirm: u32) -> GraspState {
    if faulted(r, inputs) {
        GraspState::Fault
    } else if inputs.opening {
        GraspState::Releasing
    } else if confirms_contact(r, inputs, confirm) {
        GraspState::Contact
    } else {
        r.state
    }
}

/// The state a finger is in after one step.
pub open spec fn next_state(r: FingerRuntime, inputs: StepInputs, confirm: u32) -> GraspState {
    match detected_state(r, inputs, confirm) {
        GraspState::Contact => GraspState::Holding,
        GraspState::Tracking => if inputs.closing { GraspState::Closing } else { GraspState::Tracking },
        GraspState::Releasing => if inputs.closing {
            GraspState::Closing
        } else if !inputs.opening {
            GraspState::Tracking
        } else {
            GraspState::Releasing
        },
        other => other,
    }
}

/// The position pair a step commands.
pub open spec fn next_target(r: FingerRuntime, inputs: StepInputs, confirm: u32) -> TargetRule {
    match detected_state(r, inputs, confirm) {
        GraspState::Contact => TargetRule::HoldOrPrevious,
        GraspState::Holding => if inputs.below_hold_load {
            TargetRule::NudgedFromHoldOrPrevious
        } else {
            TargetRule::HoldOrPrevious
        },
        GraspState::Fault => TargetRule::HoldOrPrevious,
        _ => if inputs.closing { TargetRule::StepLimited } else { TargetRule::Requested },
    }
}

/// What a step does to the held target.
pub open spec fn next_hold(r: FingerRuntime, inputs: StepInputs, confirm: u32) -> HoldUpdate {
    if releases(r, inputs) {
        HoldUpdate::Clear
    } else if confirms_contact(r, inputs, confirm) {
        HoldUpdate::SetToPrevious
    } else if detected_state(r, inputs, confirm) == GraspState::Holding && inputs.below_hold_load {
        HoldUpdate::SetToTargets
    } else {
        HoldUpdate::Keep
    }
}

/// The fault reason a finger carries after a step: the one raised now, else
/// the one it carried.
pub open spec fn next_fault_reason(r: FingerRuntime, inputs: StepInputs) -> Option<FaultReason> {
    match raised_fault(inputs) {
        Some(reason) => Some(reason),
        None => r.fault_reason,
    }
}

/// The finger's discrete state after one step.
pub open spec fn next_runtime(r: FingerRuntime, inputs: StepInputs, confirm: u32) -> FingerRuntime {
    FingerRuntime {
        state: next_state(r, inputs, confirm),
        baseline_samples: r.baseline_samples,
        contact_samples: if counts_contact(r, inputs) { (r.contact_samples + 1) as u32 } else { 0 },
        release_samples: if releases(r, inputs) { (r.release_samples + 1) as u32 } else { 0 },
        fault_reason: next_fault_reason(r, inputs),
    }
}

/// The outcome of one step.
pub open spec fn decide(r: FingerRuntime, inputs: StepInputs, confirm: u32) -> FingerDecision {
    FingerDecision {
        target: next_target(r, inputs, confirm),
        hold: next_hold(r, inputs, confirm),
        state: next_state(r, inputs, confirm),
        contact_detected: next_state(r, inputs, confirm) == GraspState::Contact
            || next_state(r, inputs, confirm) == GraspState::Holding,
        overload: inputs.overload,
        fault_reason: next_fault_reason(r, inputs),
    }
}

/// The step's counters stay within `u32`.
pub open spec fn step_fits(r: FingerRuntime) -> bool {
    r.contact_samples < u32::MAX && r.release_samples < u32::MAX
}

/// Runs one control step on a single finger's discrete state.
pub fn step_finger(runtime: &mut FingerRuntime, inputs: StepInputs, contact_confirm_samples: u32) -> (decision: FingerDecision)
    requires
        step_fits(*old(runtime)),
    ensures
        *final(runtime) == next_runtime(*old(runtime), inputs, contact_confirm_samples),
        decision == decide(*old(runtime), inputs, contact_confirm_samples),
{
    let raised = match inputs.external_fault {
        Some(reason) => Some(reason),
        None => if inputs.overload { Some(FaultReason::Overload) } else { None },
    };
    if let Some(reason) = raised {
        runtime.state = GraspState::Fault;
        runtime.fault_reason = Some(reason);
    }
    let opening = inputs.opening;
    let mut hold = HoldUpdate::Keep;
    if opening && runtime.state != GraspState::Fault {
        runtime.release_samples = runtime.release_samples + 1;
        // Releasing is immediate: contact locking never traps an opening command.
        runtime.state = GraspState::Releasing;
        hold = HoldUpdate::Clear;
    } else {
        runtime.release_samples = 0;
    }
    let mut target = if inputs.closing { TargetRule::StepLimited } else { TargetRule::Requested };
    if runtime.state != GraspState::Fault && !opening && inputs.contact_load {
        runtime.contact_samples = runtime.contact_samples + 1;
        if runtime.contact_samples >= contact_confirm_samples {
            runtime.state = GraspState::Contact;
            hold = HoldUpdate::SetToPrevious;
        }
    } else {
        // Contact is confirmed by consecutive samples: any other step ends the streak.
        runtime.contact_samples = 0;
    }
    match runtime.state {
        GraspState::Contact => {
            runtime.state = GraspState::Holding;
            target = TargetRule::HoldOrPrevious;
        },
        GraspState::Holding => {
            target = TargetRule::HoldOrPrevious;
            if inputs.below_hold_load {
                target = TargetRule::NudgedFromHoldOrPrevious;
                hold = HoldUpdate::SetToTargets;
            }
        },
        GraspState::Fault => {
            target = TargetRule::HoldOrPrevious;
        },
        GraspState::Tracking => {
            if inputs.closing {
                runtime.state = GraspState::Closing;
            }
        },
        GraspState::Releasing => {
            if inputs.closing {
                runtime.state = GraspState::Closing;
            } else if !opening {
                runtime.state = GraspState::Tracking;
            }
        },
        GraspState::Closing => {},
    }
    let state = runtime.state;
    FingerDecision {
        target,
        hold,
        state,
        contact_detected: match state {
            GraspState::Contact | GraspState::Holding => true,
            _ => false,
        },
        overload: inputs.overload,
        fault_reason: runtime.fault_reason,
    }
}


/// Once in fault, a finger stays in fault and holds its position: the step
/// keeps the held target, commands the held (else previous) target and drops
/// no fault reason.
pub proof fn fault_is_absorbing(r: FingerRuntime, inputs: StepInputs, confirm: u32)
    requires
        r.state == GraspState::Fault,
    ensures
        next_state(r, inputs, confirm) == GraspState::Fault,
        next_target(r, inputs, confirm) == TargetRule::HoldOrPrevious,
        next_hold(r, inputs, confirm) == HoldUpdate::Keep,
        r.fault_reason is Some ==> next_fault_reason(r, inputs) is Some,
{
}

/// A fault from outside, or an overload, puts the finger in fault at once,
/// with that reason (the outside fault first), and the finger holds position.
pub proof fn raised_fault_stops_the_finger(r: FingerRuntime, inputs: StepInputs, confirm: u32)
    requires
        raised_fault(inputs) is Some,
    ensures
        next_state(r, inputs, confirm) == GraspState::Fault,
        decide(r, inputs, confirm).fault_reason == raised_fault(inputs),
        inputs.external_fault is Some ==> decide(r, inputs, confirm).fault_reason == inputs.external_fault,
        next_target(r, inputs, confirm) == TargetRule::HoldOrPrevious,
{
}

/// An opening command releases the finger at once, whatever its state, unless
/// the finger is in fault: the held target is dropped, no contact is reported
/// and the finger follows the request.
pub proof fn opening_releases_unless_faulted(r: FingerRuntime, inputs: StepInputs, confirm: u32)
    requires
        inputs.opening,
        !faulted(r, inputs),
    ensures
        next_hold(r, inputs, confirm) == HoldUpdate::Clear,
        next_state(r, inputs, confirm) == (if inputs.closing { GraspState::Closing } else { GraspState::Releasing }),
        !decide(r, inputs, confirm).contact_detected,
        next_target(r, inputs, confirm) == TargetRule::Requested
            || next_target(r, inputs, confirm) == TargetRule::StepLimited,
{
}

/// Contact is a passing state: a step never ends in `Contact`, so a finger
/// reports contact exactly when it ends the step holding.
pub proof fn contact_is_transient(r: FingerRuntime, inputs: StepInputs, confirm: u32)
    ensures
        next_state(r, inputs, confirm) != GraspState::Contact,
        decide(r, inputs, confirm).contact_detected <==> next_state(r, inputs, confirm) == GraspState::Holding,
{
}

/// A holding finger stays on its held target while no opening command and no
/// fault comes and its load stays at the holding level: a closing request
/// does not move it.
pub proof fn holding_freezes_closing(r: FingerRuntime, inputs: StepInputs, confirm: u32)
    requires
        r.state == GraspState::Holding,
        !faulted(r, inputs),
        !inputs.opening,
        !inputs.below_hold_load,
    ensures
        next_state(r, inputs, confirm) == GraspState::Holding,
        next_target(r, inputs, confirm) == TargetRule::HoldOrPrevious,
        decide(r, inputs, confirm).contact_detected,
{
}

/// Outside contact and fault, a closing request moves by at most one step:
/// the finger closes with the step-limited target. (Between steps a finger
/// is never in `Contact`: see `contact_is_transient`.)
pub proof fn closing_step_is_limited(r: FingerRuntime, inputs: StepInputs, confirm: u32)
    requires
        inputs.closing,
        !faulted(r, inputs),
        !inputs.opening,
        !confirms_contact(r, inputs, confirm),
        r.state != GraspState::Holding,
        r.state != GraspState::Contact,
    ensures
        next_target(r, inputs, confirm) == TargetRule::StepLimited,
        next_state(r, inputs, confirm) == GraspState::Closing,
{
}

/// A holding finger whose load has dropped under the holding level closes
/// one small step further and holds the new target, whether or not the
/// operator still commands it closed: with no new fault, no opening command
/// and no fresh contact confirmation, the step commands the nudged target,
/// stores it as the held target, and the finger stays holding.
pub proof fn holding_nudges_when_load_drops(r: FingerRuntime, inputs: StepInputs, confirm: u32)
    requires
        r.state == GraspState::Holding,
        inputs.external_fault is None,
        !inputs.overload,
        !inputs.opening,
        inputs.below_hold_load,
        !inputs.contact_load || r.contact_samples + 1 < confirm,
    ensures
        decide(r, inputs, confirm).target == TargetRule::NudgedFromHoldOrPrevious,
        decide(r, inputs, confirm).hold == HoldUpdate::SetToTargets,
        decide(r, inputs, confirm).state == GraspState::Holding,
        decide(r, inputs, confirm).contact_detected,
{
}

/// A holding finger whose load is at the holding level stays on its held
/// target and keeps it, whether or not a closing command comes.
pub proof fn holding_keeps_target_at_holding_load(r: FingerRuntime, inputs: StepInputs, confirm: u32)
    requires
        r.state == GraspState::Holding,
        inputs.external_fault is None,
        !inputs.overload,
        !inputs.opening,
        !inputs.below_hold_load,
    ensures
        decide(r, inputs, confirm).target == TargetRule::HoldOrPrevious,
        decide(r, inputs, confirm).hold == HoldUpdate::Keep
            || decide(r, inputs, confirm).hold == HoldUpdate::SetToPrevious,
        decide(r, inputs, confirm).state == GraspState::Holding,
{
}

/// The decision reports the step's overload measurement as it is, in every
/// state, a finger already in fault included.
pub proof fn overload_is_always_reported(r: FingerRuntime, inputs: StepInputs, confirm: u32)
    ensures
        decide(r, inputs, confirm).overload <==> inputs.overload,
{
}

/// The fault reason a decision carries: an outside fault when there is one,
/// else `Overload` when the finger is overloaded, else the reason it carried.
pub proof fn fault_reason_of_a_step(r: FingerRuntime, inputs: StepInputs, confirm: u32)
    ensures
        inputs.external_fault is Some ==> decide(r, inputs, confirm).fault_reason == inputs.external_fault,
        inputs.external_fault is None && inputs.overload
            ==> decide(r, inputs, confirm).fault_reason == Some(FaultReason::Overload),
        inputs.external_fault is None && !inputs.overload
            ==> decide(r, inputs, confirm).fault_reason == r.fault_reason,
        next_runtime(r, inputs, confirm).fault_reason == decide(r, inputs, confirm).fault_reason,
        next_runtime(r, inputs, confirm).state == decide(r, inputs, confirm).state,
{
}

/// The step that completes the contact streak puts the finger in `Holding`:
/// it holds the previous target, commands it, and reports contact.
pub proof fn confirmed_contact_holds(r: FingerRuntime, inputs: StepInputs, confirm: u32)
    requires
        r.state != GraspState::Fault,
        inputs.external_fault is None,
        !inputs.overload,
        !inputs.opening,
        inputs.contact_load,
        r.contact_samples + 1 >= confirm,
    ensures
        decide(r, inputs, confirm).state == GraspState::Holding,
        decide(r, inputs, confirm).hold == HoldUpdate::SetToPrevious,
        decide(r, inputs, confirm).target == TargetRule::HoldOrPrevious,
        decide(r, inputs, confirm).contact_detected,
{
}

/// Before the streak is complete, contact is not reported by a finger that
/// was not already holding, and the streak grows by one.
pub proof fn unconfirmed_contact_is_not_reported(r: FingerRuntime, inputs: StepInputs, confirm: u32)
    requires
        r.state != GraspState::Fault,
        r.state != GraspState::Holding,
        r.state != GraspState::Contact,
        inputs.external_fault is None,
        !inputs.overload,
        !inputs.opening,
        inputs.contact_load,
        r.contact_samples + 1 < confirm,
    ensures
        !decide(r, inputs, confirm).contact_detected,
        decide(r, inputs, confirm).state != GraspState::Holding,
        next_runtime(r, inputs, confirm).contact_samples == r.contact_samples + 1,
{
}

/// A tracking or released finger with a still request, no contact load and
/// no fault tracks, following the request, and holds nothing new.
pub proof fn still_request_tracks(r: FingerRuntime, inputs: StepInputs, confirm: u32)
    requires
        r.state == GraspState::Tracking || r.state == GraspState::Releasing,
        inputs.external_fault is None,
        !inputs.overload,
        !inputs.opening,
        !inputs.closing,
        !inputs.contact_load,
    ensures
        decide(r, inputs, confirm).state == GraspState::Tracking,
        decide(r, inputs, confirm).target == TargetRule::Requested,
        decide(r, inputs, confirm).hold == HoldUpdate::Keep,
        !decide(r, inputs, confirm).contact_detected,
        next_runtime(r, inputs, confirm).contact_samples == 0,
{
}

/// A closing finger keeps closing until contact, an opening command or a
/// fault; it is step-limited while the request closes, and follows it
/// otherwise.
pub proof fn closing_continues(r: FingerRuntime, inputs: StepInputs, confirm: u32)
    requires
        r.state == GraspState::Closing,
        inputs.external_fault is None,
        !inputs.overload,
        !inputs.opening,
        !inputs.contact_load || r.contact_samples + 1 < confirm,
    ensures
        decide(r, inputs, confirm).state == GraspState::Closing,
        decide(r, inputs, confirm).target == (if inputs.closing {
            TargetRule::StepLimited
        } else {
            TargetRule::Requested
        }),
        decide(r, inputs, confirm).hold == HoldUpdate::Keep,
{
}

/// Release samples count the opening steps in a row of a finger not in
/// fault; any other step resets them. A step never changes the baseline
/// count.
pub proof fn release_and_baseline_counts(r: FingerRuntime, inputs: StepInputs, confirm: u32)
    requires
        step_fits(r),
    ensures
        next_runtime(r, inputs, confirm).release_samples == (if inputs.opening && r.state != GraspState::Fault
            && inputs.external_fault is None && !inputs.overload {
            r.release_samples + 1
        } else {
            0
        }),
        next_runtime(r, inputs, confirm).baseline_samples == r.baseline_samples,
{
}

/// The state codes are distinct and below six.
pub proof fn state_codes_are_distinct(a: GraspState, b: GraspState)
    ensures
        spec_state_code(a) < 6,
        a != b ==> spec_state_code(a) != spec_state_code(b),
{
}

/// The finger after a sequence of steps.
pub open spec fn run(r: FingerRuntime, steps: Seq<StepInputs>, confirm: u32) -> FingerRuntime
    decreases steps.len(),
{
    if steps.len() == 0 {
        r
    } else {
        next_runtime(run(r, steps.drop_last(), confirm), steps.last(), confirm)
    }
}

/// The `n` steps of the sequence just before position `end` all carry a
/// contact load and no opening command.
pub open spec fn contact_streak(steps: Seq<StepInputs>, end: int, n: int) -> bool {
    &&& 0 <= n <= end <= steps.len()
    &&& forall|i: int| end - n <= i < end ==> (#[trigger] steps[i]).contact_load && !steps[i].opening
}

proof fn contact_streak_extends(steps: Seq<StepInputs>, end: int, n: int)
    requires
        steps.len() > 0,
        contact_streak(steps.drop_last(), end, n),
    ensures
        contact_streak(steps, end, n),
{
    let prefix = steps.drop_last();
    assert forall|i: int| end - n <= i < end implies (#[trigger] steps[i]).contact_load && !steps[i].opening by {
        assert(steps[i] == prefix[i]);
    }
}

proof fn contact_streak_shorter(steps: Seq<StepInputs>, end: int, n: int, m: int)
    requires
        contact_streak(steps, end, n),
        0 <= m <= n,
    ensures
        contact_streak(steps, end, m),
{
}

proof fn fresh_run_counts_streak(steps: Seq<StepInputs>, confirm: u32)
    requires
        steps.len() < u32::MAX,
    ensures
        contact_streak(steps, steps.len() as int, run(fresh_runtime(), steps, confirm).contact_samples as int),
        run(fresh_runtime(), steps, confirm).state == GraspState::Holding ==> exists|end: int|
            #[trigger] contact_streak(steps, end, confirm as int) && contact_streak(steps, end, 1),
    decreases steps.len(),
{
    if steps.len() > 0 {
        let prefix = steps.drop_last();
        let r = run(fresh_runtime(), prefix, confirm);
        let last = steps.last();
        fresh_run_counts_streak(prefix, confirm);
        let after = run(fresh_runtime(), steps, confirm);
        assert(after == next_runtime(r, last, confirm));
        if counts_contact(r, last) {
            contact_streak_extends(steps, prefix.len() as int, r.contact_samples as int);
            assert forall|i: int| steps.len() - (r.contact_samples + 1) <= i < steps.len()
                implies (#[trigger] steps[i]).contact_load && !steps[i].opening by {
                if i < prefix.len() {
                    assert(steps[i] == prefix[i]);
                }
            }
            assert(contact_streak(steps, steps.len() as int, r.contact_samples + 1));
        }
        if after.state == GraspState::Holding {
            if detected_state(r, last, confirm) == GraspState::Contact {
                let end = steps.len() as int;
                contact_streak_shorter(steps, end, r.contact_samples + 1, confirm as int);
                contact_streak_shorter(steps, end, r.contact_samples + 1, 1);
            } else {
                assert(r.state == GraspState::Holding);
                let end = choose|end: int|
                    #[trigger] contact_streak(prefix, end, confirm as int) && contact_streak(prefix, end, 1);
                contact_streak_extends(steps, end, confirm as int);
                contact_streak_extends(steps, end, 1);
            }
        }
    }
}

/// A finger started fresh reaches `Holding` only after `contact_confirm_samples`
/// consecutive steps (and at least one) that carry a contact load and no
/// opening command: the step that confirmed the contact and the ones just
/// before it. A load spike, or a streak broken by any other step, confirms
/// nothing.
pub proof fn holding_needs_consecutive_contact(steps: Seq<StepInputs>, confirm: u32)
    requires
        steps.len() < u32::MAX,
        run(fresh_runtime(), steps, confirm).state == GraspState::Holding,
    ensures
        exists|end: int| #[trigger] contact_streak(steps, end, confirm as int) && contact_streak(steps, end, 1),
{
    fresh_run_counts_streak(steps, confirm);
}

/// The contact count is the length of the current streak: a step that counts
/// contact adds one, and every other step resets it.
pub proof fn contact_count_is_a_streak(r: FingerRuntime, inputs: StepInputs, confirm: u32)
    requires
        step_fits(r),
    ensures
        next_runtime(r, inputs, confirm).contact_samples == (if counts_contact(r, inputs) {
            r.contact_samples + 1
        } else {
            0
        }),
{
}

/// Fault is permanent: a finger in fault is still in fault after any sequence
/// of steps.
pub proof fn fault_persists(r: FingerRuntime, steps: Seq<StepInputs>, confirm: u32)
    requires
        r.state == GraspState::Fault,
    ensures
        run(r, steps, confirm).state == GraspState::Fault,
    decreases steps.len(),
{
    if steps.len() > 0 {
        fault_persists(r, steps.drop_last(), confirm);
    }
}

/// A finger started fresh that ends in fault always carries the reason of
/// its fault, and never rests in `Contact` between steps.
pub proof fn fresh_runs_are_well_formed(steps: Seq<StepInputs>, confirm: u32)
    ensures
        run(fresh_runtime(), steps, confirm).state == GraspState::Fault
            ==> run(fresh_runtime(), steps, confirm).fault_reason is Some,
        run(fresh_runtime(), steps, confirm).state != GraspState::Contact,
    decreases steps.len(),
{
    if steps.len() > 0 {
        fresh_runs_are_well_formed(steps.drop_last(), confirm);
    }
}

/// A finger's baseline count after one more observation: one more sample
/// while the baseline is incomplete, unchanged once it is complete. This is
/// what `SoftGraspController::observe_baseline` does to the count.
pub open spec fn next_baseline_count(count: u32, target: u32) -> u32 {
    if count >= target { count } else { (count + 1) as u32 }
}

/// A finger's baseline count after `n` observations, starting from none.
pub open spec fn baseline_count_after(n: nat, target: u32) -> u32
    decreases n,
{
    if n == 0 {
        0
    } else {
        next_baseline_count(baseline_count_after((n - 1) as nat, target), target)
    }
}

/// Each call of `observe_baseline` moves a finger's count one observation
/// further: a finger that holds the count of `n` observations holds the count
/// of `n + 1` after the call.
pub proof fn observation_advances_the_count(count: u32, n: nat, target: u32)
    requires
        count == baseline_count_after(n, target),
    ensures
        next_baseline_count(count, target) == baseline_count_after(n + 1, target),
{
}

/// One observation adds a sample to an incomplete baseline and leaves a
/// complete one alone.
pub proof fn observation_counts_until_complete(count: u32, target: u32)
    ensures
        count < target ==> next_baseline_count(count, target) == count + 1,
        count >= target ==> next_baseline_count(count, target) == count,
{
}

/// A load baseline takes exactly `baseline_samples` observations: after `n`
/// observations a finger has counted `min(n, baseline_samples)` of them, so
/// it is complete once `n` reaches the target and ignores every later one.
pub proof fn baseline_completes_after_target_samples(n: nat, target: u32)
    ensures
        baseline_count_after(n, target) == (if n <= target { n } else { target as nat }),
    decreases n,
{
    if n > 0 {
        baseline_completes_after_target_samples((n - 1) as nat, target);
    }
}

/// Every finger of the sequence has taken at least `target` baseline samples.
pub open spec fn all_baselines_taken(runtimes: Seq<FingerRuntime>, target: u32) -> bool {
    forall|k: int| 0 <= k < runtimes.len() ==> (#[trigger] runtimes[k]).baseline_samples >= target
}

/// Control steps leave the load baselines alone: a complete set of baselines
/// stays complete through any step of any finger.
pub proof fn control_steps_keep_baselines(
    runtimes: Seq<FingerRuntime>,
    target: u32,
    index: int,
    inputs: StepInputs,
    confirm: u32,
)
    requires
        0 <= index < runtimes.len(),
        all_baselines_taken(runtimes, target),
    ensures
        all_baselines_taken(runtimes.update(index, next_runtime(runtimes[index], inputs, confirm)), target),
{
    let after = runtimes.update(index, next_runtime(runtimes[index], inputs, confirm));
    assert forall|k: int| 0 <= k < after.len() implies (#[trigger] after[k]).baseline_samples >= target by {
        if k != index {
            assert(after[k] == runtimes[k]);
        }
    }
}

/// The name under which a state is logged.
pub open spec fn spec_state_name(state: GraspState) -> Seq<char> {
    match state {
        GraspState::Tracking => "Tracking"@,
        GraspState::Closing => "Closing"@,
        GraspState::Contact => "Contact"@,
        GraspState::Holding => "Holding"@,
        GraspState::Releasing => "Releasing"@,
        GraspState::Fault => "Fault"@,
    }
}

/// Returns the name under which `state` is logged.
pub fn state_name(state: GraspState) -> (name: &'static str)
    ensures
        name@ == spec_state_name(state),
{
    match state {
        GraspState::Tracking => "Tracking",
        GraspState::Closing => "Closing",
        GraspState::Contact => "Contact",
        GraspState::Holding => "Holding",
        GraspState::Releasing => "Releasing",
        GraspState::Fault => "Fault",
    }
}

/// The number by which a state is published on the status outputs.
pub open spec fn spec_state_code(state: GraspState) -> u8 {
    match state {
        GraspState::Tracking => 0,
        GraspState::Closing => 1,
        GraspState::Contact => 2,
        GraspState::Holding => 3,
        GraspState::Releasing => 4,
        GraspState::Fault => 5,
    }
}

/// Returns the number by which `state` is published.
pub fn state_code(state: GraspState) -> (code: u8)
    ensures
        code == spec_state_code(state),
{
    match state {
        GraspState::Tracking => 0,
        GraspState::Closing => 1,
        GraspState::Contact => 2,
        GraspState::Holding => 3,
        GraspState::Releasing => 4,
        GraspState::Fault => 5,
    }
}

/// The discrete part of the soft-grasp controller: one runtime per finger,
/// the number of consecutive contact samples that confirm a contact, and the
/// number of feedback samples that make a finger's load baseline.
pub struct SoftGraspController {
    contact_confirm_samples: u32,
    baseline_samples: u32,
    fingers: Vec<FingerRuntime>,
}

impl SoftGraspController {
    /// The runtimes of the fingers, in order.
    pub closed spec fn runtimes(&self) -> Seq<FingerRuntime> {
        self.fingers@
    }

    /// The number of contact samples that confirm a contact.
    pub closed spec fn confirm_samples(&self) -> u32 {
        self.contact_confirm_samples
    }

    /// The number of samples that make a load baseline.
    pub closed spec fn baseline_target(&self) -> u32 {
        self.baseline_samples
    }

    /// Every finger has taken its full load baseline.
    pub open spec fn spec_baseline_ready(&self) -> bool {
        all_baselines_taken(self.runtimes(), self.baseline_target())
    }

    /// The baseline is not ready while any finger, whichever its index, has
    /// fewer samples than the target.
    pub proof fn baseline_not_ready_while_a_finger_is_short(&self, k: int)
        requires
            0 <= k < self.runtimes().len(),
            self.runtimes()[k].baseline_samples < self.baseline_target(),
        ensures
            !self.spec_baseline_ready(),
    {
    }

    /// The baseline is ready once every finger has the target number of
    /// samples.
    pub proof fn baseline_ready_once_every_finger_is_complete(&self)
        requires
            forall|k: int| 0 <= k < self.runtimes().len()
                ==> (#[trigger] self.runtimes()[k]).baseline_samples >= self.baseline_target(),
        ensures
            self.spec_baseline_ready(),
    {
    }

    /// Starts one finger per name, each tracking, with no counted sample and
    /// no fault.
    pub fn new(contact_confirm_samples: u32, baseline_samples: u32, names: &Vec<String>) -> (controller: Self)
        ensures
            controller.confirm_samples() == contact_confirm_samples,
            controller.baseline_target() == baseline_samples,
            controller.runtimes().len() == names@.len(),
            forall|k: int| 0 <= k < names@.len() ==> #[trigger] controller.runtimes()[k] == fresh_runtime(),
    {
        let mut fingers: Vec<FingerRuntime> = Vec::new();
        let n = names.len();
        let mut i: usize = 0;
        while i < n
            invariant
                n == names@.len(),
                i <= n,
                fingers@.len() == i,
                forall|k: int| 0 <= k < i ==> #[trigger] fingers@[k] == fresh_runtime(),
            decreases n - i,
        {
            fingers.push(FingerRuntime {
                state: GraspState::Tracking,
                baseline_samples: 0,
                contact_samples: 0,
                release_samples: 0,
                fault_reason: None,
            });
            i = i + 1;
        }
        SoftGraspController { contact_confirm_samples, baseline_samples, fingers }
    }

    /// The number of fingers.
    pub fn finger_count(&self) -> (count: usize)
        ensures
            count == self.runtimes().len(),
    {
        self.fingers.len()
    }

    /// The discrete state of finger `index`.
    pub fn runtime(&self, index: usize) -> (runtime: FingerRuntime)
        requires
            index < self.runtimes().len(),
        ensures
            runtime == self.runtimes()[index as int],
    {
        self.fingers[index]
    }

    /// Runs one control step of finger `index` and returns its decision.
    pub fn update(&mut self, index: usize, inputs: StepInputs) -> (decision: FingerDecision)
        requires
            index < old(self).runtimes().len(),
            step_fits(old(self).runtimes()[index as int]),
        ensures
            final(self).confirm_samples() == old(self).confirm_samples(),
            final(self).baseline_target() == old(self).baseline_target(),
            final(self).runtimes() == old(self).runtimes().update(
                index as int,
                next_runtime(old(self).runtimes()[index as int], inputs, old(self).confirm_samples()),
            ),
            decision == decide(old(self).runtimes()[index as int], inputs, old(self).confirm_samples()),
    {
        let mut runtime = self.fingers[index];
        let decision = step_finger(&mut runtime, inputs, self.contact_confirm_samples);
        self.fingers.set(index, runtime);
        decision
    }

    /// Counts one load-baseline sample of finger `index`, unless its baseline
    /// is complete. Returns the number of samples averaged so far (the weight
    /// of the running mean) when the sample is taken, and `None` when it is
    /// ignored.
    pub fn observe_baseline(&mut self, index: usize) -> (taken: Option<u32>)
        requires
            index < old(self).runtimes().len(),
        ensures
            final(self).confirm_samples() == old(self).confirm_samples(),
            final(self).baseline_target() == old(self).baseline_target(),
            ({
                let before = old(self).runtimes()[index as int];
                &&& taken == (if before.baseline_samples >= old(self).baseline_target() {
                    None
                } else {
                    Some(before.baseline_samples)
                })
                &&& final(self).runtimes() == old(self).runtimes().update(
                    index as int,
                    FingerRuntime {
                        baseline_samples: next_baseline_count(before.baseline_samples, old(self).baseline_target()),
                        ..before
                    },
                )
            }),
    {
        let mut runtime = self.fingers[index];
        if runtime.baseline_samples >= self.baseline_samples {
            assert(self.fingers@.update(index as int, runtime) =~= self.fingers@);
            return None;
        }
        let count = runtime.baseline_samples;
        runtime.baseline_samples = count + 1;
        self.fingers.set(index, runtime);
        Some(count)
    }

    /// Whether every finger has taken its full load baseline.
    pub fn baseline_ready(&self) -> (ready: bool)
        ensures
            ready == self.spec_baseline_ready(),
    {
        let n = self.fingers.len();
        let mut i: usize = 0;
        while i < n
            invariant
                n == self.fingers@.len(),
                i <= n,
                forall|k: int| 0 <= k < i ==> (#[trigger] self.fingers@[k]).baseline_samples >= self.baseline_samples,
            decreases n - i,
        {
            if self.fingers[i].baseline_samples < self.baseline_samples {
                return false;
            }
            i = i + 1;
        }
        true
    }
}

} // verus!
