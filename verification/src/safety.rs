use vstd::prelude::*;

verus! {

/// Why a finger, or the whole hand, stopped following its commands.
#[derive(Clone, Copy, Debug, PartialEq, Eq, Structural)]
pub enum FaultReason {
    Overload,
    OverTemperature,
    VoltageOutOfRange,
    FeedbackTimeout,
    Communication,
}

/// What the safety check reads of one servo's latest feedback sample.
///
/// `age_nanos` is the time elapsed since the sample was taken; the two flags
/// are the sample's temperature and voltage already held against the
/// configured limits.
#[derive(Clone, Copy, Debug, PartialEq, Eq, Structural)]
pub struct SampleHealth {
    pub valid: bool,
    pub age_nanos: u128,
    pub over_temperature: bool,
    pub voltage_out_of_range: bool,
}

/// A sample is stale when it is marked invalid or older than the
/// communication timeout (strictly).
pub open spec fn is_stale(sample: SampleHealth, timeout_ms: u64) -> bool {
    !sample.valid || sample.age_nanos > timeout_ms * 1_000_000
}

/// The fault that a set of samples raises: stale feedback first, then
/// over-temperature, then a voltage out of range.
pub open spec fn spec_feedback_fault(samples: Seq<SampleHealth>, timeout_ms: u64) -> Option<FaultReason> {
    if exists|k: int| 0 <= k < samples.len() && is_stale(#[trigger] samples[k], timeout_ms) {
        Some(FaultReason::FeedbackTimeout)
    } else if exists|k: int| 0 <= k < samples.len() && (#[trigger] samples[k]).over_temperature {
        Some(FaultReason::OverTemperature)
    } else if exists|k: int| 0 <= k < samples.len() && (#[trigger] samples[k]).voltage_out_of_range {
        Some(FaultReason::VoltageOutOfRange)
    } else {
        None
    }
}

/// Checks the latest feedback of every servo and returns the fault it raises,
/// if any.
pub fn feedback_fault(samples: &Vec<SampleHealth>, communication_timeout_ms: u64) -> (fault: Option<FaultReason>)
    ensures
        fault == spec_feedback_fault(samples@, communication_timeout_ms),
{
    let timeout_nanos: u128 = (communication_timeout_ms as u128) * 1_000_000u128;
    let n = samples.len();
    let mut i: usize = 0;
    while i < n
        invariant
            n == samples@.len(),
            i <= n,
            timeout_nanos == communication_timeout_ms * 1_000_000,
            forall|k: int| 0 <= k < i ==> !is_stale(#[trigger] samples@[k], communication_timeout_ms),
        decreases n - i,
    {
        let s = samples[i];
        if !s.valid || s.age_nanos > timeout_nanos {
            assert(is_stale(samples@[i as int], communication_timeout_ms));
            return Some(FaultReason::FeedbackTimeout);
        }
        i = i + 1;
    }
    let mut i: usize = 0;
    while i < n
        invariant
            n == samples@.len(),
            i <= n,
            forall|k: int| 0 <= k < n ==> !is_stale(#[trigger] samples@[k], communication_timeout_ms),
            forall|k: int| 0 <= k < i ==> !(#[trigger] samples@[k]).over_temperature,
        decreases n - i,
    {
        if samples[i].over_temperature {
            assert(samples@[i as int].over_temperature);
            return Some(FaultReason::OverTemperature);
        }
        i = i + 1;
    }
    let mut i: usize = 0;
    while i < n
        invariant
            n == samples@.len(),
            i <= n,
            forall|k: int| 0 <= k < n ==> !is_stale(#[trigger] samples@[k], communication_timeout_ms),
            forall|k: int| 0 <= k < n ==> !(#[trigger] samples@[k]).over_temperature,
            forall|k: int| 0 <= k < i ==> !(#[trigger] samples@[k]).voltage_out_of_range,
        decreases n - i,
    {
        if samples[i].voltage_out_of_range {
            assert(samples@[i as int].voltage_out_of_range);
            return Some(FaultReason::VoltageOutOfRange);
        }
        i = i + 1;
    }
    None
}

/// Stale feedback outranks every other fault: if any sample is stale, the
/// check reports a feedback timeout, whatever the temperatures and voltages.
pub proof fn stale_feedback_outranks_other_faults(samples: Seq<SampleHealth>, timeout_ms: u64, k: int)
    requires
        0 <= k < samples.len(),
        is_stale(samples[k], timeout_ms),
    ensures
        spec_feedback_fault(samples, timeout_ms) == Some(FaultReason::FeedbackTimeout),
{
}

/// Over-temperature outranks a voltage out of range: with fresh feedback and
/// a hot servo, the check reports over-temperature.
pub proof fn temperature_outranks_voltage(samples: Seq<SampleHealth>, timeout_ms: u64, k: int)
    requires
        0 <= k < samples.len(),
        samples[k].over_temperature,
        forall|j: int| 0 <= j < samples.len() ==> !is_stale(#[trigger] samples[j], timeout_ms),
    ensures
        spec_feedback_fault(samples, timeout_ms) == Some(FaultReason::OverTemperature),
{
}

/// The feedback check never reports an overload (that is decided per finger)
/// nor a communication fault.
pub proof fn feedback_check_reports_no_overload(samples: Seq<SampleHealth>, timeout_ms: u64)
    ensures
        spec_feedback_fault(samples, timeout_ms) != Some(FaultReason::Overload),
        spec_feedback_fault(samples, timeout_ms) != Some(FaultReason::Communication),
{
}

/// Healthy feedback raises no fault: fresh, valid samples within the
/// temperature and voltage limits give `None`.
pub proof fn healthy_feedback_raises_no_fault(samples: Seq<SampleHealth>, timeout_ms: u64)
    requires
        forall|j: int| 0 <= j < samples.len() ==> {
            &&& !is_stale(#[trigger] samples[j], timeout_ms)
            &&& !samples[j].over_temperature
            &&& !samples[j].voltage_out_of_range
        },
    ensures
        spec_feedback_fault(samples, timeout_ms) is None,
{
}

/// An invalid sample, or one older than the timeout, at any index raises a
/// feedback timeout.
pub proof fn any_stale_sample_times_out(samples: Seq<SampleHealth>, timeout_ms: u64, k: int)
    requires
        0 <= k < samples.len(),
        !samples[k].valid || samples[k].age_nanos > timeout_ms * 1_000_000,
    ensures
        spec_feedback_fault(samples, timeout_ms) == Some(FaultReason::FeedbackTimeout),
{
    assert(is_stale(samples[k], timeout_ms));
}

/// With every sample valid and fresh, a servo at any index over its
/// temperature limit raises over-temperature.
pub proof fn any_hot_servo_raises_over_temperature(samples: Seq<SampleHealth>, timeout_ms: u64, k: int)
    requires
        0 <= k < samples.len(),
        samples[k].over_temperature,
        forall|j: int| 0 <= j < samples.len()
            ==> (#[trigger] samples[j]).valid && samples[j].age_nanos <= timeout_ms * 1_000_000,
    ensures
        spec_feedback_fault(samples, timeout_ms) == Some(FaultReason::OverTemperature),
{
    assert(samples[k].over_temperature);
}

/// With every sample valid, fresh and within its temperature limit, a servo
/// at any index with its voltage out of range raises a voltage fault.
pub proof fn any_voltage_out_of_range_is_reported(samples: Seq<SampleHealth>, timeout_ms: u64, k: int)
    requires
        0 <= k < samples.len(),
        samples[k].voltage_out_of_range,
        forall|j: int| 0 <= j < samples.len() ==> {
            &&& (#[trigger] samples[j]).valid
            &&& samples[j].age_nanos <= timeout_ms * 1_000_000
            &&& !samples[j].over_temperature
        },
    ensures
        spec_feedback_fault(samples, timeout_ms) == Some(FaultReason::VoltageOutOfRange),
{
    assert(samples[k].voltage_out_of_range);
}

/// Every fault the check reports has a sample behind it: a timeout comes
/// from an invalid or stale sample; over-temperature from a hot servo, with
/// every sample fresh; a voltage fault from a servo out of range, with every
/// sample fresh and cool.
pub proof fn reported_faults_have_a_cause(samples: Seq<SampleHealth>, timeout_ms: u64)
    ensures
        spec_feedback_fault(samples, timeout_ms) == Some(FaultReason::FeedbackTimeout) ==> exists|k: int|
            0 <= k < samples.len() && (!(#[trigger] samples[k]).valid || samples[k].age_nanos > timeout_ms
                * 1_000_000),
        spec_feedback_fault(samples, timeout_ms) == Some(FaultReason::OverTemperature) ==> {
            &&& exists|k: int| 0 <= k < samples.len() && (#[trigger] samples[k]).over_temperature
            &&& forall|j: int| 0 <= j < samples.len()
                ==> (#[trigger] samples[j]).valid && samples[j].age_nanos <= timeout_ms * 1_000_000
        },
        spec_feedback_fault(samples, timeout_ms) == Some(FaultReason::VoltageOutOfRange) ==> {
            &&& exists|k: int| 0 <= k < samples.len() && (#[trigger] samples[k]).voltage_out_of_range
            &&& forall|j: int| 0 <= j < samples.len() ==> {
                &&& (#[trigger] samples[j]).valid
                &&& samples[j].age_nanos <= timeout_ms * 1_000_000
                &&& !samples[j].over_temperature
            }
        },
        spec_feedback_fault(samples, timeout_ms) is None ==> forall|j: int| 0 <= j < samples.len() ==> {
            &&& (#[trigger] samples[j]).valid
            &&& samples[j].age_nanos <= timeout_ms * 1_000_000
            &&& !samples[j].over_temperature
            &&& !samples[j].voltage_out_of_range
        },
{
    if spec_feedback_fault(samples, timeout_ms) == Some(FaultReason::FeedbackTimeout) {
        let k = choose|k: int| 0 <= k < samples.len() && is_stale(#[trigger] samples[k], timeout_ms);
        assert(!samples[k].valid || samples[k].age_nanos > timeout_ms * 1_000_000);
    }
    assert forall|j: int| 0 <= j < samples.len() && spec_feedback_fault(samples, timeout_ms) != Some(
        FaultReason::FeedbackTimeout,
    ) implies (#[trigger] samples[j]).valid && samples[j].age_nanos <= timeout_ms * 1_000_000 by {
        assert(!is_stale(samples[j], timeout_ms));
    }
}

/// Fault codes are distinct and run from 1 to 5, so that 0 can stand for no
/// fault.
pub proof fn fault_codes_are_distinct(a: FaultReason, b: FaultReason)
    ensures
        1 <= spec_fault_code(a) <= 5,
        a != b ==> spec_fault_code(a) != spec_fault_code(b),
{
}

/// The number by which a fault is published on the status outputs.
pub open spec fn spec_fault_code(reason: FaultReason) -> u8 {
    match reason {
        FaultReason::Overload => 1,
        FaultReason::OverTemperature => 2,
        FaultReason::VoltageOutOfRange => 3,
        FaultReason::FeedbackTimeout => 4,
        FaultReason::Communication => 5,
    }
}

/// Returns the number by which `reason` is published (1 to 5; 0 stands for
/// no fault on the status outputs).
pub fn fault_code(reason: FaultReason) -> (code: u8)
    ensures
        code == spec_fault_code(reason),
{
    match reason {
        FaultReason::Overload => 1,
        FaultReason::OverTemperature => 2,
        FaultReason::VoltageOutOfRange => 3,
        FaultReason::FeedbackTimeout => 4,
        FaultReason::Communication => 5,
    }
}

} // verus!
