use vstd::prelude::*;

use crate::safety::{fault_code, spec_fault_code, FaultReason};
use crate::soft_grasp::{spec_state_code, state_code, FingerDecision};

verus! {

/// The only servo model the controller drives.
pub open spec fn supported_model() -> Seq<char> {
    "SCS0009"@
}

/// The hand has four fingers, and both motors of each are of the supported
/// model.
pub open spec fn spec_is_supported_hand(models: Seq<(String, String)>) -> bool {
    &&& models.len() == 4
    &&& forall|k: int| 0 <= k < models.len() ==> {
        &&& (#[trigger] models[k]).0@ == supported_model()
        &&& models[k].1@ == supported_model()
    }
}

/// Checks the motor models of the configured fingers (one pair per finger):
/// the controller runs only four fingers of two SCS0009 servos each.
pub fn is_supported_hand(models: &Vec<(String, String)>) -> (supported: bool)
    ensures
        supported == spec_is_supported_hand(models@),
{
    if models.len() != 4 {
        return false;
    }
    let expected: String = "SCS0009".to_owned();
    let n = models.len();
    let mut i: usize = 0;
    while i < n
        invariant
            n == models@.len(),
            n == 4,
            i <= n,
            expected@ == supported_model(),
            forall|k: int| 0 <= k < i ==> {
                &&& (#[trigger] models@[k]).0@ == supported_model()
                &&& models@[k].1@ == supported_model()
            },
        decreases n - i,
    {
        let pair = &models[i];
        if !(pair.0 == expected) || !(pair.1 == expected) {
            return false;
        }
        i = i + 1;
    }
    true
}

/// A hand is supported exactly when it has four fingers and both the first
/// and the second motor of every finger are SCS0009 servos: any finger with
/// another model in either place, or another number of fingers, is refused.
pub proof fn supported_hand_needs_scs0009_everywhere(models: Seq<(String, String)>)
    ensures
        models.len() != 4 ==> !spec_is_supported_hand(models),
        (exists|k: int| 0 <= k < models.len() && (#[trigger] models[k]).0@ != "SCS0009"@)
            ==> !spec_is_supported_hand(models),
        (exists|k: int| 0 <= k < models.len() && (#[trigger] models[k]).1@ != "SCS0009"@)
            ==> !spec_is_supported_hand(models),
        (models.len() == 4 && forall|k: int| 0 <= k < models.len()
            ==> (#[trigger] models[k]).0@ == "SCS0009"@ && models[k].1@ == "SCS0009"@)
            ==> spec_is_supported_hand(models),
{
}

/// A finger's joint indexes are usable: exactly two, each (read as an index)
/// inside the joint array.
pub open spec fn usable_indexes(indexes: Option<Vec<i64>>, value_count: usize) -> bool {
    match indexes {
        Some(ix) => ix@.len() == 2 && (ix@[0] as usize) < value_count && (ix@[1] as usize) < value_count,
        None => false,
    }
}

/// The pair of joint indexes a finger reads.
pub open spec fn index_pair(indexes: Option<Vec<i64>>) -> (usize, usize) {
    match indexes {
        Some(ix) => (ix@[0] as usize, ix@[1] as usize),
        None => (0, 0),
    }
}

/// Picks, for each finger in order, the two entries of the joint array that
/// drive its motors. `indexes[k]` is the list of integers the input metadata
/// gives under the finger's name (`None` where it gives none, or not a list of
/// integers). The whole command is dropped (`None`) when any finger lacks
/// exactly two indexes inside the array of `value_count` joints.
pub fn select_joint_indexes(indexes: &Vec<Option<Vec<i64>>>, value_count: usize) -> (pairs: Option<Vec<(usize, usize)>>)
    ensures
        pairs is Some <==> forall|k: int| 0 <= k < indexes@.len() ==> usable_indexes(#[trigger] indexes@[k], value_count),
        pairs matches Some(p) ==> {
            &&& p@.len() == indexes@.len()
            &&& forall|k: int| 0 <= k < p@.len() ==> #[trigger] p@[k] == index_pair(indexes@[k])
        },
{
    let n = indexes.len();
    let mut pairs: Vec<(usize, usize)> = Vec::new();
    let mut i: usize = 0;
    while i < n
        invariant
            n == indexes@.len(),
            i <= n,
            pairs@.len() == i,
            forall|k: int| 0 <= k < i ==> usable_indexes(#[trigger] indexes@[k], value_count),
            forall|k: int| 0 <= k < i ==> #[trigger] pairs@[k] == index_pair(indexes@[k]),
        decreases n - i,
    {
        match &indexes[i] {
            Some(ix) => {
                if ix.len() != 2 {
                    assert(!usable_indexes(indexes@[i as int], value_count));
                    return None;
                }
                let first = ix[0] as usize;
                let second = ix[1] as usize;
                if first >= value_count || second >= value_count {
                    assert(!usable_indexes(indexes@[i as int], value_count));
                    return None;
                }
                pairs.push((first, second));
            },
            None => {
                assert(!usable_indexes(indexes@[i as int], value_count));
                return None;
            },
        }
        i = i + 1;
    }
    Some(pairs)
}

/// The servo whose feedback is read after servo `cursor`: the next one, round
/// robin over `count` servos.
pub fn next_feedback_cursor(cursor: usize, count: usize) -> (next: usize)
    requires
        count > 0,
        cursor < usize::MAX,
    ensures
        next == (cursor + 1) % (count as int),
{
    (cursor + 1) % count
}

/// After servo `cursor` was read, the finger whose feedback pair is complete:
/// the second motor of a finger (odd cursor) was just refreshed and both
/// samples of the pair are valid.
pub fn completed_pair(cursor: usize, valid: &Vec<bool>) -> (finger: Option<usize>)
    requires
        cursor < valid@.len(),
    ensures
        finger is Some <==> (cursor % 2 == 1 && valid@[cursor - 1] && valid@[cursor as int]),
        finger matches Some(f) ==> f == cursor / 2,
{
    if cursor % 2 == 1 && valid[cursor - 1] && valid[cursor] {
        Some(cursor / 2)
    } else {
        None
    }
}

/// Whether every servo has delivered a valid sample.
pub fn all_valid(valid: &Vec<bool>) -> (all: bool)
    ensures
        all == forall|k: int| 0 <= k < valid@.len() ==> #[trigger] valid@[k],
{
    let n = valid.len();
    let mut i: usize = 0;
    while i < n
        invariant
            n == valid@.len(),
            i <= n,
            forall|k: int| 0 <= k < i ==> #[trigger] valid@[k],
        decreases n - i,
    {
        if !valid[i] {
            return false;
        }
        i = i + 1;
    }
    true
}

/// A command is dropped when any finger has no index list, a list of other
/// than two indexes, or an index (read as an index) outside the joint array.
pub proof fn bad_indexes_drop_the_command(indexes: Seq<Option<Vec<i64>>>, value_count: usize, k: int)
    requires
        0 <= k < indexes.len(),
        match indexes[k] {
            Some(ix) => ix@.len() != 2 || (ix@[0] as usize) >= value_count || (ix@[1] as usize) >= value_count,
            None => true,
        },
    ensures
        !(forall|j: int| 0 <= j < indexes.len() ==> usable_indexes(#[trigger] indexes[j], value_count)),
{
    assert(!usable_indexes(indexes[k], value_count));
}

/// A usable finger drives its first motor from its first index and its
/// second motor from its second index.
pub proof fn pairs_keep_index_order(ix: Vec<i64>, value_count: usize)
    requires
        usable_indexes(Some(ix), value_count),
    ensures
        index_pair(Some(ix)).0 == ix@[0] as usize,
        index_pair(Some(ix)).1 == ix@[1] as usize,
        index_pair(Some(ix)).0 < value_count,
        index_pair(Some(ix)).1 < value_count,
{
}

/// The published fault status is 0 exactly when there is no fault.
pub proof fn fault_status_is_zero_only_without_fault(fault: Option<FaultReason>)
    ensures
        (spec_fault_status(fault) == 0) <==> fault is None,
{
}

/// The number published for an optional fault: its code, or 0 for none.
pub open spec fn spec_fault_status(fault: Option<FaultReason>) -> u8 {
    match fault {
        Some(reason) => spec_fault_code(reason),
        None => 0,
    }
}

/// Returns the number published for an optional fault.
pub fn fault_status(fault: Option<FaultReason>) -> (code: u8)
    ensures
        code == spec_fault_status(fault),
{
    match fault {
        Some(reason) => fault_code(reason),
        None => 0,
    }
}

/// The four numbers a finger's decision is published as: its state code,
/// contact (0 or 1), overload (0 or 1) and its fault status.
pub fn decision_status(decision: &FingerDecision) -> (status: [u8; 4])
    ensures
        status@[0] == spec_state_code(decision.state),
        status@[1] == (if decision.contact_detected { 1u8 } else { 0u8 }),
        status@[2] == (if decision.overload { 1u8 } else { 0u8 }),
        status@[3] == spec_fault_status(decision.fault_reason),
{
    [
        state_code(decision.state),
        if decision.contact_detected { 1 } else { 0 },
        if decision.overload { 1 } else { 0 },
        fault_status(decision.fault_reason),
    ]
}

} // verus!
