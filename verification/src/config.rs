use vstd::prelude::*;

verus! {

/// What the controller does to the hand when it stops.
#[derive(Clone, Copy, Debug, PartialEq, Eq, Structural)]
pub enum ShutdownAction {
    Hold,
    Open,
    TorqueOff,
}

impl Default for ShutdownAction {
    /// A configuration that names no shutdown action keeps the hand where it is.
    fn default() -> (action: Self)
        ensures
            action == ShutdownAction::Hold,
    {
        ShutdownAction::Hold
    }
}

/// What the controller does to a finger that is in fault.
#[derive(Clone, Copy, Debug, PartialEq, Eq, Structural)]
pub enum FaultAction {
    Hold,
    Backoff,
    TorqueOff,
}

impl Default for FaultAction {
    /// A configuration that names no fault action holds the faulted finger.
    fn default() -> (action: Self)
        ensures
            action == FaultAction::Hold,
    {
        FaultAction::Hold
    }
}

/// The integer and switch settings of the soft-grasp controller (its load,
/// position, temperature and voltage limits are real numbers and live with
/// the node).
#[derive(Clone, Copy, Debug, PartialEq, Eq, Structural)]
pub struct SoftGraspSettings {
    pub enabled: bool,
    pub feedback_hz: u32,
    pub command_hz: u32,
    pub contact_confirm_samples: u32,
    pub release_confirm_samples: u32,
    pub communication_timeout_ms: u64,
    pub baseline_samples: u32,
    pub fault_action: FaultAction,
}

impl Default for SoftGraspSettings {
    /// Soft grasp off; feedback at 10 Hz, commands at 100 Hz; contact
    /// confirmed after 5 samples; 3 release samples; feedback stale after
    /// 200 ms; a 25-sample load baseline; faulted fingers hold.
    fn default() -> (settings: Self)
        ensures
            settings == (SoftGraspSettings {
                enabled: false,
                feedback_hz: 10,
                command_hz: 100,
                contact_confirm_samples: 5,
                release_confirm_samples: 3,
                communication_timeout_ms: 200,
                baseline_samples: 25,
                fault_action: FaultAction::Hold,
            }),
    {
        SoftGraspSettings {
            enabled: false,
            feedback_hz: 10,
            command_hz: 100,
            contact_confirm_samples: 5,
            release_confirm_samples: 3,
            communication_timeout_ms: 200,
            baseline_samples: 25,
            fault_action: FaultAction::default(),
        }
    }
}

/// The finger motors a hand configuration ends up with: those of the
/// `[[Fingers.motors]]` tables when there are any, else the root `[[motors]]`
/// tables (the older spelling of the same list).
pub open spec fn spec_resolve_finger_motors<T>(nested: Option<Seq<T>>, root: Seq<T>) -> Seq<T> {
    match nested {
        Some(motors) => if motors.len() > 0 { motors } else { root },
        None => root,
    }
}

/// Chooses between the two spellings of the finger list of a hand
/// configuration: the nested list when it is present and not empty, else the
/// root list.
pub fn resolve_finger_motors<T>(nested: Option<Vec<T>>, root: Vec<T>) -> (motors: Vec<T>)
    ensures
        motors@ == spec_resolve_finger_motors(
            match nested {
                Some(v) => Some(v@),
                None => None,
            },
            root@,
        ),
{
    match nested {
        Some(motors) => {
            if motors.len() > 0 {
                motors
            } else {
                root
            }
        },
        None => root,
    }
}

/// The nested finger list is used whenever it holds a finger; the root list
/// is used when the nested list is absent or empty.
pub proof fn nested_finger_list_wins<T>(nested: Option<Seq<T>>, root: Seq<T>)
    ensures
        (nested matches Some(m) && m.len() > 0) ==> spec_resolve_finger_motors(nested, root) == nested->0,
        (nested is None || nested->0.len() == 0) ==> spec_resolve_finger_motors(nested, root) == root,
{
}

/// Finds the soft-grasp settings of the finger called `name` among the
/// configured finger names: the index of the first one that matches.
pub fn find_finger(names: &Vec<String>, name: &String) -> (found: Option<usize>)
    ensures
        match found {
            Some(k) => {
                &&& k < names@.len()
                &&& names@[k as int]@ == name@
                &&& forall|j: int| 0 <= j < k ==> (#[trigger] names@[j])@ != name@
            },
            None => forall|j: int| 0 <= j < names@.len() ==> (#[trigger] names@[j])@ != name@,
        },
{
    let n = names.len();
    let mut i: usize = 0;
    while i < n
        invariant
            n == names@.len(),
            i <= n,
            forall|j: int| 0 <= j < i ==> (#[trigger] names@[j])@ != name@,
        decreases n - i,
    {
        if names[i] == *name {
            return Some(i);
        }
        i = i + 1;
    }
    None
}

} // verus!
