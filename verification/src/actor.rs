//! Acting on what the execution rules decided about an event.

use crate::execution_state::ExecutionState;
use vstd::prelude::*;

verus! {

/// What the execution rules ask for.
#[derive(Debug, Clone)]
pub enum ExecutionCommand {
    /// Hand over to a person.
    EnterManualIntervention { reason: String },
    /// Read the balance.
    ReconcileBalance,
    /// Something that is only noted.
    Noted,
}

/// What is done about an event that the execution rules allow.
#[derive(Debug)]
pub struct DispatchPlan {
    /// The state to change to, where it changes.
    pub change_to: Option<ExecutionState>,
    /// Hand over to a person, and why.
    pub manual_reason: Option<String>,
    /// Read the balance.
    pub reconcile: bool,
}

/// The first command that hands over to a person comes at this place.
pub open spec fn first_manual(commands: Seq<ExecutionCommand>, i: int) -> bool {
    &&& 0 <= i < commands.len()
    &&& commands[i] is EnterManualIntervention
    &&& forall|j: int| 0 <= j < i ==> !(#[trigger] commands[j] is EnterManualIntervention)
}

/// Plans what is done about an event that the execution rules allow.
pub fn plan_dispatch(
    prev: ExecutionState,
    new_state: ExecutionState,
    commands: &Vec<ExecutionCommand>,
) -> (r: DispatchPlan)
    ensures
        r.change_to == (if new_state == prev {
            None
        } else {
            Some(new_state)
        }),
        match r.manual_reason {
            Some(reason) => exists|i: int|
                #[trigger] first_manual(commands@, i) && commands@[i]->reason@ == reason@,
            None => forall|j: int|
                0 <= j < commands@.len() ==> !(#[trigger] commands@[j] is EnterManualIntervention),
        },
        r.reconcile == (exists|j: int|
            0 <= j < commands@.len() && #[trigger] commands@[j] is ReconcileBalance),
{
    let mut manual_reason: Option<String> = None;
    let mut reconcile: bool = false;
    let mut i: usize = 0;
    while i < commands.len()
        invariant
            i <= commands.len(),
            match manual_reason {
                Some(reason) => exists|k: int|
                    #[trigger] first_manual(commands@, k) && commands@[k]->reason@ == reason@,
                None => forall|j: int|
                    0 <= j < i ==> !(#[trigger] commands@[j] is EnterManualIntervention),
            },
            reconcile == (exists|j: int|
                0 <= j < i && #[trigger] commands@[j] is ReconcileBalance),
        decreases commands.len() - i,
    {
        match &commands[i] {
            ExecutionCommand::EnterManualIntervention { reason } => {
                if manual_reason.is_none() {
                    assert(first_manual(commands@, i as int));
                    manual_reason = Some(reason.clone());
                }
            },
            ExecutionCommand::ReconcileBalance => {
                reconcile = true;
            },
            ExecutionCommand::Noted => {},
        }
        i = i + 1;
    }
    DispatchPlan {
        change_to: if new_state == prev {
            None
        } else {
            Some(new_state)
        },
        manual_reason,
        reconcile,
    }
}

} // verus!
