//! What the background task does once the server's start operation has
//! returned.
use vstd::prelude::*;

verus! {

/// How the background task ends.
#[derive(Clone, Debug, PartialEq, Eq)]
pub enum TaskVerdict {
    /// The start operation reported success: the task ends normally.
    Finished,
    /// The start operation reported failure: raise a fault with this reason.
    Fault { reason: String },
}

/// `TaskVerdict` as mathematical values.
pub enum VerdictModel {
    Finished,
    Fault { reason: Seq<char> },
}

impl View for TaskVerdict {
    type V = VerdictModel;

    open spec fn view(&self) -> VerdictModel {
        match self {
            TaskVerdict::Finished => VerdictModel::Finished,
            TaskVerdict::Fault { reason } => VerdictModel::Fault { reason: reason@ },
        }
    }
}

/// The reason of the fault raised when the server did not start, with the
/// server's own account of the failure at its end.
pub open spec fn start_fault(detail: Seq<char>) -> Seq<char> {
    "Error while starting rust server: "@ + detail
}

/// The verdict for each result of the start operation: `Err` holds the
/// server's account of the failure.
pub open spec fn concluded(outcome: Result<(), Seq<char>>) -> VerdictModel {
    match outcome {
        Ok(_) => VerdictModel::Finished,
        Err(detail) => VerdictModel::Fault { reason: start_fault(detail) },
    }
}

/// The result of the start operation as mathematical values.
pub open spec fn outcome_model(outcome: Result<(), String>) -> Result<(), Seq<char>> {
    match outcome {
        Ok(_) => Ok(()),
        Err(detail) => Err(detail@),
    }
}

/// Decides how the task ends. A failed start is never passed over and never
/// tried again: it becomes a fault that carries the failure's detail.
pub fn conclude_task(outcome: Result<(), String>) -> (verdict: TaskVerdict)
    ensures
        verdict@ == concluded(outcome_model(outcome)),
{
    match outcome {
        Ok(_) => TaskVerdict::Finished,
        Err(detail) => {
            let mut reason = String::from_str("Error while starting rust server: ");
            reason.append(detail.as_str());
            TaskVerdict::Fault { reason }
        },
    }
}

} // verus!
