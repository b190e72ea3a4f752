//! What one invocation of the bridge does, decided from the outcome of
//! decoding the host's text.
use vstd::prelude::*;
use crate::parameters::{parameters_for, ParametersModel, ServerParameters};

verus! {

/// The actions of one invocation, to be performed in the order of the fields.
#[derive(Clone, Debug, PartialEq, Eq)]
pub enum EntryPlan {
    /// The text could not be decoded: raise a fault with this reason. Nothing
    /// is written and no task is launched.
    Abort { reason: String },
    /// Write `announcement` as one informational line, then launch one
    /// detached task that starts the server with `parameters`, then return to
    /// the host without waiting for that task.
    Launch { announcement: String, parameters: ServerParameters },
}

/// `EntryPlan` as mathematical values.
pub enum PlanModel {
    Abort { reason: Seq<char> },
    Launch { announcement: Seq<char>, parameters: ParametersModel },
}

impl PlanModel {
    /// The lines that the plan writes, in order.
    pub open spec fn announcements(self) -> Seq<Seq<char>> {
        match self {
            PlanModel::Abort { .. } => Seq::empty(),
            PlanModel::Launch { announcement, .. } => seq![announcement],
        }
    }

    /// The tasks that the plan launches, each by its parameters.
    pub open spec fn tasks(self) -> Seq<ParametersModel> {
        match self {
            PlanModel::Abort { .. } => Seq::empty(),
            PlanModel::Launch { parameters, .. } => seq![parameters],
        }
    }

    /// Whether the invocation ends in a fault instead of returning.
    pub open spec fn faults(self) -> bool {
        self is Abort
    }
}

impl View for EntryPlan {
    type V = PlanModel;

    open spec fn view(&self) -> PlanModel {
        match self {
            EntryPlan::Abort { reason } => PlanModel::Abort { reason: reason@ },
            EntryPlan::Launch { announcement, parameters } => PlanModel::Launch {
                announcement: announcement@,
                parameters: parameters@,
            },
        }
    }
}

/// The line that records the cache directory.
pub open spec fn announcement_for(cache_folder: Seq<char>) -> Seq<char> {
    "Starting backend server with cache folder: "@ + cache_folder
}

/// The reason of the fault raised for text that could not be decoded, with
/// the decoder's own account of the failure at its end.
pub open spec fn decode_fault(detail: Seq<char>) -> Seq<char> {
    "Couldn't get String from 'JString': "@ + detail
}

/// The plan for each outcome of decoding: `Ok` holds the decoded cache
/// directory, `Err` the decoder's account of why there is none.
pub open spec fn planned(decoded: Result<Seq<char>, Seq<char>>) -> PlanModel {
    match decoded {
        Ok(cache_folder) => PlanModel::Launch {
            announcement: announcement_for(cache_folder),
            parameters: parameters_for(cache_folder),
        },
        Err(detail) => PlanModel::Abort { reason: decode_fault(detail) },
    }
}

/// The outcome of decoding as mathematical values.
pub open spec fn decoded_model(decoded: Result<String, String>) -> Result<Seq<char>, Seq<char>> {
    match decoded {
        Ok(cache_folder) => Ok(cache_folder@),
        Err(detail) => Err(detail@),
    }
}

/// Decides what the invocation does. Decoded text always launches: one line
/// that names the directory, one task with the directory as given and the
/// fixed values. Text that could not be decoded always aborts.
pub fn plan_entry(decoded: Result<String, String>) -> (plan: EntryPlan)
    ensures
        plan@ == planned(decoded_model(decoded)),
{
    match decoded {
        Ok(cache_folder) => {
            let mut announcement = String::from_str("Starting backend server with cache folder: ");
            announcement.append(cache_folder.as_str());
            EntryPlan::Launch {
                announcement,
                parameters: ServerParameters::for_cache_folder(cache_folder),
            }
        },
        Err(detail) => {
            let mut reason = String::from_str("Couldn't get String from 'JString': ");
            reason.append(detail.as_str());
            EntryPlan::Abort { reason }
        },
    }
}

} // verus!
