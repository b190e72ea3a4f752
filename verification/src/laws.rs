//! What holds of every invocation and of every background task, stated over
//! the models of `entry` and `task`.
use vstd::prelude::*;
use crate::entry::{announcement_for, planned};
use crate::parameters::parameters_for;
use crate::task::{concluded, start_fault, VerdictModel};

verus! {

/// Decoded text always launches: the invocation does not fault, writes
/// exactly one line, the one that records the directory, and launches exactly
/// one task. The plan holds nothing that waits for that task.
pub proof fn decoded_text_launches(cache_folder: Seq<char>)
    ensures
        !planned(Ok(cache_folder)).faults(),
        planned(Ok(cache_folder)).announcements() == seq![announcement_for(cache_folder)],
        planned(Ok(cache_folder)).tasks() == seq![parameters_for(cache_folder)],
{
}

/// The line that records the directory ends with the directory itself.
pub proof fn announcement_ends_with_directory(cache_folder: Seq<char>)
    ensures
        announcement_for(cache_folder).len() >= cache_folder.len(),
        announcement_for(cache_folder).skip(
            announcement_for(cache_folder).len() - cache_folder.len(),
        ) == cache_folder,
{
    let line = announcement_for(cache_folder);
    assert(line.skip(line.len() - cache_folder.len()) =~= cache_folder);
}

/// The invocation faults exactly when the text could not be decoded, and
/// launches a task exactly when it could.
pub proof fn invocation_faults_exactly_on_undecodable_text(
    decoded: Result<Seq<char>, Seq<char>>,
)
    ensures
        planned(decoded).faults() <==> decoded is Err,
        planned(decoded).tasks().len() == 1 <==> decoded is Ok,
        planned(decoded).announcements().len() == planned(decoded).tasks().len(),
{
}

/// Text that could not be decoded always faults, and then nothing is written
/// and no task is launched, whatever the decoder said of the failure.
pub proof fn undecodable_text_launches_nothing(detail: Seq<char>)
    ensures
        planned(Err(detail)).faults(),
        planned(Err(detail)).announcements().len() == 0,
        planned(Err(detail)).tasks().len() == 0,
{
}

/// The task of an invocation is started with the directory exactly as it was
/// decoded, with 2 and 2 as tuning values and on port 3000.
pub proof fn task_takes_directory_and_fixed_values(cache_folder: Seq<char>)
    ensures
        planned(Ok(cache_folder)).tasks().len() == 1,
        planned(Ok(cache_folder)).tasks()[0].cache_folder == cache_folder,
        planned(Ok(cache_folder)).tasks()[0].first_tuning == 2,
        planned(Ok(cache_folder)).tasks()[0].second_tuning == 2,
        planned(Ok(cache_folder)).tasks()[0].port == 3000,
{
}

/// A start operation that reports failure always ends the task in a fault,
/// never normally, and the fault's reason ends with the failure's detail.
pub proof fn failed_start_faults(detail: Seq<char>)
    ensures
        concluded(Err(detail)) == (VerdictModel::Fault { reason: start_fault(detail) }),
        concluded(Err(detail)) != VerdictModel::Finished,
        start_fault(detail).len() >= detail.len(),
        start_fault(detail).skip(start_fault(detail).len() - detail.len()) == detail,
{
    let reason = start_fault(detail);
    assert(reason.skip(reason.len() - detail.len()) =~= detail);
}

/// The task ends in a fault exactly when the start operation reported
/// failure; after a success it ends normally.
pub proof fn task_faults_exactly_on_failed_start(outcome: Result<(), Seq<char>>)
    ensures
        concluded(outcome) is Fault <==> outcome is Err,
        concluded(outcome) is Finished <==> outcome is Ok,
{
}

/// Two invocations with different directories launch one task each, each
/// with the directory of its own invocation, so the two tasks differ. The
/// plan of an invocation depends on nothing but its own text.
pub proof fn distinct_directories_launch_distinct_tasks(first: Seq<char>, second: Seq<char>)
    requires
        first != second,
    ensures
        planned(Ok(first)).tasks().len() == 1,
        planned(Ok(second)).tasks().len() == 1,
        planned(Ok(first)).tasks()[0].cache_folder == first,
        planned(Ok(second)).tasks()[0].cache_folder == second,
        planned(Ok(first)).tasks()[0] != planned(Ok(second)).tasks()[0],
{
}

} // verus!
