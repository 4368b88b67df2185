//! What to do with a summary: whether it calls for a notification.

use crate::jira::FetchError;
use crate::time_tracker::{UserWorklogsSummary, WorklogSummary, WorklogSummaryView};
use vstd::prelude::*;

verus! {

broadcast use vstd::std_specs::hash::group_hash_axioms;

/// The time that is expected to be logged on a day: eight hours, in
/// seconds.
pub const EXPECTED_SPENT_TIME: u128 = 28_800;

/// Where the image of a notification lies.
pub const NOTIFICATION_IMAGE: &'static str = "assets/image.jpg";

/// One step of a notification.
#[derive(Debug, PartialEq, Eq, Clone, Copy)]
pub enum Step {
    /// Load the image at `NOTIFICATION_IMAGE` into the window.
    LoadImage,
    /// Make the window visible.
    ShowImage,
    /// Play the sound to its end.
    Play,
    /// Make the window invisible.
    HideImage,
}

/// What follows a summary.
#[derive(Debug, PartialEq, Eq, Clone)]
pub enum Action {
    /// The summary could not be made: report why, and notify of nothing.
    Report(FetchError),
    /// Some day has another time than expected: take the steps of a
    /// notification.
    Notify,
    /// Every day has the expected time: nothing is to be done.
    Nothing,
}

/// The steps of a notification in their order: the image is shown while
/// the sound plays.
pub open spec fn notification() -> Seq<Step> {
    seq![Step::LoadImage, Step::ShowImage, Step::Play, Step::HideImage]
}

/// Whether some day of the summary has another time than the expected one.
pub open spec fn differs_from_expected(summary: Map<int, WorklogSummaryView>) -> bool {
    exists|day: int| summary.contains_key(day) && summary[day].spent_time != EXPECTED_SPENT_TIME
}

/// Whether some day of the summary has another time than the expected one.
/// A summary of no day has none.
pub fn any_worklog_spent_time_other_than_expected(summary: &UserWorklogsSummary) -> (any: bool)
    ensures
        any == differs_from_expected(summary@),
{
    let mut any = false;
    let ghost table = summary.0@;
    let ghost mut seen: Seq<WorklogSummary> = Seq::empty();
    for day_summary in values: summary.0.values()
        invariant
            table == summary.0@,
            values.seq().unref().to_set() == table.values(),
            seen.len() == values.index(),
            forall|i: int| 0 <= i < seen.len() ==> seen[i] == *values.seq()[i],
            any == exists|i: int|
                0 <= i < seen.len() && (#[trigger] seen[i]).spent_time != EXPECTED_SPENT_TIME,
            values.index() == values.seq().len() ==> seen =~= values.seq().unref(),
    {
        let ghost before = seen;
        proof {
            seen = before.push(*day_summary);
            if any {
                let i = choose|i: int|
                    0 <= i < before.len() && (#[trigger] before[i]).spent_time
                        != EXPECTED_SPENT_TIME;
                assert(seen[i].spent_time != EXPECTED_SPENT_TIME);
            }
        }
        if day_summary.spent_time != EXPECTED_SPENT_TIME {
            any = true;
            assert(seen[before.len() as int].spent_time != EXPECTED_SPENT_TIME);
        }
    }
    proof {
        // What was seen are the values of the table, so a day that differs
        // was seen, and what was seen to differ is the summary of a day.
        if any {
            let i = choose|i: int|
                0 <= i < seen.len() && (#[trigger] seen[i]).spent_time != EXPECTED_SPENT_TIME;
            assert(seen.to_set().contains(seen[i]));
            let key = choose|key: i32| table.contains_key(key) && table[key] == seen[i];
            assert(summary@.contains_key(key as int));
        }
        if differs_from_expected(summary@) {
            let day = choose|day: int|
                summary@.contains_key(day) && summary@[day].spent_time != EXPECTED_SPENT_TIME;
            assert(table.values().contains(table[day as i32]));
            assert(seen.to_set().contains(table[day as i32]));
        }
    }
    any
}

/// The steps of a notification in their order. Whoever takes them stops at
/// the first that fails.
pub fn notification_steps() -> (steps: Vec<Step>)
    ensures
        steps@ == notification(),
{
    let mut steps = Vec::new();
    steps.push(Step::LoadImage);
    steps.push(Step::ShowImage);
    steps.push(Step::Play);
    steps.push(Step::HideImage);
    steps
}

/// What follows the attempt to make a summary: the report of its error, a
/// notification where some day has another time than expected, and
/// nothing otherwise.
pub fn next_action(result: Result<UserWorklogsSummary, FetchError>) -> (action: Action)
    ensures
        action == match result {
            Err(error) => Action::Report(error),
            Ok(summary) => if differs_from_expected(summary@) {
                Action::Notify
            } else {
                Action::Nothing
            },
        },
{
    match result {
        Err(error) => Action::Report(error),
        Ok(summary) => {
            if any_worklog_spent_time_other_than_expected(&summary) {
                Action::Notify
            } else {
                Action::Nothing
            }
        },
    }
}

} // verus!
