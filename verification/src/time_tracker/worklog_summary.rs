//! The summary of one calendar day.

use crate::jira::{total_time, views_of, Worklog, WorklogView};
use vstd::prelude::*;

verus! {

/// The worklogs of one day and the time they add up to.
#[derive(Debug, PartialEq, Eq, Clone)]
pub struct WorklogSummary {
    /// Seconds of work. The type is wide enough for the sum of as many
    /// `u64` entries as a `Vec` can hold.
    pub spent_time: u128,
    pub worklogs: Vec<Worklog>,
}

/// The summary of a day as a mathematical value.
pub struct WorklogSummaryView {
    pub spent_time: nat,
    pub worklogs: Seq<WorklogView>,
}

impl View for WorklogSummary {
    type V = WorklogSummaryView;

    open spec fn view(&self) -> WorklogSummaryView {
        WorklogSummaryView {
            spent_time: self.spent_time as nat,
            worklogs: views_of(self.worklogs@),
        }
    }
}

impl WorklogSummaryView {
    /// The time spent is the sum over the worklogs.
    pub open spec fn wf(self) -> bool {
        self.spent_time == total_time(self.worklogs)
    }
}

} // verus!
