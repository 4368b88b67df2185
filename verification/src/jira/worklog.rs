//! One logged entry of work time.

use crate::calendar::Date;
use crate::text::{decimal, decimal_text};
use vstd::prelude::*;
use vstd::string::StringExecFns;

verus! {

/// Time logged against an issue on one calendar day.
#[derive(Debug, PartialEq, Eq, Clone)]
pub struct Worklog {
    pub date: Date,
    pub issue_key: String,
    pub issue_summary: String,
    /// Seconds of work.
    pub time_spent: u64,
}

/// A worklog as a mathematical value: the day number, the two texts and the
/// seconds.
pub struct WorklogView {
    pub date: int,
    pub issue_key: Seq<char>,
    pub issue_summary: Seq<char>,
    pub time_spent: nat,
}

impl View for Worklog {
    type V = WorklogView;

    open spec fn view(&self) -> WorklogView {
        WorklogView {
            date: self.date@,
            issue_key: self.issue_key@,
            issue_summary: self.issue_summary@,
            time_spent: self.time_spent as nat,
        }
    }
}

/// The views of a sequence of worklogs, in the same order.
pub open spec fn views_of(worklogs: Seq<Worklog>) -> Seq<WorklogView> {
    Seq::new(worklogs.len(), |i: int| worklogs[i]@)
}

/// The seconds of all the worklogs together.
pub open spec fn total_time(worklogs: Seq<WorklogView>) -> nat
    decreases worklogs.len(),
{
    if worklogs.len() == 0 {
        0
    } else {
        total_time(worklogs.drop_last()) + worklogs.last().time_spent
    }
}

/// A worklog written out for a reader: the issue, and the time in hours,
/// minutes and seconds.
pub open spec fn worklog_text(worklog: WorklogView) -> Seq<char> {
    "Issue key: "@ + worklog.issue_key + ", Summary: "@ + worklog.issue_summary
        + ", Logger time: "@ + decimal(worklog.time_spent / 3600) + "h"@ + decimal(
        worklog.time_spent / 60 % 60,
    ) + "m"@ + decimal(worklog.time_spent % 60) + "s"@
}

impl Worklog {
    /// The worklog written out for a reader, such as
    /// `Issue key: K-1, Summary: Fix it, Logger time: 1h30m0s`.
    pub fn to_text(&self) -> (text: String)
        ensures
            text@ == worklog_text(self@),
    {
        let hours = self.time_spent / 3600;
        let minutes = self.time_spent / 60 % 60;
        let seconds = self.time_spent % 60;
        let mut text = "Issue key: ".to_owned();
        text.append(self.issue_key.as_str());
        text.append(", Summary: ");
        text.append(self.issue_summary.as_str());
        text.append(", Logger time: ");
        text.append(decimal_text(hours).as_str());
        text.append("h");
        text.append(decimal_text(minutes).as_str());
        text.append("m");
        text.append(decimal_text(seconds).as_str());
        text.append("s");
        text
    }

    /// A worklog of `time_spent` seconds on `date` against the issue with
    /// the given key and summary.
    pub fn new(date: Date, issue_key: &str, issue_summary: &str, time_spent: u64) -> (worklog:
        Self)
        ensures
            worklog@ == (WorklogView {
                date: date@,
                issue_key: issue_key@,
                issue_summary: issue_summary@,
                time_spent: time_spent as nat,
            }),
    {
        Self {
            date,
            issue_key: issue_key.to_owned(),
            issue_summary: issue_summary.to_owned(),
            time_spent,
        }
    }
}

} // verus!
