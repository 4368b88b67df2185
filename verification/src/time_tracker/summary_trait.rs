//! The capability of summarizing a user's worklogs.

use super::user_worklogs_summary::UserWorklogsSummary;
use crate::calendar::Date;
use crate::jira::FetchError;
use vstd::prelude::*;

verus! {

/// Summarizes the worklogs of a user day by day.
pub trait SummaryTrait {
    /// Whether `result` is something that a summary with these arguments
    /// may return. A summarizer that makes no statement about its results
    /// leaves this as it is: every result is possible.
    open spec fn summarizes(
        &self,
        user_name: Seq<char>,
        start_date: Date,
        end_date: Date,
        result: Result<UserWorklogsSummary, FetchError>,
    ) -> bool {
        true
    }

    /// One summary for each day from `start_date` to `end_date`, both
    /// included, of the worklogs of `user_name`; or the error that ended
    /// the fetch of the worklogs.
    fn get_user_worklogs_summary(
        &self,
        user_name: &str,
        start_date: Date,
        end_date: Date,
    ) -> (result: Result<UserWorklogsSummary, FetchError>)
        ensures
            self.summarizes(user_name@, start_date, end_date, result),
    ;
}

} // verus!
