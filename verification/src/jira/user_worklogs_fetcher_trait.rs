//! The capability of fetching a user's worklogs.

use super::fetch_error::FetchError;
use super::user_worklogs::UserWorklogs;
use crate::calendar::Date;
use vstd::prelude::*;

verus! {

/// Fetches the worklogs of a user in a range of days.
pub trait UserWorklogsFetcherTrait {
    /// Whether `result` is something that a fetch with these arguments may
    /// return. A fetcher that makes no statement about its results leaves
    /// this as it is: every result is possible.
    open spec fn fetches(
        &self,
        user_name: Seq<char>,
        start_date: Date,
        end_date: Date,
        result: Result<UserWorklogs, FetchError>,
    ) -> bool {
        true
    }

    /// The worklogs that `user_name` is the author of and that are dated
    /// from `start_date` to `end_date`, both included; or the error that
    /// ended the fetch.
    fn fetch(&self, user_name: &str, start_date: Date, end_date: Date) -> (result: Result<
        UserWorklogs,
        FetchError,
    >)
        ensures
            self.fetches(user_name@, start_date, end_date, result),
    ;
}

} // verus!
