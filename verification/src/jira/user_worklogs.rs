//! The worklogs of one user in one range of days.

use super::worklog::{views_of, Worklog, WorklogView};
use crate::calendar::Date;
use vstd::prelude::*;

verus! {

/// What a fetch returns: the query and the worklogs that answer it.
#[derive(Debug, PartialEq, Eq, Clone)]
pub struct UserWorklogs {
    pub user: String,
    pub start_date: Date,
    pub end_date: Date,
    pub worklogs: Vec<Worklog>,
}

/// The worklogs of a user as a mathematical value.
pub struct UserWorklogsView {
    pub user: Seq<char>,
    pub start_date: int,
    pub end_date: int,
    pub worklogs: Seq<WorklogView>,
}

impl View for UserWorklogs {
    type V = UserWorklogsView;

    open spec fn view(&self) -> UserWorklogsView {
        UserWorklogsView {
            user: self.user@,
            start_date: self.start_date@,
            end_date: self.end_date@,
            worklogs: views_of(self.worklogs@),
        }
    }
}

impl UserWorklogsView {
    /// Every worklog is dated within the range of the query, both ends
    /// included.
    pub open spec fn dates_in_range(self) -> bool {
        forall|i: int|
            0 <= i < self.worklogs.len() ==> self.start_date <= (#[trigger] self.worklogs[i]).date
                <= self.end_date
    }
}

impl UserWorklogs {
    /// The given worklogs as the answer to the given query. Whether they
    /// are dated within its range is not looked at.
    pub fn new(user: &str, start_date: Date, end_date: Date, worklogs: Vec<Worklog>) -> (result:
        Self)
        ensures
            result@ == (UserWorklogsView {
                user: user@,
                start_date: start_date@,
                end_date: end_date@,
                worklogs: views_of(worklogs@),
            }),
            result.worklogs == worklogs,
    {
        Self { user: user.to_owned(), start_date, end_date, worklogs }
    }
}

} // verus!
