//! The summarizer: from a user's worklogs to one summary per day.

use super::summary_trait::SummaryTrait;
use super::user_worklogs_summary::UserWorklogsSummary;
use super::worklog_summary::{WorklogSummary, WorklogSummaryView};
use crate::calendar::Date;
use crate::jira::{
    total_time, views_of, FetchError, UserWorklogs, UserWorklogsFetcherTrait, Worklog, WorklogView,
};
use std::collections::HashMap;
use vstd::prelude::*;

verus! {

broadcast use vstd::std_specs::hash::group_hash_axioms;

/// The test "is dated on the day numbered `day`".
pub open spec fn dated(day: int) -> spec_fn(WorklogView) -> bool {
    |worklog: WorklogView| worklog.date == day
}

/// The summary of one day: the worklogs dated on it, in the order in which
/// `worklogs` has them, and their total.
pub open spec fn day_summary(worklogs: Seq<WorklogView>, day: int) -> WorklogSummaryView {
    let on_day = worklogs.filter(dated(day));
    WorklogSummaryView { spent_time: total_time(on_day), worklogs: on_day }
}

/// The summary of the days from `start` to `end`, both included: each of
/// them has its day's summary, and no other day has one.
pub open spec fn summary_of(worklogs: Seq<WorklogView>, start: int, end: int) -> Map<
    int,
    WorklogSummaryView,
> {
    Map::new(|day: int| start <= day <= end, |day: int| day_summary(worklogs, day))
}

/// The test "is dated on a day from `start` to `end`, both included".
pub open spec fn dated_within(start: int, end: int) -> spec_fn(WorklogView) -> bool {
    |worklog: WorklogView| start <= worklog.date <= end
}

/// The time spent on all the days from `start` to `end` together, as
/// `summary` has it.
pub open spec fn range_total(summary: Map<int, WorklogSummaryView>, start: int, end: int) -> nat
    decreases end - start + 1,
{
    if end < start {
        0
    } else {
        range_total(summary, start, end - 1) + summary[end].spent_time
    }
}

/// Calls `itertools::Itertools::into_group_map_by` with the day number as
/// the key. Trusted: a day has a group exactly when some worklog is dated on
/// it, and the group holds the worklogs of that day in the order in which
/// they came.
#[verifier::external_body]
fn group_by_day(worklogs: Vec<Worklog>) -> (groups: HashMap<i32, Vec<Worklog>>)
    ensures
        forall|day: i32| #[trigger]
            groups@.contains_key(day) <==> views_of(worklogs@).filter(dated(day as int)).len() > 0,
        forall|day: i32| #[trigger]
            groups@.contains_key(day) ==> views_of(groups@[day]@) == views_of(worklogs@).filter(
                dated(day as int),
            ),
{
    itertools::Itertools::into_group_map_by(worklogs.into_iter(), |worklog| worklog.date.days())
}

/// Adds up the seconds of `worklogs`.
fn total_spent(worklogs: &Vec<Worklog>) -> (total: u128)
    ensures
        total == total_time(views_of(worklogs@)),
{
    let ghost views = views_of(worklogs@);
    let mut total: u128 = 0;
    let mut i: usize = 0;
    while i < worklogs.len()
        invariant
            i <= worklogs.len(),
            views == views_of(worklogs@),
            total == total_time(views.take(i as int)),
            total <= i * 0xFFFF_FFFF_FFFF_FFFF,
        decreases worklogs.len() - i,
    {
        assert(views.take(i + 1).drop_last() == views.take(i as int));
        total = total + worklogs[i].time_spent as u128;
        i = i + 1;
    }
    assert(views.take(i as int) == views);
    total
}

/// Buckets `user_worklogs` by calendar day over the days from `start_date`
/// to `end_date`: every day of the range gets a summary, also a day without
/// worklogs, and worklogs dated outside the range are left out. With
/// `start_date` after `end_date` the summary covers no day.
pub fn summarize(user_worklogs: UserWorklogs, start_date: Date, end_date: Date) -> (summary:
    UserWorklogsSummary)
    ensures
        summary@ == summary_of(user_worklogs@.worklogs, start_date@, end_date@),
        summary@.dom() == Set::new(|day: int| start_date@ <= day <= end_date@),
        summary@.dom().finite(),
        summary@.len() == if start_date@ <= end_date@ {
            end_date@ - start_date@ + 1
        } else {
            0
        },
        forall|day: int| summary@.contains_key(day) ==> (#[trigger] summary@[day]).wf(),
{
    let ghost all = user_worklogs@.worklogs;
    let mut groups = group_by_day(user_worklogs.worklogs);
    let mut summary = UserWorklogsSummary::new();
    let start = start_date.days();
    let end = end_date.days();
    let mut day = start;
    while day <= end
        invariant
            start <= day,
            day <= end + 1 || day == start,
            end <= crate::calendar::MAX_DAY,
            summary@ == summary_of(all, start as int, day - 1),
            forall|d: i32|
                day <= d ==> (#[trigger] groups@.contains_key(d) <==> all.filter(
                    dated(d as int),
                ).len() > 0),
            forall|d: i32|
                day <= d && #[trigger] groups@.contains_key(d) ==> views_of(groups@[d]@)
                    == all.filter(dated(d as int)),
        decreases end - day + 1,
    {
        let worklogs = match groups.remove(&day) {
            Some(group) => group,
            None => Vec::new(),
        };
        assert(views_of(worklogs@) == all.filter(dated(day as int)));
        let spent_time = total_spent(&worklogs);
        summary.insert_day(day, WorklogSummary { spent_time, worklogs });
        day = day + 1;
    }
    proof {
        lemma_summary_covers_range(all, start_date@, end_date@);
    }
    summary
}

/// Summaries of the worklogs that `user_worklog_fetcher` fetches.
pub struct Summary<UserWorklogsFetcherType: UserWorklogsFetcherTrait> {
    pub user_worklog_fetcher: UserWorklogsFetcherType,
}

impl<UserWorklogsFetcherType: UserWorklogsFetcherTrait> Summary<UserWorklogsFetcherType> {
    /// A summarizer of what `user_worklog_fetcher` fetches.
    pub fn new(user_worklog_fetcher: UserWorklogsFetcherType) -> (summary: Self)
        ensures
            summary.user_worklog_fetcher == user_worklog_fetcher,
    {
        Self { user_worklog_fetcher }
    }

    /// Whether `result` may come of a fetch by the fetcher: its error, or
    /// the summary of the worklogs that it returned.
    pub open spec fn summarized(
        &self,
        user_name: Seq<char>,
        start_date: Date,
        end_date: Date,
        result: Result<UserWorklogsSummary, FetchError>,
    ) -> bool {
        match result {
            Ok(summary) => exists|fetched: UserWorklogs|
                {
                    &&& #[trigger] self.user_worklog_fetcher.fetches(
                        user_name,
                        start_date,
                        end_date,
                        Ok(fetched),
                    )
                    &&& summary@ == summary_of(fetched@.worklogs, start_date@, end_date@)
                },
            Err(error) => self.user_worklog_fetcher.fetches(
                user_name,
                start_date,
                end_date,
                Err(error),
            ),
        }
    }

    /// Fetches the worklogs of `user_name` for the days from `start_date`
    /// to `end_date` and summarizes them. An error of the fetch is
    /// returned as it is, and nothing is summarized.
    pub fn get_user_worklogs_summary(
        &self,
        user_name: &str,
        start_date: Date,
        end_date: Date,
    ) -> (result: Result<UserWorklogsSummary, FetchError>)
        ensures
            self.summarized(user_name@, start_date, end_date, result),
            result matches Ok(summary) ==> summary@.dom() == Set::new(
                |day: int| start_date@ <= day <= end_date@,
            ),
    {
        match self.user_worklog_fetcher.fetch(user_name, start_date, end_date) {
            Err(error) => Err(error),
            Ok(user_worklogs) => Ok(summarize(user_worklogs, start_date, end_date)),
        }
    }
}

impl<UserWorklogsFetcherType: UserWorklogsFetcherTrait> SummaryTrait for Summary<
    UserWorklogsFetcherType,
> {
    open spec fn summarizes(
        &self,
        user_name: Seq<char>,
        start_date: Date,
        end_date: Date,
        result: Result<UserWorklogsSummary, FetchError>,
    ) -> bool {
        self.summarized(user_name, start_date, end_date, result)
    }

    fn get_user_worklogs_summary(
        &self,
        user_name: &str,
        start_date: Date,
        end_date: Date,
    ) -> (result: Result<UserWorklogsSummary, FetchError>) {
        Summary::get_user_worklogs_summary(self, user_name, start_date, end_date)
    }
}

/// What one more worklog adds to the days from `start` to `end`: its time
/// where it is dated within them, nothing where it is not.
proof fn lemma_range_total_push(worklogs: Seq<WorklogView>, last: WorklogView, start: int, end: int)
    ensures
        range_total(summary_of(worklogs.push(last), start, end), start, end) == range_total(
            summary_of(worklogs, start, end),
            start,
            end,
        ) + if start <= last.date <= end {
            last.time_spent
        } else {
            0
        },
        worklogs.push(last).filter(dated_within(start, end)) == if start <= last.date <= end {
            worklogs.filter(dated_within(start, end)).push(last)
        } else {
            worklogs.filter(dated_within(start, end))
        },
    decreases end - start + 1,
{
    reveal(Seq::filter);
    let more = worklogs.push(last);
    assert(more.drop_last() =~= worklogs);
    if start <= end {
        lemma_range_total_push(worklogs, last, start, end - 1);
        lemma_range_total_prefix(more, start, end - 1, end);
        lemma_range_total_prefix(worklogs, start, end - 1, end);
        let before = worklogs.filter(dated(end));
        if last.date == end {
            assert(before.push(last).drop_last() =~= before);
        }
    }
}

/// The total of the days up to `upto` does not depend on how far the
/// summary goes on after them.
proof fn lemma_range_total_prefix(worklogs: Seq<WorklogView>, start: int, upto: int, end: int)
    requires
        upto <= end,
    ensures
        range_total(summary_of(worklogs, start, end), start, upto) == range_total(
            summary_of(worklogs, start, upto),
            start,
            upto,
        ),
    decreases upto - start + 1,
{
    if start <= upto {
        lemma_range_total_prefix(worklogs, start, upto - 1, end);
        lemma_range_total_prefix(worklogs, start, upto - 1, upto);
    }
}

/// A summary of no worklogs has no time on any day.
proof fn lemma_range_total_empty(start: int, end: int)
    ensures
        range_total(summary_of(Seq::<WorklogView>::empty(), start, end), start, end) == 0,
    decreases end - start + 1,
{
    reveal(Seq::filter);
    if start <= end {
        lemma_range_total_empty(start, end - 1);
        lemma_range_total_prefix(Seq::<WorklogView>::empty(), start, end - 1, end);
    }
}

/// The days of a summary are the days of its range, each of them once: as
/// many as the range is long, and none where the range is empty.
pub proof fn lemma_summary_covers_range(worklogs: Seq<WorklogView>, start: int, end: int)
    ensures
        forall|day: int|
            summary_of(worklogs, start, end).contains_key(day) <==> start <= day <= end,
        summary_of(worklogs, start, end).dom().finite(),
        summary_of(worklogs, start, end).len() == if start <= end {
            end - start + 1
        } else {
            0
        },
{
    let days = summary_of(worklogs, start, end).dom();
    if start <= end {
        vstd::set_lib::lemma_int_range(start, end + 1);
        assert(days =~= vstd::set_lib::set_int_range(start, end + 1));
    } else {
        assert(days =~= Set::<int>::empty());
    }
}

/// Time is conserved: the days of a summary together have the time of the
/// worklogs that are dated within its range, and of no others.
pub proof fn lemma_summary_conserves_time(worklogs: Seq<WorklogView>, start: int, end: int)
    ensures
        range_total(summary_of(worklogs, start, end), start, end) == total_time(
            worklogs.filter(dated_within(start, end)),
        ),
    decreases worklogs.len(),
{
    reveal(Seq::filter);
    if worklogs.len() == 0 {
        lemma_range_total_empty(start, end);
        assert(worklogs =~= Seq::<WorklogView>::empty());
    } else {
        let before = worklogs.drop_last();
        let last = worklogs.last();
        assert(before.push(last) =~= worklogs);
        lemma_summary_conserves_time(before, start, end);
        lemma_range_total_push(before, last, start, end);
        let kept = before.filter(dated_within(start, end));
        if start <= last.date <= end {
            assert(kept.push(last).drop_last() =~= kept);
        }
    }
}

} // verus!
