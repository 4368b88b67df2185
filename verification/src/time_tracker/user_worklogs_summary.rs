//! The summaries of a range of days.

use super::worklog_summary::{WorklogSummary, WorklogSummaryView};
use crate::calendar::Date;
use std::collections::HashMap;
use vstd::prelude::*;

verus! {

broadcast use vstd::std_specs::hash::group_hash_axioms;

/// One summary per day, found by the day's number.
#[derive(Debug, PartialEq, Eq, Clone)]
pub struct UserWorklogsSummary(pub HashMap<i32, WorklogSummary>);

impl View for UserWorklogsSummary {
    type V = Map<int, WorklogSummaryView>;

    /// The summaries as a map from day numbers.
    open spec fn view(&self) -> Map<int, WorklogSummaryView> {
        Map::new(
            |day: int| i32::MIN <= day <= i32::MAX && self.0@.contains_key(day as i32),
            |day: int| self.0@[day as i32]@,
        )
    }
}

impl UserWorklogsSummary {
    /// A summary of no day.
    pub fn new() -> (summary: Self)
        ensures
            summary@ == Map::<int, WorklogSummaryView>::empty(),
    {
        Self(HashMap::new())
    }

    /// Sets the summary of the day numbered `day`.
    pub(crate) fn insert_day(&mut self, day: i32, summary: WorklogSummary)
        ensures
            final(self)@ == old(self)@.insert(day as int, summary@),
    {
        self.0.insert(day, summary);
    }

    /// Sets the summary of `date`.
    pub fn insert(&mut self, date: Date, summary: WorklogSummary)
        ensures
            final(self)@ == old(self)@.insert(date@, summary@),
    {
        self.insert_day(date.days(), summary);
    }

    /// The summary of `date`, where the summary covers that day.
    pub fn get(&self, date: Date) -> (summary: Option<&WorklogSummary>)
        ensures
            summary is Some <==> self@.contains_key(date@),
            summary matches Some(s) ==> s@ == self@[date@],
    {
        let day = date.days();
        self.0.get(&day)
    }

    /// The number of days that the summary covers.
    pub fn len(&self) -> (len: usize)
        ensures
            len == self@.len(),
            self@.dom().finite(),
    {
        proof {
            self.lemma_view_keys();
        }
        self.0.len()
    }

    /// The view has one day for each key of the table.
    proof fn lemma_view_keys(&self)
        ensures
            self@.dom().finite(),
            self@.len() == self.0@.len(),
    {
        let keys = self.0@.dom();
        let days = keys.map(|key: i32| key as int);
        assert forall|day: int| self@.dom().contains(day) implies days.contains(day) by {
            assert(keys.contains(day as i32));
        }
        assert(days =~= self@.dom());
        keys.lemma_map_finite(|key: i32| key as int);
        vstd::set_lib::lemma_map_size(keys, days, |key: i32| key as int);
    }
}

} // verus!
