//! The records that the fetcher reads out of the tracker's documents.

use super::worklog::{Worklog, WorklogView};
use crate::calendar::{date_parsed, Date};
use crate::json::Json;
use crate::text::same_text;
use vstd::prelude::*;

verus! {

/// The layout of the instant at which a worklog was started, such as
/// `2022-09-15T12:34:56.123+0300`.
pub const JIRA_TIME_FORMAT: &'static str = "%Y-%m-%dT%H:%M:%S%.3f%z";

/// What the fetcher reads of an issue.
#[derive(Debug, PartialEq, Eq, Clone)]
pub struct Issue {
    /// Address of the issue's own resource.
    pub self_url: String,
    pub key: String,
    pub summary: String,
}

/// An issue as a mathematical value.
pub struct IssueView {
    pub self_url: Seq<char>,
    pub key: Seq<char>,
    pub summary: Seq<char>,
}

impl View for Issue {
    type V = IssueView;

    open spec fn view(&self) -> IssueView {
        IssueView { self_url: self.self_url@, key: self.key@, summary: self.summary@ }
    }
}

/// What the fetcher reads of one worklog of an issue.
#[derive(Debug, PartialEq, Eq, Clone)]
pub struct WorklogEntry {
    pub author: String,
    /// The day on which the work started.
    pub started: Date,
    pub time_spent_seconds: u64,
}

/// A worklog entry as a mathematical value: the author, the number of the
/// day on which the work started, and the seconds.
pub struct EntryView {
    pub author: Seq<char>,
    pub started: int,
    pub time_spent_seconds: nat,
}

impl View for WorklogEntry {
    type V = EntryView;

    open spec fn view(&self) -> EntryView {
        EntryView {
            author: self.author@,
            started: self.started@,
            time_spent_seconds: self.time_spent_seconds as nat,
        }
    }
}

/// The text of the member `name` of `json`.
pub open spec fn text_at(json: Json, name: Seq<char>) -> Option<Seq<char>> {
    match json.member(name) {
        Some(member) => member.text(),
        None => None,
    }
}

/// The number in the member `name` of `json`.
pub open spec fn number_at(json: Json, name: Seq<char>) -> Option<u64> {
    match json.member(name) {
        Some(member) => member.number(),
        None => None,
    }
}

/// The issue that `json` describes: an object with the texts `self` and
/// `key` and, in its object `fields`, the text `summary`. `None` where one
/// of them is missing or is no text.
pub open spec fn issue_of(json: Json) -> Option<IssueView> {
    match (text_at(json, "self"@), text_at(json, "key"@), json.member("fields"@)) {
        (Some(self_url), Some(key), Some(fields)) => match text_at(fields, "summary"@) {
            Some(summary) => Some(IssueView { self_url, key, summary }),
            None => None,
        },
        _ => None,
    }
}

/// The worklog entry that `json` describes: an object with the text `name`
/// in its object `author`, the text `started` in the layout
/// `JIRA_TIME_FORMAT` and the number `timeSpentSeconds`. `None` where one
/// of them is missing or is not of that kind.
pub open spec fn entry_of(json: Json) -> Option<EntryView> {
    match (
        json.member("author"@),
        text_at(json, "started"@),
        number_at(json, "timeSpentSeconds"@),
    ) {
        (Some(author), Some(started), Some(seconds)) => match (
            text_at(author, "name"@),
            date_parsed(started, JIRA_TIME_FORMAT@),
        ) {
            (Some(name), Some(day)) => Some(
                EntryView { author: name, started: day, time_spent_seconds: seconds as nat },
            ),
            _ => None,
        },
        _ => None,
    }
}

/// Whether an entry answers the query: `user` is its author, character for
/// character, and it started on a day from `start` to `end`, both included.
pub open spec fn keeps(entry: EntryView, user: Seq<char>, start: int, end: int) -> bool {
    entry.author == user && start <= entry.started <= end
}

/// The worklog that an entry of an issue stands for.
pub open spec fn worklog_of(issue: IssueView, entry: EntryView) -> WorklogView {
    WorklogView {
        date: entry.started,
        issue_key: issue.key,
        issue_summary: issue.summary,
        time_spent: entry.time_spent_seconds,
    }
}

/// The text of the member `name` of `json`.
fn text_of_member<'a>(json: &'a Json, name: &str) -> (text: Option<&'a str>)
    ensures
        text is Some <==> text_at(*json, name@) is Some,
        text matches Some(t) ==> text_at(*json, name@) == Some(t@),
{
    match json.get(name) {
        Some(member) => member.as_str(),
        None => None,
    }
}

impl Issue {
    /// Reads an issue out of the object that describes it.
    pub fn from_json(json: &Json) -> (issue: Option<Issue>)
        ensures
            issue is Some <==> issue_of(*json) is Some,
            issue matches Some(i) ==> issue_of(*json) == Some(i@),
    {
        let self_url = match text_of_member(json, "self") {
            Some(text) => text,
            None => return None,
        };
        let key = match text_of_member(json, "key") {
            Some(text) => text,
            None => return None,
        };
        let fields = match json.get("fields") {
            Some(fields) => fields,
            None => return None,
        };
        let summary = match text_of_member(fields, "summary") {
            Some(text) => text,
            None => return None,
        };
        Some(
            Issue {
                self_url: self_url.to_owned(),
                key: key.to_owned(),
                summary: summary.to_owned(),
            },
        )
    }
}

impl WorklogEntry {
    /// Reads a worklog entry out of the object that describes it.
    pub fn from_json(json: &Json) -> (entry: Option<WorklogEntry>)
        ensures
            entry is Some <==> entry_of(*json) is Some,
            entry matches Some(e) ==> entry_of(*json) == Some(e@),
    {
        let author = match json.get("author") {
            Some(author) => author,
            None => return None,
        };
        let started = match text_of_member(json, "started") {
            Some(text) => text,
            None => return None,
        };
        let time_spent_seconds = match json.get("timeSpentSeconds") {
            Some(member) => match member.as_u64() {
                Some(seconds) => seconds,
                None => return None,
            },
            None => return None,
        };
        let name = match text_of_member(author, "name") {
            Some(text) => text,
            None => return None,
        };
        let started = match Date::parse_from_str(started, JIRA_TIME_FORMAT) {
            Some(date) => date,
            None => return None,
        };
        Some(WorklogEntry { author: name.to_owned(), started, time_spent_seconds })
    }
}

/// The worklog of `entry` where it answers the query, `None` where it does
/// not: where another user is its author, or it started before `start_date`
/// or after `end_date`.
pub fn select_worklog(
    issue: &Issue,
    entry: &WorklogEntry,
    user_name: &str,
    start_date: &Date,
    end_date: &Date,
) -> (worklog: Option<Worklog>)
    ensures
        worklog is Some <==> keeps(entry@, user_name@, start_date@, end_date@),
        worklog matches Some(w) ==> w@ == worklog_of(issue@, entry@),
{
    if same_text(entry.author.as_str(), user_name) && entry.started.is_between(
        start_date,
        end_date,
    ) {
        Some(
            Worklog::new(
                entry.started,
                issue.key.as_str(),
                issue.summary.as_str(),
                entry.time_spent_seconds,
            ),
        )
    } else {
        None
    }
}

} // verus!
