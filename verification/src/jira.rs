//! Worklogs and the client side of the tracker's REST interface.

mod client;
mod client_trait;
mod fetch_error;
mod outcome;
mod records;
mod user_worklogs;
mod user_worklogs_fetcher;
mod user_worklogs_fetcher_trait;
mod worklog;

pub use client::Client;
pub use client_trait::{ClientTrait, HttpResponse, Reply, TransportError};
pub use fetch_error::FetchError;
pub use outcome::{
    array_at, decoded_entries, document_of, document_outcome, fetch_outcome, issue_outcome,
    issues_of, issues_outcome, kept_by, kept_entries, lemma_day_outside_range_is_excluded,
    lemma_day_within_range_is_included, lemma_failure_is_final, lemma_fetch_outcome_in_range,
    lemma_issues_outcome_in_range, lemma_issues_outcome_reads_its_replies,
    lemma_kept_entries_push, lemma_other_author_is_excluded, lemma_outcome_of_search_status,
    lemma_outcome_of_worklogs_status, reply_outcome, worklogs_match, worklogs_of,
};
pub use records::{
    entry_of, issue_of, keeps, number_at, select_worklog, text_at, worklog_of, EntryView, Issue,
    IssueView, WorklogEntry, JIRA_TIME_FORMAT,
};
pub use user_worklogs::{UserWorklogs, UserWorklogsView};
pub use user_worklogs_fetcher::{
    array_of, decode_reply, issues_endpoint, worklogs_url, UserWorklogsFetcher,
};
pub use user_worklogs_fetcher_trait::UserWorklogsFetcherTrait;
pub use worklog::{total_time, views_of, worklog_text, Worklog, WorklogView};
