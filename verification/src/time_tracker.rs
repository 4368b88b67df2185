//! Day-by-day summaries of fetched worklogs.

mod summary;
mod summary_trait;
mod user_worklogs_summary;
mod worklog_summary;

pub use summary::{
    dated, dated_within, day_summary, lemma_summary_conserves_time, lemma_summary_covers_range,
    range_total, summarize, summary_of, Summary,
};
pub use summary_trait::SummaryTrait;
pub use user_worklogs_summary::UserWorklogsSummary;
pub use worklog_summary::{WorklogSummary, WorklogSummaryView};
