//! Daily totals of the work time that a user logged in an issue tracker.
//!
//! [`jira`] fetches a user's worklogs for a range of days through a client
//! that performs the HTTP requests, and [`time_tracker`] turns them into one
//! summary per calendar day of the range; [`application`] says what a
//! summary calls for. [`calendar`] holds the days, [`json`] the documents
//! that the tracker answers with, and [`text`] what is needed of texts.

pub mod application;
pub mod calendar;
pub mod jira;
pub mod json;
pub mod text;
pub mod time_tracker;
