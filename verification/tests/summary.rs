use jira_worklogs::calendar::Date;
use jira_worklogs::jira::{
    FetchError, TransportError, UserWorklogs, UserWorklogsFetcherTrait, Worklog,
};
use jira_worklogs::time_tracker::{
    summarize, Summary, SummaryTrait, UserWorklogsSummary, WorklogSummary,
};
use std::cell::RefCell;

const MINUTE: u64 = 60;
const HOUR: u64 = 60 * 60;

/// A fetcher that expects one fetch with given arguments and returns a
/// given result for it.
struct MockUserWorklogsFetcher {
    expected: (String, Date, Date),
    result: RefCell<Option<Result<UserWorklogs, FetchError>>>,
}

impl MockUserWorklogsFetcher {
    fn returning(
        user_name: &str,
        start_date: Date,
        end_date: Date,
        result: Result<UserWorklogs, FetchError>,
    ) -> Self {
        MockUserWorklogsFetcher {
            expected: (user_name.to_string(), start_date, end_date),
            result: RefCell::new(Some(result)),
        }
    }
}

impl UserWorklogsFetcherTrait for MockUserWorklogsFetcher {
    fn fetch(
        &self,
        user_name: &str,
        start_date: Date,
        end_date: Date,
    ) -> Result<UserWorklogs, FetchError> {
        assert_eq!((user_name.to_string(), start_date, end_date), self.expected);
        self.result.borrow_mut().take().unwrap()
    }
}

fn days_from(start_date: Date, end_date: Date) -> Vec<Date> {
    (start_date.days()..=end_date.days()).map(|day| Date::from_days(day).unwrap()).collect()
}

#[test]
fn get_user_worklogs_summary_returns_error_if_worklog_fetcher_fail() {
    let user_name = "dummy_user_name";
    let start_date = Date::from_ymd(2022, 9, 10).unwrap();
    let end_date = Date::from_ymd(2022, 9, 19).unwrap();

    let error_message = "some dummy error message";

    let user_worklog_fetcher = MockUserWorklogsFetcher::returning(
        user_name,
        start_date,
        end_date,
        Err(FetchError::Transport(TransportError { message: error_message.to_string() })),
    );

    let uut = Summary::new(user_worklog_fetcher);

    let result = uut.get_user_worklogs_summary(user_name, start_date, end_date);
    assert!(result.is_err());
}

#[test]
fn get_user_worklogs_summary_returns_the_error_of_the_fetcher_as_it_is() {
    let start_date = Date::from_ymd(2022, 9, 10).unwrap();
    let end_date = Date::from_ymd(2022, 9, 19).unwrap();
    for error in [
        FetchError::Status { code: 401 },
        FetchError::Decode,
        FetchError::Transport(TransportError { message: "timed out".to_string() }),
    ] {
        let uut = Summary::new(MockUserWorklogsFetcher::returning(
            "dummy_user_name",
            start_date,
            end_date,
            Err(error.clone()),
        ));
        assert_eq!(
            uut.get_user_worklogs_summary("dummy_user_name", start_date, end_date),
            Err(error)
        );
    }
}

#[test]
fn get_user_worklogs_summary_return_valid_summary() {
    let user_name = "dummy_user_name";
    let start_date = Date::from_ymd(2022, 9, 10).unwrap();
    let end_date = Date::from_ymd(2022, 9, 19).unwrap();
    let other_date = Date::from_ymd(2022, 9, 15).unwrap();

    let dummy_duration1 = 20 * MINUTE;
    let dummy_duration2 = 4 * HOUR;
    let dummy_duration3 = 20;
    let dummy_duration4 = 1 * HOUR;

    let worklog1_start_date =
        Worklog::new(start_date, "start_date-key1", "start_date-summary1", dummy_duration1);
    let worklog1_end_date =
        Worklog::new(end_date, "end_date-key1", "end_date-summary1", dummy_duration2);
    let worklog2_end_date =
        Worklog::new(end_date, "end_date-key2", "end_date-summary2", dummy_duration3);
    let worklog1_other_date =
        Worklog::new(other_date, "other_date-key1", "other_date-summary1", dummy_duration1);
    let worklog2_other_date =
        Worklog::new(other_date, "other_date-key2", "other_date-summary2", dummy_duration2);
    let worklog3_other_date =
        Worklog::new(other_date, "other_date-key3", "other_date-summary3", dummy_duration3);
    let worklog4_other_date =
        Worklog::new(other_date, "other_date-key4", "other_date-summary4", dummy_duration4);

    let user_worklogs = UserWorklogs::new(
        user_name,
        start_date,
        end_date,
        vec![
            worklog1_start_date.clone(),
            worklog1_end_date.clone(),
            worklog2_end_date.clone(),
            worklog1_other_date.clone(),
            worklog2_other_date.clone(),
            worklog3_other_date.clone(),
            worklog4_other_date.clone(),
        ],
    );

    let user_worklog_fetcher =
        MockUserWorklogsFetcher::returning(user_name, start_date, end_date, Ok(user_worklogs));

    let uut = Summary::new(user_worklog_fetcher);

    let mut expected_result = UserWorklogsSummary::new();
    for date in days_from(start_date, end_date) {
        expected_result.insert(date, WorklogSummary { spent_time: 0, worklogs: vec![] });
    }
    expected_result.insert(
        start_date,
        WorklogSummary {
            spent_time: u128::from(dummy_duration1),
            worklogs: vec![worklog1_start_date],
        },
    );
    expected_result.insert(
        other_date,
        WorklogSummary {
            spent_time: u128::from(
                dummy_duration1 + dummy_duration2 + dummy_duration3 + dummy_duration4,
            ),
            worklogs: vec![
                worklog1_other_date,
                worklog2_other_date,
                worklog3_other_date,
                worklog4_other_date,
            ],
        },
    );
    expected_result.insert(
        end_date,
        WorklogSummary {
            spent_time: u128::from(dummy_duration2 + dummy_duration3),
            worklogs: vec![worklog1_end_date, worklog2_end_date],
        },
    );

    let result = uut.get_user_worklogs_summary(user_name, start_date, end_date);
    assert!(result.is_ok());
    assert_eq!(result.unwrap(), expected_result);
}

#[test]
fn get_user_worklogs_summary_is_the_same_through_the_trait() {
    fn through_trait(
        summary: &impl SummaryTrait,
        start_date: Date,
        end_date: Date,
    ) -> Result<UserWorklogsSummary, FetchError> {
        summary.get_user_worklogs_summary("dummy_user_name", start_date, end_date)
    }
    let start_date = Date::from_ymd(2022, 9, 10).unwrap();
    let end_date = Date::from_ymd(2022, 9, 11).unwrap();
    let worklog = Worklog::new(end_date, "key", "summary", 90);
    let fetched = UserWorklogs::new("dummy_user_name", start_date, end_date, vec![worklog.clone()]);
    let uut = Summary::new(MockUserWorklogsFetcher::returning(
        "dummy_user_name",
        start_date,
        end_date,
        Ok(fetched),
    ));
    let summary = through_trait(&uut, start_date, end_date).unwrap();
    assert_eq!(summary.len(), 2);
    assert_eq!(
        summary.get(start_date),
        Some(&WorklogSummary { spent_time: 0, worklogs: vec![] })
    );
    assert_eq!(
        summary.get(end_date),
        Some(&WorklogSummary { spent_time: 90, worklogs: vec![worklog] })
    );
}

#[test]
fn summarize_gives_every_day_of_the_range_one_entry() {
    let start_date = Date::from_ymd(2022, 2, 25).unwrap();
    let end_date = Date::from_ymd(2022, 3, 3).unwrap();
    let summary =
        summarize(UserWorklogs::new("user", start_date, end_date, vec![]), start_date, end_date);
    assert_eq!(summary.len(), 7);
    for date in days_from(start_date, end_date) {
        assert_eq!(summary.get(date), Some(&WorklogSummary { spent_time: 0, worklogs: vec![] }));
    }
    assert_eq!(summary.get(Date::from_ymd(2022, 2, 24).unwrap()), None);
    assert_eq!(summary.get(Date::from_ymd(2022, 3, 4).unwrap()), None);
}

#[test]
fn summarize_of_one_day_has_one_entry() {
    let date = Date::from_ymd(2022, 9, 10).unwrap();
    let worklog = Worklog::new(date, "key", "summary", 8 * HOUR);
    let summary =
        summarize(UserWorklogs::new("user", date, date, vec![worklog.clone()]), date, date);
    assert_eq!(summary.len(), 1);
    assert_eq!(
        summary.get(date),
        Some(&WorklogSummary { spent_time: 28_800, worklogs: vec![worklog] })
    );
}

#[test]
fn summarize_with_start_after_end_covers_no_day() {
    let start_date = Date::from_ymd(2022, 9, 17).unwrap();
    let end_date = Date::from_ymd(2022, 9, 10).unwrap();
    let worklog = Worklog::new(start_date, "key", "summary", 5);
    let summary =
        summarize(UserWorklogs::new("user", start_date, end_date, vec![worklog]), start_date, end_date);
    assert_eq!(summary.len(), 0);
    assert_eq!(summary, UserWorklogsSummary::new());
}

#[test]
fn summarize_leaves_out_worklogs_dated_outside_the_range() {
    let start_date = Date::from_ymd(2022, 9, 10).unwrap();
    let end_date = Date::from_ymd(2022, 9, 12).unwrap();
    let before = Worklog::new(Date::from_ymd(2022, 9, 9).unwrap(), "before", "b", 100);
    let inside = Worklog::new(Date::from_ymd(2022, 9, 11).unwrap(), "inside", "i", 200);
    let after = Worklog::new(Date::from_ymd(2022, 9, 13).unwrap(), "after", "a", 400);
    let summary = summarize(
        UserWorklogs::new("user", start_date, end_date, vec![before, inside.clone(), after]),
        start_date,
        end_date,
    );
    assert_eq!(summary.len(), 3);
    let total: u128 = days_from(start_date, end_date)
        .into_iter()
        .map(|date| summary.get(date).unwrap().spent_time)
        .sum();
    assert_eq!(total, 200);
    assert_eq!(
        summary.get(Date::from_ymd(2022, 9, 11).unwrap()),
        Some(&WorklogSummary { spent_time: 200, worklogs: vec![inside] })
    );
}

#[test]
fn summarize_keeps_the_order_of_the_worklogs_of_a_day() {
    let date = Date::from_ymd(2022, 9, 10).unwrap();
    let next = Date::from_ymd(2022, 9, 11).unwrap();
    let first = Worklog::new(date, "first", "1", 1);
    let second = Worklog::new(next, "second", "2", 2);
    let third = Worklog::new(date, "third", "3", 4);
    let fourth = Worklog::new(date, "first", "1", 1);
    let summary = summarize(
        UserWorklogs::new(
            "user",
            date,
            next,
            vec![first.clone(), second.clone(), third.clone(), fourth.clone()],
        ),
        date,
        next,
    );
    assert_eq!(
        summary.get(date),
        Some(&WorklogSummary { spent_time: 6, worklogs: vec![first, third, fourth] })
    );
    assert_eq!(summary.get(next), Some(&WorklogSummary { spent_time: 2, worklogs: vec![second] }));
}

#[test]
fn summarize_adds_up_times_that_no_u64_holds() {
    let date = Date::from_ymd(2022, 9, 10).unwrap();
    let huge = Worklog::new(date, "key", "summary", u64::MAX);
    let summary = summarize(
        UserWorklogs::new("user", date, date, vec![huge.clone(), huge.clone(), huge.clone()]),
        date,
        date,
    );
    assert_eq!(summary.get(date).unwrap().spent_time, 3 * u128::from(u64::MAX));
}

#[test]
fn user_worklogs_summary_insert_replaces_the_entry_of_a_day() {
    let date = Date::from_ymd(2022, 9, 10).unwrap();
    let mut summary = UserWorklogsSummary::new();
    assert_eq!(summary.len(), 0);
    assert_eq!(summary.get(date), None);
    summary.insert(date, WorklogSummary { spent_time: 1, worklogs: vec![] });
    summary.insert(date, WorklogSummary { spent_time: 2, worklogs: vec![] });
    assert_eq!(summary.len(), 1);
    assert_eq!(summary.get(date), Some(&WorklogSummary { spent_time: 2, worklogs: vec![] }));
}

#[test]
fn summarize_conserves_the_time_of_the_worklogs_within_the_range() {
    let start_date = Date::from_ymd(2023, 12, 28).unwrap();
    let end_date = Date::from_ymd(2024, 1, 4).unwrap();
    let mut seed: u64 = 0x2545_f491_4f6c_dd1d;
    for round in 0..50 {
        let mut worklogs = Vec::new();
        for _ in 0..round {
            seed ^= seed << 13;
            seed ^= seed >> 7;
            seed ^= seed << 17;
            let offset = (seed % 14) as i32 - 3;
            let date = Date::from_days(start_date.days() + offset).unwrap();
            let time_spent = (seed >> 20) % 40_000;
            worklogs.push(Worklog::new(date, "key", "summary", time_spent));
        }
        let summary = summarize(
            UserWorklogs::new("user", start_date, end_date, worklogs.clone()),
            start_date,
            end_date,
        );
        assert_eq!(summary.len(), 8);
        let mut total_of_days: u128 = 0;
        for date in days_from(start_date, end_date) {
            let of_day: Vec<Worklog> =
                worklogs.iter().filter(|worklog| worklog.date == date).cloned().collect();
            let spent_time: u128 = of_day.iter().map(|w| u128::from(w.time_spent)).sum();
            assert_eq!(summary.get(date), Some(&WorklogSummary { spent_time, worklogs: of_day }));
            total_of_days += spent_time;
        }
        let total_within: u128 = worklogs
            .iter()
            .filter(|worklog| start_date <= worklog.date && worklog.date <= end_date)
            .map(|worklog| u128::from(worklog.time_spent))
            .sum();
        assert_eq!(total_of_days, total_within);
    }
}
