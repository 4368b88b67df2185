//! What a fetch comes to, as a function of what the tracker answered.

use super::client_trait::Reply;
use super::fetch_error::FetchError;
use super::records::{entry_of, issue_of, keeps, worklog_of, EntryView, IssueView};
use super::user_worklogs::UserWorklogsView;
use super::worklog::{views_of, Worklog, WorklogView};
use crate::json::{json_document, Json};
use vstd::prelude::*;

verus! {

/// The document in a reply: the reply has to be an answer, its status one
/// of success and its body a JSON text.
pub open spec fn document_of(reply: Reply) -> Result<Json, FetchError> {
    match reply {
        Err(error) => Err(FetchError::Transport(error)),
        Ok(response) => if !response.succeeded() {
            Err(FetchError::Status { code: response.status })
        } else {
            match json_document(response.body@) {
                Some(document) => Ok(document),
                None => Err(FetchError::Decode),
            }
        },
    }
}

/// The items of the array `name` of `document`.
pub open spec fn array_at(document: Json, name: Seq<char>) -> Option<Seq<Json>> {
    match document.member(name) {
        Some(member) => member.items(),
        None => None,
    }
}

/// The issues that the reply to a search lists: the items of the array
/// `issues` of its document. A document without that array is an error.
pub open spec fn issues_of(search: Reply) -> Result<Seq<Json>, FetchError> {
    match document_of(search) {
        Err(error) => Err(error),
        Ok(document) => match array_at(document, "issues"@) {
            Some(issues) => Ok(issues),
            None => Err(FetchError::Decode),
        },
    }
}

/// The entries that `entries` describe, or `None` where one of them
/// describes none.
pub open spec fn decoded_entries(entries: Seq<Json>) -> Option<Seq<EntryView>> {
    if forall|i: int| 0 <= i < entries.len() ==> (#[trigger] entry_of(entries[i])) is Some {
        Some(Seq::new(entries.len(), |i: int| entry_of(entries[i])->0))
    } else {
        None
    }
}

/// The test `keeps` for the given query.
pub open spec fn kept_by(user: Seq<char>, start: int, end: int) -> spec_fn(EntryView) -> bool {
    |entry: EntryView| keeps(entry, user, start, end)
}

/// The entries that answer the query, in the order in which they came.
pub open spec fn kept_entries(
    entries: Seq<EntryView>,
    user: Seq<char>,
    start: int,
    end: int,
) -> Seq<EntryView> {
    entries.filter(kept_by(user, start, end))
}

/// The worklogs that entries of one issue stand for, in the same order.
pub open spec fn worklogs_of(issue: IssueView, entries: Seq<EntryView>) -> Seq<WorklogView> {
    Seq::new(entries.len(), |i: int| worklog_of(issue, entries[i]))
}

/// What the document with an issue's worklogs comes to: the worklogs of
/// the entries in its array `worklogs` that answer the query. A document
/// without that array, or with an entry that cannot be read, is an error.
pub open spec fn document_outcome(
    issue: IssueView,
    document: Json,
    user: Seq<char>,
    start: int,
    end: int,
) -> Result<Seq<WorklogView>, FetchError> {
    match array_at(document, "worklogs"@) {
        None => Err(FetchError::Decode),
        Some(entries) => match decoded_entries(entries) {
            None => Err(FetchError::Decode),
            Some(decoded) => Ok(worklogs_of(issue, kept_entries(decoded, user, start, end))),
        },
    }
}

/// What the reply to the request for an issue's worklogs comes to.
pub open spec fn reply_outcome(
    issue: IssueView,
    reply: Reply,
    user: Seq<char>,
    start: int,
    end: int,
) -> Result<Seq<WorklogView>, FetchError> {
    match document_of(reply) {
        Err(error) => Err(error),
        Ok(document) => document_outcome(issue, document, user, start, end),
    }
}

/// What one listed issue comes to, given the reply to the request for its
/// worklogs. An issue that cannot be read is an error whatever the reply.
pub open spec fn issue_outcome(
    issue: Json,
    reply: Reply,
    user: Seq<char>,
    start: int,
    end: int,
) -> Result<Seq<WorklogView>, FetchError> {
    match issue_of(issue) {
        None => Err(FetchError::Decode),
        Some(record) => reply_outcome(record, reply, user, start, end),
    }
}

/// What `issues` come to one after the other, `replies[i]` being the reply
/// for `issues[i]`: the worklogs of all of them in that order, or the error
/// of the first issue that has one.
pub open spec fn issues_outcome(
    issues: Seq<Json>,
    replies: Seq<Reply>,
    user: Seq<char>,
    start: int,
    end: int,
) -> Result<Seq<WorklogView>, FetchError>
    decreases issues.len(),
{
    if issues.len() == 0 {
        Ok(Seq::empty())
    } else {
        match issues_outcome(issues.drop_last(), replies, user, start, end) {
            Err(error) => Err(error),
            Ok(before) => match issue_outcome(
                issues.last(),
                replies[issues.len() - 1],
                user,
                start,
                end,
            ) {
                Err(error) => Err(error),
                Ok(worklogs) => Ok(before + worklogs),
            },
        }
    }
}

/// What a fetch comes to when `search` is the reply to the search and
/// `replies` are the replies to the requests for the worklogs of the first
/// `replies.len()` issues that it lists.
pub open spec fn fetch_outcome(
    user: Seq<char>,
    start: int,
    end: int,
    search: Reply,
    replies: Seq<Reply>,
) -> Result<UserWorklogsView, FetchError> {
    match issues_of(search) {
        Err(error) => Err(error),
        Ok(issues) => match issues_outcome(
            issues.take(replies.len() as int),
            replies,
            user,
            start,
            end,
        ) {
            Err(error) => Err(error),
            Ok(worklogs) => Ok(
                UserWorklogsView { user, start_date: start, end_date: end, worklogs },
            ),
        },
    }
}

/// Whether worklogs or an error that the code returned are the ones that
/// `outcome` names.
pub open spec fn worklogs_match(
    result: Result<Vec<Worklog>, FetchError>,
    outcome: Result<Seq<WorklogView>, FetchError>,
) -> bool {
    match result {
        Ok(worklogs) => outcome == Ok::<Seq<WorklogView>, FetchError>(views_of(worklogs@)),
        Err(error) => outcome == Err::<Seq<WorklogView>, FetchError>(error),
    }
}

/// The outcome for some issues does not depend on the replies for others.
pub proof fn lemma_issues_outcome_reads_its_replies(
    issues: Seq<Json>,
    replies: Seq<Reply>,
    others: Seq<Reply>,
    user: Seq<char>,
    start: int,
    end: int,
)
    requires
        forall|i: int| 0 <= i < issues.len() ==> replies[i] == others[i],
    ensures
        issues_outcome(issues, replies, user, start, end) == issues_outcome(
            issues,
            others,
            user,
            start,
            end,
        ),
    decreases issues.len(),
{
    if issues.len() > 0 {
        lemma_issues_outcome_reads_its_replies(
            issues.drop_last(),
            replies,
            others,
            user,
            start,
            end,
        );
    }
}

/// An entry more is one kept entry more where it answers the query, and
/// none where it does not.
pub proof fn lemma_kept_entries_push(
    entries: Seq<EntryView>,
    entry: EntryView,
    user: Seq<char>,
    start: int,
    end: int,
)
    ensures
        kept_entries(entries.push(entry), user, start, end) == if keeps(entry, user, start, end) {
            kept_entries(entries, user, start, end).push(entry)
        } else {
            kept_entries(entries, user, start, end)
        },
{
    reveal(Seq::filter);
    assert(entries.push(entry).drop_last() == entries);
}

/// Once an issue has failed, the issues after it change nothing: the
/// outcome stays the error of the first failure.
pub proof fn lemma_failure_is_final(
    issues: Seq<Json>,
    replies: Seq<Reply>,
    user: Seq<char>,
    start: int,
    end: int,
    failed: int,
)
    requires
        0 <= failed <= issues.len(),
        issues_outcome(issues.take(failed), replies, user, start, end) is Err,
    ensures
        issues_outcome(issues, replies, user, start, end) == issues_outcome(
            issues.take(failed),
            replies,
            user,
            start,
            end,
        ),
    decreases issues.len() - failed,
{
    if failed < issues.len() {
        assert(issues.take(failed + 1).drop_last() == issues.take(failed));
        lemma_failure_is_final(issues, replies, user, start, end, failed + 1);
    } else {
        assert(issues.take(failed) == issues);
    }
}

/// An entry of another author is left out, whatever its day: the kept
/// entries are the same with it and without it.
pub proof fn lemma_other_author_is_excluded(
    before: Seq<EntryView>,
    entry: EntryView,
    after: Seq<EntryView>,
    user: Seq<char>,
    start: int,
    end: int,
)
    requires
        entry.author != user,
    ensures
        kept_entries(before.push(entry) + after, user, start, end) == kept_entries(
            before + after,
            user,
            start,
            end,
        ),
{
    let kept = kept_by(user, start, end);
    lemma_kept_entries_push(before, entry, user, start, end);
    Seq::filter_distributes_over_add(before.push(entry), after, kept);
    Seq::filter_distributes_over_add(before, after, kept);
}

/// An entry that started before the first day of the range or after its
/// last day is left out, whoever its author: so the day before `start`
/// and the day after `end`.
pub proof fn lemma_day_outside_range_is_excluded(
    before: Seq<EntryView>,
    entry: EntryView,
    after: Seq<EntryView>,
    user: Seq<char>,
    start: int,
    end: int,
)
    requires
        entry.started < start || end < entry.started,
    ensures
        kept_entries(before.push(entry) + after, user, start, end) == kept_entries(
            before + after,
            user,
            start,
            end,
        ),
{
    let kept = kept_by(user, start, end);
    lemma_kept_entries_push(before, entry, user, start, end);
    Seq::filter_distributes_over_add(before.push(entry), after, kept);
    Seq::filter_distributes_over_add(before, after, kept);
}

/// An entry of the user that started on a day of the range is kept, at its
/// place among the kept entries: so one that started on `start` or on
/// `end`.
pub proof fn lemma_day_within_range_is_included(
    before: Seq<EntryView>,
    entry: EntryView,
    after: Seq<EntryView>,
    user: Seq<char>,
    start: int,
    end: int,
)
    requires
        entry.author == user,
        start <= entry.started <= end,
    ensures
        kept_entries(before.push(entry) + after, user, start, end) == kept_entries(
            before,
            user,
            start,
            end,
        ).push(entry) + kept_entries(after, user, start, end),
{
    let kept = kept_by(user, start, end);
    lemma_kept_entries_push(before, entry, user, start, end);
    Seq::filter_distributes_over_add(before.push(entry), after, kept);
}

/// Where the search is answered with a status that is not one of success,
/// the outcome is the error of that status, whatever else was answered.
pub proof fn lemma_outcome_of_search_status(
    user: Seq<char>,
    start: int,
    end: int,
    search: Reply,
    replies: Seq<Reply>,
)
    requires
        search matches Ok(response) && !response.succeeded(),
    ensures
        fetch_outcome(user, start, end, search, replies) == Err::<UserWorklogsView, _>(
            FetchError::Status { code: search->Ok_0.status },
        ),
{
}

/// Where the request for an issue's worklogs is answered with a status
/// that is not one of success, and the issues before it came to no error,
/// the outcome is the error of that status: the worklogs of the issues
/// before it are not part of it.
pub proof fn lemma_outcome_of_worklogs_status(
    user: Seq<char>,
    start: int,
    end: int,
    search: Reply,
    replies: Seq<Reply>,
    failed: int,
)
    requires
        issues_of(search) matches Ok(issues) && {
            &&& 0 <= failed < replies.len() <= issues.len()
            &&& issue_of(issues[failed]) is Some
            &&& issues_outcome(issues.take(failed), replies, user, start, end) is Ok
        },
        replies[failed] matches Ok(response) && !response.succeeded(),
    ensures
        fetch_outcome(user, start, end, search, replies) == Err::<UserWorklogsView, _>(
            FetchError::Status { code: replies[failed]->Ok_0.status },
        ),
{
    let issues = issues_of(search)->Ok_0;
    let asked = issues.take(replies.len() as int);
    assert(asked.take(failed + 1).drop_last() == issues.take(failed));
    lemma_failure_is_final(asked, replies, user, start, end, failed + 1);
}

/// What entries of an issue come to is dated like the entries.
proof fn lemma_kept_worklogs_in_range(
    issue: IssueView,
    entries: Seq<EntryView>,
    user: Seq<char>,
    start: int,
    end: int,
)
    ensures
        ({
            let worklogs = worklogs_of(issue, kept_entries(entries, user, start, end));
            forall|i: int|
                0 <= i < worklogs.len() ==> start <= (#[trigger] worklogs[i]).date <= end
        }),
{
    let kept = kept_entries(entries, user, start, end);
    assert forall|i: int| 0 <= i < kept.len() implies start <= (#[trigger] kept[i]).started
        <= end by {
        entries.lemma_filter_pred(kept_by(user, start, end), i);
    }
}

/// Every worklog that issues come to is dated within the range of the
/// query.
pub proof fn lemma_issues_outcome_in_range(
    issues: Seq<Json>,
    replies: Seq<Reply>,
    user: Seq<char>,
    start: int,
    end: int,
)
    ensures
        issues_outcome(issues, replies, user, start, end) matches Ok(worklogs) ==> forall|i: int|
            0 <= i < worklogs.len() ==> start <= (#[trigger] worklogs[i]).date <= end,
    decreases issues.len(),
{
    if issues.len() > 0 {
        lemma_issues_outcome_in_range(issues.drop_last(), replies, user, start, end);
        let reply = replies[issues.len() - 1];
        if issue_outcome(issues.last(), reply, user, start, end) is Ok {
            let record = issue_of(issues.last())->0;
            let document = document_of(reply)->Ok_0;
            let decoded = decoded_entries(array_at(document, "worklogs"@)->0)->0;
            lemma_kept_worklogs_in_range(record, decoded, user, start, end);
        }
    }
}

/// What a fetch returns keeps to its query: every worklog is dated from
/// `start` to `end`.
pub proof fn lemma_fetch_outcome_in_range(
    user: Seq<char>,
    start: int,
    end: int,
    search: Reply,
    replies: Seq<Reply>,
)
    ensures
        fetch_outcome(user, start, end, search, replies) matches Ok(fetched) ==> {
            &&& fetched.user == user
            &&& fetched.start_date == start
            &&& fetched.end_date == end
            &&& fetched.dates_in_range()
        },
{
    if issues_of(search) is Ok {
        let issues = issues_of(search)->Ok_0;
        lemma_issues_outcome_in_range(
            issues.take(replies.len() as int),
            replies,
            user,
            start,
            end,
        );
    }
}

} // verus!
