//! The fetcher: one search for the issues, then one request per issue for
//! its worklogs.

use super::client_trait::{ClientTrait, Reply};
use super::fetch_error::FetchError;
use super::outcome::{
    array_at, document_of, document_outcome, fetch_outcome, issue_outcome, issues_of,
    issues_outcome, kept_entries, lemma_failure_is_final, lemma_fetch_outcome_in_range,
    lemma_issues_outcome_reads_its_replies, lemma_kept_entries_push,
    lemma_outcome_of_search_status, lemma_outcome_of_worklogs_status, reply_outcome,
    worklogs_match, worklogs_of,
};
use super::records::{
    entry_of, issue_of, keeps, select_worklog, worklog_of, EntryView, Issue, WorklogEntry,
};
use super::user_worklogs::{UserWorklogs, UserWorklogsView};
use super::user_worklogs_fetcher_trait::UserWorklogsFetcherTrait;
use super::worklog::{views_of, Worklog, WorklogView};
use crate::calendar::{date_formatted, Date, ISO_DATE};
use crate::json::Json;
use crate::text::same_text;
use vstd::prelude::*;
use vstd::string::StringExecFns;

verus! {

/// The path and query of the search for the issues with worklogs of `user`
/// on the days from `start` to `end`.
pub open spec fn issues_endpoint(user: Seq<char>, start: int, end: int) -> Seq<char> {
    "/search?jql=worklogDate%20%3E=%20"@ + date_formatted(start, ISO_DATE@)
        + "%20and%20worklogDate%20%3C=%20"@ + date_formatted(end, ISO_DATE@)
        + "%20and%20worklogAuthor%20in%20("@ + user + ")"@
}

/// The address of the worklogs of the issue at `issue_url`.
pub open spec fn worklogs_url(issue_url: Seq<char>) -> Seq<char> {
    issue_url + "/worklog"@
}

/// Fetches worklogs from the tracker whose REST interface is rooted at
/// `jira_api_root_url`, through `jira_client`.
pub struct UserWorklogsFetcher<ClientType: ClientTrait> {
    pub jira_api_root_url: String,
    pub jira_client: ClientType,
}

/// The document in a reply.
pub fn decode_reply(reply: Reply) -> (document: Result<Json, FetchError>)
    ensures
        document == document_of(reply),
{
    match reply {
        Err(error) => Err(FetchError::Transport(error)),
        Ok(response) => {
            if !response.is_success() {
                Err(FetchError::Status { code: response.status })
            } else {
                match Json::from_slice(response.body.as_slice()) {
                    Some(document) => Ok(document),
                    None => Err(FetchError::Decode),
                }
            }
        },
    }
}

/// The items of the array `name` of `document`.
pub fn array_of<'a>(document: &'a Json, name: &str) -> (items: Option<&'a Vec<Json>>)
    ensures
        items is Some <==> array_at(*document, name@) is Some,
        items matches Some(v) ==> array_at(*document, name@) == Some(v@),
{
    match document.get(name) {
        Some(member) => member.as_array(),
        None => None,
    }
}

impl<ClientType: ClientTrait> UserWorklogsFetcher<ClientType> {
    /// A fetcher for the tracker at `jira_api_root_url`, which sends its
    /// requests through `jira_client`.
    pub fn new(jira_api_root_url: String, jira_client: ClientType) -> (fetcher: Self)
        ensures
            fetcher.jira_api_root_url == jira_api_root_url,
            fetcher.jira_client == jira_client,
    {
        Self { jira_api_root_url, jira_client }
    }

    /// Whether `reply` is a possible reply to the search.
    pub open spec fn search_answered(
        &self,
        user: Seq<char>,
        start: int,
        end: int,
        search: Reply,
    ) -> bool {
        self.jira_client.answers(
            self.jira_api_root_url@ + issues_endpoint(user, start, end),
            search,
        )
    }

    /// Whether `reply` is a possible reply to the request for the worklogs
    /// of `issue`. Of an issue that cannot be read no such request is made,
    /// and nothing is asked of `reply`.
    pub open spec fn worklogs_answered(&self, issue: Json, reply: Reply) -> bool {
        issue_of(issue) matches Some(record) ==> self.jira_client.answers(
            worklogs_url(record.self_url),
            reply,
        )
    }

    /// Whether a fetch that got `search` and then `replies` from the client
    /// may have returned `result`: each reply is a possible one for its
    /// request, no reply follows one that failed, a fetch that succeeds has
    /// a reply for every issue, and `result` is what the replies come to.
    pub open spec fn observed(
        &self,
        user: Seq<char>,
        start: int,
        end: int,
        search: Reply,
        replies: Seq<Reply>,
        result: Result<UserWorklogs, FetchError>,
    ) -> bool {
        &&& self.search_answered(user, start, end, search)
        &&& match issues_of(search) {
            Ok(issues) => {
                &&& replies.len() <= issues.len()
                &&& result is Ok ==> replies.len() == issues.len()
                &&& replies.len() > 0 ==> issues_outcome(
                    issues.take(replies.len() - 1),
                    replies,
                    user,
                    start,
                    end,
                ) is Ok
                &&& forall|i: int|
                    0 <= i < replies.len() ==> self.worklogs_answered(
                        issues[i],
                        #[trigger] replies[i],
                    )
            },
            Err(_) => replies.len() == 0,
        }
        &&& match result {
            Ok(worklogs) => fetch_outcome(user, start, end, search, replies) == Ok::<
                _,
                FetchError,
            >(worklogs@),
            Err(error) => fetch_outcome(user, start, end, search, replies) == Err::<
                UserWorklogsView,
                _,
            >(error),
        }
    }

    /// Whether processing `issue` with `reply` from the client may have
    /// returned `result`.
    pub open spec fn issue_processed(
        &self,
        issue: Json,
        user: Seq<char>,
        start: int,
        end: int,
        reply: Reply,
        result: Result<Vec<Worklog>, FetchError>,
    ) -> bool {
        &&& self.worklogs_answered(issue, reply)
        &&& worklogs_match(result, issue_outcome(issue, reply, user, start, end))
    }

    /// A fetch whose search is answered with a status that is not one of
    /// success fails with that status.
    pub proof fn lemma_search_status_fails_fetch(
        &self,
        user: Seq<char>,
        start: int,
        end: int,
        search: Reply,
        replies: Seq<Reply>,
        result: Result<UserWorklogs, FetchError>,
    )
        requires
            self.observed(user, start, end, search, replies, result),
            search matches Ok(response) && !response.succeeded(),
        ensures
            result == Err::<UserWorklogs, _>(FetchError::Status { code: search->Ok_0.status }),
    {
        lemma_outcome_of_search_status(user, start, end, search, replies);
    }

    /// A fetch in which the request for an issue's worklogs is answered
    /// with a status that is not one of success fails with that status:
    /// what the issues before it came to is not returned.
    pub proof fn lemma_worklogs_status_fails_fetch(
        &self,
        user: Seq<char>,
        start: int,
        end: int,
        search: Reply,
        replies: Seq<Reply>,
        result: Result<UserWorklogs, FetchError>,
        failed: int,
    )
        requires
            self.observed(user, start, end, search, replies, result),
            0 <= failed < replies.len(),
            issues_of(search) matches Ok(issues) ==> issue_of(issues[failed]) is Some,
            replies[failed] matches Ok(response) && !response.succeeded(),
        ensures
            result == Err::<UserWorklogs, _>(
                FetchError::Status { code: replies[failed]->Ok_0.status },
            ),
    {
        let issues = issues_of(search)->Ok_0;
        let last = replies.len() - 1;
        if failed < last {
            let before_last = issues.take(last);
            lemma_failure_is_final(before_last, replies, user, start, end, failed + 1);
        }
        lemma_outcome_of_worklogs_status(user, start, end, search, replies, failed);
    }

    /// The path and query of the search for the issues with worklogs of
    /// `user_name` on the days from `start_date` to `end_date`. The name
    /// goes into the query as it is.
    pub fn create_jira_issues_endpoint(
        &self,
        user_name: &str,
        start_date: &Date,
        end_date: &Date,
    ) -> (endpoint: String)
        ensures
            endpoint@ == issues_endpoint(user_name@, start_date@, end_date@),
    {
        let mut endpoint = "/search?jql=worklogDate%20%3E=%20".to_owned();
        endpoint.append(start_date.to_iso_text().as_str());
        endpoint.append("%20and%20worklogDate%20%3C=%20");
        endpoint.append(end_date.to_iso_text().as_str());
        endpoint.append("%20and%20worklogAuthor%20in%20(");
        endpoint.append(user_name);
        endpoint.append(")");
        endpoint
    }

    /// Asks the tracker for the issues with worklogs of `user_name` on the
    /// days from `start_date` to `end_date`.
    pub fn fetch_issues(&self, user_name: &str, start_date: &Date, end_date: &Date) -> (search:
        Reply)
        ensures
            self.search_answered(user_name@, start_date@, end_date@, search),
    {
        let mut url = self.jira_api_root_url.clone();
        url.append(self.create_jira_issues_endpoint(user_name, start_date, end_date).as_str());
        self.jira_client.request_get(url.as_str())
    }

    /// Asks the tracker for the worklogs of the issue at `issue_url`.
    pub fn fetch_issue_worklogs(&self, issue_url: &str) -> (reply: Reply)
        ensures
            self.jira_client.answers(worklogs_url(issue_url@), reply),
    {
        let mut url = issue_url.to_owned();
        url.append("/worklog");
        self.jira_client.request_get(url.as_str())
    }

    /// Reads the entry that `worklog` describes and selects it: the worklog
    /// where the entry answers the query, `None` where it does not, and an
    /// error where `worklog` describes no entry.
    pub fn process_worklog(
        &self,
        issue: &Issue,
        worklog: &Json,
        user_name: &str,
        start_date: &Date,
        end_date: &Date,
    ) -> (result: Result<Option<Worklog>, FetchError>)
        ensures
            result is Err <==> entry_of(*worklog) is None,
            result matches Err(error) ==> error == FetchError::Decode,
            result matches Ok(selected) ==> {
                let entry = entry_of(*worklog)->0;
                &&& selected is Some <==> keeps(entry, user_name@, start_date@, end_date@)
                &&& selected matches Some(w) ==> w@ == worklog_of(issue@, entry)
            },
    {
        match WorklogEntry::from_json(worklog) {
            None => Err(FetchError::Decode),
            Some(entry) => Ok(select_worklog(issue, &entry, user_name, start_date, end_date)),
        }
    }

    /// The worklogs of `issue` that answer the query, out of the document
    /// that lists all of them.
    pub fn worklogs_of_document(
        &self,
        issue: &Issue,
        document: &Json,
        user_name: &str,
        start_date: &Date,
        end_date: &Date,
    ) -> (result: Result<Vec<Worklog>, FetchError>)
        ensures
            worklogs_match(
                result,
                document_outcome(issue@, *document, user_name@, start_date@, end_date@),
            ),
    {
        let entries = match array_of(document, "worklogs") {
            Some(entries) => entries,
            None => return Err(FetchError::Decode),
        };
        let mut worklogs: Vec<Worklog> = Vec::new();
        let ghost mut decoded: Seq<EntryView> = Seq::empty();
        let mut i: usize = 0;
        proof {
            reveal(Seq::filter);
        }
        while i < entries.len()
            invariant
                i <= entries.len(),
                decoded.len() == i,
                array_at(*document, "worklogs"@) == Some(entries@),
                forall|j: int|
                    0 <= j < i ==> (#[trigger] entry_of(entries@[j])) == Some(decoded[j]),
                views_of(worklogs@) == worklogs_of(
                    issue@,
                    kept_entries(decoded, user_name@, start_date@, end_date@),
                ),
            decreases entries.len() - i,
        {
            match self.process_worklog(issue, &entries[i], user_name, start_date, end_date) {
                Err(error) => return Err(error),
                Ok(selected) => {
                    let ghost entry = entry_of(entries@[i as int])->0;
                    let ghost kept = kept_entries(decoded, user_name@, start_date@, end_date@);
                    proof {
                        lemma_kept_entries_push(
                            decoded,
                            entry,
                            user_name@,
                            start_date@,
                            end_date@,
                        );
                        decoded = decoded.push(entry);
                    }
                    match selected {
                        Some(worklog) => {
                            worklogs.push(worklog);
                            assert(worklogs_of(issue@, kept.push(entry)) == worklogs_of(
                                issue@,
                                kept,
                            ).push(worklog_of(issue@, entry)));
                        },
                        None => {},
                    }
                },
            }
            i = i + 1;
        }
        assert(decoded == Seq::new(entries@.len(), |j: int| entry_of(entries@[j])->0));
        Ok(worklogs)
    }

    /// The worklogs of `issue` that answer the query, out of the reply to
    /// the request for all of them.
    pub fn worklogs_of_reply(
        &self,
        issue: &Issue,
        reply: Reply,
        user_name: &str,
        start_date: &Date,
        end_date: &Date,
    ) -> (result: Result<Vec<Worklog>, FetchError>)
        ensures
            worklogs_match(
                result,
                reply_outcome(issue@, reply, user_name@, start_date@, end_date@),
            ),
    {
        match decode_reply(reply) {
            Err(error) => Err(error),
            Ok(document) => self.worklogs_of_document(
                issue,
                &document,
                user_name,
                start_date,
                end_date,
            ),
        }
    }

    /// Fetches the worklogs of one listed issue and selects those that
    /// answer the query.
    pub fn process_issue(
        &self,
        issue: &Json,
        user_name: &str,
        start_date: &Date,
        end_date: &Date,
    ) -> (result: Result<Vec<Worklog>, FetchError>)
        ensures
            exists|reply: Reply| #[trigger]
                self.issue_processed(*issue, user_name@, start_date@, end_date@, reply, result),
    {
        let record = match Issue::from_json(issue) {
            Some(record) => record,
            None => {
                let result = Err(FetchError::Decode);
                proof {
                    let reply: Reply = arbitrary();
                    assert(self.issue_processed(
                        *issue,
                        user_name@,
                        start_date@,
                        end_date@,
                        reply,
                        result,
                    ));
                }
                return result;
            },
        };
        let reply = self.fetch_issue_worklogs(record.self_url.as_str());
        let ghost observed = reply;
        let result = self.worklogs_of_reply(&record, reply, user_name, start_date, end_date);
        assert(self.issue_processed(
            *issue,
            user_name@,
            start_date@,
            end_date@,
            observed,
            result,
        ));
        result
    }

    /// Whether `author` is `user_name`, character for character.
    pub fn author_is(&self, author: &str, user_name: &str) -> (same: bool)
        ensures
            same == (author@ == user_name@),
    {
        same_text(author, user_name)
    }

    /// Whether `date` is `start_date`, `end_date` or a day between them.
    pub fn date_between(&self, date: &Date, start_date: &Date, end_date: &Date) -> (between: bool)
        ensures
            between == (start_date@ <= date@ <= end_date@),
    {
        date.is_between(start_date, end_date)
    }
}

impl<ClientType: ClientTrait> UserWorklogsFetcherTrait for UserWorklogsFetcher<ClientType> {
    /// There are replies of the client, one to the search and one for each
    /// issue that was asked about, that `result` is the outcome of.
    open spec fn fetches(
        &self,
        user_name: Seq<char>,
        start_date: Date,
        end_date: Date,
        result: Result<UserWorklogs, FetchError>,
    ) -> bool {
        exists|search: Reply, replies: Seq<Reply>| #[trigger]
            self.observed(user_name, start_date@, end_date@, search, replies, result)
    }

    fn fetch(&self, user_name: &str, start_date: Date, end_date: Date) -> (result: Result<
        UserWorklogs,
        FetchError,
    >)
        ensures
            result matches Ok(fetched) ==> {
                &&& fetched@.user == user_name@
                &&& fetched@.start_date == start_date@
                &&& fetched@.end_date == end_date@
                &&& fetched@.dates_in_range()
            },
    {
        let search = self.fetch_issues(user_name, &start_date, &end_date);
        let ghost searched = search;
        let ghost mut replies: Seq<Reply> = Seq::empty();
        let document = match decode_reply(search) {
            Ok(document) => document,
            Err(error) => {
                let result = Err(error);
                assert(self.observed(
                    user_name@,
                    start_date@,
                    end_date@,
                    searched,
                    replies,
                    result,
                ));
                return result;
            },
        };
        let issues = match array_of(&document, "issues") {
            Some(issues) => issues,
            None => {
                let result = Err(FetchError::Decode);
                assert(self.observed(
                    user_name@,
                    start_date@,
                    end_date@,
                    searched,
                    replies,
                    result,
                ));
                return result;
            },
        };
        let mut worklogs: Vec<Worklog> = Vec::new();
        let mut i: usize = 0;
        assert(views_of(worklogs@) == Seq::<WorklogView>::empty());
        while i < issues.len()
            invariant
                i <= issues.len(),
                replies.len() == i,
                issues_of(searched) == Ok::<_, FetchError>(issues@),
                self.search_answered(user_name@, start_date@, end_date@, searched),
                forall|j: int|
                    0 <= j < i ==> self.worklogs_answered(issues@[j], #[trigger] replies[j]),
                issues_outcome(
                    issues@.take(i as int),
                    replies,
                    user_name@,
                    start_date@,
                    end_date@,
                ) == Ok::<_, FetchError>(views_of(worklogs@)),
            decreases issues.len() - i,
        {
            let processed = self.process_issue(&issues[i], user_name, &start_date, &end_date);
            let ghost reply = choose|reply: Reply| #[trigger]
                self.issue_processed(
                    issues@[i as int],
                    user_name@,
                    start_date@,
                    end_date@,
                    reply,
                    processed,
                );
            let ghost before = replies;
            proof {
                replies = replies.push(reply);
                lemma_issues_outcome_reads_its_replies(
                    issues@.take(i as int),
                    before,
                    replies,
                    user_name@,
                    start_date@,
                    end_date@,
                );
                assert(issues@.take(i + 1).drop_last() == issues@.take(i as int));
            }
            match processed {
                Err(error) => {
                    let result = Err(error);
                    assert(self.observed(
                        user_name@,
                        start_date@,
                        end_date@,
                        searched,
                        replies,
                        result,
                    ));
                    return result;
                },
                Ok(mut more) => {
                    let ghost old_views = views_of(worklogs@);
                    let ghost more_views = views_of(more@);
                    worklogs.append(&mut more);
                    assert(views_of(worklogs@) == old_views + more_views);
                },
            }
            i = i + 1;
        }
        assert(issues@.take(i as int) == issues@);
        let result = Ok(UserWorklogs::new(user_name, start_date, end_date, worklogs));
        assert(self.observed(user_name@, start_date@, end_date@, searched, replies, result));
        proof {
            lemma_fetch_outcome_in_range(user_name@, start_date@, end_date@, searched, replies);
        }
        result
    }
}

} // verus!
