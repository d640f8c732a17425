//! The GitLab backend's decisions: what to ask for and how its items read.
use vstd::prelude::*;
use vstd::string::StringExecFns;

use crate::account::{
    issue_status, issue_status_of, pull_request_status, pull_request_status_of, Connection,
    IssueState, ItemError, PullRequestState, RemoteItem, RemoteModel,
};
use crate::config::{filter_labels, labels_of, Filter, QueryTarget};
use crate::text::views;
use crate::time::Date;
use crate::todo::{Due, TodoKind};

verus! {

/// Whose items a GitLab query covers.
#[derive(Debug, Clone, Copy, PartialEq, Eq, Structural)]
pub enum GitlabScope {
    AssignedToMe,
    CreatedByMe,
}

/// A query that the GitLab backend sends, for open items only, paged to its end;
/// across all projects, or within one.
#[derive(Debug, Clone)]
pub enum GitlabRequest {
    Issues { scope: GitlabScope, project: Option<String> },
    MergeRequests { scope: GitlabScope, project: Option<String> },
}

pub open spec fn opt_text(o: Option<String>) -> Option<Seq<char>> {
    match o {
        Some(s) => Some(s@),
        None => None,
    }
}

pub open spec fn is_issues(r: GitlabRequest, scope: GitlabScope, project: Option<Seq<char>>) -> bool {
    r matches GitlabRequest::Issues { scope: s, project: p } && s == scope && opt_text(p) == project
}

pub open spec fn is_merge_requests(
    r: GitlabRequest,
    scope: GitlabScope,
    project: Option<Seq<char>>,
) -> bool {
    r matches GitlabRequest::MergeRequests { scope: s, project: p } && s == scope && opt_text(p)
        == project
}

/// Whether `r[at..at + 4]` are the four queries of the user, within `project` if
/// one is given: issues assigned to and created by the user, then merge requests
/// likewise.
pub open spec fn user_requests(r: Seq<GitlabRequest>, at: int, project: Option<Seq<char>>) -> bool {
    &&& 0 <= at && at + 4 <= r.len()
    &&& is_issues(r[at], GitlabScope::AssignedToMe, project)
    &&& is_issues(r[at + 1], GitlabScope::CreatedByMe, project)
    &&& is_merge_requests(r[at + 2], GitlabScope::AssignedToMe, project)
    &&& is_merge_requests(r[at + 3], GitlabScope::CreatedByMe, project)
}

fn push_user_requests(out: &mut Vec<GitlabRequest>, project: Option<String>)
    ensures
        final(out)@.len() == old(out)@.len() + 4,
        final(out)@.subrange(0, old(out)@.len() as int) == old(out)@,
        user_requests(final(out)@, old(out)@.len() as int, opt_text(project)),
{
    out.push(GitlabRequest::Issues { scope: GitlabScope::AssignedToMe, project: project.clone() });
    out.push(GitlabRequest::Issues { scope: GitlabScope::CreatedByMe, project: project.clone() });
    out.push(
        GitlabRequest::MergeRequests { scope: GitlabScope::AssignedToMe, project: project.clone() },
    );
    out.push(GitlabRequest::MergeRequests { scope: GitlabScope::CreatedByMe, project });
}

/// A GitLab account's backend.
#[derive(Debug)]
pub struct GitlabQuery {
    pub host: String,
    pub token: String,
    pub connection: Connection,
}

/// The due date of a GitLab issue: its own, else its milestone's.
pub open spec fn gitlab_issue_due(due_date: Option<Date>, milestone_due: Option<Date>) -> Option<
    Due,
> {
    match due_date {
        Some(d) => Some(Due::Date(d)),
        None => match milestone_due {
            Some(d) => Some(Due::Date(d)),
            None => None,
        },
    }
}

pub open spec fn text_or_empty(s: Option<String>) -> Seq<char> {
    match s {
        Some(t) => t@,
        None => Seq::empty(),
    }
}

impl GitlabQuery {
    /// The backend for the host (`gitlab.com` unless given) and token. Its client
    /// is made once, right after (see `client_made`).
    pub fn new(host: Option<String>, token: String) -> (r: GitlabQuery)
        ensures
            r.host@ == (match host {
                Some(h) => h@,
                None => "gitlab.com"@,
            }),
            r.token == token,
            r.connection == Connection::Uninitialized,
    {
        let host = match host {
            Some(h) => h,
            None => String::from_str("gitlab.com"),
        };
        GitlabQuery { host, token, connection: Connection::Uninitialized }
    }

    /// The label filter of every query: every label, in order.
    pub fn labels(filters: &Vec<Filter>) -> (r: Vec<String>)
        ensures
            views(r@) == filter_labels(filters@),
    {
        labels_of(filters)
    }

    /// The queries for a target: issues and merge requests assigned to and created
    /// by the user, across all projects or within each named one.
    pub fn requests(target: &QueryTarget) -> (r: Vec<GitlabRequest>)
        ensures
            target is SelfUser ==> r@.len() == 4 && user_requests(r@, 0, None),
            target matches QueryTarget::Projects(ps) ==> r@.len() == 4 * ps@.len() && forall|i: int|
                0 <= i < ps@.len() ==> #[trigger] user_requests(r@, 4 * i, Some(ps@[i]@)),
    {
        let mut out: Vec<GitlabRequest> = Vec::new();
        match target {
            QueryTarget::SelfUser => {
                push_user_requests(&mut out, None);
            },
            QueryTarget::Projects(ps) => {
                let mut i: usize = 0;
                while i < ps.len()
                    invariant
                        0 <= i <= ps@.len(),
                        out@.len() == 4 * i,
                        forall|j: int| 0 <= j < i ==> #[trigger] user_requests(out@, 4 * j, Some(ps@[j]@)),
                    decreases ps@.len() - i,
                {
                    let ghost before = out@;
                    let project = ps[i].clone();
                    push_user_requests(&mut out, Some(project));
                    assert forall|j: int| 0 <= j < i + 1 implies #[trigger] user_requests(out@, 4 * j, Some(ps@[j]@)) by {
                        if j < i {
                            assert(user_requests(before, 4 * j, Some(ps@[j]@)));
                            assert(out@[4 * j] == before[4 * j]);
                            assert(out@[4 * j + 1] == before[4 * j + 1]);
                            assert(out@[4 * j + 2] == before[4 * j + 2]);
                            assert(out@[4 * j + 3] == before[4 * j + 3]);
                        }
                    }
                    i = i + 1;
                }
            },
        }
        out
    }

    /// Records whether the client, made right after the backend, could be made; a
    /// failure is kept for every later fetch and reported this once.
    pub fn client_made(&mut self, connected: bool) -> (report: bool)
        requires
            old(self).connection == Connection::Uninitialized,
        ensures
            final(self).connection == (if connected {
                Connection::Ready
            } else {
                Connection::Failed
            }),
            final(self).host == old(self).host,
            final(self).token == old(self).token,
            report == !connected,
    {
        self.connection.settle(connected)
    }

    /// The remote item of a GitLab issue: due on its own date, else its
    /// milestone's; a missing description reads as empty.
    pub fn issue_item(
        title: String,
        description: Option<String>,
        state: &str,
        assignees: usize,
        web_url: String,
        due_date: Option<Date>,
        milestone_due: Option<Date>,
    ) -> (r: RemoteItem)
        ensures
            r@ == (RemoteModel {
                due: gitlab_issue_due(due_date, milestone_due),
                summary: title@,
                description: text_or_empty(description),
                kind: TodoKind::Issue,
                status: issue_status_of(IssueState::from_gitlab_spec(state@), assignees > 0),
                url: web_url@,
            }),
    {
        let due = match due_date {
            Some(d) => Some(Due::Date(d)),
            None => match milestone_due {
                Some(d) => Some(Due::Date(d)),
                None => None,
            },
        };
        let description = match description {
            Some(d) => d,
            None => String::new(),
        };
        RemoteItem::from_issue(title, description, IssueState::from_gitlab(state), assignees, web_url, due)
    }

    /// The remote item of a GitLab merge request: due on its milestone's date; a
    /// missing description reads as empty.
    pub fn merge_request_item(
        title: String,
        description: Option<String>,
        state: &str,
        assignees: usize,
        web_url: String,
        milestone_due: Option<Date>,
    ) -> (r: RemoteItem)
        ensures
            r@ == (RemoteModel {
                due: match milestone_due {
                    Some(d) => Some(Due::Date(d)),
                    None => None,
                },
                summary: title@,
                description: text_or_empty(description),
                kind: TodoKind::PullRequest,
                status: pull_request_status_of(
                    PullRequestState::from_gitlab_spec(state@),
                    assignees > 0,
                ),
                url: web_url@,
            }),
    {
        let due = match milestone_due {
            Some(d) => Some(Due::Date(d)),
            None => None,
        };
        let description = match description {
            Some(d) => d,
            None => String::new(),
        };
        RemoteItem::from_pull_request(
            title,
            description,
            PullRequestState::from_gitlab(state),
            assignees,
            web_url,
            due,
        )
    }

    /// The error of a query that could not be built or sent.
    pub fn query_error(message: String) -> (r: ItemError)
        ensures
            r matches ItemError::QueryError { service, message: m } && service@ == "gitlab"@ && m
                == message,
    {
        ItemError::QueryError { service: "gitlab", message }
    }

    /// The error of a fetch whose client could not be made.
    pub fn service_error() -> (r: ItemError)
        ensures
            r matches ItemError::ServiceError { service } && service@ == "gitlab"@,
    {
        ItemError::ServiceError { service: "gitlab" }
    }
}

} // verus!
