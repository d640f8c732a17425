use devtodo::account::github::{
    check_graphql, status_class, Attempt, Backoff, GithubError, GithubQuery, GithubRequest,
    PageStep, Paginator, RateLimitInfo, RetryStep, Severity, StatusClass,
};
use devtodo::account::gitlab::{GitlabQuery, GitlabRequest, GitlabScope};
use devtodo::account::{
    connect, issue_status, pull_request_status, reconcile, reconcile_at, Access, AccountError,
    Backend, Connection, IssueState, PullRequestState, RemoteItem,
};
use devtodo::config::{select_targets, Account, Filter, QueryTarget};
use devtodo::time::{Date, Timestamp};
use devtodo::todo::{Due, TodoItem, TodoKind, TodoStatus, Uid};

fn stamp(d: u8, h: u8) -> Timestamp {
    Timestamp::new(Date::new(2024, 3, d).unwrap(), h, 0, 0).unwrap()
}

fn stored(url: &str, summary: &str) -> TodoItem {
    TodoItem::builder()
        .kind(TodoKind::Issue)
        .status(TodoStatus::NeedsAction)
        .url(url.to_string())
        .summary(summary.to_string())
        .build_at(Uid(format!("uid-{url}")), stamp(1, 0))
        .ok()
        .unwrap()
}

fn remote(url: &str, summary: &str) -> RemoteItem {
    RemoteItem::from_issue(
        summary.to_string(),
        String::new(),
        IssueState::Open,
        0,
        url.to_string(),
        None,
    )
}

#[test]
fn merge_updates_item_with_same_url() {
    let mut existing = vec![stored("X", "A")];
    let fresh = reconcile_at(vec![remote("X", "B")], &mut existing, stamp(2, 5));
    assert!(fresh.is_empty());
    assert_eq!(existing[0].summary(), "B");
    assert_eq!(existing[0].last_modified(), stamp(2, 5));
    assert!(existing[0].last_modified() != stamp(1, 0));
    assert!(existing[0].is_dirty());
    assert_eq!(existing[0].uid().as_str(), "uid-X");
}

#[test]
fn merge_creates_item_for_new_url() {
    let mut existing = vec![stored("X", "A")];
    let due = Due::Date(Date::new(2024, 9, 1).unwrap());
    let r = RemoteItem::from_pull_request(
        "Title".to_string(),
        "Body".to_string(),
        PullRequestState::Merged,
        1,
        "Y".to_string(),
        Some(due),
    );
    let fresh = reconcile_at(vec![r], &mut existing, stamp(2, 5));
    assert_eq!(fresh.len(), 1);
    let n = &fresh[0];
    assert_eq!(n.uid().as_str().len(), 36);
    assert_eq!(n.kind(), TodoKind::PullRequest);
    assert_eq!(n.status(), TodoStatus::Completed);
    assert_eq!(n.url(), "Y");
    assert_eq!(n.summary(), "Title");
    assert_eq!(n.description(), "Body");
    assert_eq!(n.due(), Some(due));
    assert_eq!(n.created(), stamp(2, 5));
    assert!(!n.is_dirty());
    assert_eq!(existing.len(), 1);
    assert!(!existing[0].is_dirty());
}

#[test]
fn merge_twice_changes_nothing_more() {
    let mut existing = vec![stored("X", "A"), stored("Z", "C")];
    let fresh = reconcile(vec![remote("X", "A"), remote("Z", "C")], &mut existing);
    assert!(fresh.is_empty());
    assert!(!existing[0].is_dirty());
    assert!(!existing[1].is_dirty());
    assert_eq!(existing[0].last_modified(), stamp(1, 0));
}

#[test]
fn merge_never_deletes() {
    let mut existing = vec![stored("X", "A"), stored("Z", "C")];
    let fresh = reconcile_at(vec![], &mut existing, stamp(2, 5));
    assert!(fresh.is_empty());
    assert_eq!(existing.len(), 2);
}

#[test]
fn backoff_gives_up_after_five_sends() {
    let mut b = Backoff::new();
    let mut sleeps = Vec::new();
    let mut sends = 0;
    while !b.exhausted() {
        sends += 1;
        match b.step(GithubError::GithubService { status: 503 }.attempt()) {
            RetryStep::Sleep(d) => sleeps.push(d),
            other => panic!("unexpected {other:?}"),
        }
    }
    assert_eq!(sends, 5);
    assert_eq!(sleeps, vec![1, 2, 4, 8, 16]);
    assert!(matches!(Backoff::exhausted_error(), GithubError::GithubBackoff));
}

#[test]
fn backoff_aborts_on_other_errors() {
    let mut b = Backoff::new();
    let err = GithubError::github("unauthorized".to_string());
    assert!(!err.should_backoff());
    assert_eq!(b.step(err.attempt()), RetryStep::Abort);
    assert_eq!(b.attempts, 0);
    assert_eq!(b.step(Attempt::Success), RetryStep::Finish);
}

#[test]
fn paging_stops_without_cursor() {
    let mut p = Paginator::new();
    assert_eq!(p.record(true, Some("c1".to_string())), PageStep::More);
    assert_eq!(p.cursor.as_deref(), Some("c1"));
    assert!(!p.done);
    assert_eq!(p.record(true, None), PageStep::MissingCursor);
    assert!(p.done);
    let mut q = Paginator::new();
    assert_eq!(q.record(false, Some("c".to_string())), PageStep::Last);
    assert!(q.done);
}

#[test]
fn status_follows_state_and_assignees() {
    assert_eq!(issue_status(IssueState::Open, 0), TodoStatus::NeedsAction);
    assert_eq!(issue_status(IssueState::Open, 2), TodoStatus::InProcess);
    assert_eq!(issue_status(IssueState::Closed, 1), TodoStatus::Completed);
    assert_eq!(issue_status(IssueState::Other, 1), TodoStatus::NeedsAction);
    assert_eq!(pull_request_status(PullRequestState::Merged, 0), TodoStatus::Completed);
    assert_eq!(pull_request_status(PullRequestState::Closed, 3), TodoStatus::Cancelled);
    assert_eq!(pull_request_status(PullRequestState::Open, 1), TodoStatus::InProcess);
    assert_eq!(pull_request_status(PullRequestState::Open, 0), TodoStatus::NeedsAction);
    assert_eq!(pull_request_status(PullRequestState::Other, 0), TodoStatus::NeedsAction);
}

#[test]
fn platform_state_names() {
    assert_eq!(IssueState::from_github("CLOSED"), IssueState::Closed);
    assert_eq!(IssueState::from_github("closed"), IssueState::Other);
    assert_eq!(IssueState::from_gitlab("opened"), IssueState::Open);
    assert_eq!(PullRequestState::from_github("MERGED"), PullRequestState::Merged);
    assert_eq!(PullRequestState::from_gitlab("merged"), PullRequestState::Merged);
    assert_eq!(PullRequestState::from_gitlab("locked"), PullRequestState::Other);
}

#[test]
fn gitlab_items_read_due_dates() {
    let d1 = Date::new(2024, 5, 1).unwrap();
    let d2 = Date::new(2024, 6, 1).unwrap();
    let i = GitlabQuery::issue_item("T".to_string(), None, "closed", 0, "u".to_string(), None, Some(d2));
    assert_eq!(i.due, Some(Due::Date(d2)));
    assert_eq!(i.description, "");
    assert_eq!(i.status, TodoStatus::Completed);
    let i = GitlabQuery::issue_item("T".to_string(), Some("D".to_string()), "opened", 1, "u".to_string(), Some(d1), Some(d2));
    assert_eq!(i.due, Some(Due::Date(d1)));
    assert_eq!(i.status, TodoStatus::InProcess);
    let m = GitlabQuery::merge_request_item("T".to_string(), None, "closed", 0, "u".to_string(), None);
    assert_eq!(m.status, TodoStatus::Cancelled);
    assert_eq!(m.kind, TodoKind::PullRequest);
    assert_eq!(m.due, None);
}

#[test]
fn response_checks() {
    assert_eq!(status_class(503), StatusClass::ServerError);
    assert_eq!(status_class(200), StatusClass::Success);
    assert_eq!(status_class(401), StatusClass::Failure);
    assert!(matches!(check_graphql(vec!["boom".to_string()], true), Err(GithubError::GraphQL { .. })));
    assert!(matches!(check_graphql(vec![], false), Err(GithubError::NoResponse)));
    assert!(check_graphql(vec![], true).is_ok());
}

#[test]
fn rate_limit_severity() {
    let at = stamp(1, 0);
    let info = |remaining| RateLimitInfo { cost: 1, limit: 5000, remaining, reset_at: at };
    assert_eq!(info(0).severity(), Severity::Error);
    assert_eq!(info(100).severity(), Severity::Warn);
    assert_eq!(info(101).severity(), Severity::Info);
    assert_eq!(info(1000).severity(), Severity::Info);
    assert_eq!(info(1001).severity(), Severity::Debug);
    assert_eq!(GithubQuery::check_rate_limits(&None), None);
    assert_eq!(GithubQuery::check_rate_limits(&Some(info(50))), Some(Severity::Warn));
}

#[test]
fn github_backend_setup() {
    let q = GithubQuery::new(None, "t0k".to_string());
    assert_eq!(q.host, "api.github.com");
    assert_eq!(q.endpoint(), "https://api.github.com/graphql");
    assert_eq!(q.auth_header(), "bearer t0k");
    let q = GithubQuery::new(Some("ghe.local".to_string()), "t".to_string());
    assert_eq!(q.endpoint(), "https://ghe.local/graphql");
    assert!(GithubQuery::issue_labels(&vec![]).is_none());
    let labels = GithubQuery::issue_labels(&vec![Filter::Label("bug".to_string()), Filter::Label("urgent".to_string())]);
    assert_eq!(labels, Some(vec!["bug".to_string(), "urgent".to_string()]));
    let r = GithubQuery::requests(&QueryTarget::SelfUser);
    assert!(matches!(r[..], [GithubRequest::ViewerIssues, GithubRequest::ViewerPullRequests]));
    let r = GithubQuery::requests(&QueryTarget::Projects(vec!["a/b".to_string()]));
    assert!(matches!(&r[..], [GithubRequest::RepositoryIssues(p), GithubRequest::RepositoryPullRequests(q)] if p == "a/b" && q == "a/b"));
}

#[test]
fn gitlab_backend_setup() {
    let q = GitlabQuery::new(None, "t".to_string());
    assert_eq!(q.host, "gitlab.com");
    assert_eq!(GitlabQuery::labels(&vec![Filter::Label("x".to_string())]), vec!["x".to_string()]);
    let r = GitlabQuery::requests(&QueryTarget::SelfUser);
    assert_eq!(r.len(), 4);
    assert!(matches!(r[0], GitlabRequest::Issues { scope: GitlabScope::AssignedToMe, project: None }));
    assert!(matches!(r[1], GitlabRequest::Issues { scope: GitlabScope::CreatedByMe, project: None }));
    assert!(matches!(r[2], GitlabRequest::MergeRequests { scope: GitlabScope::AssignedToMe, project: None }));
    assert!(matches!(r[3], GitlabRequest::MergeRequests { scope: GitlabScope::CreatedByMe, project: None }));
    let r = GitlabQuery::requests(&QueryTarget::Projects(vec!["g/p".to_string(), "g/q".to_string()]));
    assert_eq!(r.len(), 8);
    assert!(matches!(&r[4], GitlabRequest::Issues { scope: GitlabScope::AssignedToMe, project: Some(p) } if p == "g/q"));
    assert!(matches!(&r[7], GitlabRequest::MergeRequests { scope: GitlabScope::CreatedByMe, project: Some(p) } if p == "g/q"));
}

#[test]
fn gitlab_client_failure_is_kept() {
    let mut q = GitlabQuery::new(Some("git.example".to_string()), "t".to_string());
    assert!(q.client_made(false));
    assert_eq!(q.connection, Connection::Failed);
    assert_eq!(q.connection.access(), Access::Refuse);
    let mut ok = GitlabQuery::new(None, "t".to_string());
    assert!(!ok.client_made(true));
    assert_eq!(ok.connection.access(), Access::Use);
}

#[test]
fn connection_fails_once() {
    let mut c = Connection::Uninitialized;
    assert_eq!(c.access(), Access::Connect);
    assert!(c.settle(false));
    assert_eq!(c, Connection::Failed);
    assert_eq!(c.access(), Access::Refuse);
    let mut d = Connection::Uninitialized;
    assert!(!d.settle(true));
    assert_eq!(d.access(), Access::Use);
}

#[test]
fn accounts_pick_their_backend() {
    let account = |service: &str| Account { service: service.to_string(), hostname: None, secret: "s".to_string() };
    assert!(matches!(connect(&account("github")), Ok(Backend::Github(_))));
    assert!(matches!(connect(&account("gitlab")), Ok(Backend::Gitlab(_))));
    assert!(matches!(connect(&account("gitea")), Err(AccountError::UnknownService { service }) if service == "gitea"));
    let e = GithubQuery::service_error();
    assert!(matches!(e, devtodo::account::ItemError::ServiceError { service: "github" }));
}

#[test]
fn targets_are_selected_in_order() {
    let available = vec!["a".to_string(), "b".to_string(), "c".to_string()];
    assert_eq!(select_targets(true, None, vec![], &available), available);
    assert_eq!(select_targets(false, Some(vec!["c".to_string(), "a".to_string()]), vec!["b".to_string()], &available), vec!["a".to_string(), "c".to_string()]);
    assert_eq!(select_targets(false, None, vec!["b".to_string(), "z".to_string()], &available), vec!["b".to_string()]);
}
