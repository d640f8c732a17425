//! The GitHub backend's decisions: what to ask for, how to read a response, when
//! to retry and when to stop paging.
use vstd::prelude::*;
use vstd::string::StringExecFns;

use crate::account::{Connection, ItemError};
use crate::config::{filter_labels, labels_of, Filter, QueryTarget};
use crate::text::views;
use crate::time::Timestamp;

verus! {

/// How many times one query is sent at most.
pub const BACKOFF_LIMIT: u32 = 5;

/// The delay before the first retry, in seconds.
pub const BACKOFF_START: u64 = 1;

/// The factor by which the delay grows after each retry.
pub const BACKOFF_SCALE: u64 = 2;

/// The user agent of every query.
pub const USER_AGENT: &'static str = "devtodo v0.1.0";

/// Why a GitHub query failed.
#[derive(Debug)]
pub enum GithubError {
    UrlParse { message: String },
    SendRequest { endpoint: String, message: String },
    Github { response: String },
    Deserialize { message: String },
    GithubService { status: u16 },
    JsonResponse { message: String },
    GraphQL { message: Vec<String> },
    NoResponse,
    GithubBackoff,
}

/// How one sending of a query went.
#[derive(Clone, Copy, Debug, PartialEq, Eq, Structural)]
pub enum Attempt {
    Success,
    Retryable,
    Fatal,
}

impl GithubError {
    /// Whether the error is the service being unavailable, the one that is retried.
    pub fn should_backoff(&self) -> (r: bool)
        ensures
            r == (self is GithubService),
    {
        match self {
            GithubError::GithubService { .. } => true,
            _ => false,
        }
    }

    /// How a send that failed with this error went.
    pub fn attempt(&self) -> (r: Attempt)
        ensures
            r == (if self is GithubService {
                Attempt::Retryable
            } else {
                Attempt::Fatal
            }),
    {
        if self.should_backoff() {
            Attempt::Retryable
        } else {
            Attempt::Fatal
        }
    }

    pub fn send_request(endpoint: String, message: String) -> (r: GithubError)
        ensures
            r == (GithubError::SendRequest { endpoint, message }),
    {
        GithubError::SendRequest { endpoint, message }
    }

    pub fn github(response: String) -> (r: GithubError)
        ensures
            r == (GithubError::Github { response }),
    {
        GithubError::Github { response }
    }

    pub fn json_response(message: String) -> (r: GithubError)
        ensures
            r == (GithubError::JsonResponse { message }),
    {
        GithubError::JsonResponse { message }
    }
}

/// The class of an HTTP status.
#[derive(Clone, Copy, Debug, PartialEq, Eq, Structural)]
pub enum StatusClass {
    Success,
    ServerError,
    Failure,
}

/// A 5xx status is the service being unavailable, a 2xx one success, any other a
/// failure.
pub fn status_class(status: u16) -> (r: StatusClass)
    ensures
        500 <= status <= 599 ==> r == StatusClass::ServerError,
        200 <= status <= 299 ==> r == StatusClass::Success,
        !(500 <= status <= 599) && !(200 <= status <= 299) ==> r == StatusClass::Failure,
{
    if 500 <= status && status <= 599 {
        StatusClass::ServerError
    } else if 200 <= status && status <= 299 {
        StatusClass::Success
    } else {
        StatusClass::Failure
    }
}

/// The error, if any, of a GraphQL response: its errors when it lists any, else no
/// data at all.
pub fn check_graphql(errors: Vec<String>, has_data: bool) -> (r: Result<(), GithubError>)
    ensures
        errors@.len() > 0 ==> (r matches Err(GithubError::GraphQL { message }) && message@
            == errors@),
        errors@.len() == 0 && !has_data ==> r matches Err(GithubError::NoResponse),
        errors@.len() == 0 && has_data ==> r is Ok,
{
    if errors.len() > 0 {
        Err(GithubError::GraphQL { message: errors })
    } else if !has_data {
        Err(GithubError::NoResponse)
    } else {
        Ok(())
    }
}

/// What to do after one sending of a query.
#[derive(Clone, Copy, Debug, PartialEq, Eq, Structural)]
pub enum RetryStep {
    Finish,
    Abort,
    Sleep(u64),
}

/// The retry state of one query: how many sends failed for want of service, and
/// the delay before the next.
#[derive(Clone, Copy, Debug, PartialEq, Eq, Structural)]
pub struct Backoff {
    pub attempts: u32,
    pub delay: u64,
}

pub open spec fn pow2(n: nat) -> nat
    decreases n,
{
    if n == 0 {
        1
    } else {
        2 * pow2((n - 1) as nat)
    }
}

/// One step of the retry loop: success finishes, a fatal error aborts, an
/// unavailable service sleeps the current delay and doubles it.
pub open spec fn step_spec(b: Backoff, a: Attempt) -> (Backoff, RetryStep) {
    match a {
        Attempt::Success => (b, RetryStep::Finish),
        Attempt::Fatal => (b, RetryStep::Abort),
        Attempt::Retryable => (
            Backoff { attempts: (b.attempts + 1) as u32, delay: (b.delay * BACKOFF_SCALE) as u64 },
            RetryStep::Sleep(b.delay),
        ),
    }
}

/// How a retry loop ended.
#[derive(Clone, Copy, Debug, PartialEq, Eq, Structural)]
pub enum RetryEnd {
    Finished,
    Aborted,
    Exhausted,
}

/// The sleeps, sends and end of a retry loop.
pub struct RetryRun {
    pub sleeps: Seq<u64>,
    pub attempts: nat,
    pub end: RetryEnd,
}

/// The retry loop from `b` over the outcomes of successive sends: it sends while
/// the limit is not reached and ends `Exhausted` when it is.
pub open spec fn run_from(b: Backoff, outcomes: Seq<Attempt>) -> RetryRun
    decreases outcomes.len(),
{
    if b.attempts >= BACKOFF_LIMIT || outcomes.len() == 0 {
        RetryRun { sleeps: Seq::empty(), attempts: 0, end: RetryEnd::Exhausted }
    } else {
        let (next, step) = step_spec(b, outcomes[0]);
        match step {
            RetryStep::Finish => RetryRun { sleeps: Seq::empty(), attempts: 1, end: RetryEnd::Finished },
            RetryStep::Abort => RetryRun { sleeps: Seq::empty(), attempts: 1, end: RetryEnd::Aborted },
            RetryStep::Sleep(d) => {
                let rest = run_from(next, outcomes.drop_first());
                RetryRun { sleeps: seq![d] + rest.sleeps, attempts: rest.attempts + 1, end: rest.end }
            },
        }
    }
}

impl Backoff {
    pub open spec fn wf(self) -> bool {
        self.attempts <= BACKOFF_LIMIT && self.delay == pow2(self.attempts as nat)
    }

    pub open spec fn initial() -> Backoff {
        Backoff { attempts: 0, delay: BACKOFF_START }
    }

    pub fn new() -> (r: Backoff)
        ensures
            r == Backoff::initial(),
            r.wf(),
    {
        Backoff { attempts: 0, delay: BACKOFF_START }
    }

    /// Whether the query has been sent as often as it may be.
    pub fn exhausted(&self) -> (r: bool)
        ensures
            r == (self.attempts >= BACKOFF_LIMIT),
    {
        self.attempts >= BACKOFF_LIMIT
    }

    /// What to do after a send that went as `a`.
    pub fn step(&mut self, a: Attempt) -> (r: RetryStep)
        requires
            old(self).wf(),
            old(self).attempts < BACKOFF_LIMIT,
        ensures
            (*final(self), r) == step_spec(*old(self), a),
            final(self).wf(),
    {
        match a {
            Attempt::Success => RetryStep::Finish,
            Attempt::Fatal => RetryStep::Abort,
            Attempt::Retryable => {
                let d = self.delay;
                proof {
                    assert(pow2(5) == 32) by {
                        reveal_with_fuel(pow2, 6);
                    }
                    lemma_pow2_monotone(self.attempts as nat, 4);
                }
                self.attempts = self.attempts + 1;
                self.delay = d * BACKOFF_SCALE;
                RetryStep::Sleep(d)
            },
        }
    }

    /// The error of a query whose every send found the service unavailable.
    pub fn exhausted_error() -> (r: GithubError)
        ensures
            r is GithubBackoff,
    {
        GithubError::GithubBackoff
    }
}

proof fn lemma_pow2_monotone(a: nat, b: nat)
    requires
        a <= b,
    ensures
        pow2(a) <= pow2(b),
    decreases b,
{
    if a < b {
        lemma_pow2_monotone(a, (b - 1) as nat);
    }
}

/// Backoff termination: a query whose every send finds the service unavailable is
/// sent five times, sleeping 1, 2, 4, 8 and 16 units after the sends, and ends
/// exhausted.
pub proof fn lemma_backoff_exhausts(outcomes: Seq<Attempt>)
    requires
        outcomes.len() >= BACKOFF_LIMIT,
        forall|i: int| 0 <= i < outcomes.len() ==> outcomes[i] == Attempt::Retryable,
    ensures
        run_from(Backoff::initial(), outcomes) == (RetryRun {
            sleeps: seq![1u64, 2, 4, 8, 16],
            attempts: 5,
            end: RetryEnd::Exhausted,
        }),
{
    let o1 = outcomes.drop_first();
    let o2 = o1.drop_first();
    let o3 = o2.drop_first();
    let o4 = o3.drop_first();
    let o5 = o4.drop_first();
    assert(o1[0] == outcomes[1]);
    assert(o2[0] == outcomes[2]);
    assert(o3[0] == outcomes[3]);
    assert(o4[0] == outcomes[4]);
    let b5 = Backoff { attempts: 5, delay: 32 };
    assert(run_from(b5, o5) == RetryRun { sleeps: Seq::<u64>::empty(), attempts: 0, end: RetryEnd::Exhausted });
    let b4 = Backoff { attempts: 4, delay: 16 };
    assert(run_from(b4, o4).sleeps =~= seq![16u64]);
    let b3 = Backoff { attempts: 3, delay: 8 };
    assert(run_from(b3, o3).sleeps =~= seq![8u64, 16]);
    let b2 = Backoff { attempts: 2, delay: 4 };
    assert(run_from(b2, o2).sleeps =~= seq![4u64, 8, 16]);
    let b1 = Backoff { attempts: 1, delay: 2 };
    assert(run_from(b1, o1).sleeps =~= seq![2u64, 4, 8, 16]);
    assert(run_from(Backoff::initial(), outcomes).sleeps =~= seq![1u64, 2, 4, 8, 16]);
}

/// A send that fails for any reason but the service being unavailable ends the
/// loop at once: one send and no sleep.
pub proof fn lemma_backoff_aborts(outcomes: Seq<Attempt>)
    requires
        outcomes.len() >= 1,
        outcomes[0] == Attempt::Fatal,
    ensures
        run_from(Backoff::initial(), outcomes) == (RetryRun {
            sleeps: Seq::<u64>::empty(),
            attempts: 1,
            end: RetryEnd::Aborted,
        }),
{
}

/// What to do after a page of results.
#[derive(Clone, Copy, Debug, PartialEq, Eq, Structural)]
pub enum PageStep {
    More,
    Last,
    MissingCursor,
}

/// Where a cursor-paginated query stands.
#[derive(Debug)]
pub struct Paginator {
    pub cursor: Option<String>,
    pub done: bool,
}

impl Paginator {
    pub fn new() -> (r: Paginator)
        ensures
            r.cursor is None,
            !r.done,
    {
        Paginator { cursor: None, done: false }
    }

    /// Records a page's claim of another page and its continuation cursor. The
    /// query goes on only with both: a claim without a cursor ends it at once.
    pub fn record(&mut self, has_next_page: bool, end_cursor: Option<String>) -> (r: PageStep)
        ensures
            !has_next_page ==> r == PageStep::Last && final(self).done,
            has_next_page && end_cursor is None ==> r == PageStep::MissingCursor
                && final(self).done,
            has_next_page && end_cursor is Some ==> r == PageStep::More && !final(self).done
                && final(self).cursor == end_cursor,
    {
        if !has_next_page {
            self.done = true;
            PageStep::Last
        } else {
            match end_cursor {
                Some(c) => {
                    self.cursor = Some(c);
                    self.done = false;
                    PageStep::More
                },
                None => {
                    self.done = true;
                    PageStep::MissingCursor
                },
            }
        }
    }
}

/// How urgently rate-limit telemetry is reported.
#[derive(Clone, Copy, Debug, PartialEq, Eq, Structural)]
pub enum Severity {
    Error,
    Warn,
    Info,
    Debug,
}

/// The rate-limit telemetry of a response.
#[derive(Clone, Copy, Debug)]
pub struct RateLimitInfo {
    pub cost: i64,
    pub limit: i64,
    pub remaining: i64,
    pub reset_at: Timestamp,
}

pub open spec fn severity_of(remaining: i64) -> Severity {
    if remaining == 0 {
        Severity::Error
    } else if remaining <= 100 {
        Severity::Warn
    } else if remaining <= 1000 {
        Severity::Info
    } else {
        Severity::Debug
    }
}

impl RateLimitInfo {
    /// An exhausted limit is an error, one hundred or fewer left a warning, a
    /// thousand or fewer information, more than that debugging detail.
    pub fn severity(&self) -> (r: Severity)
        ensures
            r == severity_of(self.remaining),
    {
        if self.remaining == 0 {
            Severity::Error
        } else if self.remaining <= 100 {
            Severity::Warn
        } else if self.remaining <= 1000 {
            Severity::Info
        } else {
            Severity::Debug
        }
    }
}

/// A query that the GitHub backend sends.
#[derive(Debug, Clone)]
pub enum GithubRequest {
    ViewerIssues,
    ViewerPullRequests,
    RepositoryIssues(String),
    RepositoryPullRequests(String),
}

/// Whether two requests are the issue and pull request queries of repository `p`.
pub open spec fn repository_requests(a: GithubRequest, b: GithubRequest, p: Seq<char>) -> bool {
    &&& a matches GithubRequest::RepositoryIssues(x) && x@ == p
    &&& b matches GithubRequest::RepositoryPullRequests(y) && y@ == p
}

/// A GitHub account's backend.
#[derive(Debug)]
pub struct GithubQuery {
    pub host: String,
    pub token: String,
    pub connection: Connection,
}

impl GithubQuery {
    /// The backend for the host (`api.github.com` unless given) and token; its
    /// client is made on first use.
    pub fn new(host: Option<String>, token: String) -> (r: GithubQuery)
        ensures
            r.host@ == (match host {
                Some(h) => h@,
                None => "api.github.com"@,
            }),
            r.token == token,
            r.connection == Connection::Uninitialized,
    {
        let host = match host {
            Some(h) => h,
            None => String::from_str("api.github.com"),
        };
        GithubQuery { host, token, connection: Connection::Uninitialized }
    }

    /// The GraphQL endpoint of the host.
    pub fn endpoint(&self) -> (r: String)
        ensures
            r@ == "https://"@ + self.host@ + "/graphql"@,
    {
        String::from_str("https://").concat(self.host.as_str()).concat("/graphql")
    }

    /// The value of the authorization header.
    pub fn auth_header(&self) -> (r: String)
        ensures
            r@ == "bearer "@ + self.token@,
    {
        String::from_str("bearer ").concat(self.token.as_str())
    }

    /// How urgently a response's rate-limit telemetry is reported, if it has any.
    pub fn check_rate_limits(rate_limit: &Option<RateLimitInfo>) -> (r: Option<Severity>)
        ensures
            rate_limit is None ==> r is None,
            rate_limit matches Some(info) ==> r == Some(severity_of(info.remaining)),
    {
        match rate_limit {
            Some(info) => Some(info.severity()),
            None => None,
        }
    }

    /// The label filter of the issue queries: none without filters, else every
    /// label in order.
    pub fn issue_labels(filters: &Vec<Filter>) -> (r: Option<Vec<String>>)
        ensures
            filters@.len() == 0 ==> r is None,
            filters@.len() > 0 ==> (r matches Some(v) && views(v@) == filter_labels(filters@)),
    {
        if filters.len() == 0 {
            None
        } else {
            Some(labels_of(filters))
        }
    }

    /// The queries for a target, each paged to its end: the viewer's issues and
    /// pull requests, or each repository's.
    pub fn requests(target: &QueryTarget) -> (r: Vec<GithubRequest>)
        ensures
            target is SelfUser ==> r@.len() == 2 && r@[0] is ViewerIssues && r@[1] is ViewerPullRequests,
            target matches QueryTarget::Projects(ps) ==> r@.len() == 2 * ps@.len() && forall|i: int|
                0 <= i < ps@.len() ==> repository_requests(#[trigger] r@[2 * i], r@[2 * i + 1], ps@[i]@),
    {
        match target {
            QueryTarget::SelfUser => vec![GithubRequest::ViewerIssues, GithubRequest::ViewerPullRequests],
            QueryTarget::Projects(ps) => {
                let mut out: Vec<GithubRequest> = Vec::new();
                let mut i: usize = 0;
                while i < ps.len()
                    invariant
                        0 <= i <= ps@.len(),
                        out@.len() == 2 * i,
                        forall|j: int|
                            0 <= j < i ==> repository_requests(#[trigger] out@[2 * j], out@[2 * j + 1], ps@[j]@),
                    decreases ps@.len() - i,
                {
                    let ghost before = out@;
                    out.push(GithubRequest::RepositoryIssues(ps[i].clone()));
                    out.push(GithubRequest::RepositoryPullRequests(ps[i].clone()));
                    assert forall|j: int| 0 <= j < i + 1 implies repository_requests(#[trigger] out@[2 * j], out@[2 * j + 1], ps@[j]@) by {
                        if j < i {
                            assert(out@[2 * j] == before[2 * j]);
                            assert(out@[2 * j + 1] == before[2 * j + 1]);
                        }
                    }
                    i = i + 1;
                }
                out
            },
        }
    }

    /// The error of a query that could not be sent or read.
    pub fn query_error(message: String) -> (r: ItemError)
        ensures
            r matches ItemError::QueryError { service, message: m } && service@ == "github"@ && m
                == message,
    {
        ItemError::QueryError { service: "github", message }
    }

    /// The error of a fetch whose client could not be made.
    pub fn service_error() -> (r: ItemError)
        ensures
            r matches ItemError::ServiceError { service } && service@ == "github"@,
    {
        ItemError::ServiceError { service: "github" }
    }
}

} // verus!
