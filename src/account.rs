//! Remote items and their reconciliation with the task items already stored.
use vstd::prelude::*;

use crate::account::github::GithubQuery;
use crate::account::gitlab::GitlabQuery;
use crate::config::Account;
use crate::text::{same_text, without_cr};
use crate::time::Timestamp;
use crate::todo::{touched, Due, TodoItem, TodoKind, TodoModel, TodoStatus, Uid};

pub mod github;
pub mod gitlab;

verus! {

/// Why a backend could not fetch items.
#[derive(Debug)]
pub enum ItemError {
    ServiceError { service: &'static str },
    QueryError { service: &'static str, message: String },
}

/// Why an account could not be connected.
#[derive(Debug, PartialEq, Eq)]
pub enum AccountError {
    UnsupportedService { service: &'static str },
    UnknownService { service: String },
}

/// An issue or pull request as a backend reports it, between fetch and
/// reconciliation.
#[derive(Debug)]
pub struct RemoteItem {
    pub due: Option<Due>,
    pub summary: String,
    pub description: String,
    pub kind: TodoKind,
    pub status: TodoStatus,
    pub url: String,
}

pub struct RemoteModel {
    pub due: Option<Due>,
    pub summary: Seq<char>,
    pub description: Seq<char>,
    pub kind: TodoKind,
    pub status: TodoStatus,
    pub url: Seq<char>,
}

impl View for RemoteItem {
    type V = RemoteModel;

    open spec fn view(&self) -> RemoteModel {
        RemoteModel {
            due: self.due,
            summary: self.summary@,
            description: self.description@,
            kind: self.kind,
            status: self.status,
            url: self.url@,
        }
    }
}

impl RemoteItem {
    pub open spec fn wf(self) -> bool {
        self.due matches Some(d) ==> d.wf()
    }
}

pub open spec fn models(items: Seq<TodoItem>) -> Seq<TodoModel> {
    items.map_values(|i: TodoItem| i@)
}

pub open spec fn remote_models(items: Seq<RemoteItem>) -> Seq<RemoteModel> {
    items.map_values(|i: RemoteItem| i@)
}

/// Whether `i` is the first position of an item with that url.
pub open spec fn is_first_url(items: Seq<TodoModel>, url: Seq<char>, i: int) -> bool {
    &&& 0 <= i < items.len()
    &&& items[i].url == url
    &&& forall|j: int| 0 <= j < i ==> items[j].url != url
}

pub open spec fn has_url(items: Seq<TodoModel>, url: Seq<char>) -> bool {
    exists|i: int| 0 <= i < items.len() && items[i].url == url
}

/// A stored item after the remote item with its url was applied at `now`: the due
/// date if the remote has one, then status, summary and description, each only
/// when it differs.
pub open spec fn apply_remote(m: TodoModel, r: RemoteModel, now: Timestamp) -> TodoModel {
    let m1 = match r.due {
        Some(d) => if m.due == Some(d) {
            m
        } else {
            touched(TodoModel { due: Some(d), ..m }, now)
        },
        None => m,
    };
    let m2 = if m1.status == r.status {
        m1
    } else {
        touched(TodoModel { status: r.status, ..m1 }, now)
    };
    let m3 = if m2.summary == r.summary {
        m2
    } else {
        touched(TodoModel { summary: r.summary, ..m2 }, now)
    };
    if m3.description == without_cr(r.description) {
        m3
    } else {
        touched(TodoModel { description: without_cr(r.description), ..m3 }, now)
    }
}

/// The stored items after one remote item: the first item with its url is
/// updated; without one nothing changes.
pub open spec fn merge_one(items: Seq<TodoModel>, r: RemoteModel, now: Timestamp) -> Seq<
    TodoModel,
> {
    if has_url(items, r.url) {
        let i = choose|i: int| is_first_url(items, r.url, i);
        items.update(i, apply_remote(items[i], r, now))
    } else {
        items
    }
}

/// The stored items after the remote items, in order.
pub open spec fn merge_all(items: Seq<TodoModel>, remote: Seq<RemoteModel>, now: Timestamp) -> Seq<
    TodoModel,
>
    decreases remote.len(),
{
    if remote.len() == 0 {
        items
    } else {
        merge_one(merge_all(items, remote.drop_last(), now), remote.last(), now)
    }
}

/// The remote items whose url no stored item has, in order.
pub open spec fn unmatched(items: Seq<TodoModel>, remote: Seq<RemoteModel>) -> Seq<RemoteModel>
    decreases remote.len(),
{
    if remote.len() == 0 {
        Seq::empty()
    } else if has_url(items, remote.last().url) {
        unmatched(items, remote.drop_last())
    } else {
        unmatched(items, remote.drop_last()).push(remote.last())
    }
}

/// The task item made for a remote item that matched none: every remote field
/// copied, created and last modified at `now`, and not yet changed since written.
pub open spec fn created_from(r: RemoteModel, uid: Seq<char>, now: Timestamp) -> TodoModel {
    TodoModel {
        uid,
        kind: r.kind,
        created: now,
        due: r.due,
        status: r.status,
        url: r.url,
        summary: r.summary,
        description: r.description,
        last_modified: now,
        dirty: false,
    }
}

proof fn lemma_first_url_unique(items: Seq<TodoModel>, url: Seq<char>, i: int, j: int)
    requires
        is_first_url(items, url, i),
        is_first_url(items, url, j),
    ensures
        i == j,
{
}

proof fn lemma_first_url_exists(items: Seq<TodoModel>, url: Seq<char>)
    requires
        has_url(items, url),
    ensures
        exists|i: int| is_first_url(items, url, i),
    decreases items.len(),
{
    let init = items.drop_last();
    if has_url(init, url) {
        lemma_first_url_exists(init, url);
        let i = choose|i: int| is_first_url(init, url, i);
        assert forall|j: int| 0 <= j < i implies items[j].url != url by {
            assert(init[j] == items[j]);
        }
        assert(is_first_url(items, url, i));
    } else {
        let i = choose|i: int| 0 <= i < items.len() && items[i].url == url;
        if i < init.len() {
            assert(init[i].url == url);
        }
        assert forall|j: int| 0 <= j < items.len() - 1 implies items[j].url != url by {
            assert(init[j] == items[j]);
            if init[j].url == url {
                assert(has_url(init, url));
            }
        }
        assert(is_first_url(items, url, items.len() - 1));
    }
}

proof fn lemma_merge_one_keeps_urls(items: Seq<TodoModel>, r: RemoteModel, now: Timestamp)
    ensures
        merge_one(items, r, now).len() == items.len(),
        forall|k: int|
            0 <= k < items.len() ==> (#[trigger] merge_one(items, r, now)[k]).url == items[k].url,
{
    if has_url(items, r.url) {
        lemma_first_url_exists(items, r.url);
    }
}

proof fn lemma_merge_all_keeps_urls(items: Seq<TodoModel>, remote: Seq<RemoteModel>, now: Timestamp)
    ensures
        merge_all(items, remote, now).len() == items.len(),
        forall|k: int|
            0 <= k < items.len() ==> (#[trigger] merge_all(items, remote, now)[k]).url
                == items[k].url,
    decreases remote.len(),
{
    if remote.len() > 0 {
        lemma_merge_all_keeps_urls(items, remote.drop_last(), now);
        lemma_merge_one_keeps_urls(merge_all(items, remote.drop_last(), now), remote.last(), now);
    }
}

proof fn lemma_has_url_same_urls(a: Seq<TodoModel>, b: Seq<TodoModel>, url: Seq<char>)
    requires
        a.len() == b.len(),
        forall|k: int| 0 <= k < a.len() ==> (#[trigger] a[k]).url == b[k].url,
    ensures
        has_url(a, url) == has_url(b, url),
{
    if has_url(a, url) {
        let i = choose|i: int| 0 <= i < a.len() && a[i].url == url;
        assert(b[i].url == url);
    }
    if has_url(b, url) {
        let i = choose|i: int| 0 <= i < b.len() && b[i].url == url;
        assert(a[i].url == url);
    }
}

/// Applies one remote item to the stored items, stamping changes with `now`, and
/// gives the remote item back when no stored item has its url.
fn merge_remote(r: RemoteItem, existing: &mut Vec<TodoItem>, now: Timestamp) -> (res: Option<
    RemoteItem,
>)
    requires
        r.wf(),
        now.wf(),
    ensures
        models(final(existing)@) == merge_one(models(old(existing)@), r@, now),
        has_url(models(old(existing)@), r@.url) ==> res is None,
        !has_url(models(old(existing)@), r@.url) ==> res == Some(r),
{
    let ghost items = models(existing@);
    let mut i: usize = 0;
    while i < existing.len()
        invariant
            items == models(existing@),
            items == models(old(existing)@),
            0 <= i <= existing@.len(),
            forall|j: int| 0 <= j < i ==> items[j].url != r@.url,
            r.wf(),
            now.wf(),
        decreases existing@.len() - i,
    {
        if same_text(existing[i].url(), r.url.as_str()) {
            assert(is_first_url(items, r@.url, i as int));
            assert(has_url(items, r@.url)) by {
                assert(items[i as int].url == r@.url);
            }
            let mut item = existing.remove(i);
            let RemoteItem { due, summary, description, kind, status, url } = r;
            if let Some(d) = due {
                item.set_due_at(d, now);
            }
            item.set_status_at(status, now);
            item.set_summary_at(summary, now);
            item.set_description_at(description, now);
            existing.insert(i, item);
            proof {
                let k = choose|k: int| is_first_url(items, r@.url, k);
                lemma_first_url_unique(items, r@.url, i as int, k);
                assert(models(existing@) =~= items.update(i as int, apply_remote(items[i as int], r@, now)));
            }
            return None;
        }
        i = i + 1;
    }
    assert(!has_url(items, r@.url));
    Some(r)
}

/// Reconciles freshly fetched remote items with the stored ones, stamping changes
/// with `now`: an item whose url a stored item has updates the first such item in
/// place; every other one becomes a new task item with a fresh identifier, and the
/// new items are returned in order. Nothing is deleted.
pub fn reconcile_at(remote: Vec<RemoteItem>, existing: &mut Vec<TodoItem>, now: Timestamp) -> (r: Vec<
    TodoItem,
>)
    requires
        forall|i: int| 0 <= i < remote@.len() ==> (#[trigger] remote@[i]).wf(),
        now.wf(),
    ensures
        models(final(existing)@) == merge_all(models(old(existing)@), remote_models(remote@), now),
        r@.len() == unmatched(models(old(existing)@), remote_models(remote@)).len(),
        forall|j: int|
            0 <= j < r@.len() ==> (#[trigger] r@[j])@ == created_from(
                unmatched(models(old(existing)@), remote_models(remote@))[j],
                r@[j]@.uid,
                now,
            ) && r@[j]@.uid.len() == 36,
{
    let ghost start = models(existing@);
    let ghost all = remote_models(remote@);
    let mut remote = remote;
    let mut fresh: Vec<TodoItem> = Vec::new();
    let mut taken: usize = 0;
    let total = remote.len();
    while remote.len() > 0
        invariant
            taken + remote@.len() == total,
            total == all.len(),
            forall|i: int| 0 <= i < remote@.len() ==> (#[trigger] remote@[i])@ == all[taken + i],
            forall|i: int| 0 <= i < remote@.len() ==> (#[trigger] remote@[i]).wf(),
            now.wf(),
            models(existing@) == merge_all(start, all.subrange(0, taken as int), now),
            fresh@.len() == unmatched(start, all.subrange(0, taken as int)).len(),
            forall|j: int|
                0 <= j < fresh@.len() ==> (#[trigger] fresh@[j])@ == created_from(
                    unmatched(start, all.subrange(0, taken as int))[j],
                    fresh@[j]@.uid,
                    now,
                ) && fresh@[j]@.uid.len() == 36,
        decreases remote@.len(),
    {
        let r = remote.remove(0);
        let ghost rm = r@;
        assert(rm == all[taken as int]);
        let ghost before = models(existing@);
        let ghost prefix = all.subrange(0, taken as int);
        assert(all.subrange(0, taken + 1).drop_last() == prefix);
        assert(all.subrange(0, taken + 1).last() == rm);
        proof {
            lemma_merge_all_keeps_urls(start, prefix, now);
            lemma_has_url_same_urls(start, before, rm.url);
        }
        match merge_remote(r, existing, now) {
            Some(r) => {
                let item = TodoItem::builder().kind(r.kind).status(r.status).url(r.url).summary(
                    r.summary,
                ).description(r.description);
                let item = match r.due {
                    Some(d) => item.due(d),
                    None => item,
                };
                let uid = Uid::generate();
                match item.build_at(uid, now) {
                    Ok(new_item) => {
                        let ghost prev = fresh@;
                        fresh.push(new_item);
                        assert(unmatched(start, all.subrange(0, taken + 1)) == unmatched(
                            start,
                            prefix,
                        ).push(rm));
                        assert forall|j: int| 0 <= j < fresh@.len() implies (#[trigger] fresh@[j])@
                            == created_from(
                            unmatched(start, all.subrange(0, taken + 1))[j],
                            fresh@[j]@.uid,
                            now,
                        ) && fresh@[j]@.uid.len() == 36 by {
                            if j < prev.len() {
                                assert(fresh@[j] == prev[j]);
                            }
                        }
                    },
                    Err(_) => {
                        assert(false);
                    },
                }
            },
            None => {
                assert(unmatched(start, all.subrange(0, taken + 1)) == unmatched(start, prefix));
            },
        }
        taken = taken + 1;
    }
    assert(all.subrange(0, total as int) == all);
    fresh
}

/// `reconcile_at` stamped with the current time.
pub fn reconcile(remote: Vec<RemoteItem>, existing: &mut Vec<TodoItem>) -> (r: Vec<TodoItem>)
    requires
        forall|i: int| 0 <= i < remote@.len() ==> (#[trigger] remote@[i]).wf(),
    ensures
        exists|now: Timestamp|
            {
                &&& now.wf()
                &&& models(final(existing)@) == merge_all(
                    models(old(existing)@),
                    remote_models(remote@),
                    now,
                )
                &&& r@.len() == unmatched(models(old(existing)@), remote_models(remote@)).len()
                &&& forall|j: int|
                    0 <= j < r@.len() ==> (#[trigger] r@[j])@ == created_from(
                        unmatched(models(old(existing)@), remote_models(remote@))[j],
                        r@[j]@.uid,
                        now,
                    ) && r@[j]@.uid.len() == 36
            },
{
    let now = Timestamp::now();
    reconcile_at(remote, existing, now)
}

/// Merge by url: a remote item whose url a stored item has updates that item in
/// place. A different summary is taken over and stamps the item with the time of
/// the merge, marking it changed, so its last modification advances to a merge
/// time not before it; no new item comes of it.
pub proof fn lemma_merge_by_url(items: Seq<TodoModel>, r: RemoteModel, now: Timestamp, i: int)
    requires
        is_first_url(items, r.url, i),
        items[i].summary != r.summary,
    ensures
        merge_all(items, seq![r], now).len() == items.len(),
        merge_all(items, seq![r], now)[i].summary == r.summary,
        merge_all(items, seq![r], now)[i].last_modified == now,
        items[i].last_modified.not_after(now) ==> items[i].last_modified.not_after(
            merge_all(items, seq![r], now)[i].last_modified,
        ),
        merge_all(items, seq![r], now)[i].dirty,
        merge_all(items, seq![r], now)[i].uid == items[i].uid,
        unmatched(items, seq![r]).len() == 0,
{
    let rs = seq![r];
    assert(rs.drop_last() == Seq::<RemoteModel>::empty());
    assert(rs.last() == r);
    assert(merge_all(items, rs.drop_last(), now) == items);
    assert(merge_all(items, rs, now) == merge_one(items, r, now));
    assert(unmatched(items, rs.drop_last()) == Seq::<RemoteModel>::empty());
    assert(has_url(items, r.url)) by {
        assert(items[i].url == r.url);
    }
    let k = choose|k: int| is_first_url(items, r.url, k);
    lemma_first_url_exists(items, r.url);
    lemma_first_url_unique(items, r.url, i, k);
}

/// New-item creation: a remote item whose url no stored item has leaves the
/// stored items as they are and is the one item that a new task item is made
/// for.
pub proof fn lemma_new_item(items: Seq<TodoModel>, r: RemoteModel, now: Timestamp)
    requires
        !has_url(items, r.url),
    ensures
        merge_all(items, seq![r], now) == items,
        unmatched(items, seq![r]) == seq![r],
{
    let rs = seq![r];
    assert(rs.drop_last() == Seq::<RemoteModel>::empty());
    assert(rs.last() == r);
    assert(merge_all(items, rs.drop_last(), now) == items);
    assert(merge_all(items, rs, now) == merge_one(items, r, now));
    assert(unmatched(items, rs.drop_last()) == Seq::<RemoteModel>::empty());
    assert(unmatched(items, rs) == Seq::<RemoteModel>::empty().push(r));
    assert(Seq::<RemoteModel>::empty().push(r) == rs);
}

/// Merging is idempotent: applying the same remote item a second time changes
/// nothing, whatever the time.
pub proof fn lemma_apply_remote_idempotent(
    m: TodoModel,
    r: RemoteModel,
    first: Timestamp,
    second: Timestamp,
)
    ensures
        apply_remote(apply_remote(m, r, first), r, second) == apply_remote(m, r, first),
{
}

/// The state of an issue on its platform.
#[derive(Clone, Copy, Debug, PartialEq, Eq, Structural)]
pub enum IssueState {
    Open,
    Closed,
    Other,
}

/// The state of a pull or merge request on its platform.
#[derive(Clone, Copy, Debug, PartialEq, Eq, Structural)]
pub enum PullRequestState {
    Open,
    Closed,
    Merged,
    Other,
}

impl IssueState {
    pub open spec fn from_github_spec(s: Seq<char>) -> IssueState {
        if s == "OPEN"@ {
            IssueState::Open
        } else if s == "CLOSED"@ {
            IssueState::Closed
        } else {
            IssueState::Other
        }
    }

    pub open spec fn from_gitlab_spec(s: Seq<char>) -> IssueState {
        if s == "opened"@ {
            IssueState::Open
        } else if s == "closed"@ {
            IssueState::Closed
        } else {
            IssueState::Other
        }
    }

    /// The state that GitHub names `OPEN` or `CLOSED`; anything else is `Other`.
    pub fn from_github(s: &str) -> (r: IssueState)
        ensures
            r == IssueState::from_github_spec(s@),
    {
        if same_text(s, "OPEN") {
            IssueState::Open
        } else if same_text(s, "CLOSED") {
            IssueState::Closed
        } else {
            IssueState::Other
        }
    }

    /// The state that GitLab names `opened` or `closed`; anything else is `Other`.
    pub fn from_gitlab(s: &str) -> (r: IssueState)
        ensures
            r == IssueState::from_gitlab_spec(s@),
    {
        if same_text(s, "opened") {
            IssueState::Open
        } else if same_text(s, "closed") {
            IssueState::Closed
        } else {
            IssueState::Other
        }
    }
}

impl PullRequestState {
    pub open spec fn from_github_spec(s: Seq<char>) -> PullRequestState {
        if s == "OPEN"@ {
            PullRequestState::Open
        } else if s == "CLOSED"@ {
            PullRequestState::Closed
        } else if s == "MERGED"@ {
            PullRequestState::Merged
        } else {
            PullRequestState::Other
        }
    }

    pub open spec fn from_gitlab_spec(s: Seq<char>) -> PullRequestState {
        if s == "opened"@ {
            PullRequestState::Open
        } else if s == "closed"@ {
            PullRequestState::Closed
        } else if s == "merged"@ {
            PullRequestState::Merged
        } else {
            PullRequestState::Other
        }
    }

    /// The state that GitHub names `OPEN`, `CLOSED` or `MERGED`; anything else is
    /// `Other`.
    pub fn from_github(s: &str) -> (r: PullRequestState)
        ensures
            r == PullRequestState::from_github_spec(s@),
    {
        if same_text(s, "OPEN") {
            PullRequestState::Open
        } else if same_text(s, "CLOSED") {
            PullRequestState::Closed
        } else if same_text(s, "MERGED") {
            PullRequestState::Merged
        } else {
            PullRequestState::Other
        }
    }

    /// The state that GitLab names `opened`, `closed` or `merged`; anything else
    /// is `Other`.
    pub fn from_gitlab(s: &str) -> (r: PullRequestState)
        ensures
            r == PullRequestState::from_gitlab_spec(s@),
    {
        if same_text(s, "opened") {
            PullRequestState::Open
        } else if same_text(s, "closed") {
            PullRequestState::Closed
        } else if same_text(s, "merged") {
            PullRequestState::Merged
        } else {
            PullRequestState::Other
        }
    }
}

/// The task status of an issue: closed is completed, open is in process once
/// someone is assigned and needs action before; an unknown state needs action.
pub open spec fn issue_status_of(state: IssueState, assigned: bool) -> TodoStatus {
    match state {
        IssueState::Closed => TodoStatus::Completed,
        IssueState::Open => if assigned {
            TodoStatus::InProcess
        } else {
            TodoStatus::NeedsAction
        },
        IssueState::Other => TodoStatus::NeedsAction,
    }
}

/// The task status of a pull request: closed without merge is cancelled, merged is
/// completed, open is in process once someone is assigned and needs action
/// before; an unknown state needs action.
pub open spec fn pull_request_status_of(state: PullRequestState, assigned: bool) -> TodoStatus {
    match state {
        PullRequestState::Closed => TodoStatus::Cancelled,
        PullRequestState::Merged => TodoStatus::Completed,
        PullRequestState::Open => if assigned {
            TodoStatus::InProcess
        } else {
            TodoStatus::NeedsAction
        },
        PullRequestState::Other => TodoStatus::NeedsAction,
    }
}

pub fn issue_status(state: IssueState, assignees: usize) -> (r: TodoStatus)
    ensures
        r == issue_status_of(state, assignees > 0),
{
    match state {
        IssueState::Closed => TodoStatus::Completed,
        IssueState::Open => if assignees > 0 {
            TodoStatus::InProcess
        } else {
            TodoStatus::NeedsAction
        },
        IssueState::Other => TodoStatus::NeedsAction,
    }
}

pub fn pull_request_status(state: PullRequestState, assignees: usize) -> (r: TodoStatus)
    ensures
        r == pull_request_status_of(state, assignees > 0),
{
    match state {
        PullRequestState::Closed => TodoStatus::Cancelled,
        PullRequestState::Merged => TodoStatus::Completed,
        PullRequestState::Open => if assignees > 0 {
            TodoStatus::InProcess
        } else {
            TodoStatus::NeedsAction
        },
        PullRequestState::Other => TodoStatus::NeedsAction,
    }
}

impl RemoteItem {
    /// The remote item of an issue with `assignees` people assigned.
    pub fn from_issue(
        title: String,
        body: String,
        state: IssueState,
        assignees: usize,
        url: String,
        due: Option<Due>,
    ) -> (r: RemoteItem)
        ensures
            r@ == (RemoteModel {
                due,
                summary: title@,
                description: body@,
                kind: TodoKind::Issue,
                status: issue_status_of(state, assignees > 0),
                url: url@,
            }),
    {
        RemoteItem {
            due,
            summary: title,
            description: body,
            kind: TodoKind::Issue,
            status: issue_status(state, assignees),
            url,
        }
    }

    /// The remote item of a pull request with `assignees` people assigned.
    pub fn from_pull_request(
        title: String,
        body: String,
        state: PullRequestState,
        assignees: usize,
        url: String,
        due: Option<Due>,
    ) -> (r: RemoteItem)
        ensures
            r@ == (RemoteModel {
                due,
                summary: title@,
                description: body@,
                kind: TodoKind::PullRequest,
                status: pull_request_status_of(state, assignees > 0),
                url: url@,
            }),
    {
        RemoteItem {
            due,
            summary: title,
            description: body,
            kind: TodoKind::PullRequest,
            status: pull_request_status(state, assignees),
            url,
        }
    }
}

/// Where a backend's client stands: not yet made, made, or failed for good.
#[derive(Clone, Copy, Debug, PartialEq, Eq, Structural)]
pub enum Connection {
    Uninitialized,
    Ready,
    Failed,
}

/// What a fetch does with the client first.
#[derive(Clone, Copy, Debug, PartialEq, Eq, Structural)]
pub enum Access {
    Connect,
    Use,
    Refuse,
}

impl Connection {
    /// A client not yet made is made first; a failed one is refused without
    /// another attempt.
    pub fn access(&self) -> (r: Access)
        ensures
            *self == Connection::Uninitialized ==> r == Access::Connect,
            *self == Connection::Ready ==> r == Access::Use,
            *self == Connection::Failed ==> r == Access::Refuse,
    {
        match self {
            Connection::Uninitialized => Access::Connect,
            Connection::Ready => Access::Use,
            Connection::Failed => Access::Refuse,
        }
    }

    /// Records how the one attempt to make the client went, and whether the
    /// failure is to be reported: only on this one transition into `Failed`.
    pub fn settle(&mut self, connected: bool) -> (report: bool)
        requires
            *old(self) == Connection::Uninitialized,
        ensures
            *final(self) == (if connected {
                Connection::Ready
            } else {
                Connection::Failed
            }),
            report == !connected,
    {
        if connected {
            *self = Connection::Ready;
            false
        } else {
            *self = Connection::Failed;
            true
        }
    }
}

/// A backend for one account, by the account's service.
pub enum Backend {
    Github(GithubQuery),
    Gitlab(GitlabQuery),
}

/// The backend for an account: `github` or `gitlab`, with the account's host if it
/// names one; another service is unknown.
pub fn connect(account: &Account) -> (r: Result<Backend, AccountError>)
    ensures
        account.service@ == "github"@ ==> (r matches Ok(Backend::Github(q)) && q.token
            == account.secret && q.connection == Connection::Uninitialized),
        account.service@ == "gitlab"@ ==> (r matches Ok(Backend::Gitlab(q)) && q.token
            == account.secret && q.connection == Connection::Uninitialized),
        account.service@ != "github"@ && account.service@ != "gitlab"@ ==> (r matches Err(
            AccountError::UnknownService { service },
        ) && service@ == account.service@),
{
    proof {
        reveal_strlit("github");
        reveal_strlit("gitlab");
        assert("github"@[3] != "gitlab"@[3]);
    }
    if same_text(account.service.as_str(), "github") {
        Ok(Backend::Github(GithubQuery::new(account.hostname.clone(), account.secret.clone())))
    } else if same_text(account.service.as_str(), "gitlab") {
        Ok(Backend::Gitlab(GitlabQuery::new(account.hostname.clone(), account.secret.clone())))
    } else {
        Err(AccountError::UnknownService { service: account.service.clone() })
    }
}

} // verus!
