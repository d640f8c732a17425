//! Task items: what one synchronised to-do holds, with change tracking.
use vstd::prelude::*;

use crate::text::{strip_cr, without_cr, same_text};
use crate::time::{
    date_from_text, lemma_date_text_round_trip, lemma_timestamp_text_round_trip, parse_date,
    parse_timestamp, timestamp_from_text, Date, Timestamp,
};

verus! {

/// The progress of a task.
#[derive(Clone, Copy, Debug, PartialEq, Eq, Structural)]
pub enum TodoStatus {
    NeedsAction,
    Completed,
    InProcess,
    Cancelled,
}

impl TodoStatus {
    /// The `STATUS` value that a document writes for the status.
    pub open spec fn text(self) -> Seq<char> {
        match self {
            TodoStatus::NeedsAction => "NEEDS-ACTION"@,
            TodoStatus::Completed => "COMPLETED"@,
            TodoStatus::InProcess => "IN-PROCESS"@,
            TodoStatus::Cancelled => "CANCELLED"@,
        }
    }

    /// The status that a `STATUS` value names, if any.
    pub open spec fn from_text(s: Seq<char>) -> Option<TodoStatus> {
        if s == "NEEDS-ACTION"@ {
            Some(TodoStatus::NeedsAction)
        } else if s == "COMPLETED"@ {
            Some(TodoStatus::Completed)
        } else if s == "IN-PROCESS"@ {
            Some(TodoStatus::InProcess)
        } else if s == "CANCELLED"@ {
            Some(TodoStatus::Cancelled)
        } else {
            None
        }
    }

    pub fn as_str(&self) -> (r: &'static str)
        ensures
            r@ == self.text(),
    {
        match self {
            TodoStatus::NeedsAction => "NEEDS-ACTION",
            TodoStatus::Completed => "COMPLETED",
            TodoStatus::InProcess => "IN-PROCESS",
            TodoStatus::Cancelled => "CANCELLED",
        }
    }

    pub fn parse(s: &str) -> (r: Option<TodoStatus>)
        ensures
            r == TodoStatus::from_text(s@),
    {
        if same_text(s, "NEEDS-ACTION") {
            Some(TodoStatus::NeedsAction)
        } else if same_text(s, "COMPLETED") {
            Some(TodoStatus::Completed)
        } else if same_text(s, "IN-PROCESS") {
            Some(TodoStatus::InProcess)
        } else if same_text(s, "CANCELLED") {
            Some(TodoStatus::Cancelled)
        } else {
            None
        }
    }
}

/// A status reads back as itself from its `STATUS` value.
pub proof fn lemma_status_text_round_trip(s: TodoStatus)
    ensures
        TodoStatus::from_text(s.text()) == Some(s),
{
    reveal_strlit("NEEDS-ACTION");
    reveal_strlit("COMPLETED");
    reveal_strlit("IN-PROCESS");
    reveal_strlit("CANCELLED");
    assert("NEEDS-ACTION"@.len() == 12);
    assert("COMPLETED"@.len() == 9);
    assert("IN-PROCESS"@.len() == 10);
    assert("CANCELLED"@.len() == 9);
    assert("COMPLETED"@[1] != "CANCELLED"@[1]);
}

/// Where a task comes from.
#[derive(Clone, Copy, Debug, PartialEq, Eq, Structural)]
pub enum TodoKind {
    Issue,
    AssignedIssue,
    PullRequest,
    AssignedPullRequest,
    Todo,
}

impl TodoKind {
    /// The category token that marks the kind in a document.
    pub open spec fn spec_category(self) -> Seq<char> {
        match self {
            TodoKind::Issue => "issue"@,
            TodoKind::AssignedIssue => "assigned-issue"@,
            TodoKind::PullRequest => "pull-request"@,
            TodoKind::AssignedPullRequest => "assigned-pull-request"@,
            TodoKind::Todo => "todo"@,
        }
    }

    /// The kind that a category token marks, if any.
    pub open spec fn from_category(s: Seq<char>) -> Option<TodoKind> {
        if s == "issue"@ {
            Some(TodoKind::Issue)
        } else if s == "assigned-issue"@ {
            Some(TodoKind::AssignedIssue)
        } else if s == "pull-request"@ {
            Some(TodoKind::PullRequest)
        } else if s == "assigned-pull-request"@ {
            Some(TodoKind::AssignedPullRequest)
        } else if s == "todo"@ {
            Some(TodoKind::Todo)
        } else {
            None
        }
    }

    pub fn category(self) -> (r: &'static str)
        ensures
            r@ == self.spec_category(),
    {
        match self {
            TodoKind::Issue => "issue",
            TodoKind::AssignedIssue => "assigned-issue",
            TodoKind::PullRequest => "pull-request",
            TodoKind::AssignedPullRequest => "assigned-pull-request",
            TodoKind::Todo => "todo",
        }
    }

    pub fn as_str(&self) -> (r: &'static str)
        ensures
            r@ == self.spec_category(),
    {
        self.category()
    }

    pub fn parse_category(s: &str) -> (r: Option<TodoKind>)
        ensures
            r == TodoKind::from_category(s@),
    {
        if same_text(s, "issue") {
            Some(TodoKind::Issue)
        } else if same_text(s, "assigned-issue") {
            Some(TodoKind::AssignedIssue)
        } else if same_text(s, "pull-request") {
            Some(TodoKind::PullRequest)
        } else if same_text(s, "assigned-pull-request") {
            Some(TodoKind::AssignedPullRequest)
        } else if same_text(s, "todo") {
            Some(TodoKind::Todo)
        } else {
            None
        }
    }
}

/// A kind is marked by its own category token, and no token holds a comma.
pub proof fn lemma_category_round_trip(k: TodoKind)
    ensures
        TodoKind::from_category(k.spec_category()) == Some(k),
        !k.spec_category().contains(','),
{
    reveal_strlit("issue");
    reveal_strlit("assigned-issue");
    reveal_strlit("pull-request");
    reveal_strlit("assigned-pull-request");
    reveal_strlit("todo");
    assert("issue"@.len() == 5);
    assert("assigned-issue"@.len() == 14);
    assert("pull-request"@.len() == 12);
    assert("assigned-pull-request"@.len() == 21);
    assert("todo"@.len() == 4);
    let c = k.spec_category();
    assert forall|i: int| 0 <= i < c.len() implies c[i] != ',' by {}
}

/// When a task is due: on a day, or at a moment.
#[derive(Clone, Copy, Debug, PartialEq, Eq, Structural)]
pub enum Due {
    Date(Date),
    DateTime(Timestamp),
}

impl Due {
    pub open spec fn wf(self) -> bool {
        match self {
            Due::Date(d) => d.wf(),
            Due::DateTime(t) => t.wf(),
        }
    }

    /// The `DUE` value that a document writes.
    pub open spec fn text(self) -> Seq<char> {
        match self {
            Due::Date(d) => d.text(),
            Due::DateTime(t) => t.text(),
        }
    }

    /// What a `DUE` value names: a timestamp if it is one, else a date.
    pub open spec fn from_text(s: Seq<char>) -> Option<Due> {
        match timestamp_from_text(s) {
            Some(t) => Some(Due::DateTime(t)),
            None => match date_from_text(s) {
                Some(d) => Some(Due::Date(d)),
                None => None,
            },
        }
    }

    pub fn to_text(&self) -> (r: String)
        requires
            self.wf(),
        ensures
            r@ == self.text(),
    {
        match self {
            Due::Date(d) => d.to_text(),
            Due::DateTime(t) => t.to_text(),
        }
    }

    pub fn parse(s: &str) -> (r: Option<Due>)
        ensures
            r == Due::from_text(s@),
    {
        match parse_timestamp(s) {
            Some(t) => Some(Due::DateTime(t)),
            None => match parse_date(s) {
                Some(d) => Some(Due::Date(d)),
                None => None,
            },
        }
    }
}

/// A due date or moment reads back as itself, at the same granularity.
pub proof fn lemma_due_text_round_trip(d: Due)
    requires
        d.wf(),
    ensures
        Due::from_text(d.text()) == Some(d),
{
    match d {
        Due::Date(x) => {
            lemma_date_text_round_trip(x);
            lemma_padded_len_date(x);
        },
        Due::DateTime(t) => {
            lemma_timestamp_text_round_trip(t);
        },
    }
}

proof fn lemma_padded_len_date(x: Date)
    ensures
        x.text().len() == 8,
{
    crate::text::lemma_padded_digits(x.year as int, 4);
    crate::text::lemma_padded_digits(x.month as int, 2);
    crate::text::lemma_padded_digits(x.day as int, 2);
}

/// Whether `c` may stand in a generated identifier: a lower-case hexadecimal
/// digit or a hyphen.
pub open spec fn is_uid_char(c: char) -> bool {
    ('0' <= c && c <= '9') || ('a' <= c && c <= 'f') || c == '-'
}

/// Relies on uuid's `Uuid::new_v4` shown `hyphenated`: a random identifier written
/// as 32 lower-case hexadecimal digits in five hyphen-separated groups.
#[verifier::external_body]
fn random_uid_text() -> (r: String)
    ensures
        r@.len() == 36,
        forall|i: int| 0 <= i < 36 ==> is_uid_char(#[trigger] r@[i]),
{
    uuid::Uuid::new_v4().hyphenated().to_string()
}

/// The stable identifier of a task.
#[derive(Clone, Debug, PartialEq, Eq)]
pub struct Uid(pub String);

impl Uid {
    /// Whether the identifier is one that `generate` can give.
    pub open spec fn is_generated(self) -> bool {
        self.0@.len() == 36 && forall|i: int| 0 <= i < 36 ==> is_uid_char(#[trigger] self.0@[i])
    }

    /// A fresh random identifier.
    pub fn generate() -> (r: Uid)
        ensures
            r.is_generated(),
    {
        Uid(random_uid_text())
    }

    pub fn as_str(&self) -> (r: &str)
        ensures
            r@ == self.0@,
    {
        self.0.as_str()
    }
}

/// What a task item holds.
pub struct TodoModel {
    pub uid: Seq<char>,
    pub kind: TodoKind,
    pub created: Timestamp,
    pub due: Option<Due>,
    pub status: TodoStatus,
    pub url: Seq<char>,
    pub summary: Seq<char>,
    pub description: Seq<char>,
    pub last_modified: Timestamp,
    pub dirty: bool,
}

impl TodoModel {
    pub open spec fn wf(self) -> bool {
        &&& self.created.wf()
        &&& self.last_modified.wf()
        &&& (self.due matches Some(d) ==> d.wf())
    }
}

/// One task: a to-do that mirrors an issue or a pull request.
#[derive(Debug)]
pub struct TodoItem {
    uid: Uid,
    kind: TodoKind,
    created: Timestamp,
    due: Option<Due>,
    status: TodoStatus,
    url: String,
    summary: String,
    description: String,
    last_modified: Timestamp,
    dirty: bool,
}

impl View for TodoItem {
    type V = TodoModel;

    closed spec fn view(&self) -> TodoModel {
        TodoModel {
            uid: self.uid.0@,
            kind: self.kind,
            created: self.created,
            due: self.due,
            status: self.status,
            url: self.url@,
            summary: self.summary@,
            description: self.description@,
            last_modified: self.last_modified,
            dirty: self.dirty,
        }
    }
}

/// `m` after a field change made at `now`: marked changed, with `now` as its last
/// modification.
pub open spec fn touched(m: TodoModel, now: Timestamp) -> TodoModel {
    TodoModel { last_modified: now, dirty: true, ..m }
}

impl TodoItem {
    #[verifier::type_invariant]
    pub(crate) open spec fn inv(self) -> bool {
        self@.wf()
    }

    /// A task with every field given; `pub(crate)` so that only the builder and the
    /// document reader make one.
    pub(crate) fn from_fields(
        uid: Uid,
        kind: TodoKind,
        created: Timestamp,
        due: Option<Due>,
        status: TodoStatus,
        url: String,
        summary: String,
        description: String,
        last_modified: Timestamp,
        dirty: bool,
    ) -> (r: TodoItem)
        requires
            created.wf(),
            last_modified.wf(),
            due matches Some(d) ==> d.wf(),
        ensures
            r@ == (TodoModel {
                uid: uid.0@,
                kind,
                created,
                due,
                status,
                url: url@,
                summary: summary@,
                description: description@,
                last_modified,
                dirty,
            }),
    {
        TodoItem {
            uid,
            kind,
            created,
            due,
            status,
            url,
            summary,
            description,
            last_modified,
            dirty,
        }
    }

    pub fn builder() -> (r: TodoItemBuilder)
        ensures
            r == TodoItemBuilder::empty(),
    {
        TodoItemBuilder {
            kind: None,
            due: None,
            status: None,
            url: None,
            summary: None,
            description: None,
        }
    }

    pub fn uid(&self) -> (r: &Uid)
        ensures
            r.0@ == self@.uid,
    {
        &self.uid
    }

    pub fn kind(&self) -> (r: TodoKind)
        ensures
            r == self@.kind,
    {
        self.kind
    }

    pub fn created(&self) -> (r: Timestamp)
        ensures
            r == self@.created,
            r.wf(),
    {
        proof {
            use_type_invariant(self);
        }
        self.created
    }

    pub fn due(&self) -> (r: Option<Due>)
        ensures
            r == self@.due,
            r matches Some(d) ==> d.wf(),
    {
        proof {
            use_type_invariant(self);
        }
        self.due
    }

    pub fn status(&self) -> (r: TodoStatus)
        ensures
            r == self@.status,
    {
        self.status
    }

    pub fn url(&self) -> (r: &str)
        ensures
            r@ == self@.url,
    {
        self.url.as_str()
    }

    pub fn summary(&self) -> (r: &str)
        ensures
            r@ == self@.summary,
    {
        self.summary.as_str()
    }

    pub fn description(&self) -> (r: &str)
        ensures
            r@ == self@.description,
    {
        self.description.as_str()
    }

    pub fn last_modified(&self) -> (r: Timestamp)
        ensures
            r == self@.last_modified,
            r.wf(),
    {
        proof {
            use_type_invariant(self);
        }
        self.last_modified
    }

    /// Whether a field changed since the item was last written.
    pub fn is_dirty(&self) -> (r: bool)
        ensures
            r == self@.dirty,
    {
        self.dirty
    }

    /// Records that the item's fields have been written out.
    pub(crate) fn mark_written(&mut self)
        ensures
            final(self)@ == (TodoModel { dirty: false, ..old(self)@ }),
    {
        proof {
            use_type_invariant(&*self);
        }
        self.dirty = false;
    }

    /// Sets the due date, as a change made at `now`; the same value changes nothing.
    pub fn set_due_at(&mut self, new_due: Due, now: Timestamp)
        requires
            new_due.wf(),
            now.wf(),
        ensures
            final(self)@ == (if old(self)@.due == Some(new_due) {
                old(self)@
            } else {
                touched(TodoModel { due: Some(new_due), ..old(self)@ }, now)
            }),
    {
        proof {
            use_type_invariant(&*self);
        }
        let same = match self.due {
            Some(d) => d == new_due,
            None => false,
        };
        if !same {
            self.due = Some(new_due);
            self.last_modified = now;
            self.dirty = true;
        }
    }

    /// Sets the status, as a change made at `now`; the same value changes nothing.
    pub fn set_status_at(&mut self, new_status: TodoStatus, now: Timestamp)
        requires
            now.wf(),
        ensures
            final(self)@ == (if old(self)@.status == new_status {
                old(self)@
            } else {
                touched(TodoModel { status: new_status, ..old(self)@ }, now)
            }),
    {
        proof {
            use_type_invariant(&*self);
        }
        if self.status != new_status {
            self.status = new_status;
            self.last_modified = now;
            self.dirty = true;
        }
    }

    /// Sets the summary, as a change made at `now`; the same value changes nothing.
    pub fn set_summary_at(&mut self, new_summary: String, now: Timestamp)
        requires
            now.wf(),
        ensures
            final(self)@ == (if old(self)@.summary == new_summary@ {
                old(self)@
            } else {
                touched(TodoModel { summary: new_summary@, ..old(self)@ }, now)
            }),
    {
        proof {
            use_type_invariant(&*self);
        }
        if self.summary != new_summary {
            self.summary = new_summary;
            self.last_modified = now;
            self.dirty = true;
        }
    }

    /// Sets the description without its carriage returns, which a document does not
    /// keep, as a change made at `now`; the same value changes nothing.
    pub fn set_description_at(&mut self, new_description: String, now: Timestamp)
        requires
            now.wf(),
        ensures
            final(self)@ == (if old(self)@.description == without_cr(new_description@) {
                old(self)@
            } else {
                touched(
                    TodoModel { description: without_cr(new_description@), ..old(self)@ },
                    now,
                )
            }),
    {
        proof {
            use_type_invariant(&*self);
        }
        let cleaned = strip_cr(new_description.as_str());
        if self.description != cleaned {
            self.description = cleaned;
            self.last_modified = now;
            self.dirty = true;
        }
    }

    /// Sets the due date; a change is stamped with the current time.
    pub fn set_due(&mut self, new_due: Due)
        requires
            new_due.wf(),
        ensures
            exists|now: Timestamp|
                now.wf() && final(self)@ == (if old(self)@.due == Some(new_due) {
                    old(self)@
                } else {
                    touched(TodoModel { due: Some(new_due), ..old(self)@ }, now)
                }),
    {
        let now = Timestamp::now();
        self.set_due_at(new_due, now);
    }

    /// Sets the status; a change is stamped with the current time.
    pub fn set_status(&mut self, new_status: TodoStatus)
        ensures
            exists|now: Timestamp|
                now.wf() && final(self)@ == (if old(self)@.status == new_status {
                    old(self)@
                } else {
                    touched(TodoModel { status: new_status, ..old(self)@ }, now)
                }),
    {
        let now = Timestamp::now();
        self.set_status_at(new_status, now);
    }

    /// Sets the summary; a change is stamped with the current time.
    pub fn set_summary(&mut self, new_summary: String)
        ensures
            exists|now: Timestamp|
                now.wf() && final(self)@ == (if old(self)@.summary == new_summary@ {
                    old(self)@
                } else {
                    touched(TodoModel { summary: new_summary@, ..old(self)@ }, now)
                }),
    {
        let now = Timestamp::now();
        self.set_summary_at(new_summary, now);
    }

    /// Sets the description without its carriage returns; a change is stamped with
    /// the current time.
    pub fn set_description(&mut self, new_description: String)
        ensures
            exists|now: Timestamp|
                now.wf() && final(self)@ == (if old(self)@.description == without_cr(
                    new_description@,
                ) {
                    old(self)@
                } else {
                    touched(
                        TodoModel { description: without_cr(new_description@), ..old(self)@ },
                        now,
                    )
                }),
    {
        let now = Timestamp::now();
        self.set_description_at(new_description, now);
    }
}

/// A field that a new task item needs.
#[derive(Clone, Copy, Debug, PartialEq, Eq, Structural)]
pub enum ItemField {
    Kind,
    Status,
    Url,
    Summary,
}

/// A task item under construction.
#[derive(Clone, Debug)]
pub struct TodoItemBuilder {
    pub kind: Option<TodoKind>,
    pub due: Option<Due>,
    pub status: Option<TodoStatus>,
    pub url: Option<String>,
    pub summary: Option<String>,
    pub description: Option<String>,
}

/// The fields that were not given, in the order kind, status, url, summary.
pub open spec fn missing_fields(
    kind: bool,
    status: bool,
    url: bool,
    summary: bool,
) -> Seq<ItemField> {
    (if kind { Seq::empty() } else { seq![ItemField::Kind] })
        + (if status { Seq::empty() } else { seq![ItemField::Status] })
        + (if url { Seq::empty() } else { seq![ItemField::Url] })
        + (if summary { Seq::empty() } else { seq![ItemField::Summary] })
}

impl TodoItemBuilder {
    pub open spec fn empty() -> TodoItemBuilder {
        TodoItemBuilder {
            kind: None,
            due: None,
            status: None,
            url: None,
            summary: None,
            description: None,
        }
    }

    pub open spec fn missing(self) -> Seq<ItemField> {
        missing_fields(
            self.kind is Some,
            self.status is Some,
            self.url is Some,
            self.summary is Some,
        )
    }

    /// The item that the builder makes with identifier `uid` at time `now`.
    pub open spec fn built(self, uid: Seq<char>, now: Timestamp) -> TodoModel {
        TodoModel {
            uid,
            kind: self.kind->Some_0,
            created: now,
            due: self.due,
            status: self.status->Some_0,
            url: self.url->Some_0@,
            summary: self.summary->Some_0@,
            description: match self.description {
                Some(d) => d@,
                None => Seq::empty(),
            },
            last_modified: now,
            dirty: false,
        }
    }

    pub fn kind(self, kind: TodoKind) -> (r: TodoItemBuilder)
        ensures
            r == (TodoItemBuilder { kind: Some(kind), ..self }),
    {
        TodoItemBuilder { kind: Some(kind), ..self }
    }

    pub fn due(self, due: Due) -> (r: TodoItemBuilder)
        ensures
            r == (TodoItemBuilder { due: Some(due), ..self }),
    {
        TodoItemBuilder { due: Some(due), ..self }
    }

    pub fn status(self, status: TodoStatus) -> (r: TodoItemBuilder)
        ensures
            r == (TodoItemBuilder { status: Some(status), ..self }),
    {
        TodoItemBuilder { status: Some(status), ..self }
    }

    pub fn url(self, url: String) -> (r: TodoItemBuilder)
        ensures
            r == (TodoItemBuilder { url: Some(url), ..self }),
    {
        TodoItemBuilder { url: Some(url), ..self }
    }

    pub fn summary(self, summary: String) -> (r: TodoItemBuilder)
        ensures
            r == (TodoItemBuilder { summary: Some(summary), ..self }),
    {
        TodoItemBuilder { summary: Some(summary), ..self }
    }

    pub fn description(self, description: String) -> (r: TodoItemBuilder)
        ensures
            r == (TodoItemBuilder { description: Some(description), ..self }),
    {
        TodoItemBuilder { description: Some(description), ..self }
    }

    /// The item, identified by `uid` and created at `now`, or the fields that are
    /// missing. The description defaults to empty; the new item is unchanged since
    /// it was last written.
    pub fn build_at(self, uid: Uid, now: Timestamp) -> (r: Result<TodoItem, Vec<ItemField>>)
        requires
            now.wf(),
            self.due matches Some(d) ==> d.wf(),
        ensures
            self.missing().len() > 0 ==> (r matches Err(m) && m@ == self.missing()),
            self.missing().len() == 0 ==> (r matches Ok(item) && item@ == self.built(uid.0@, now)),
    {
        let mut missing: Vec<ItemField> = Vec::new();
        if self.kind.is_none() {
            missing.push(ItemField::Kind);
        }
        if self.status.is_none() {
            missing.push(ItemField::Status);
        }
        if self.url.is_none() {
            missing.push(ItemField::Url);
        }
        if self.summary.is_none() {
            missing.push(ItemField::Summary);
        }
        assert(missing@ == self.missing());
        match (self.kind, self.status, self.url, self.summary) {
            (Some(kind), Some(status), Some(url), Some(summary)) => {
                let description = match self.description {
                    Some(d) => d,
                    None => String::new(),
                };
                Ok(
                    TodoItem::from_fields(
                        uid,
                        kind,
                        now,
                        self.due,
                        status,
                        url,
                        summary,
                        description,
                        now,
                        false,
                    ),
                )
            },
            _ => Err(missing),
        }
    }

    /// The item with a fresh identifier, created now, or the fields that are missing.
    pub fn build(self) -> (r: Result<TodoItem, Vec<ItemField>>)
        requires
            self.due matches Some(d) ==> d.wf(),
        ensures
            self.missing().len() > 0 ==> (r matches Err(m) && m@ == self.missing()),
            self.missing().len() == 0 ==> (r matches Ok(item) && item@ == self.built(
                item@.uid,
                item@.created,
            ) && item@.uid.len() == 36 && item@.created.wf()),
    {
        let uid = Uid::generate();
        let now = Timestamp::now();
        self.build_at(uid, now)
    }
}

} // verus!
