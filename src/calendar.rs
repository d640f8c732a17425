//! Task documents: a calendar wrapping exactly one task component, read into a
//! task item and brought up to date from it without losing what other tools
//! wrote there.
use vstd::prelude::*;
use vstd::string::StringExecFns;

use crate::text::{
    all_digits, join_commas, joined, lemma_padded_digits, split_commas, split_on, views,
};
use crate::time::{
    lemma_timestamp_text_round_trip, parse_timestamp, timestamp_from_text, Date, Timestamp,
};
use crate::todo::{
    lemma_category_round_trip, lemma_due_text_round_trip, lemma_status_text_round_trip, Due,
    TodoItem, TodoKind, TodoModel, TodoStatus, Uid,
};

verus! {

#[verifier::external_type_specification]
#[verifier::external_body]
pub struct ExComponent(vobject::Component);

#[verifier::external_type_specification]
#[verifier::external_body]
pub struct ExProperty(vobject::Property);

#[verifier::external_type_specification]
#[verifier::external_body]
pub struct ExVObjectError(vobject::error::VObjectError);

#[verifier::external_type_specification]
#[verifier::external_body]
pub struct ExPathBuf(std::path::PathBuf);

#[verifier::external_type_specification]
#[verifier::external_body]
pub struct ExIoError(std::io::Error);

/// The name of a component, such as `VCALENDAR` or `VTODO`.
pub uninterp spec fn component_name(c: vobject::Component) -> Seq<char>;

/// The raw (escaped) values of a component's properties, by property name.
pub uninterp spec fn component_props(c: vobject::Component) -> Map<Seq<char>, Seq<Seq<char>>>;

/// The subcomponents of a component, in order.
pub uninterp spec fn component_children(c: vobject::Component) -> Seq<vobject::Component>;

/// The name of a property.
pub uninterp spec fn property_name(p: vobject::Property) -> Seq<char>;

/// The raw (escaped) value of a property.
pub uninterp spec fn property_raw(p: vobject::Property) -> Seq<char>;

/// The raw value that vobject's `escape_chars` makes of a text.
pub uninterp spec fn escaped(text: Seq<char>) -> Seq<char>;

/// The text that vobject's `unescape_chars` reads from a raw value.
pub uninterp spec fn unescaped(raw: Seq<char>) -> Seq<char>;

/// The document text that vobject's `write_component` gives for a component.
pub uninterp spec fn rendered(c: vobject::Component) -> Seq<char>;

/// A text that escaping and unescaping give back unchanged: without backslash and
/// carriage return.
pub open spec fn plain(s: Seq<char>) -> bool {
    !s.contains('\\') && !s.contains('\r')
}

/// Relies on `vobject::Component::new`: a component of that name with no
/// properties and no subcomponents.
#[verifier::external_body]
fn new_component(name: &str) -> (r: vobject::Component)
    ensures
        component_name(r) == name@,
        component_props(r).dom() == Set::<Seq<char>>::empty(),
        component_children(r) == Seq::<vobject::Component>::empty(),
{
    vobject::Component::new(name)
}

/// Relies on `vobject::Property::new`: a property of that name whose raw value is
/// the escaped text. Escaping only prefixes `;`, `,` and line breaks with a
/// backslash (and doubles backslashes), and unescaping undoes exactly that, so a
/// text without backslash and carriage return reads back unchanged.
#[verifier::external_body]
fn new_property(name: &str, value: &str) -> (r: vobject::Property)
    ensures
        property_name(r) == name@,
        property_raw(r) == escaped(value@),
        plain(value@) ==> unescaped(property_raw(r)) == value@,
{
    vobject::Property::new(name, value)
}

/// Relies on `vobject::Component::set`: the property replaces every property of
/// its name.
#[verifier::external_body]
fn set_property(c: &mut vobject::Component, p: vobject::Property)
    ensures
        component_props(*final(c)) == component_props(*old(c)).insert(
            property_name(p),
            seq![property_raw(p)],
        ),
        component_name(*final(c)) == component_name(*old(c)),
        component_children(*final(c)) == component_children(*old(c)),
{
    c.set(p)
}

/// Relies on `vobject::Component::get_only`: the property of that name when there
/// is exactly one.
#[verifier::external_body]
fn get_only<'a>(c: &'a vobject::Component, name: &str) -> (r: Option<&'a vobject::Property>)
    ensures
        r is Some <==> (component_props(*c).contains_key(name@) && component_props(
            *c,
        )[name@].len() == 1),
        r matches Some(p) ==> property_raw(*p) == component_props(*c)[name@][0],
{
    c.get_only(name)
}

/// Relies on `vobject::Property::value_as_string`: the unescaped value.
#[verifier::external_body]
fn value_text(p: &vobject::Property) -> (r: String)
    ensures
        r@ == unescaped(property_raw(*p)),
{
    p.value_as_string()
}

/// Relies on the `name` field of `vobject::Component`.
#[verifier::external_body]
fn name_of(c: &vobject::Component) -> (r: &str)
    ensures
        r@ == component_name(*c),
{
    c.name.as_str()
}

/// Relies on the `subcomponents` field of `vobject::Component`.
#[verifier::external_body]
fn child_count(c: &vobject::Component) -> (r: usize)
    ensures
        r == component_children(*c).len(),
{
    c.subcomponents.len()
}

/// Relies on the `subcomponents` field of `vobject::Component`: the first one.
#[verifier::external_body]
fn first_child(c: &vobject::Component) -> (r: &vobject::Component)
    requires
        component_children(*c).len() >= 1,
    ensures
        *r == component_children(*c)[0],
{
    &c.subcomponents[0]
}

/// Relies on the `subcomponents` field of `vobject::Component`.
#[verifier::external_body]
fn push_child(c: &mut vobject::Component, child: vobject::Component)
    ensures
        component_children(*final(c)) == component_children(*old(c)).push(child),
        component_name(*final(c)) == component_name(*old(c)),
        component_props(*final(c)) == component_props(*old(c)),
{
    c.subcomponents.push(child)
}

/// Relies on the `subcomponents` field of `vobject::Component`: moves the
/// subcomponents out, leaving none.
#[verifier::external_body]
fn take_children(c: &mut vobject::Component) -> (r: Vec<vobject::Component>)
    ensures
        r@ == component_children(*old(c)),
        component_children(*final(c)) == Seq::<vobject::Component>::empty(),
        component_name(*final(c)) == component_name(*old(c)),
        component_props(*final(c)) == component_props(*old(c)),
{
    std::mem::take(&mut c.subcomponents)
}

/// Relies on the `subcomponents` field of `vobject::Component`: puts `children`
/// in place of the subcomponents.
#[verifier::external_body]
fn put_children(c: &mut vobject::Component, children: Vec<vobject::Component>)
    ensures
        component_children(*final(c)) == children@,
        component_name(*final(c)) == component_name(*old(c)),
        component_props(*final(c)) == component_props(*old(c)),
{
    c.subcomponents = children
}

/// The component that vobject's `parse_component` reads from a text, if the text
/// holds exactly one.
pub uninterp spec fn parsed(text: Seq<char>) -> Option<vobject::Component>;

/// Relies on `vobject::parse_component`: the one component that the text holds,
/// which depends on the text alone.
#[verifier::external_body]
fn parse_text(text: &str) -> (r: Result<vobject::Component, vobject::error::VObjectError>)
    ensures
        r is Ok <==> parsed(text@) is Some,
        r matches Ok(c) ==> parsed(text@) == Some(c),
{
    vobject::parse_component(text)
}

/// Relies on `vobject::write_component`: the component as document text.
#[verifier::external_body]
fn write_text(c: &vobject::Component) -> (r: String)
    ensures
        r@ == rendered(*c),
{
    vobject::write_component(c)
}

/// The path that `std::path::Path::join` makes of a directory and a file name.
pub uninterp spec fn joined_path(dir: std::path::PathBuf, name: Seq<char>) -> std::path::PathBuf;

/// Relies on `std::path::Path::join`: the path of the file `name` in `dir`, which
/// depends on the two alone.
#[verifier::external_body]
fn path_in(dir: &std::path::PathBuf, name: &str) -> (r: std::path::PathBuf)
    ensures
        r == joined_path(*dir, name@),
{
    dir.join(name)
}

/// The start of the product identifier of the documents that this library writes;
/// other documents are left alone.
pub const PRODID_PREFIX: &'static str = "-//IDN benboeckel.net//devtodo/";

/// The rest of the product identifier.
pub const PRODID_SUFFIX: &'static str = "0.1.0 vobject//EN";

/// The text of the one property `name` in `p`, if there is exactly one.
pub open spec fn prop_value(p: Map<Seq<char>, Seq<Seq<char>>>, name: Seq<char>) -> Option<
    Seq<char>,
> {
    if p.contains_key(name) && p[name].len() == 1 {
        Some(unescaped(p[name][0]))
    } else {
        None
    }
}

pub open spec fn opt_view(o: Option<String>) -> Option<Seq<char>> {
    match o {
        Some(s) => Some(s@),
        None => None,
    }
}

/// The kind that the first category token naming one marks.
pub open spec fn kind_in(tokens: Seq<Seq<char>>) -> Option<TodoKind>
    decreases tokens.len(),
{
    if tokens.len() == 0 {
        None
    } else {
        match TodoKind::from_category(tokens[0]) {
            Some(k) => Some(k),
            None => kind_in(tokens.drop_first()),
        }
    }
}

/// The tokens that name no kind, in order.
pub open spec fn without_kinds(tokens: Seq<Seq<char>>) -> Seq<Seq<char>>
    decreases tokens.len(),
{
    if tokens.len() == 0 {
        tokens
    } else if TodoKind::from_category(tokens.last()) is Some {
        without_kinds(tokens.drop_last())
    } else {
        without_kinds(tokens.drop_last()).push(tokens.last())
    }
}

/// The category tokens written for `kind` over the categories a document had:
/// those that name no kind, in order, then the kind's own.
pub open spec fn category_tokens(existing: Option<Seq<char>>, kind: TodoKind) -> Seq<Seq<char>> {
    match existing {
        Some(v) => without_kinds(split_on(v, ',')).push(kind.spec_category()),
        None => seq![kind.spec_category()],
    }
}

/// The task that the properties of a task component describe, if they do; `now`
/// stands for a missing last modification, which also marks the task changed.
pub open spec fn decode_props(p: Map<Seq<char>, Seq<Seq<char>>>, now: Timestamp) -> Option<
    TodoModel,
> {
    let uid = prop_value(p, "UID"@);
    let cats = prop_value(p, "CATEGORIES"@);
    let created = prop_value(p, "CREATED"@);
    let due = prop_value(p, "DUE"@);
    let status = prop_value(p, "STATUS"@);
    let url = prop_value(p, "URL"@);
    let summary = prop_value(p, "SUMMARY"@);
    let description = prop_value(p, "DESCRIPTION"@);
    let modified = prop_value(p, "LAST-MODIFIED"@);
    if uid is Some && cats is Some && kind_in(split_on(cats->Some_0, ',')) is Some && created is Some
        && timestamp_from_text(created->Some_0) is Some && (due is Some ==> Due::from_text(
        due->Some_0,
    ) is Some) && status is Some && TodoStatus::from_text(status->Some_0) is Some && url is Some
        && summary is Some && description is Some && (modified is Some ==> timestamp_from_text(
        modified->Some_0,
    ) is Some) {
        Some(
            TodoModel {
                uid: uid->Some_0,
                kind: kind_in(split_on(cats->Some_0, ','))->Some_0,
                created: timestamp_from_text(created->Some_0)->Some_0,
                due: if due is Some {
                    Due::from_text(due->Some_0)
                } else {
                    None
                },
                status: TodoStatus::from_text(status->Some_0)->Some_0,
                url: url->Some_0,
                summary: summary->Some_0,
                description: description->Some_0,
                last_modified: if modified is Some {
                    timestamp_from_text(modified->Some_0)->Some_0
                } else {
                    now
                },
                dirty: modified is None,
            },
        )
    } else {
        None
    }
}

/// `p` with the properties that the task owns but its categories set from `item`.
pub open spec fn owned_props(p: Map<Seq<char>, Seq<Seq<char>>>, item: TodoModel) -> Map<
    Seq<char>,
    Seq<Seq<char>>,
> {
    let texts = p.insert("SUMMARY"@, seq![escaped(item.summary)]).insert(
        "DESCRIPTION"@,
        seq![escaped(item.description)],
    ).insert("URL"@, seq![escaped(item.url)]);
    let dated = match item.due {
        Some(d) => texts.insert("DUE"@, seq![escaped(d.text())]),
        None => texts,
    };
    dated.insert("LAST-MODIFIED"@, seq![escaped(item.last_modified.text())])
}

/// The category list that bringing `p` up to date with `item` writes.
pub open spec fn categories_after(p: Map<Seq<char>, Seq<Seq<char>>>, item: TodoModel) -> Seq<char> {
    joined(
        category_tokens(prop_value(owned_props(p, item), "CATEGORIES"@), item.kind),
        ',',
    )
}

/// `p` with the properties that the task owns set from `item`.
pub open spec fn updated_props(p: Map<Seq<char>, Seq<Seq<char>>>, item: TodoModel) -> Map<
    Seq<char>,
    Seq<Seq<char>>,
> {
    owned_props(p, item).insert("CATEGORIES"@, seq![escaped(categories_after(p, item))])
}

/// The properties of a new task component for `item`, stamped at `now`.
pub open spec fn new_task_props(item: TodoModel, now: Timestamp) -> Map<Seq<char>, Seq<Seq<char>>> {
    updated_props(
        Map::<Seq<char>, Seq<Seq<char>>>::empty().insert("DTSTAMP"@, seq![escaped(now.text())]).insert(
            "UID"@,
            seq![escaped(item.uid)],
        ).insert("CREATED"@, seq![escaped(item.created.text())]).insert(
            "CLASS"@,
            seq![escaped("CONFIDENTIAL"@)],
        ).insert("STATUS"@, seq![escaped(item.status.text())]),
        item,
    )
}

/// Whether a text reads back unchanged once written as a property value.
pub open spec fn round_trips(text: Seq<char>) -> bool {
    plain(text) ==> unescaped(escaped(text)) == text
}

/// The text of the one property `name` of `c`, if there is exactly one.
fn prop(c: &vobject::Component, name: &str) -> (r: Option<String>)
    ensures
        opt_view(r) == prop_value(component_props(*c), name@),
{
    match get_only(c, name) {
        Some(p) => Some(value_text(p)),
        None => None,
    }
}

fn set_text(c: &mut vobject::Component, name: &str, value: &str)
    ensures
        component_props(*final(c)) == component_props(*old(c)).insert(
            name@,
            seq![escaped(value@)],
        ),
        component_name(*final(c)) == component_name(*old(c)),
        component_children(*final(c)) == component_children(*old(c)),
        round_trips(value@),
{
    let p = new_property(name, value);
    set_property(c, p);
}

/// The kind that the first token of a comma-separated category list naming one
/// marks.
pub fn kind_of_categories(value: &str) -> (r: Option<TodoKind>)
    ensures
        r == kind_in(split_on(value@, ',')),
{
    let tokens = split_commas(value);
    let ghost all = views(tokens@);
    assert(all.subrange(0, all.len() as int) == all);
    let mut i: usize = 0;
    while i < tokens.len()
        invariant
            all == views(tokens@),
            all == split_on(value@, ','),
            0 <= i <= tokens@.len(),
            kind_in(all) == kind_in(all.subrange(i as int, all.len() as int)),
        decreases tokens@.len() - i,
    {
        let ghost rest = all.subrange(i as int, all.len() as int);
        assert(rest[0] == tokens@[i as int]@);
        assert(rest.drop_first() == all.subrange(i + 1, all.len() as int));
        match TodoKind::parse_category(tokens[i].as_str()) {
            Some(k) => {
                assert(TodoKind::from_category(rest[0]) == Some(k));
                assert(kind_in(rest) == Some(k));
                return Some(k);
            },
            None => {},
        }
        i = i + 1;
    }
    None
}

/// The category list written for `kind` over an existing one: the tokens that name
/// no kind, in order, then the kind's own token, joined with commas.
pub fn merge_categories(existing: &str, kind: TodoKind) -> (r: String)
    ensures
        r@ == joined(category_tokens(Some(existing@), kind), ','),
{
    let tokens = split_commas(existing);
    let ghost all = views(tokens@);
    let mut kept: Vec<String> = Vec::new();
    let mut i: usize = 0;
    while i < tokens.len()
        invariant
            all == views(tokens@),
            0 <= i <= tokens@.len(),
            views(kept@) == without_kinds(all.subrange(0, i as int)),
        decreases tokens@.len() - i,
    {
        assert(all.subrange(0, i + 1).drop_last() == all.subrange(0, i as int));
        assert(all.subrange(0, i + 1).last() == tokens@[i as int]@);
        let is_kind = TodoKind::parse_category(tokens[i].as_str()).is_some();
        if !is_kind {
            let t = tokens[i].clone();
            let ghost before = kept@;
            kept.push(t);
            assert(views(kept@) == views(before).push(t@));
        }
        i = i + 1;
    }
    assert(all.subrange(0, all.len() as int) == all);
    let ghost before = kept@;
    let own = String::from_str(kind.category());
    kept.push(own);
    assert(views(kept@) == views(before).push(own@));
    join_commas(&kept)
}

/// Sets the properties that the task owns from `item`: summary, description, url,
/// due date if any, last modification, and the kind among the categories.
pub fn update_component(item: &TodoItem, c: &mut vobject::Component)
    ensures
        component_props(*final(c)) == updated_props(component_props(*old(c)), item@),
        component_name(*final(c)) == component_name(*old(c)),
        component_children(*final(c)) == component_children(*old(c)),
        round_trips(item@.summary),
        round_trips(item@.description),
        round_trips(item@.url),
        item@.due matches Some(d) ==> round_trips(d.text()),
        round_trips(item@.last_modified.text()),
        round_trips(categories_after(component_props(*old(c)), item@)),
{
    set_text(c, "SUMMARY", item.summary());
    set_text(c, "DESCRIPTION", item.description());
    set_text(c, "URL", item.url());
    if let Some(due) = item.due() {
        let text = due.to_text();
        set_text(c, "DUE", text.as_str());
    }
    let modified = item.last_modified().to_text();
    set_text(c, "LAST-MODIFIED", modified.as_str());
    let categories = match prop(c, "CATEGORIES") {
        Some(existing) => merge_categories(existing.as_str(), item.kind()),
        None => String::from_str(item.kind().category()),
    };
    set_text(c, "CATEGORIES", categories.as_str());
}

impl TodoItem {
    /// The task item read from a task component, if its properties describe one;
    /// `now` stands for a missing last modification.
    pub fn from_component(c: &vobject::Component, now: Timestamp) -> (r: Option<TodoItem>)
        requires
            now.wf(),
        ensures
            r matches Some(item) ==> decode_props(component_props(*c), now) == Some(item@),
            r is None ==> decode_props(component_props(*c), now) is None,
    {
        let uid = match prop(c, "UID") {
            Some(v) => v,
            None => {
                return None;
            },
        };
        let categories = match prop(c, "CATEGORIES") {
            Some(v) => v,
            None => {
                return None;
            },
        };
        let kind = match kind_of_categories(categories.as_str()) {
            Some(k) => k,
            None => {
                return None;
            },
        };
        let created = match prop(c, "CREATED") {
            Some(v) => match parse_timestamp(v.as_str()) {
                Some(t) => t,
                None => {
                    return None;
                },
            },
            None => {
                return None;
            },
        };
        let due = match prop(c, "DUE") {
            Some(v) => match Due::parse(v.as_str()) {
                Some(d) => Some(d),
                None => {
                    return None;
                },
            },
            None => None,
        };
        let status = match prop(c, "STATUS") {
            Some(v) => match TodoStatus::parse(v.as_str()) {
                Some(st) => st,
                None => {
                    return None;
                },
            },
            None => {
                return None;
            },
        };
        let url = match prop(c, "URL") {
            Some(v) => v,
            None => {
                return None;
            },
        };
        let summary = match prop(c, "SUMMARY") {
            Some(v) => v,
            None => {
                return None;
            },
        };
        let description = match prop(c, "DESCRIPTION") {
            Some(v) => v,
            None => {
                return None;
            },
        };
        let (modified, dirty) = match prop(c, "LAST-MODIFIED") {
            Some(v) => match parse_timestamp(v.as_str()) {
                Some(t) => (t, false),
                None => {
                    return None;
                },
            },
            None => (now, true),
        };
        Some(
            TodoItem::from_fields(
                Uid(uid),
                kind,
                created,
                due,
                status,
                url,
                summary,
                description,
                modified,
                dirty,
            ),
        )
    }
}

/// Whether the texts of a task that a document keeps as they are read back
/// unchanged.
pub open spec fn plain_item(m: TodoModel) -> bool {
    plain(m.uid) && plain(m.url) && plain(m.summary) && plain(m.description)
}

pub proof fn lemma_plain_concat(a: Seq<char>, b: Seq<char>)
    requires
        plain(a),
        plain(b),
    ensures
        plain(a + b),
{
    assert forall|i: int| 0 <= i < (a + b).len() implies (a + b)[i] != '\\' && (a + b)[i]
        != '\r' by {
        if i < a.len() {
            assert((a + b)[i] == a[i]);
            assert(a.contains(a[i]));
        } else {
            assert((a + b)[i] == b[i - a.len()]);
            assert(b.contains(b[i - a.len()]));
        }
    }
}

pub proof fn lemma_digits_plain(s: Seq<char>)
    requires
        all_digits(s),
    ensures
        plain(s),
{
    assert forall|i: int| 0 <= i < s.len() implies s[i] != '\\' && s[i] != '\r' by {
        assert(crate::text::is_digit(s[i]));
    }
}

proof fn lemma_date_plain(d: Date)
    ensures
        plain(d.text()),
{
    lemma_padded_digits(d.year as int, 4);
    lemma_padded_digits(d.month as int, 2);
    lemma_padded_digits(d.day as int, 2);
    lemma_digits_plain(crate::text::padded_digits(d.year as int, 4));
    lemma_digits_plain(crate::text::padded_digits(d.month as int, 2));
    lemma_digits_plain(crate::text::padded_digits(d.day as int, 2));
    lemma_plain_concat(
        crate::text::padded_digits(d.year as int, 4),
        crate::text::padded_digits(d.month as int, 2),
    );
    lemma_plain_concat(
        crate::text::padded_digits(d.year as int, 4) + crate::text::padded_digits(
            d.month as int,
            2,
        ),
        crate::text::padded_digits(d.day as int, 2),
    );
}

proof fn lemma_timestamp_plain(t: Timestamp)
    ensures
        plain(t.text()),
{
    lemma_date_plain(t.date);
    let h = crate::text::padded_digits(t.hour as int, 2);
    let m = crate::text::padded_digits(t.minute as int, 2);
    let s = crate::text::padded_digits(t.second as int, 2);
    lemma_padded_digits(t.hour as int, 2);
    lemma_padded_digits(t.minute as int, 2);
    lemma_padded_digits(t.second as int, 2);
    lemma_digits_plain(h);
    lemma_digits_plain(m);
    lemma_digits_plain(s);
    assert(plain(seq!['T']));
    assert(plain(seq!['Z']));
    lemma_plain_concat(t.date.text(), seq!['T']);
    lemma_plain_concat(t.date.text() + seq!['T'], h);
    lemma_plain_concat(t.date.text() + seq!['T'] + h, m);
    lemma_plain_concat(t.date.text() + seq!['T'] + h + m, s);
    lemma_plain_concat(t.date.text() + seq!['T'] + h + m + s, seq!['Z']);
}

proof fn lemma_status_plain(st: TodoStatus)
    ensures
        plain(st.text()),
{
    reveal_strlit("NEEDS-ACTION");
    reveal_strlit("COMPLETED");
    reveal_strlit("IN-PROCESS");
    reveal_strlit("CANCELLED");
    let t = st.text();
    assert forall|i: int| 0 <= i < t.len() implies t[i] != '\\' && t[i] != '\r' by {}
}

proof fn lemma_kind_plain(k: TodoKind)
    ensures
        plain(k.spec_category()),
{
    reveal_strlit("issue");
    reveal_strlit("assigned-issue");
    reveal_strlit("pull-request");
    reveal_strlit("assigned-pull-request");
    reveal_strlit("todo");
    let t = k.spec_category();
    assert forall|i: int| 0 <= i < t.len() implies t[i] != '\\' && t[i] != '\r' by {}
}

/// A text without the separator is one piece.
pub proof fn lemma_split_without_sep(s: Seq<char>, sep: char)
    requires
        !s.contains(sep),
    ensures
        split_on(s, sep) == seq![s],
    decreases s.len(),
{
    if s.len() > 0 {
        let init = s.drop_last();
        assert(!init.contains(sep)) by {
            if init.contains(sep) {
                let i = choose|i: int| 0 <= i < init.len() && init[i] == sep;
                assert(s[i] == sep);
            }
        }
        lemma_split_without_sep(init, sep);
        assert(s.last() != sep) by {
            assert(s[s.len() - 1] == s.last());
        }
        assert(init.push(s.last()) == s);
    } else {
        assert(s == Seq::<char>::empty());
    }
}

/// The names of the properties that a task component holds are all different.
pub proof fn lemma_property_names_differ()
    ensures
        "DTSTAMP"@ != "UID"@,
        "DTSTAMP"@ != "CREATED"@,
        "DTSTAMP"@ != "CLASS"@,
        "DTSTAMP"@ != "STATUS"@,
        "DTSTAMP"@ != "SUMMARY"@,
        "DTSTAMP"@ != "DESCRIPTION"@,
        "DTSTAMP"@ != "URL"@,
        "DTSTAMP"@ != "DUE"@,
        "DTSTAMP"@ != "LAST-MODIFIED"@,
        "DTSTAMP"@ != "CATEGORIES"@,
        "UID"@ != "CREATED"@,
        "UID"@ != "CLASS"@,
        "UID"@ != "STATUS"@,
        "UID"@ != "SUMMARY"@,
        "UID"@ != "DESCRIPTION"@,
        "UID"@ != "URL"@,
        "UID"@ != "DUE"@,
        "UID"@ != "LAST-MODIFIED"@,
        "UID"@ != "CATEGORIES"@,
        "CREATED"@ != "CLASS"@,
        "CREATED"@ != "STATUS"@,
        "CREATED"@ != "SUMMARY"@,
        "CREATED"@ != "DESCRIPTION"@,
        "CREATED"@ != "URL"@,
        "CREATED"@ != "DUE"@,
        "CREATED"@ != "LAST-MODIFIED"@,
        "CREATED"@ != "CATEGORIES"@,
        "CLASS"@ != "STATUS"@,
        "CLASS"@ != "SUMMARY"@,
        "CLASS"@ != "DESCRIPTION"@,
        "CLASS"@ != "URL"@,
        "CLASS"@ != "DUE"@,
        "CLASS"@ != "LAST-MODIFIED"@,
        "CLASS"@ != "CATEGORIES"@,
        "STATUS"@ != "SUMMARY"@,
        "STATUS"@ != "DESCRIPTION"@,
        "STATUS"@ != "URL"@,
        "STATUS"@ != "DUE"@,
        "STATUS"@ != "LAST-MODIFIED"@,
        "STATUS"@ != "CATEGORIES"@,
        "SUMMARY"@ != "DESCRIPTION"@,
        "SUMMARY"@ != "URL"@,
        "SUMMARY"@ != "DUE"@,
        "SUMMARY"@ != "LAST-MODIFIED"@,
        "SUMMARY"@ != "CATEGORIES"@,
        "DESCRIPTION"@ != "URL"@,
        "DESCRIPTION"@ != "DUE"@,
        "DESCRIPTION"@ != "LAST-MODIFIED"@,
        "DESCRIPTION"@ != "CATEGORIES"@,
        "URL"@ != "DUE"@,
        "URL"@ != "LAST-MODIFIED"@,
        "URL"@ != "CATEGORIES"@,
        "DUE"@ != "LAST-MODIFIED"@,
        "DUE"@ != "CATEGORIES"@,
        "LAST-MODIFIED"@ != "CATEGORIES"@,
{
    reveal_strlit("DTSTAMP");
    reveal_strlit("UID");
    reveal_strlit("CREATED");
    reveal_strlit("CLASS");
    reveal_strlit("STATUS");
    reveal_strlit("SUMMARY");
    reveal_strlit("DESCRIPTION");
    reveal_strlit("URL");
    reveal_strlit("DUE");
    reveal_strlit("LAST-MODIFIED");
    reveal_strlit("CATEGORIES");
    assert("DTSTAMP"@.len() == 7);
    assert("UID"@.len() == 3);
    assert("CREATED"@.len() == 7);
    assert("CLASS"@.len() == 5);
    assert("STATUS"@.len() == 6);
    assert("SUMMARY"@.len() == 7);
    assert("DESCRIPTION"@.len() == 11);
    assert("URL"@.len() == 3);
    assert("DUE"@.len() == 3);
    assert("LAST-MODIFIED"@.len() == 13);
    assert("CATEGORIES"@.len() == 10);
    assert("DTSTAMP"@[0] != "CREATED"@[0]);
    assert("DTSTAMP"@[0] != "SUMMARY"@[0]);
    assert("CREATED"@[0] != "SUMMARY"@[0]);
    assert("UID"@[1] != "URL"@[1]);
    assert("UID"@[0] != "DUE"@[0]);
    assert("URL"@[0] != "DUE"@[0]);
}

/// Decoding the properties of a new task component whose texts read back
/// unchanged gives the task back, unchanged since written.
#[verifier::rlimit(60)]
proof fn lemma_decode_new_task(m: TodoModel, now: Timestamp)
    requires
        m.wf(),
        plain_item(m),
        round_trips(m.uid),
        round_trips(m.created.text()),
        round_trips(m.status.text()),
        round_trips(m.url),
        round_trips(m.summary),
        round_trips(m.description),
        round_trips(m.last_modified.text()),
        m.due matches Some(d) ==> round_trips(d.text()),
        round_trips(m.kind.spec_category()),
    ensures
        forall|later: Timestamp|
            #[trigger] decode_props(new_task_props(m, now), later) == Some(
                TodoModel { dirty: false, ..m },
            ),
{
    lemma_property_names_differ();
    let cat = m.kind.spec_category();
    assert(joined(seq![cat], ',') == cat);
    lemma_timestamp_plain(m.created);
    lemma_timestamp_plain(m.last_modified);
    lemma_status_plain(m.status);
    lemma_kind_plain(m.kind);
    lemma_category_round_trip(m.kind);
    lemma_split_without_sep(cat, ',');
    lemma_timestamp_text_round_trip(m.created);
    lemma_timestamp_text_round_trip(m.last_modified);
    lemma_status_text_round_trip(m.status);
    let p = new_task_props(m, now);
    assert(prop_value(p, "UID"@) == Some(m.uid));
    assert(prop_value(p, "CATEGORIES"@) == Some(cat));
    assert(kind_in(split_on(cat, ',')) == Some(m.kind));
    assert(prop_value(p, "CREATED"@) == Some(m.created.text()));
    assert(prop_value(p, "STATUS"@) == Some(m.status.text()));
    assert(prop_value(p, "URL"@) == Some(m.url));
    assert(prop_value(p, "SUMMARY"@) == Some(m.summary));
    assert(prop_value(p, "DESCRIPTION"@) == Some(m.description));
    assert(prop_value(p, "LAST-MODIFIED"@) == Some(m.last_modified.text()));
    match m.due {
        Some(d) => {
            lemma_due_text_round_trip(d);
            match d {
                Due::Date(x) => lemma_date_plain(x),
                Due::DateTime(t) => lemma_timestamp_plain(t),
            }
            assert(prop_value(p, "DUE"@) == Some(d.text()));
        },
        None => {
            assert(prop_value(p, "DUE"@) is None);
        },
    }
    assert forall|later: Timestamp|
        #[trigger] decode_props(p, later) == Some(TodoModel { dirty: false, ..m }) by {}
}

/// A new task component for `item`, stamped at `now`. Decoding it gives the item
/// back, unchanged since written, when its texts are plain.
pub fn new_task_component(item: &TodoItem, now: Timestamp) -> (r: vobject::Component)
    requires
        now.wf(),
    ensures
        component_name(r) == "VTODO"@,
        component_children(r).len() == 0,
        component_props(r) == new_task_props(item@, now),
        plain_item(item@) ==> forall|later: Timestamp|
            #[trigger] decode_props(component_props(r), later) == Some(
                TodoModel { dirty: false, ..item@ },
            ),
{
    let mut c = new_component("VTODO");
    let stamp = now.to_text();
    set_text(&mut c, "DTSTAMP", stamp.as_str());
    set_text(&mut c, "UID", item.uid().as_str());
    let created = item.created().to_text();
    set_text(&mut c, "CREATED", created.as_str());
    set_text(&mut c, "CLASS", "CONFIDENTIAL");
    set_text(&mut c, "STATUS", item.status().as_str());
    let ghost base = component_props(c);
    update_component(item, &mut c);
    proof {
        use_type_invariant(item);
        let m = item@;
        lemma_property_names_differ();
        assert(prop_value(owned_props(base, m), "CATEGORIES"@) is None);
        let cat = m.kind.spec_category();
        assert(joined(seq![cat], ',') == cat);
        assert(categories_after(base, m) == cat);
        if plain_item(m) {
            assert(round_trips(cat));
            assert(round_trips(m.uid));
            assert(round_trips(m.created.text()));
            assert(round_trips(m.status.text()));
            assert(round_trips(m.last_modified.text()));
            lemma_decode_new_task(m, now);
            assert(component_props(c) == new_task_props(m, now));
        }
    }
    c
}

/// Whether a component is a document of this library: its one product identifier
/// starts with `PRODID_PREFIX` and it wraps exactly one component.
pub open spec fn is_ours(c: vobject::Component) -> bool {
    &&& prop_value(component_props(c), "PRODID"@) matches Some(v) && PRODID_PREFIX@.len() <= v.len()
        && v.subrange(0, PRODID_PREFIX@.len() as int) == PRODID_PREFIX@
    &&& component_children(c).len() == 1
}

/// The task component of a document of this library, if it wraps one.
pub open spec fn task_of(c: vobject::Component) -> Option<vobject::Component> {
    if is_ours(c) && component_name(component_children(c)[0]) == "VTODO"@ {
        Some(component_children(c)[0])
    } else {
        None
    }
}

/// The properties of a new calendar of this library: its version and product
/// identifier.
pub open spec fn calendar_props() -> Map<Seq<char>, Seq<Seq<char>>> {
    Map::<Seq<char>, Seq<Seq<char>>>::empty().insert("VERSION"@, seq![escaped("2.0"@)]).insert(
        "PRODID"@,
        seq![escaped(PRODID_PREFIX@ + PRODID_SUFFIX@)],
    )
}

/// The task that a document describes, if it is one of this library's.
pub open spec fn decode_document(c: vobject::Component, now: Timestamp) -> Option<TodoModel> {
    match task_of(c) {
        Some(t) => decode_props(component_props(t), now),
        None => None,
    }
}

/// Whether a write brought the document up to date.
#[derive(Clone, Copy, Debug, PartialEq, Eq, Structural)]
pub enum Updated {
    Yes,
    No,
}

/// Why a task document could not be read or written.
#[derive(Debug)]
pub enum TodoError {
    ReadFile { path: std::path::PathBuf, source: std::io::Error },
    WriteFile { path: std::path::PathBuf, source: std::io::Error },
    ParseComponent { source: vobject::error::VObjectError },
}

impl TodoError {
    pub fn read_file(path: std::path::PathBuf, source: std::io::Error) -> (r: TodoError)
        ensures
            r == (TodoError::ReadFile { path, source }),
    {
        TodoError::ReadFile { path, source }
    }

    pub fn write_file(path: std::path::PathBuf, source: std::io::Error) -> (r: TodoError)
        ensures
            r == (TodoError::WriteFile { path, source }),
    {
        TodoError::WriteFile { path, source }
    }
}

/// A task document: where it is stored, the calendar it holds, and the task read
/// from it.
pub struct TodoFile {
    pub path: std::path::PathBuf,
    pub component: vobject::Component,
    pub item: TodoItem,
}

fn is_our_component(c: &vobject::Component) -> (r: bool)
    ensures
        r == is_ours(*c),
{
    match prop(c, "PRODID") {
        Some(v) => {
            if !crate::text::starts_with(v.as_str(), PRODID_PREFIX) {
                return false;
            }
        },
        None => {
            return false;
        },
    }
    child_count(c) == 1
}

/// The task component that a document of this library wraps.
fn extract_component(c: &vobject::Component) -> (r: Option<&vobject::Component>)
    ensures
        r is Some <==> task_of(*c) is Some,
        r matches Some(t) ==> task_of(*c) == Some(*t),
{
    if !is_our_component(c) {
        return None;
    }
    let t = first_child(c);
    if !crate::text::same_text(name_of(t), "VTODO") {
        return None;
    }
    Some(t)
}

impl TodoFile {
    /// The document stored at `path` whose parsed calendar is `component`, if it
    /// is one of this library's and describes a task; `now` stands for a missing
    /// last modification.
    pub fn from_component(
        path: std::path::PathBuf,
        component: vobject::Component,
        now: Timestamp,
    ) -> (r: Option<TodoFile>)
        requires
            now.wf(),
        ensures
            r is Some <==> decode_document(component, now) is Some,
            r matches Some(f) ==> f.path == path && f.component == component && Some(f.item@)
                == decode_document(component, now),
    {
        let item = match extract_component(&component) {
            Some(t) => TodoItem::from_component(t, now),
            None => None,
        };
        match item {
            Some(item) => Some(TodoFile { path, component, item }),
            None => None,
        }
    }

    /// The document read from the text of the file at `path`: `Ok(None)` for a
    /// calendar that is not a task document of this library. A missing last
    /// modification reads as the current time and marks the task changed.
    pub fn from_path(path: std::path::PathBuf, contents: &str) -> (r: Result<
        Option<TodoFile>,
        TodoError,
    >)
        ensures
            r is Err <==> parsed(contents@) is None,
            r matches Err(e) ==> e is ParseComponent,
            r matches Ok(o) ==> forall|t: Timestamp|
                (o is Some <==> #[trigger] decode_document(parsed(contents@)->Some_0, t) is Some),
            r matches Ok(Some(f)) ==> f.path == path && f.component == parsed(contents@)->Some_0
                && decode_document(f.component, f.item@.last_modified) == Some(f.item@),
    {
        match parse_text(contents) {
            Ok(component) => {
                let now = Timestamp::now();
                let r = TodoFile::from_component(path, component, now);
                proof {
                    if r is Some {
                        let f = r->Some_0;
                        let t = task_of(f.component)->Some_0;
                        let p = component_props(t);
                        assert(decode_props(p, f.item@.last_modified) == Some(f.item@));
                    }
                }
                Ok(r)
            },
            Err(source) => Err(TodoError::ParseComponent { source }),
        }
    }

    /// A new document in directory `dir` for `item`, stamped at `now`, named after
    /// the item's identifier. It reads back as the item when the item's texts are
    /// plain.
    pub fn from_item_at(dir: &std::path::PathBuf, item: TodoItem, now: Timestamp) -> (r: TodoFile)
        requires
            now.wf(),
        ensures
            r.item@ == item@,
            r.path == joined_path(*dir, item@.uid + ".ics"@),
            is_ours(r.component),
            component_name(r.component) == "VCALENDAR"@,
            component_props(r.component) == calendar_props(),
            prop_value(component_props(r.component), "VERSION"@) == Some("2.0"@),
            prop_value(component_props(r.component), "PRODID"@) == Some(
                PRODID_PREFIX@ + PRODID_SUFFIX@,
            ),
            component_children(r.component).len() == 1,
            component_props(component_children(r.component)[0]) == new_task_props(item@, now),
            plain_item(item@) ==> forall|later: Timestamp|
                #[trigger] decode_document(r.component, later) == Some(
                    TodoModel { dirty: false, ..item@ },
                ),
    {
        let name = item.uid().0.clone().concat(".ics");
        let path = path_in(dir, name.as_str());
        let task = new_task_component(&item, now);
        let mut component = new_component("VCALENDAR");
        set_text(&mut component, "VERSION", "2.0");
        let prodid = String::from_str(PRODID_PREFIX).concat(PRODID_SUFFIX);
        set_text(&mut component, "PRODID", prodid.as_str());
        push_child(&mut component, task);
        proof {
            reveal_strlit("-//IDN benboeckel.net//devtodo/");
            reveal_strlit("0.1.0 vobject//EN");
            reveal_strlit("VERSION");
            reveal_strlit("PRODID");
            reveal_strlit("VTODO");
            reveal_strlit("2.0");
            assert("VERSION"@.len() == 7);
            let v = "2.0"@;
            assert forall|i: int| 0 <= i < v.len() implies v[i] != '\\' && v[i] != '\r' by {}
            assert("PRODID"@.len() == 6);
            let pre = PRODID_PREFIX@;
            let suf = PRODID_SUFFIX@;
            assert forall|i: int| 0 <= i < pre.len() implies pre[i] != '\\' && pre[i] != '\r' by {}
            assert forall|i: int| 0 <= i < suf.len() implies suf[i] != '\\' && suf[i] != '\r' by {}
            lemma_plain_concat(pre, suf);
            assert((pre + suf).subrange(0, pre.len() as int) == pre);
            assert(component_children(component)[0] == task);
        }
        TodoFile { path, component, item }
    }

    /// A new document in directory `dir` for `item`, stamped with the current time.
    pub fn from_item(dir: &std::path::PathBuf, item: TodoItem) -> (r: TodoFile)
        ensures
            r.item@ == item@,
            r.path == joined_path(*dir, item@.uid + ".ics"@),
            is_ours(r.component),
            component_name(r.component) == "VCALENDAR"@,
            component_props(r.component) == calendar_props(),
            prop_value(component_props(r.component), "VERSION"@) == Some("2.0"@),
            prop_value(component_props(r.component), "PRODID"@) == Some(
                PRODID_PREFIX@ + PRODID_SUFFIX@,
            ),
            component_children(r.component).len() == 1,
            exists|now: Timestamp|
                now.wf() && component_props(component_children(r.component)[0])
                    == new_task_props(item@, now),
            plain_item(item@) ==> forall|later: Timestamp|
                #[trigger] decode_document(r.component, later) == Some(
                    TodoModel { dirty: false, ..item@ },
                ),
    {
        let now = Timestamp::now();
        TodoFile::from_item_at(dir, item, now)
    }

    /// Brings the task component up to date when the task changed since it was
    /// last written. An unchanged task, or a calendar that no longer wraps a task
    /// component, is left as it is.
    pub fn sync(&mut self) -> (r: Updated)
        ensures
            !old(self).item@.dirty ==> r == Updated::No && *final(self) == *old(self),
            old(self).item@.dirty && task_of(old(self).component) is None ==> r == Updated::No
                && *final(self) == *old(self),
            old(self).item@.dirty && task_of(old(self).component) is Some ==> {
                &&& r == Updated::Yes
                &&& final(self).path == old(self).path
                &&& final(self).item@ == (TodoModel { dirty: false, ..old(self).item@ })
                &&& component_name(final(self).component) == component_name(old(self).component)
                &&& component_props(final(self).component) == component_props(
                    old(self).component,
                )
                &&& component_children(final(self).component).len() == 1
                &&& component_name(component_children(final(self).component)[0]) == "VTODO"@
                &&& component_props(component_children(final(self).component)[0])
                    == updated_props(
                    component_props(task_of(old(self).component)->Some_0),
                    old(self).item@,
                )
            },
    {
        if !self.item.is_dirty() {
            return Updated::No;
        }
        if extract_component(&self.component).is_none() {
            return Updated::No;
        }
        let mut children = take_children(&mut self.component);
        let mut task = children.remove(0);
        update_component(&self.item, &mut task);
        children.insert(0, task);
        put_children(&mut self.component, children);
        self.item.mark_written();
        Updated::Yes
    }

    /// Brings the document up to date and gives the text to store, or `None` when
    /// the task has not changed since it was last written.
    pub fn write(&mut self) -> (r: Option<String>)
        ensures
            r is Some <==> (old(self).item@.dirty && task_of(old(self).component) is Some),
            r is None ==> *final(self) == *old(self),
            r matches Some(t) ==> t@ == rendered(final(self).component),
            r is Some ==> {
                &&& final(self).path == old(self).path
                &&& final(self).item@ == (TodoModel { dirty: false, ..old(self).item@ })
                &&& component_name(final(self).component) == component_name(old(self).component)
                &&& component_props(final(self).component) == component_props(
                    old(self).component,
                )
                &&& component_children(final(self).component).len() == 1
                &&& component_name(component_children(final(self).component)[0]) == "VTODO"@
                &&& component_props(component_children(final(self).component)[0])
                    == updated_props(
                    component_props(task_of(old(self).component)->Some_0),
                    old(self).item@,
                )
            },
    {
        match self.sync() {
            Updated::Yes => Some(write_text(&self.component)),
            Updated::No => None,
        }
    }

    /// The document's text.
    pub fn render(&self) -> (r: String)
        ensures
            r@ == rendered(self.component),
    {
        write_text(&self.component)
    }
}

/// Idempotence: a task component that holds a last modification decodes to an
/// item that has not changed since it was written, so `TodoFile::write` leaves
/// its document as it is and gives nothing to store.
pub proof fn lemma_decoded_unchanged(p: Map<Seq<char>, Seq<Seq<char>>>, now: Timestamp)
    requires
        decode_props(p, now) is Some,
        prop_value(p, "LAST-MODIFIED"@) is Some,
    ensures
        !decode_props(p, now)->Some_0.dirty,
{
}

proof fn lemma_without_kinds(tokens: Seq<Seq<char>>)
    ensures
        forall|i: int|
            0 <= i < without_kinds(tokens).len() ==> TodoKind::from_category(
                #[trigger] without_kinds(tokens)[i],
            ) is None,
        forall|t: Seq<char>|
            tokens.contains(t) && TodoKind::from_category(t) is None ==> #[trigger] without_kinds(
                tokens,
            ).contains(t),
    decreases tokens.len(),
{
    if tokens.len() > 0 {
        let init = tokens.drop_last();
        lemma_without_kinds(init);
        let w = without_kinds(init);
        assert forall|t: Seq<char>|
            tokens.contains(t) && TodoKind::from_category(t) is None implies #[trigger] without_kinds(
            tokens,
        ).contains(t) by {
            let j = choose|j: int| 0 <= j < tokens.len() && tokens[j] == t;
            if j < init.len() {
                assert(init[j] == t);
                assert(init.contains(t));
                assert(without_kinds(init).contains(t));
                let k = choose|k: int| 0 <= k < w.len() && w[k] == t;
                if TodoKind::from_category(tokens.last()) is None {
                    assert(w.push(tokens.last())[k] == t);
                    assert(without_kinds(tokens) == w.push(tokens.last()));
                } else {
                    assert(without_kinds(tokens) == w);
                }
            } else {
                assert(tokens.last() == t);
                assert(without_kinds(tokens) == w.push(tokens.last()));
                assert(w.push(tokens.last())[w.len() as int] == t);
            }
        }
        if TodoKind::from_category(tokens.last()) is None {
            assert forall|i: int|
                0 <= i < without_kinds(tokens).len() implies TodoKind::from_category(
                #[trigger] without_kinds(tokens)[i],
            ) is None by {
                if i < w.len() {
                    assert(without_kinds(tokens)[i] == w[i]);
                }
            }
        }
    }
}

proof fn lemma_split_append(a: Seq<char>, b: Seq<char>, sep: char)
    requires
        !b.contains(sep),
    ensures
        split_on(a + b, sep) == split_on(a, sep).update(
            split_on(a, sep).len() - 1,
            split_on(a, sep).last() + b,
        ),
    decreases b.len(),
{
    crate::text::lemma_split_on_len(a, sep);
    if b.len() == 0 {
        assert(a + b == a);
        assert(split_on(a, sep).last() + b == split_on(a, sep).last());
        assert(split_on(a, sep).update(split_on(a, sep).len() - 1, split_on(a, sep).last())
            == split_on(a, sep));
    } else {
        let b1 = b.drop_last();
        let c = b.last();
        assert(!b1.contains(sep)) by {
            if b1.contains(sep) {
                let i = choose|i: int| 0 <= i < b1.len() && b1[i] == sep;
                assert(b[i] == sep);
            }
        }
        assert(c != sep) by {
            assert(b[b.len() - 1] == c);
        }
        lemma_split_append(a, b1, sep);
        assert((a + b).drop_last() == a + b1);
        assert((a + b).last() == c);
        crate::text::lemma_split_on_len(a + b1, sep);
        let sp = split_on(a, sep);
        let init = split_on(a + b1, sep);
        assert(init.last() == sp.last() + b1);
        assert((sp.last() + b1).push(c) =~= sp.last() + b);
        assert(split_on(a + b, sep) == init.update(init.len() - 1, init.last().push(c)));
        assert(init.update(init.len() - 1, init.last().push(c)) =~= sp.update(
            sp.len() - 1,
            sp.last() + b,
        ));
    }
}

/// Pieces without the separator, joined and split again, come back unchanged.
pub proof fn lemma_split_joined(parts: Seq<Seq<char>>, sep: char)
    requires
        parts.len() >= 1,
        forall|i: int| 0 <= i < parts.len() ==> !(#[trigger] parts[i]).contains(sep),
    ensures
        split_on(joined(parts, sep), sep) == parts,
    decreases parts.len(),
{
    if parts.len() == 1 {
        lemma_split_without_sep(parts[0], sep);
        assert(seq![parts[0]] == parts);
    } else {
        let init = parts.drop_last();
        let last = parts.last();
        assert(!last.contains(sep)) by {
            assert(parts[parts.len() - 1] == last);
        }
        lemma_split_joined(init, sep);
        let j = joined(init, sep);
        let js = j + seq![sep];
        assert((js).drop_last() == j);
        assert(js.last() == sep);
        assert(split_on(js, sep) == split_on(j, sep).push(Seq::<char>::empty()));
        lemma_split_append(js, last, sep);
        assert(Seq::<char>::empty() + last == last);
        assert(split_on(j, sep).push(Seq::<char>::empty()).update(init.len() as int, last) == parts);
    }
}

/// Category preservation: the categories written over an existing list keep every
/// token that names no kind and hold exactly one kind token, the item's own, at
/// the end.
pub proof fn lemma_category_merge(existing: Seq<char>, kind: TodoKind)
    ensures
        category_tokens(Some(existing), kind).last() == kind.spec_category(),
        forall|i: int|
            0 <= i < category_tokens(Some(existing), kind).len() - 1 ==> TodoKind::from_category(
                #[trigger] category_tokens(Some(existing), kind)[i],
            ) is None,
        forall|t: Seq<char>|
            split_on(existing, ',').contains(t) && TodoKind::from_category(t) is None
                ==> #[trigger] category_tokens(Some(existing), kind).contains(t),
        split_on(joined(category_tokens(Some(existing), kind), ','), ',') == category_tokens(
            Some(existing),
            kind,
        ),
{
    let tokens = split_on(existing, ',');
    lemma_without_kinds(tokens);
    lemma_split_pieces_without_sep(existing, ',');
    lemma_without_kinds_within(tokens);
    lemma_category_round_trip(kind);
    let w = without_kinds(tokens);
    let out = w.push(kind.spec_category());
    assert forall|i: int| 0 <= i < out.len() - 1 implies TodoKind::from_category(
        #[trigger] out[i],
    ) is None by {
        assert(out[i] == w[i]);
    }
    assert forall|t: Seq<char>|
        tokens.contains(t) && TodoKind::from_category(t) is None implies #[trigger] out.contains(
        t,
    ) by {
        assert(w.contains(t));
        let k = choose|k: int| 0 <= k < w.len() && w[k] == t;
        assert(out[k] == t);
    }
    assert forall|i: int| 0 <= i < out.len() implies !(#[trigger] out[i]).contains(',') by {
        if i < w.len() {
            assert(out[i] == w[i]);
            assert(tokens.contains(w[i]));
        }
    }
    lemma_split_joined(out, ',');
}

/// No piece of a split holds the separator.
proof fn lemma_split_pieces_without_sep(s: Seq<char>, sep: char)
    ensures
        forall|i: int| 0 <= i < split_on(s, sep).len() ==> !(#[trigger] split_on(s, sep)[i]).contains(sep),
    decreases s.len(),
{
    if s.len() > 0 {
        let init = s.drop_last();
        lemma_split_pieces_without_sep(init, sep);
        crate::text::lemma_split_on_len(init, sep);
        let sp = split_on(init, sep);
        if s.last() != sep {
            let l = sp.last().push(s.last());
            assert(!l.contains(sep)) by {
                if l.contains(sep) {
                    let k = choose|k: int| 0 <= k < l.len() && l[k] == sep;
                    if k < sp.last().len() {
                        assert(sp.last()[k] == sep);
                        assert(sp[sp.len() - 1].contains(sep));
                    }
                }
            }
            assert forall|i: int| 0 <= i < split_on(s, sep).len() implies !(#[trigger] split_on(s, sep)[i]).contains(sep) by {
                if i < sp.len() - 1 {
                    assert(split_on(s, sep)[i] == sp[i]);
                }
            }
        } else {
            assert forall|i: int| 0 <= i < split_on(s, sep).len() implies !(#[trigger] split_on(s, sep)[i]).contains(sep) by {
                if i < sp.len() {
                    assert(split_on(s, sep)[i] == sp[i]);
                } else {
                    assert(split_on(s, sep)[i] == Seq::<char>::empty());
                }
            }
        }
    }
}

/// The tokens kept are tokens of the list.
proof fn lemma_without_kinds_within(tokens: Seq<Seq<char>>)
    ensures
        forall|i: int| 0 <= i < without_kinds(tokens).len() ==> tokens.contains(#[trigger] without_kinds(tokens)[i]),
    decreases tokens.len(),
{
    if tokens.len() > 0 {
        let init = tokens.drop_last();
        lemma_without_kinds_within(init);
        let w = without_kinds(init);
        assert forall|i: int| 0 <= i < without_kinds(tokens).len() implies tokens.contains(#[trigger] without_kinds(tokens)[i]) by {
            if i < w.len() {
                assert(without_kinds(tokens)[i] == w[i]);
                assert(init.contains(w[i]));
                let k = choose|k: int| 0 <= k < init.len() && init[k] == w[i];
                assert(tokens[k] == w[i]);
            } else {
                assert(without_kinds(tokens)[i] == tokens.last());
                assert(tokens[tokens.len() - 1] == tokens.last());
            }
        }
    }
}

} // verus!
