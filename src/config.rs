//! What a configuration names: accounts, and sync targets with their profiles.
use std::collections::BTreeMap;
use vstd::prelude::*;

use crate::text::same_text;

verus! {

/// The accounts and sync targets of one configuration.
#[derive(Debug)]
pub struct Config {
    pub accounts: BTreeMap<String, Account>,
    pub targets: BTreeMap<String, SyncTarget>,
    pub default_targets: Vec<String>,
}

/// An account on a code hosting service.
#[derive(Debug)]
pub struct Account {
    pub service: String,
    pub hostname: Option<String>,
    pub secret: String,
}

/// A directory of task documents and the profiles that fill it.
#[derive(Debug)]
pub struct SyncTarget {
    pub directory: std::path::PathBuf,
    pub profiles: BTreeMap<String, Profile>,
}

/// What one account is asked for on behalf of a sync target.
#[derive(Debug)]
pub struct Profile {
    pub account: String,
    pub target: QueryTarget,
    pub filters: Vec<Filter>,
}

/// Whose items a profile asks for.
#[derive(Debug, Clone)]
pub enum QueryTarget {
    SelfUser,
    Projects(Vec<String>),
}

/// A condition on the items asked for; all of a profile's filters apply.
#[derive(Debug, Clone)]
pub enum Filter {
    Label(String),
}

impl Filter {
    pub open spec fn label_view(self) -> Seq<char> {
        match self {
            Filter::Label(l) => l@,
        }
    }
}

/// The labels that the filters ask for, in order.
pub open spec fn filter_labels(filters: Seq<Filter>) -> Seq<Seq<char>> {
    filters.map_values(|f: Filter| f.label_view())
}

/// The labels of `filters`, in order.
pub fn labels_of(filters: &Vec<Filter>) -> (r: Vec<String>)
    ensures
        crate::text::views(r@) == filter_labels(filters@),
{
    let mut out: Vec<String> = Vec::new();
    let mut i: usize = 0;
    while i < filters.len()
        invariant
            0 <= i <= filters@.len(),
            crate::text::views(out@) == filter_labels(filters@.subrange(0, i as int)),
        decreases filters@.len() - i,
    {
        let label = match &filters[i] {
            Filter::Label(l) => l.clone(),
        };
        let ghost before = out@;
        out.push(label);
        assert(crate::text::views(out@) == crate::text::views(before).push(label@));
        assert(filters@.subrange(0, i + 1) == filters@.subrange(0, i as int).push(filters@[i as int]));
        i = i + 1;
    }
    assert(filters@.subrange(0, filters@.len() as int) == filters@);
    out
}

/// Whether `name` is one of `names`.
pub open spec fn names_contain(names: Seq<String>, name: Seq<char>) -> bool {
    exists|i: int| 0 <= i < names.len() && names[i]@ == name
}

fn contains_name(names: &Vec<String>, name: &str) -> (r: bool)
    ensures
        r == names_contain(names@, name@),
{
    let mut i: usize = 0;
    while i < names.len()
        invariant
            0 <= i <= names@.len(),
            forall|j: int| 0 <= j < i ==> names@[j]@ != name@,
        decreases names@.len() - i,
    {
        if same_text(names[i].as_str(), name) {
            return true;
        }
        i = i + 1;
    }
    false
}

/// The names among `names` that `wanted` holds, in order.
pub open spec fn kept_names(names: Seq<Seq<char>>, wanted: Seq<String>) -> Seq<Seq<char>>
    decreases names.len(),
{
    if names.len() == 0 {
        names
    } else if names_contain(wanted, names.last()) {
        kept_names(names.drop_last(), wanted).push(names.last())
    } else {
        kept_names(names.drop_last(), wanted)
    }
}

/// The names of the targets to sync, in the order of `available`: all of them, or
/// those requested, or without a request the default ones.
pub fn select_targets(
    all_targets: bool,
    requested: Option<Vec<String>>,
    defaults: Vec<String>,
    available: &Vec<String>,
) -> (r: Vec<String>)
    ensures
        all_targets ==> crate::text::views(r@) == crate::text::views(available@),
        !all_targets ==> crate::text::views(r@) == kept_names(
            crate::text::views(available@),
            match requested {
                Some(v) => v@,
                None => defaults@,
            },
        ),
{
    let wanted = match requested {
        Some(v) => v,
        None => defaults,
    };
    let mut out: Vec<String> = Vec::new();
    let mut i: usize = 0;
    while i < available.len()
        invariant
            0 <= i <= available@.len(),
            all_targets ==> crate::text::views(out@) == crate::text::views(
                available@.subrange(0, i as int),
            ),
            !all_targets ==> crate::text::views(out@) == kept_names(
                crate::text::views(available@.subrange(0, i as int)),
                wanted@,
            ),
        decreases available@.len() - i,
    {
        let ghost before = out@;
        let ghost vs = crate::text::views(available@.subrange(0, i as int));
        assert(crate::text::views(available@.subrange(0, i + 1)) == vs.push(available@[i as int]@));
        assert(vs.push(available@[i as int]@).drop_last() == vs);
        if all_targets || contains_name(&wanted, available[i].as_str()) {
            let name = available[i].clone();
            out.push(name);
            assert(crate::text::views(out@) == crate::text::views(before).push(name@));
        }
        i = i + 1;
    }
    assert(available@.subrange(0, available@.len() as int) == available@);
    out
}

} // verus!
