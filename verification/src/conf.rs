//! Configuration sections and errors.
//!
//! A configuration artifact is a tree of named sections: the top-level name
//! is the module kind, each nested sub-section is one module instance, and a
//! section body maps string keys to values. Only string values are
//! meaningful to the modules; a non-string value under a key is kept as
//! `None`, and lookups treat it exactly like an absent key.

use vstd::prelude::*;
use vstd::string::StringExecFns;

use crate::strutil::str_eq;

verus! {

/// One key/value pair of a section body. `value` is `None` when the
/// configuration held a non-string value under the key.
pub struct Entry {
    pub key: String,
    pub value: Option<String>,
}

pub ghost struct EntryView {
    pub key: Seq<char>,
    pub value: Option<Seq<char>>,
}

impl DeepView for Entry {
    type V = EntryView;

    open spec fn deep_view(&self) -> EntryView {
        EntryView { key: self.key@, value: self.value.deep_view() }
    }
}

/// One module instance of the configuration: its kind (the top-level section
/// name) and its key/value body.
pub struct Section {
    pub kind: String,
    pub entries: Vec<Entry>,
}

pub ghost struct SectionView {
    pub kind: Seq<char>,
    pub entries: Seq<EntryView>,
}

impl DeepView for Section {
    type V = SectionView;

    open spec fn deep_view(&self) -> SectionView {
        SectionView { kind: self.kind@, entries: self.entries.deep_view() }
    }
}

/// A configuration failure: every one of these aborts the whole launch
/// attempt for the machine.
#[derive(Debug)]
pub enum ConfError {
    /// The artifact text is not a well-formed configuration.
    Parse,
    /// A section lacks a required key (or holds a non-string value under it).
    MissingKey { key: String },
    /// A section kind that no module implements.
    UnknownKind { kind: String },
    /// A section kind that was retired in favour of the tap module kinds.
    DeprecatedKind { kind: String },
    /// No machine name was given on the command line.
    MissingMachineName,
    /// The named machine is not in the registry.
    UnknownMachine { name: String },
    /// A box repository name that is not of the `vendor/name` form.
    InvalidRepoName { name: String },
}

pub ghost enum ConfErrorView {
    Parse,
    MissingKey { key: Seq<char> },
    UnknownKind { kind: Seq<char> },
    DeprecatedKind { kind: Seq<char> },
    MissingMachineName,
    UnknownMachine { name: Seq<char> },
    InvalidRepoName { name: Seq<char> },
}

impl DeepView for ConfError {
    type V = ConfErrorView;

    open spec fn deep_view(&self) -> ConfErrorView {
        match self {
            ConfError::Parse => ConfErrorView::Parse,
            ConfError::MissingKey { key } => ConfErrorView::MissingKey { key: key@ },
            ConfError::UnknownKind { kind } => ConfErrorView::UnknownKind { kind: kind@ },
            ConfError::DeprecatedKind { kind } => ConfErrorView::DeprecatedKind { kind: kind@ },
            ConfError::MissingMachineName => ConfErrorView::MissingMachineName,
            ConfError::UnknownMachine { name } => ConfErrorView::UnknownMachine { name: name@ },
            ConfError::InvalidRepoName { name } => ConfErrorView::InvalidRepoName { name: name@ },
        }
    }
}

/// The message with which each failure is reported to the operator.
pub open spec fn spec_message(e: ConfErrorView) -> Seq<char> {
    match e {
        ConfErrorView::Parse => "Cannot parse configuration"@,
        ConfErrorView::MissingKey { key } => "Expecting "@ + key + " as a string"@,
        ConfErrorView::UnknownKind { kind } => "unknown module "@ + kind,
        ConfErrorView::DeprecatedKind { kind } => "'"@ + kind
            + "' deprecated, consider using 'macvtap'/'tapbridge' module"@,
        ConfErrorView::MissingMachineName => "Expecting a machine name"@,
        ConfErrorView::UnknownMachine { name } => "Cannot find machine "@ + name,
        ConfErrorView::InvalidRepoName { name } => "Invalid repo name "@ + name,
    }
}

impl ConfError {
    /// A human-readable description of the failure.
    pub fn message(&self) -> (r: String)
        ensures
            r@ == spec_message(self.deep_view()),
    {
        match self {
            ConfError::Parse => "Cannot parse configuration".to_owned(),
            ConfError::MissingKey { key } => {
                let mut m = "Expecting ".to_owned();
                m.append(key.as_str());
                m.append(" as a string");
                m
            },
            ConfError::UnknownKind { kind } => {
                let mut m = "unknown module ".to_owned();
                m.append(kind.as_str());
                m
            },
            ConfError::DeprecatedKind { kind } => {
                let mut m = "'".to_owned();
                m.append(kind.as_str());
                m.append("' deprecated, consider using 'macvtap'/'tapbridge' module");
                m
            },
            ConfError::MissingMachineName => "Expecting a machine name".to_owned(),
            ConfError::UnknownMachine { name } => {
                let mut m = "Cannot find machine ".to_owned();
                m.append(name.as_str());
                m
            },
            ConfError::InvalidRepoName { name } => {
                let mut m = "Invalid repo name ".to_owned();
                m.append(name.as_str());
                m
            },
        }
    }
}

/// The value under `key` in a section body: `None` when no entry carries the
/// key, `Some(v)` for the first entry that does (`v` is `None` when the
/// configuration held a non-string value there).
pub open spec fn spec_lookup(entries: Seq<EntryView>, key: Seq<char>) -> Option<Option<Seq<char>>>
    decreases entries.len(),
{
    if entries.len() == 0 {
        None
    } else if entries[0].key == key {
        Some(entries[0].value)
    } else {
        spec_lookup(entries.drop_first(), key)
    }
}

/// The string value under `key`, when the section has one.
pub open spec fn spec_get_string(entries: Seq<EntryView>, key: Seq<char>) -> Option<Seq<char>> {
    match spec_lookup(entries, key) {
        Some(v) => v,
        None => None,
    }
}

impl Section {
    fn find_value(&self, key: &str) -> (r: Option<&Option<String>>)
        ensures
            match r {
                Some(v) => spec_lookup(self.entries.deep_view(), key@) == Some(v.deep_view()),
                None => spec_lookup(self.entries.deep_view(), key@) is None,
            },
    {
        let ghost all = self.entries.deep_view();
        proof {
            assert(all.skip(0) =~= all);
        }
        let mut i: usize = 0;
        while i < self.entries.len()
            invariant
                i <= self.entries.len(),
                all == self.entries.deep_view(),
                all.len() == self.entries.len(),
                spec_lookup(all, key@) == spec_lookup(all.skip(i as int), key@),
            decreases self.entries.len() - i,
        {
            proof {
                assert(all.skip(i as int)[0] == all[i as int]);
                assert(all.skip(i as int).drop_first() =~= all.skip(i + 1));
            }
            let e = &self.entries[i];
            if str_eq(e.key.as_str(), key) {
                return Some(&e.value);
            }
            i += 1;
        }
        proof {
            assert(all.skip(i as int) =~= Seq::<EntryView>::empty());
        }
        None
    }

    /// The string value that the section must hold under `key`; a missing
    /// key, like a non-string value, is a fatal configuration error naming
    /// the key.
    pub fn get_string(&self, key: &str) -> (r: Result<String, ConfError>)
        ensures
            match r {
                Ok(v) => spec_get_string(self.entries.deep_view(), key@) == Some(v@),
                Err(e) => spec_get_string(self.entries.deep_view(), key@) is None
                    && e.deep_view() == (ConfErrorView::MissingKey { key: key@ }),
            },
    {
        match self.find_value(key) {
            Some(Some(v)) => Ok(v.clone()),
            _ => Err(ConfError::MissingKey { key: key.to_owned() }),
        }
    }

    /// The string value under `key`, when the section has one.
    pub fn get_option_string(&self, key: &str) -> (r: Option<String>)
        ensures
            r.deep_view() == spec_get_string(self.entries.deep_view(), key@),
    {
        match self.find_value(key) {
            Some(Some(v)) => Some(v.clone()),
            _ => None,
        }
    }
}

/// The sections that the configuration text parses into, in the order the
/// parser yields them, or `None` when the text is not a well-formed
/// configuration tree.
pub uninterp spec fn spec_parse_sections(text: Seq<char>) -> Option<Seq<SectionView>>;

/// Relies on toml::from_str and toml::Value::{as_table, as_str}: parsing a
/// configuration text into its tree of named sections is a function of the
/// text alone, and each second-level table becomes one section of its
/// top-level name.
#[verifier::external_body]
pub(crate) fn parse_sections(text: &str) -> (r: Option<Vec<Section>>)
    ensures
        r matches Some(v) ==> spec_parse_sections(text@) matches Some(s) && v.deep_view() == s,
        r is Some <==> spec_parse_sections(text@) is Some,
{
    let table: toml::Table = toml::from_str(text).ok()?;
    let mut out = Vec::new();
    for (kind, group) in table {
        for (_, sec) in group.as_table()? {
            let body = sec.as_table()?;
            let entries = body.iter().map(
                |(k, v)| Entry { key: k.clone(), value: v.as_str().map(String::from) },
            ).collect();
            out.push(Section { kind: kind.clone(), entries });
        }
    }
    Some(out)
}

} // verus!
