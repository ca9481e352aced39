//! The record as environment variables: its key/value view, the `KEY=VALUE`
//! lines and the one-file-per-key layout that exporting writes.
use vstd::prelude::*;
use vstd::string::*;

use crate::constants::{PROJECT_CACHE, PROJECT_CONFIG_HOME, PROJECT_DATA_HOME, PROJECT_ID, PROJECT_ROOT};
use crate::project::{opt_view, Project, ProjectModel};

verus! {

/// An entry of the key/value view: a variable name and, where set, its value.
pub type Entry = (String, Option<String>);

pub open spec fn entry_view(e: Entry) -> (Seq<char>, Option<Seq<char>>) {
    (e.0@, opt_view(e.1))
}

pub open spec fn entries_view(v: Seq<Entry>) -> Seq<(Seq<char>, Option<Seq<char>>)> {
    v.map_values(|e: Entry| entry_view(e))
}

pub open spec fn strings_view(v: Seq<String>) -> Seq<Seq<char>> {
    v.map_values(|s: String| s@)
}

pub open spec fn pairs_view(v: Seq<(String, String)>) -> Seq<(Seq<char>, Seq<char>)> {
    v.map_values(|e: (String, String)| (e.0@, e.1@))
}

/// The key/value view of a record: each variable with its field, in a fixed order.
pub open spec fn entries_of(p: ProjectModel) -> Seq<(Seq<char>, Option<Seq<char>>)> {
    seq![
        (PROJECT_ROOT@, p.root_directory),
        (PROJECT_DATA_HOME@, p.data_home),
        (PROJECT_CONFIG_HOME@, p.config_home),
        (PROJECT_CACHE@, p.cache_home),
        (PROJECT_ID@, p.project_id),
    ]
}

/// One exported line: `KEY=VALUE`, after `export ` where asked for.
pub open spec fn line(key: Seq<char>, value: Seq<char>, export: bool) -> Seq<char> {
    if export {
        "export "@ + key + "="@ + value
    } else {
        key + "="@ + value
    }
}

/// The lines for the entries whose value is present, in order.
pub open spec fn lines_of(entries: Seq<(Seq<char>, Option<Seq<char>>)>, export: bool) -> Seq<
    Seq<char>,
>
    decreases entries.len(),
{
    if entries.len() == 0 {
        seq![]
    } else {
        let before = lines_of(entries.drop_last(), export);
        match entries.last().1 {
            Some(v) => before.push(line(entries.last().0, v, export)),
            None => before,
        }
    }
}

/// The (file name, contents) pairs for the entries whose value is present, in order.
pub open spec fn files_of(entries: Seq<(Seq<char>, Option<Seq<char>>)>) -> Seq<
    (Seq<char>, Seq<char>),
>
    decreases entries.len(),
{
    if entries.len() == 0 {
        seq![]
    } else {
        let before = files_of(entries.drop_last());
        match entries.last().1 {
            Some(v) => before.push((entries.last().0, v)),
            None => before,
        }
    }
}

fn entry(key: &str, value: &Option<String>) -> (r: Entry)
    ensures
        entry_view(r) == (key@, opt_view(*value)),
{
    let v = match value {
        Some(s) => Some(s.clone()),
        None => None,
    };
    (String::from_str(key), v)
}

fn export_line(key: &String, value: &String, export: bool) -> (r: String)
    ensures
        r@ == line(key@, value@, export),
{
    let mut r = if export {
        String::from_str("export ")
    } else {
        String::new()
    };
    r.append(key.as_str());
    r.append("=");
    r.append(value.as_str());
    proof {
        reveal_strlit("export ");
        reveal_strlit("=");
        assert(r@ =~= line(key@, value@, export));
    }
    r
}

impl Project {
    /// The record as environment variables: `PRJ_ROOT`, `PRJ_DATA_HOME`,
    /// `PRJ_CONFIG_HOME`, `PRJ_CACHE` and `PRJ_ID`, each with its field.
    pub fn project_hashmap(&self) -> (r: Vec<Entry>)
        ensures
            entries_view(r@) == entries_of(self@),
    {
        let mut r: Vec<Entry> = Vec::new();
        r.push(entry(PROJECT_ROOT, &self.root_directory));
        r.push(entry(PROJECT_DATA_HOME, &self.data_home));
        r.push(entry(PROJECT_CONFIG_HOME, &self.config_home));
        r.push(entry(PROJECT_CACHE, &self.cache_home));
        r.push(entry(PROJECT_ID, &self.project_id));
        assert(entries_view(r@) =~= entries_of(self@));
        r
    }

    /// The `KEY=VALUE` lines of the variables that are set, each after
    /// `export ` where `export` holds.
    pub fn env_lines(&self, export: bool) -> (r: Vec<String>)
        ensures
            strings_view(r@) == lines_of(entries_of(self@), export),
    {
        let entries = self.project_hashmap();
        let ghost ev = entries_view(entries@);
        let mut r: Vec<String> = Vec::new();
        let mut i: usize = 0;
        while i < entries.len()
            invariant
                i <= entries@.len(),
                ev == entries_view(entries@),
                strings_view(r@) == lines_of(ev.take(i as int), export),
            decreases entries@.len() - i,
        {
            assert(ev.take(i as int + 1).drop_last() =~= ev.take(i as int));
            if let Some(v) = &entries[i].1 {
                r.push(export_line(&entries[i].0, v, export));
                assert(strings_view(r@) =~= lines_of(ev.take(i as int + 1), export));
            }
            i = i + 1;
        }
        assert(ev.take(i as int) =~= ev);
        r
    }

    /// The files that exporting to a directory writes: one per variable that
    /// is set, named after it and holding its value.
    pub fn env_files(&self) -> (r: Vec<(String, String)>)
        ensures
            pairs_view(r@) == files_of(entries_of(self@)),
    {
        let entries = self.project_hashmap();
        let ghost ev = entries_view(entries@);
        let mut r: Vec<(String, String)> = Vec::new();
        let mut i: usize = 0;
        while i < entries.len()
            invariant
                i <= entries@.len(),
                ev == entries_view(entries@),
                pairs_view(r@) == files_of(ev.take(i as int)),
            decreases entries@.len() - i,
        {
            assert(ev.take(i as int + 1).drop_last() =~= ev.take(i as int));
            if let Some(v) = &entries[i].1 {
                r.push((entries[i].0.clone(), v.clone()));
                assert(pairs_view(r@) =~= files_of(ev.take(i as int + 1)));
            }
            i = i + 1;
        }
        assert(ev.take(i as int) =~= ev);
        r
    }
}

} // verus!
