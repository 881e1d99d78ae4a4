//! The directory of records: how records are named, which directory entries
//! are records, and how one is chosen or summarised.

use rand::seq::SliceRandom;
use vstd::prelude::*;
use vstd::string::*;

use crate::error::Error;
use crate::record::{Constellation, ConstellationView};
use crate::style::{emphasize, emphasized, Emphasis};

verus! {

/// What every record's file name ends with.
pub open spec fn record_suffix() -> Seq<char> {
    ".json"@
}

/// The file name under which the record called `name` is kept.
pub open spec fn file_name_of(name: Seq<char>) -> Seq<char> {
    name + record_suffix()
}

/// The name of the record kept under `file_name`: what precedes the suffix,
/// if the file name ends with the suffix and something precedes it.
pub open spec fn record_name_of(file_name: Seq<char>) -> Option<Seq<char>> {
    let n = file_name.len() as int;
    let k = record_suffix().len() as int;
    if n > k && file_name.subrange(n - k, n) == record_suffix() {
        Some(file_name.take(n - k))
    } else {
        None
    }
}

/// A record's name is found again in its file's name.
pub proof fn lemma_file_name_round_trip(name: Seq<char>)
    requires
        name.len() > 0,
    ensures
        record_name_of(file_name_of(name)) == Some(name),
{
    let file_name = file_name_of(name);
    let n = file_name.len() as int;
    let k = record_suffix().len() as int;
    assert(file_name.subrange(n - k, n) =~= record_suffix());
    assert(file_name.take(n - k) =~= name);
}

/// A file that is a record's has a name that is not empty, and is called by
/// that name followed by the suffix.
pub proof fn lemma_record_name_is_stem(file_name: Seq<char>)
    requires
        record_name_of(file_name) is Some,
    ensures
        record_name_of(file_name)->Some_0.len() > 0,
        file_name == file_name_of(record_name_of(file_name)->Some_0),
{
    let n = file_name.len() as int;
    let k = record_suffix().len() as int;
    assert(file_name =~= file_name.take(n - k) + file_name.subrange(n - k, n));
}

/// The file name under which the record called `name` is kept.
pub fn record_file_name(name: &str) -> (file_name: String)
    ensures
        file_name@ == file_name_of(name@),
{
    let mut file_name = String::from_str(name);
    file_name.append(".json");
    file_name
}

/// The name of the record kept under `file_name`, if it is a record's.
pub fn record_name(file_name: &str) -> (name: Option<String>)
    ensures
        match record_name_of(file_name@) {
            Some(stem) => name is Some && name->Some_0@ == stem,
            None => name is None,
        },
{
    let suffix = ".json";
    let n = file_name.unicode_len();
    let k = suffix.unicode_len();
    if n > k {
        let tail = String::from_str(file_name.substring_char(n - k, n));
        if tail == String::from_str(suffix) {
            Some(String::from_str(file_name.substring_char(0, n - k)))
        } else {
            None
        }
    } else {
        None
    }
}

/// What a directory entry is, mathematically.
pub struct EntryView {
    pub file_name: Seq<char>,
    pub is_file: bool,
}

/// One entry of the directory of records.
#[derive(Clone, Debug, PartialEq, Eq)]
pub struct DirectoryEntry {
    /// The entry's name within the directory.
    pub file_name: String,
    /// Whether the entry is a regular file.
    pub is_file: bool,
}

impl View for DirectoryEntry {
    type V = EntryView;

    open spec fn view(&self) -> EntryView {
        EntryView { file_name: self.file_name@, is_file: self.is_file }
    }
}

/// The record that a directory entry holds: only a regular file holds one,
/// and only if its name is a record's.
pub open spec fn record_in(entry: EntryView) -> Option<Seq<char>> {
    if entry.is_file {
        record_name_of(entry.file_name)
    } else {
        None
    }
}

/// The names of the records among the entries, in the entries' order.
pub open spec fn listed_names(entries: Seq<EntryView>) -> Seq<Seq<char>> {
    entries.filter_map(|entry: EntryView| record_in(entry))
}

/// Every listed name is the name of a record among the entries.
pub proof fn lemma_listed_names_sound(entries: Seq<EntryView>, name: Seq<char>)
    requires
        listed_names(entries).contains(name),
    ensures
        exists|i: int| 0 <= i < entries.len() && record_in(#[trigger] entries[i]) == Some(name),
    decreases entries.len(),
{
    if entries.len() > 0 {
        let rest = entries.drop_last();
        let found = record_in(entries.last());
        if found == Some(name) {
            assert(record_in(entries[entries.len() - 1]) == Some(name));
        } else {
            let listed = listed_names(entries);
            let i = choose|i: int| 0 <= i < listed.len() && listed[i] == name;
            assert(listed_names(rest)[i] == name);
            lemma_listed_names_sound(rest, name);
            let j = choose|j: int| 0 <= j < rest.len() && record_in(#[trigger] rest[j]) == Some(name);
            assert(entries[j] == rest[j]);
        }
    }
}

/// Every record among the entries is listed.
pub proof fn lemma_listed_names_complete(entries: Seq<EntryView>, i: int)
    requires
        0 <= i < entries.len(),
        record_in(entries[i]) is Some,
    ensures
        listed_names(entries).contains(record_in(entries[i])->Some_0),
    decreases entries.len(),
{
    let rest = entries.drop_last();
    let name = record_in(entries[i])->Some_0;
    if i == entries.len() - 1 {
        let listed = listed_names(entries);
        assert(listed[listed.len() - 1] == name);
    } else {
        assert(rest[i] == entries[i]);
        lemma_listed_names_complete(rest, i);
        let before = listed_names(rest);
        let k = choose|k: int| 0 <= k < before.len() && before[k] == name;
        assert(listed_names(entries)[k] == name);
    }
}

/// Entries of which none is a record list nothing.
pub proof fn lemma_nothing_listed(entries: Seq<EntryView>)
    requires
        forall|i: int| 0 <= i < entries.len() ==> record_in(#[trigger] entries[i]) is None,
    ensures
        listed_names(entries).len() == 0,
    decreases entries.len(),
{
    if entries.len() > 0 {
        let rest = entries.drop_last();
        assert(record_in(entries[entries.len() - 1]) is None);
        assert forall|i: int| 0 <= i < rest.len() implies record_in(#[trigger] rest[i]) is None by {
            assert(rest[i] == entries[i]);
        }
        lemma_nothing_listed(rest);
    }
}

/// The names of the records among the entries of a directory, in the order
/// of the entries: one for each regular file whose name is a record's.
pub fn record_names(entries: &Vec<DirectoryEntry>) -> (names: Vec<String>)
    ensures
        names@.map_values(|name: String| name@) == listed_names(
            entries@.map_values(|entry: DirectoryEntry| entry@),
        ),
{
    let ghost views = entries@.map_values(|entry: DirectoryEntry| entry@);
    let mut names: Vec<String> = Vec::new();
    let mut i: usize = 0;
    assert(views.take(0) =~= Seq::<EntryView>::empty());
    assert(names@.map_values(|name: String| name@) =~= listed_names(views.take(0)));
    while i < entries.len()
        invariant
            i <= entries.len(),
            views == entries@.map_values(|entry: DirectoryEntry| entry@),
            names@.map_values(|name: String| name@) == listed_names(views.take(i as int)),
        decreases entries.len() - i,
    {
        let ghost before = names@.map_values(|name: String| name@);
        proof {
            assert(views.take(i + 1).drop_last() =~= views.take(i as int));
            assert(views.take(i + 1).last() == entries@[i as int]@);
        }
        if entries[i].is_file {
            match record_name(entries[i].file_name.as_str()) {
                Some(name) => {
                    names.push(name);
                    assert(names@.map_values(|name: String| name@) =~= before + seq![name@]);
                },
                None => {},
            }
        }
        i += 1;
    }
    assert(views.take(i as int) =~= views);
    names
}

/// Trusted: `rand::seq::SliceRandom::choose` on the names, with the
/// generator that `rand::thread_rng` hands out, which the system seeds.  It
/// returns nothing for an empty slice and one of the slice's elements
/// otherwise; which one is left open.
#[verifier::external_body]
fn choose_name(names: &Vec<String>) -> (chosen: Option<String>)
    ensures
        chosen is None <==> names@.len() == 0,
        chosen matches Some(name) ==> exists|i: int|
            0 <= i < names@.len() && (#[trigger] names@[i])@ == name@,
{
    names.choose(&mut rand::thread_rng()).cloned()
}

/// What a draw among the names comes to: the name drawn, or the failure to
/// report when there was none to draw.
pub fn drawn_name(chosen: Option<String>) -> (result: Result<String, Error>)
    ensures
        match chosen {
            Some(name) => result == Ok::<String, Error>(name),
            None => result == Err::<String, Error>(Error::EmptyCollection),
        },
{
    match chosen {
        Some(name) => Ok(name),
        None => Err(Error::EmptyCollection),
    }
}

/// Picks one of the names at random.  It fails exactly when there is no
/// name; otherwise the name picked is one of those given.
pub fn pick_random(names: &Vec<String>) -> (result: Result<String, Error>)
    ensures
        names@.len() == 0 <==> result is Err,
        result is Err ==> result == Err::<String, Error>(Error::EmptyCollection),
        result matches Ok(name) ==> exists|i: int|
            0 <= i < names@.len() && (#[trigger] names@[i])@ == name@,
{
    drawn_name(choose_name(names))
}

/// The line that stands for one record in a listing.
pub open spec fn summary(key: Seq<char>, c: ConstellationView, emphasis: Emphasis) -> Seq<char> {
    emphasized(key, emphasis) + " - "@ + c.name + " ("@ + c.quadrant + ")"@
}

/// The line that stands for one record in a listing: the name it is kept
/// under, emphasised, then its display name and, in brackets, its quadrant.
pub fn summary_line(key: &str, constellation: &Constellation, emphasis: Emphasis) -> (line:
    String)
    ensures
        line@ == summary(key@, constellation@, emphasis),
{
    let mut line = emphasize(key, emphasis);
    line.append(" - ");
    line.append(constellation.name.as_str());
    line.append(" (");
    line.append(constellation.quadrant.as_str());
    line.append(")");
    line
}

} // verus!
