//! Display records: the four-way file kind, classification of entry
//! names, construction of a record from plain entry data, and the
//! rendering of one output line.

use crate::calendar::{spec_date_string, spec_time_string, timestamp_strings, MAX_TIMESTAMP_SECS};
use crate::digits::{spec_decimal, u64_to_string};
use vstd::prelude::*;

verus! {

/// The kind of a directory entry: hidden means the name begins with `.`.
#[derive(Clone, Copy, Debug, PartialEq, Eq, Structural)]
pub enum FileKind {
    Regular,
    Directory,
    HiddenRegular,
    HiddenDirectory,
}

/// Plain metadata of one successfully read directory entry: the name,
/// the modification time as whole seconds since the Unix epoch, the byte
/// length, and whether the metadata reports a regular file.
pub struct EntryMeta {
    pub name: String,
    pub secs: u64,
    pub size: u64,
    pub is_file: bool,
}

/// The mathematical model of an entry's metadata.
#[verifier::ext_equal]
pub ghost struct EntryModel {
    pub name: Seq<char>,
    pub secs: int,
    pub size: int,
    pub is_file: bool,
}

impl View for EntryMeta {
    type V = EntryModel;

    open spec fn view(&self) -> EntryModel {
        EntryModel {
            name: self.name@,
            secs: self.secs as int,
            size: self.size as int,
            is_file: self.is_file,
        }
    }
}

/// One line of the listing, ready to print: name, rendered date and
/// time, size, and the kind that decides the name's color group.
pub struct DisplayRecord {
    pub name: String,
    pub date: String,
    pub time: String,
    pub size: u64,
    pub kind: FileKind,
}

/// The mathematical model of a display record.
#[verifier::ext_equal]
pub ghost struct RecordModel {
    pub name: Seq<char>,
    pub date: Seq<char>,
    pub time: Seq<char>,
    pub size: int,
    pub kind: FileKind,
}

impl View for DisplayRecord {
    type V = RecordModel;

    open spec fn view(&self) -> RecordModel {
        RecordModel {
            name: self.name@,
            date: self.date@,
            time: self.time@,
            size: self.size as int,
            kind: self.kind,
        }
    }
}

/// The kind of an entry: hidden when the name begins with `.`, directory
/// when the metadata does not report a regular file.
pub open spec fn spec_kind(name: Seq<char>, is_file: bool) -> FileKind {
    if name.len() > 0 && name[0] == '.' {
        if is_file {
            FileKind::HiddenRegular
        } else {
            FileKind::HiddenDirectory
        }
    } else {
        if is_file {
            FileKind::Regular
        } else {
            FileKind::Directory
        }
    }
}

/// A hidden name always classifies as one of the two hidden kinds,
/// whatever the metadata reports.
pub proof fn lemma_hidden_name_classifies_hidden(name: Seq<char>, is_file: bool)
    requires
        name.len() > 0,
        name[0] == '.',
    ensures
        spec_kind(name, is_file) == FileKind::HiddenRegular || spec_kind(name, is_file)
            == FileKind::HiddenDirectory,
{
}

/// The record derived from one enumeration step: a read entry carries
/// its own fields, an unreadable one the placeholder with empty strings,
/// size zero and the plain `Regular` kind.
pub open spec fn spec_record(e: Option<EntryModel>) -> RecordModel {
    match e {
        Some(m) => RecordModel {
            name: m.name,
            date: spec_date_string(m.secs),
            time: spec_time_string(m.secs),
            size: m.size,
            kind: spec_kind(m.name, m.is_file),
        },
        None => RecordModel {
            name: Seq::empty(),
            date: Seq::empty(),
            time: Seq::empty(),
            size: 0,
            kind: FileKind::Regular,
        },
    }
}

/// Relies on `str::starts_with` with a `char` pattern: true exactly when
/// the string's first character is that character.
#[verifier::external_body]
fn starts_with_dot(s: &str) -> (r: bool)
    ensures
        r == (s@.len() > 0 && s@[0] == '.'),
{
    s.starts_with('.')
}

/// Classifies an entry by its name and its file-vs-directory flag.
pub fn classify(name: &str, is_file: bool) -> (k: FileKind)
    ensures
        k == spec_kind(name@, is_file),
{
    if starts_with_dot(name) {
        if is_file {
            FileKind::HiddenRegular
        } else {
            FileKind::HiddenDirectory
        }
    } else {
        if is_file {
            FileKind::Regular
        } else {
            FileKind::Directory
        }
    }
}

impl DisplayRecord {
    /// Builds the record for one successfully read entry.
    pub fn from_entry(meta: &EntryMeta) -> (r: DisplayRecord)
        requires
            meta.secs <= MAX_TIMESTAMP_SECS,
        ensures
            r@ == spec_record(Some(meta@)),
    {
        let kind = classify(meta.name.as_str(), meta.is_file);
        let (date, time) = timestamp_strings(meta.secs);
        let r = DisplayRecord { name: meta.name.clone(), date, time, size: meta.size, kind };
        proof {
            assert(r@ =~= spec_record(Some(meta@)));
        }
        r
    }

    /// Builds the placeholder record for an entry whose metadata could
    /// not be read: empty name, date and time, size zero, kind `Regular`.
    pub fn placeholder() -> (r: DisplayRecord)
        ensures
            r@ == spec_record(None),
    {
        let r = DisplayRecord {
            name: String::new(),
            date: String::new(),
            time: String::new(),
            size: 0,
            kind: FileKind::Regular,
        };
        proof {
            assert(r@ =~= spec_record(None));
        }
        r
    }

    /// True for the kinds whose name is rendered in the directory color
    /// group; false for the two regular-file kinds.
    pub fn uses_directory_color(&self) -> (b: bool)
        ensures
            b == (self.kind == FileKind::Directory || self.kind == FileKind::HiddenDirectory),
    {
        match self.kind {
            FileKind::Directory => true,
            FileKind::HiddenDirectory => true,
            FileKind::Regular => false,
            FileKind::HiddenRegular => false,
        }
    }
}

/// The plain text of one output line: name, date, time and size,
/// separated by single spaces.
pub open spec fn spec_line(m: RecordModel) -> Seq<char> {
    m.name + seq![' '] + m.date + seq![' '] + m.time + seq![' '] + spec_decimal(m.size)
}

impl DisplayRecord {
    /// Renders the record as one plain (uncolored) output line.
    pub fn render_line(&self) -> (s: String)
        ensures
            s@ == spec_line(self@),
    {
        let mut s = self.name.clone();
        s.append(" ");
        s.append(self.date.as_str());
        s.append(" ");
        s.append(self.time.as_str());
        s.append(" ");
        s.append(u64_to_string(self.size).as_str());
        proof {
            reveal_strlit(" ");
            assert(" "@ =~= seq![' ']);
            assert(s@ =~= spec_line(self@));
        }
        s
    }
}

} // verus!
