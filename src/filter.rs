use vstd::prelude::*;

use crate::cli::{MatchOption, ResultFilter};
use crate::entry::{Entry, EntryKind};
use crate::matching::{text_matches, text_satisfies};

verus! {

/// A boolean test over one entry.
pub trait SearchFilter {
    /// Whether the test holds of `entry`.
    spec fn accepts(&self, entry: Entry) -> bool;

    fn check_filter(&self, entry: &Entry) -> (r: bool)
        ensures
            r == self.accepts(*entry),
    ;
}

/// Tests an entry's base name against a list of targets.
pub struct FilenameFilter {
    file_names: Vec<String>,
    match_option: MatchOption,
    case_sensitiv: bool,
}

/// Tests a file's contents against a list of words.
pub struct FileContentFilter {
    words: Vec<String>,
    match_option: MatchOption,
    case_sensitiv: bool,
}

/// Tests an entry's type.
pub struct EntryTypeFilter {
    result_type: ResultFilter,
}

/// The texts of a slice of string slices.
pub open spec fn texts_of(items: Seq<&str>) -> Seq<Seq<char>> {
    items.map_values(|s: &str| s@)
}

fn owned_strings(items: &[&str]) -> (r: Vec<String>)
    ensures
        r.deep_view() == texts_of(items@),
{
    let mut out: Vec<String> = Vec::new();
    for i in 0..items.len()
        invariant
            out@.len() == i,
            forall|j: int| 0 <= j < i ==> #[trigger] out@[j]@ == items@[j]@,
    {
        out.push(String::from_str(items[i]));
    }
    assert(out.deep_view() =~= texts_of(items@));
    out
}

impl FilenameFilter {
    pub closed spec fn targets(&self) -> Seq<Seq<char>> {
        self.file_names.deep_view()
    }

    pub closed spec fn policy(&self) -> MatchOption {
        self.match_option
    }

    pub closed spec fn case_sensitive(&self) -> bool {
        self.case_sensitiv
    }

    pub fn new(file_names: &[&str], match_option: MatchOption, case_sensitiv: bool) -> (r: Self)
        ensures
            r.targets() == texts_of(file_names@),
            r.policy() == match_option,
            r.case_sensitive() == case_sensitiv,
    {
        let file_names = owned_strings(file_names);
        Self { file_names, match_option, case_sensitiv }
    }
}

impl SearchFilter for FilenameFilter {
    open spec fn accepts(&self, entry: Entry) -> bool {
        entry.name_is_utf8 && text_satisfies(entry.name@, self.targets(), self.policy(), self.case_sensitive())
    }

    fn check_filter(&self, entry: &Entry) -> (r: bool) {
        if !entry.name_is_utf8 {
            return false;
        }
        text_matches(entry.name.as_str(), &self.file_names, self.match_option, self.case_sensitiv)
    }
}

impl FileContentFilter {
    pub closed spec fn targets(&self) -> Seq<Seq<char>> {
        self.words.deep_view()
    }

    pub closed spec fn policy(&self) -> MatchOption {
        self.match_option
    }

    pub closed spec fn case_sensitive(&self) -> bool {
        self.case_sensitiv
    }

    pub fn new(words: &[&str], match_option: MatchOption, case_sensitiv: bool) -> (r: Self)
        ensures
            r.targets() == texts_of(words@),
            r.policy() == match_option,
            r.case_sensitive() == case_sensitiv,
    {
        let words = owned_strings(words);
        Self { words, match_option, case_sensitiv }
    }

    /// Checks the text of a file against the words.
    pub fn check_content(&self, content: &str) -> (r: bool)
        ensures
            r == text_satisfies(content@, self.targets(), self.policy(), self.case_sensitive()),
    {
        text_matches(content, &self.words, self.match_option, self.case_sensitiv)
    }
}

impl SearchFilter for FileContentFilter {
    /// Contents that could not be read never match.
    open spec fn accepts(&self, entry: Entry) -> bool {
        match entry.content {
            Some(c) => text_satisfies(c@, self.targets(), self.policy(), self.case_sensitive()),
            None => false,
        }
    }

    fn check_filter(&self, entry: &Entry) -> (r: bool) {
        match &entry.content {
            Some(c) => self.check_content(c.as_str()),
            None => false,
        }
    }
}

/// Whether an entry of kind `kind` passes the type filter `result_type`.
pub open spec fn kind_passes(result_type: ResultFilter, kind: EntryKind) -> bool {
    match result_type {
        ResultFilter::All => true,
        ResultFilter::Directory => kind == EntryKind::Directory,
        ResultFilter::File => kind == EntryKind::File,
        ResultFilter::SymLink => kind == EntryKind::SymLink,
    }
}

impl EntryTypeFilter {
    pub closed spec fn result_type(&self) -> ResultFilter {
        self.result_type
    }

    pub fn new(entry_type: ResultFilter) -> (r: Self)
        ensures
            r.result_type() == entry_type,
    {
        Self { result_type: entry_type }
    }
}

impl SearchFilter for EntryTypeFilter {
    open spec fn accepts(&self, entry: Entry) -> bool {
        kind_passes(self.result_type(), entry.kind)
    }

    fn check_filter(&self, entry: &Entry) -> (r: bool) {
        match self.result_type {
            ResultFilter::All => true,
            ResultFilter::Directory => entry.kind == EntryKind::Directory,
            ResultFilter::File => entry.kind == EntryKind::File,
            ResultFilter::SymLink => entry.kind == EntryKind::SymLink,
        }
    }
}

/// One predicate of a search: one of the three kinds of test.
pub enum Filter {
    Name(FilenameFilter),
    Content(FileContentFilter),
    EntryType(EntryTypeFilter),
}

impl Filter {
    /// Whether evaluating this predicate needs the contents of files.
    pub fn reads_content(&self) -> (r: bool)
        ensures
            r == (self is Content),
    {
        match self {
            Filter::Content(_) => true,
            _ => false,
        }
    }
}

impl SearchFilter for Filter {
    open spec fn accepts(&self, entry: Entry) -> bool {
        match self {
            Filter::Name(f) => f.accepts(entry),
            Filter::Content(f) => f.accepts(entry),
            Filter::EntryType(f) => f.accepts(entry),
        }
    }

    fn check_filter(&self, entry: &Entry) -> (r: bool) {
        match self {
            Filter::Name(f) => f.check_filter(entry),
            Filter::Content(f) => f.check_filter(entry),
            Filter::EntryType(f) => f.check_filter(entry),
        }
    }
}

} // verus!
