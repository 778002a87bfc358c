use vstd::prelude::*;

use crate::entry::{Entry, EntryKind, Metadata};
use crate::error::SearchError;
use crate::cli::ResultFilter;
use crate::filter::{Filter, SearchFilter};
use crate::text::{debug_of, debug_quoted, truncate, truncated};

verus! {

/// How far below its roots a search descends.
pub enum SearchMode {
    TopLevelOnly,
    Recursive,
}

/// What one step of a directory walk yields: an entry, or the reason it could not be read.
pub type WalkItem = Result<Entry, SearchError>;

/// A matched entry, typed, as it was when it was visited.
#[derive(Clone, Debug)]
pub enum SearchResult {
    Directory { path: String, name: String, metadata: Option<Metadata> },
    File { path: String, name: String, metadata: Option<Metadata> },
    SymLink { path: String, name: String, metadata: Option<Metadata> },
}

/// The result that a retained entry becomes: regular files and directories
/// keep their type, everything else is reported as a symbolic link.
pub open spec fn result_of(e: Entry) -> SearchResult {
    match e.kind {
        EntryKind::File => SearchResult::File { path: e.path, name: e.name, metadata: e.metadata },
        EntryKind::Directory => SearchResult::Directory { path: e.path, name: e.name, metadata: e.metadata },
        _ => SearchResult::SymLink { path: e.path, name: e.name, metadata: e.metadata },
    }
}

/// Builds the result for a retained entry.
pub fn map_filetype(entry: &Entry) -> (r: SearchResult)
    ensures
        r == result_of(*entry),
{
    let path = entry.path.clone();
    let name = entry.name.clone();
    let metadata = entry.metadata;
    match entry.kind {
        EntryKind::File => SearchResult::File { path, name, metadata },
        EntryKind::Directory => SearchResult::Directory { path, name, metadata },
        _ => SearchResult::SymLink { path, name, metadata },
    }
}

/// How many characters of a path a summary line shows.
pub const SUMMARY_PATH_CHARS: usize = 50;

impl SearchResult {
    pub open spec fn path_of(self) -> String {
        match self {
            SearchResult::Directory { path, .. } => path,
            SearchResult::File { path, .. } => path,
            SearchResult::SymLink { path, .. } => path,
        }
    }

    pub open spec fn name_of(self) -> String {
        match self {
            SearchResult::Directory { name, .. } => name,
            SearchResult::File { name, .. } => name,
            SearchResult::SymLink { name, .. } => name,
        }
    }

    pub open spec fn metadata_of(self) -> Option<Metadata> {
        match self {
            SearchResult::Directory { metadata, .. } => metadata,
            SearchResult::File { metadata, .. } => metadata,
            SearchResult::SymLink { metadata, .. } => metadata,
        }
    }

    /// The entry's path, as it was at scan time.
    pub fn path(&self) -> (r: String)
        ensures
            r == self.path_of(),
    {
        match self {
            SearchResult::Directory { path, .. } => path.clone(),
            SearchResult::File { path, .. } => path.clone(),
            SearchResult::SymLink { path, .. } => path.clone(),
        }
    }

    /// The entry's base name.
    pub fn name(&self) -> (r: String)
        ensures
            r == self.name_of(),
    {
        match self {
            SearchResult::Directory { name, .. } => name.clone(),
            SearchResult::File { name, .. } => name.clone(),
            SearchResult::SymLink { name, .. } => name.clone(),
        }
    }

    /// The metadata read at scan time, where it could be read.
    pub fn metadata(&self) -> (r: Option<Metadata>)
        ensures
            r == self.metadata_of(),
    {
        match self {
            SearchResult::Directory { metadata, .. } => *metadata,
            SearchResult::File { metadata, .. } => *metadata,
            SearchResult::SymLink { metadata, .. } => *metadata,
        }
    }

    /// The type tag.
    pub fn file_type(&self) -> (r: EntryKind)
        ensures
            r == match self {
                SearchResult::Directory { .. } => EntryKind::Directory,
                SearchResult::File { .. } => EntryKind::File,
                SearchResult::SymLink { .. } => EntryKind::SymLink,
            },
    {
        match self {
            SearchResult::Directory { .. } => EntryKind::Directory,
            SearchResult::File { .. } => EntryKind::File,
            SearchResult::SymLink { .. } => EntryKind::SymLink,
        }
    }

    /// The one-line summary, from the quoted name and the quoted path.
    pub open spec fn summary_text(self, quoted_name: Seq<char>, quoted_path: Seq<char>) -> Seq<char> {
        let prefix = match self {
            SearchResult::Directory { .. } => "(D): "@,
            SearchResult::File { .. } => "(f): "@,
            SearchResult::SymLink { .. } => "(s): "@,
        };
        prefix + quoted_name + ", path: "@ + quoted_path
    }

    /// Lays out the summary line around an already quoted name and path.
    pub fn summary_with(&self, quoted_name: &str, quoted_path: &str) -> (r: String)
        ensures
            r@ == self.summary_text(quoted_name@, quoted_path@),
    {
        let mut line = match self {
            SearchResult::Directory { .. } => String::from_str("(D): "),
            SearchResult::File { .. } => String::from_str("(f): "),
            SearchResult::SymLink { .. } => String::from_str("(s): "),
        };
        line.append(quoted_name);
        line.append(", path: ");
        line.append(quoted_path);
        line
    }

    /// A one-line summary for listing: the type, the quoted name, and the
    /// quoted path cut to its first characters.
    pub fn summary(&self) -> (r: String)
        ensures
            r@ == self.summary_text(
                debug_of(self.name_of()@),
                debug_of(truncated(self.path_of()@, SUMMARY_PATH_CHARS as nat)),
            ),
    {
        let name = self.name();
        let path = self.path();
        let quoted_name = debug_quoted(name.as_str());
        let quoted_path = debug_quoted(truncate(path.as_str(), SUMMARY_PATH_CHARS));
        self.summary_with(quoted_name.as_str(), quoted_path.as_str())
    }

    /// The notice shown when an entry is acted on, from the quoted path.
    pub open spec fn opening_text(self, quoted_path: Seq<char>) -> Seq<char> {
        let prefix = match self {
            SearchResult::Directory { .. } => "(D) Opening: "@,
            SearchResult::File { .. } => "(F) Opening: "@,
            SearchResult::SymLink { .. } => "(S) Opening: "@,
        };
        prefix + quoted_path
    }

    /// Lays out the notice around an already quoted path.
    pub fn opening_with(&self, quoted_path: &str) -> (r: String)
        ensures
            r@ == self.opening_text(quoted_path@),
    {
        let mut line = match self {
            SearchResult::Directory { .. } => String::from_str("(D) Opening: "),
            SearchResult::File { .. } => String::from_str("(F) Opening: "),
            SearchResult::SymLink { .. } => String::from_str("(S) Opening: "),
        };
        line.append(quoted_path);
        line
    }

    /// The notice shown when an entry is acted on: its type and quoted path.
    pub fn opening_message(&self) -> (r: String)
        ensures
            r@ == self.opening_text(debug_of(self.path_of()@)),
    {
        let path = self.path();
        let quoted_path = debug_quoted(path.as_str());
        self.opening_with(quoted_path.as_str())
    }
}

/// The results that `found` adds: one, or none.
pub open spec fn as_seq(found: Option<SearchResult>) -> Seq<SearchResult> {
    match found {
        Some(r) => seq![r],
        None => Seq::empty(),
    }
}

/// The walk engine: a set of predicates, all of which an entry must pass,
/// and a bound on depth.
pub struct FileSearcher {
    filters: Vec<Filter>,
    max_depth: usize,
}

impl FileSearcher {
    pub closed spec fn filters(&self) -> Seq<Filter> {
        self.filters@
    }

    pub closed spec fn depth_limit(&self) -> usize {
        self.max_depth
    }

    /// Every predicate of the set accepts `e`; an empty set accepts everything.
    pub open spec fn accepts(&self, e: Entry) -> bool {
        forall|i: int| 0 <= i < self.filters().len() ==> (#[trigger] self.filters()[i]).accepts(e)
    }

    /// What one walk step contributes: the result of an entry within the depth
    /// bound that every predicate accepts; nothing for anything else,
    /// unreadable steps included.
    pub open spec fn retains(&self, item: WalkItem) -> Option<SearchResult> {
        match item {
            Ok(e) => if e.depth <= self.depth_limit() && self.accepts(e) {
                Some(result_of(e))
            } else {
                None
            },
            Err(_) => None,
        }
    }

    /// The results of one walk, in walk order.
    pub open spec fn found_in(&self, walk: Seq<WalkItem>) -> Seq<SearchResult> {
        walk.filter_map(|item: WalkItem| self.retains(item))
    }

    /// The results of several walks, concatenated in the order of their roots.
    pub open spec fn found_in_walks(&self, walks: Seq<Vec<WalkItem>>) -> Seq<SearchResult> {
        walks.map_values(|w: Vec<WalkItem>| self.found_in(w@)).flatten()
    }

    pub fn new(filters: Vec<Filter>, max_depth: usize) -> (r: Self)
        ensures
            r.filters() == filters@,
            r.depth_limit() == max_depth,
    {
        Self { filters, max_depth }
    }

    /// The depth bound, for the walk that feeds this searcher.
    pub fn max_depth(&self) -> (r: usize)
        ensures
            r == self.depth_limit(),
    {
        self.max_depth
    }

    /// Whether some predicate needs the contents of files, so that the walk
    /// has to read them.
    pub fn reads_content(&self) -> (r: bool)
        ensures
            r == exists|i: int| 0 <= i < self.filters().len() && (#[trigger] self.filters()[i]) is Content,
    {
        let mut found = false;
        for i in 0..self.filters.len()
            invariant
                found == exists|j: int| 0 <= j < i && (#[trigger] self.filters()[j]) is Content,
        {
            if self.filters[i].reads_content() {
                found = true;
            }
        }
        found
    }

    /// Applies every predicate to `entry`; true when all accept it.
    pub fn check_filters(&self, entry: &Entry) -> (r: bool)
        ensures
            r == self.accepts(*entry),
    {
        if self.filters.len() == 0 {
            return true;
        }
        let mut filter_result = true;
        for i in 0..self.filters.len()
            invariant
                filter_result == forall|j: int| 0 <= j < i ==> (#[trigger] self.filters()[j]).accepts(*entry),
        {
            if !self.filters[i].check_filter(entry) {
                filter_result = false;
            }
        }
        filter_result
    }

    /// Takes one step of a walk: appends its result when the entry is kept.
    /// A step that could not be read is skipped.
    pub fn visit(&self, results: &mut Vec<SearchResult>, item: &WalkItem)
        ensures
            final(results)@ == old(results)@ + as_seq(self.retains(*item)),
    {
        match item {
            Ok(entry) => {
                if entry.depth <= self.max_depth && self.check_filters(entry) {
                    results.push(map_filetype(entry));
                }
            },
            Err(_) => {},
        }
        assert(final(results)@ =~= old(results)@ + as_seq(self.retains(*item)));
    }

    /// The results of one walk, in the order the walk visited them.
    pub fn search_path(&self, walk: &Vec<WalkItem>) -> (r: Vec<SearchResult>)
        ensures
            r@ == self.found_in(walk@),
    {
        let mut results: Vec<SearchResult> = Vec::new();
        for i in 0..walk.len()
            invariant
                results@ == self.found_in(walk@.take(i as int)),
        {
            proof {
                walk@.lemma_filter_map_take_succ(|item: WalkItem| self.retains(item), i as int);
            }
            self.visit(&mut results, &walk[i]);
        }
        assert(walk@.take(walk@.len() as int) =~= walk@);
        results
    }

    /// The results of the walks of several roots, concatenated in root order
    /// with nothing removed, even where roots overlap.
    pub fn search_paths(&self, walks: &Vec<Vec<WalkItem>>) -> (r: Vec<SearchResult>)
        ensures
            r@ == self.found_in_walks(walks@),
    {
        let mut results: Vec<SearchResult> = Vec::new();
        for i in 0..walks.len()
            invariant
                results@ == self.found_in_walks(walks@.take(i as int)),
        {
            let mut found = self.search_path(&walks[i]);
            proof {
                let f = |w: Vec<WalkItem>| self.found_in(w@);
                assert(walks@.take(i + 1).map_values(f) =~= walks@.take(i as int).map_values(f).push(f(walks@[i as int])));
                walks@.take(i as int).map_values(f).lemma_flatten_push(f(walks@[i as int]));
            }
            results.append(&mut found);
        }
        assert(walks@.take(walks@.len() as int) =~= walks@);
        results
    }
}

/// What a search without predicates makes of one walk step: the result of
/// any entry within the depth bound `d`.
pub open spec fn within_bound(d: usize, item: WalkItem) -> Option<SearchResult> {
    match item {
        Ok(e) => if e.depth <= d {
            Some(result_of(e))
        } else {
            None
        },
        Err(_) => None,
    }
}

/// Whether result `r` has the type that the type filter `rf` asks for.
pub open spec fn has_type(rf: ResultFilter, r: SearchResult) -> bool {
    match rf {
        ResultFilter::All => true,
        ResultFilter::Directory => r is Directory,
        ResultFilter::File => r is File,
        ResultFilter::SymLink => r is SymLink,
    }
}

/// Each result of a walk is the result of an entry that the walk visited,
/// that lies within the depth bound and that every predicate accepts.
pub proof fn lemma_result_origin(s: FileSearcher, walk: Seq<WalkItem>, r: SearchResult)
    requires
        s.found_in(walk).contains(r),
    ensures
        exists|e: Entry|
            #[trigger] walk.contains(Ok(e)) && e.depth <= s.depth_limit() && s.accepts(e)
                && result_of(e) == r,
{
    let f = |item: WalkItem| s.retains(item);
    walk.lemma_filter_map_contains(f, r);
    let t = choose|t: WalkItem| #[trigger] walk.contains(t) && f(t) == Some(r);
    let e = t->Ok_0;
    assert(walk.contains(Ok(e)));
}

/// Each result of several walks is a result of one of them.
pub proof fn lemma_walks_origin(s: FileSearcher, walks: Seq<Vec<WalkItem>>, r: SearchResult)
    requires
        s.found_in_walks(walks).contains(r),
    ensures
        exists|i: int| 0 <= i < walks.len() && #[trigger] s.found_in(walks[i]@).contains(r),
    decreases walks.len(),
{
    let f = |w: Vec<WalkItem>| s.found_in(w@);
    let m = walks.map_values(f);
    assert(m.len() > 0);
    assert(m.drop_first() =~= walks.drop_first().map_values(f));
    let k = choose|k: int| 0 <= k < m.flatten().len() && m.flatten()[k] == r;
    if k < m.first().len() {
        assert(m.first()[k] == r);
        assert(s.found_in(walks[0]@).contains(r));
    } else {
        assert(m.drop_first().flatten()[k - m.first().len()] == r);
        lemma_walks_origin(s, walks.drop_first(), r);
        let i = choose|i: int| 0 <= i < walks.drop_first().len() && #[trigger] s.found_in(walks.drop_first()[i]@).contains(r);
        assert(walks.drop_first()[i] == walks[i + 1]);
    }
}

/// Depth bound: no result lies more than the bound below its root; each is
/// the result of an entry that one of the walks visited at a depth no greater
/// than the bound.
pub proof fn lemma_depth_bound(s: FileSearcher, walks: Seq<Vec<WalkItem>>, r: SearchResult)
    requires
        s.found_in_walks(walks).contains(r),
    ensures
        exists|i: int, e: Entry|
            0 <= i < walks.len() && #[trigger] walks[i]@.contains(Ok(e)) && e.depth <= s.depth_limit()
                && result_of(e) == r,
{
    lemma_walks_origin(s, walks, r);
    let i = choose|i: int| 0 <= i < walks.len() && #[trigger] s.found_in(walks[i]@).contains(r);
    lemma_result_origin(s, walks[i]@, r);
}

/// A search without predicates keeps every entry of the walk that lies within
/// the depth bound, and only those.
pub proof fn lemma_empty_set_keeps_all(s: FileSearcher, walk: Seq<WalkItem>)
    requires
        s.filters().len() == 0,
    ensures
        s.found_in(walk) == walk.filter_map(|item: WalkItem| within_bound(s.depth_limit(), item)),
{
    let f = |item: WalkItem| s.retains(item);
    let g = |item: WalkItem| within_bound(s.depth_limit(), item);
    assert(f =~= g);
}

/// Type filter exactness: where the predicate set holds a type filter, every
/// result has the type it asks for, whatever the other predicates accept.
pub proof fn lemma_type_filter_exact(s: FileSearcher, walks: Seq<Vec<WalkItem>>, k: int, r: SearchResult)
    requires
        0 <= k < s.filters().len(),
        s.filters()[k] is EntryType,
        s.found_in_walks(walks).contains(r),
    ensures
        has_type(s.filters()[k]->EntryType_0.result_type(), r),
{
    lemma_walks_origin(s, walks, r);
    let i = choose|i: int| 0 <= i < walks.len() && #[trigger] s.found_in(walks[i]@).contains(r);
    lemma_result_origin(s, walks[i]@, r);
    let e = choose|e: Entry|
        #[trigger] walks[i]@.contains(Ok(e)) && e.depth <= s.depth_limit() && s.accepts(e) && result_of(e) == r;
    assert(s.filters()[k].accepts(e));
}

/// Searching two roots gives the results of the first followed by those of
/// the second, with nothing removed, also where the two walks are the same.
pub proof fn lemma_two_roots_concatenate(s: FileSearcher, first: Vec<WalkItem>, second: Vec<WalkItem>)
    ensures
        s.found_in_walks(seq![first, second]) == s.found_in(first@) + s.found_in(second@),
{
    let f = |w: Vec<WalkItem>| s.found_in(w@);
    let m = seq![first, second].map_values(f);
    assert(m =~= seq![f(first), f(second)]);
    assert(m.drop_first() =~= seq![f(second)]);
    m.drop_first().lemma_flatten_one_element();
}

/// An entry whose contents could not be read is never a result of a search
/// that holds a content predicate; the step is simply passed over.
pub proof fn lemma_unreadable_content_skipped(s: FileSearcher, k: int, e: Entry)
    requires
        0 <= k < s.filters().len(),
        s.filters()[k] is Content,
        e.content is None,
    ensures
        s.retains(Ok(e)) is None,
{
    assert(!s.filters()[k].accepts(e));
}

} // verus!
