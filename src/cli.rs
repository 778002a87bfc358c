use vstd::prelude::*;

use crate::filter::{
    texts_of, EntryTypeFilter, FileContentFilter, FilenameFilter, Filter,
};

verus! {

/// How the targets of one predicate combine.
#[derive(Copy, Clone, Debug, PartialEq, Eq, Structural)]
pub enum MatchOption {
    /// Every target must occur.
    All,
    /// At least one target must occur.
    Any,
    /// No target may occur.
    NoneOf,
}

/// Which kinds of entries a search keeps.
#[derive(Copy, Clone, Debug, PartialEq, Eq, Structural)]
pub enum ResultFilter {
    All,
    Directory,
    File,
    SymLink,
}

/// Requested order of results.
#[derive(Copy, Clone, Debug, PartialEq, Eq, Structural)]
pub enum OrderBy {
    Unordered,
    Name,
    Path,
    Size,
}

/// The command line: where to search, how deep, how many results to show,
/// and what to search for.
#[derive(Clone, Debug)]
pub struct Cli {
    pub search_paths: Vec<String>,
    pub depth: usize,
    pub max_results: usize,
    pub search: Option<Search>,
}

/// What to match: base names, or file contents.
#[derive(Clone, Debug)]
pub enum Search {
    Name(SearchTypeArgs),
    Content(SearchTypeArgs),
}

/// The targets of a search and how they are matched.
#[derive(Clone, Debug)]
pub struct SearchTypeArgs {
    pub names: Vec<String>,
    pub case_sensisitiv: bool,
    pub match_option: MatchOption,
    pub order_by: Option<OrderBy>,
    pub result_filter: ResultFilter,
}

impl MatchOption {
    /// The word for this policy on the command line.
    pub fn label(&self) -> (r: &'static str)
        ensures
            r@ == match self {
                MatchOption::All => "all"@,
                MatchOption::Any => "any"@,
                MatchOption::NoneOf => "none"@,
            },
    {
        match self {
            MatchOption::All => "all",
            MatchOption::Any => "any",
            MatchOption::NoneOf => "none",
        }
    }

    /// The policy picked from the menu entries "All", "Any" and "None";
    /// anything else stands for the default, `Any`.
    pub fn from_menu_label(label: &str) -> (r: Self)
        ensures
            r == if label@ == "All"@ {
                MatchOption::All
            } else if label@ == "None"@ {
                MatchOption::NoneOf
            } else {
                MatchOption::Any
            },
    {
        let label = String::from_str(label);
        if label == String::from_str("All") {
            MatchOption::All
        } else if label == String::from_str("None") {
            MatchOption::NoneOf
        } else {
            MatchOption::Any
        }
    }
}

impl ResultFilter {
    /// The word for this filter on the command line.
    pub fn label(&self) -> (r: &'static str)
        ensures
            r@ == match self {
                ResultFilter::All => "all"@,
                ResultFilter::Directory => "directory"@,
                ResultFilter::File => "file"@,
                ResultFilter::SymLink => "symlink"@,
            },
    {
        match self {
            ResultFilter::All => "all",
            ResultFilter::Directory => "directory",
            ResultFilter::File => "file",
            ResultFilter::SymLink => "symlink",
        }
    }

    /// The filter picked from the menu entries "All", "Directory", "File" and
    /// "Symlink"; anything else stands for `All`.
    pub fn from_menu_label(label: &str) -> (r: Self)
        ensures
            r == if label@ == "Directory"@ {
                ResultFilter::Directory
            } else if label@ == "File"@ {
                ResultFilter::File
            } else if label@ == "Symlink"@ {
                ResultFilter::SymLink
            } else {
                ResultFilter::All
            },
    {
        let label = String::from_str(label);
        if label == String::from_str("Directory") {
            ResultFilter::Directory
        } else if label == String::from_str("File") {
            ResultFilter::File
        } else if label == String::from_str("Symlink") {
            ResultFilter::SymLink
        } else {
            ResultFilter::All
        }
    }
}

/// `f` is a name predicate with these targets, policy and case sensitivity.
pub open spec fn is_name_filter(f: Filter, targets: Seq<Seq<char>>, policy: MatchOption, case_sensitive: bool) -> bool {
    &&& f is Name
    &&& f->Name_0.targets() == targets
    &&& f->Name_0.policy() == policy
    &&& f->Name_0.case_sensitive() == case_sensitive
}

/// `f` is a content predicate with these words, policy and case sensitivity.
pub open spec fn is_content_filter(f: Filter, words: Seq<Seq<char>>, policy: MatchOption, case_sensitive: bool) -> bool {
    &&& f is Content
    &&& f->Content_0.targets() == words
    &&& f->Content_0.policy() == policy
    &&& f->Content_0.case_sensitive() == case_sensitive
}

/// `f` is a type predicate for `result_type`.
pub open spec fn is_type_filter(f: Filter, result_type: ResultFilter) -> bool {
    f is EntryType && f->EntryType_0.result_type() == result_type
}

fn str_refs(items: &Vec<String>) -> (r: Vec<&str>)
    ensures
        texts_of(r@) == items.deep_view(),
{
    let mut out: Vec<&str> = Vec::new();
    for i in 0..items.len()
        invariant
            out@.len() == i,
            forall|j: int| 0 <= j < i ==> #[trigger] out@[j]@ == items@[j]@,
    {
        out.push(items[i].as_str());
    }
    assert(texts_of(out@) =~= items.deep_view());
    out
}

/// The predicates that a command line asks for: none without a search;
/// otherwise the name or content predicate over its targets, then the type
/// predicate.
pub fn create_filters_from_cli(cli: &Cli) -> (r: Vec<Filter>)
    ensures
        match cli.search {
            None => r@.len() == 0,
            Some(Search::Name(args)) => {
                &&& r@.len() == 2
                &&& is_name_filter(r@[0], args.names.deep_view(), args.match_option, args.case_sensisitiv)
                &&& is_type_filter(r@[1], args.result_filter)
            },
            Some(Search::Content(args)) => {
                &&& r@.len() == 2
                &&& is_content_filter(r@[0], args.names.deep_view(), args.match_option, args.case_sensisitiv)
                &&& is_type_filter(r@[1], args.result_filter)
            },
        },
{
    let mut filters: Vec<Filter> = Vec::new();
    match &cli.search {
        Some(Search::Name(args)) => {
            let names = str_refs(&args.names);
            let name_filter = FilenameFilter::new(names.as_slice(), args.match_option, args.case_sensisitiv);
            filters.push(Filter::Name(name_filter));
            filters.push(Filter::EntryType(EntryTypeFilter::new(args.result_filter)));
        },
        Some(Search::Content(args)) => {
            let words = str_refs(&args.names);
            let content_filter = FileContentFilter::new(words.as_slice(), args.match_option, args.case_sensisitiv);
            filters.push(Filter::Content(content_filter));
            filters.push(Filter::EntryType(EntryTypeFilter::new(args.result_filter)));
        },
        None => {},
    }
    filters
}

/// The predicates that the interactive questions ask for: a name predicate
/// where names were given, a content predicate where words were given, and
/// always the type predicate last.
pub fn create_filters_for_dialogue(
    filenames: Vec<String>,
    filename_match_option: Option<MatchOption>,
    filename_case_sensitiv: Option<bool>,
    filecontents: Vec<String>,
    filecontent_match_option: Option<MatchOption>,
    filecontent_case_sensitiv: Option<bool>,
    results_filter: ResultFilter,
) -> (r: Vec<Filter>)
    requires
        filenames@.len() > 0 ==> filename_match_option is Some && filename_case_sensitiv is Some,
        filecontents@.len() > 0 ==> filecontent_match_option is Some && filecontent_case_sensitiv is Some,
    ensures
        ({
            let n: int = if filenames@.len() > 0 { 1 } else { 0 };
            let c: int = if filecontents@.len() > 0 { 1 } else { 0 };
            &&& r@.len() == n + c + 1
            &&& n == 1 ==> is_name_filter(
                r@[0],
                filenames.deep_view(),
                filename_match_option->Some_0,
                filename_case_sensitiv->Some_0,
            )
            &&& c == 1 ==> is_content_filter(
                r@[n],
                filecontents.deep_view(),
                filecontent_match_option->Some_0,
                filecontent_case_sensitiv->Some_0,
            )
            &&& is_type_filter(r@[n + c], results_filter)
        }),
{
    let mut filters: Vec<Filter> = Vec::new();
    if filenames.len() > 0 {
        let names = str_refs(&filenames);
        let name_filter = FilenameFilter::new(
            names.as_slice(),
            filename_match_option.unwrap(),
            filename_case_sensitiv.unwrap(),
        );
        filters.push(Filter::Name(name_filter));
    }
    if filecontents.len() > 0 {
        let words = str_refs(&filecontents);
        let content_filter = FileContentFilter::new(
            words.as_slice(),
            filecontent_match_option.unwrap(),
            filecontent_case_sensitiv.unwrap(),
        );
        filters.push(Filter::Content(content_filter));
    }
    filters.push(Filter::EntryType(EntryTypeFilter::new(results_filter)));
    filters
}

} // verus!
