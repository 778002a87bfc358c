use fs_rs::cli::{
    create_filters_for_dialogue, create_filters_from_cli, Cli, MatchOption, ResultFilter, Search,
    SearchTypeArgs,
};
use fs_rs::entry::{Entry, EntryKind, Metadata};
use fs_rs::error::SearchError;
use fs_rs::filter::{EntryTypeFilter, FileContentFilter, FilenameFilter, Filter, SearchFilter};
use fs_rs::matching::{match_targets, text_matches};
use fs_rs::search::{map_filetype, FileSearcher, SearchResult, WalkItem};
use fs_rs::text::truncate;

fn entry(path: &str, name: &str, kind: EntryKind, depth: usize, content: Option<&str>) -> Entry {
    Entry {
        path: path.to_string(),
        name: name.to_string(),
        name_is_utf8: true,
        kind,
        depth,
        metadata: None,
        content: content.map(|c| c.to_string()),
    }
}

fn names_of(results: &[SearchResult]) -> Vec<String> {
    results.iter().map(|r| r.name()).collect()
}

fn strings(items: &[&str]) -> Vec<String> {
    items.iter().map(|s| s.to_string()).collect()
}

fn unreadable() -> WalkItem {
    Err(SearchError::IO(std::io::Error::other("permission denied")))
}

#[test]
fn name_policy_all_needs_every_target() {
    let f = FilenameFilter::new(&["a", "b"], MatchOption::All, true);
    assert!(f.check_filter(&entry("/r/ab", "ab", EntryKind::File, 1, None)));
    assert!(!f.check_filter(&entry("/r/a", "a", EntryKind::File, 1, None)));
}

#[test]
fn name_policy_any_needs_one_target() {
    let f = FilenameFilter::new(&["a", "b"], MatchOption::Any, true);
    assert!(f.check_filter(&entry("/r/a", "a", EntryKind::File, 1, None)));
    assert!(!f.check_filter(&entry("/r/c", "c", EntryKind::File, 1, None)));
}

#[test]
fn name_policy_none_rejects_any_target() {
    let f = FilenameFilter::new(&["a", "b"], MatchOption::NoneOf, true);
    assert!(f.check_filter(&entry("/r/xyz", "xyz", EntryKind::File, 1, None)));
    assert!(!f.check_filter(&entry("/r/a", "a", EntryKind::File, 1, None)));
    assert!(!f.check_filter(&entry("/r/b", "b", EntryKind::File, 1, None)));
}

#[test]
fn name_case_insensitive_matches_other_case() {
    let f = FilenameFilter::new(&["Foo"], MatchOption::Any, false);
    assert!(f.check_filter(&entry("/r/foo.txt", "foo.txt", EntryKind::File, 1, None)));
}

#[test]
fn name_case_sensitive_rejects_other_case() {
    let f = FilenameFilter::new(&["Foo"], MatchOption::Any, true);
    assert!(!f.check_filter(&entry("/r/foo.txt", "foo.txt", EntryKind::File, 1, None)));
}

#[test]
fn name_not_utf8_never_matches() {
    let mut e = entry("/r/x", "x", EntryKind::File, 1, None);
    e.name_is_utf8 = false;
    let none = FilenameFilter::new(&["zzz"], MatchOption::NoneOf, true);
    assert!(!none.check_filter(&e));
    let any = FilenameFilter::new(&["x"], MatchOption::Any, true);
    assert!(!any.check_filter(&e));
}

#[test]
fn empty_target_list_by_policy() {
    let targets: Vec<String> = Vec::new();
    assert!(match_targets("abc", &targets, MatchOption::All));
    assert!(!match_targets("abc", &targets, MatchOption::Any));
    assert!(match_targets("abc", &targets, MatchOption::NoneOf));
}

#[test]
fn match_targets_compares_characters_exactly() {
    let targets = strings(&["lo w", "LO"]);
    assert!(match_targets("hello world", &targets, MatchOption::Any));
    assert!(!match_targets("hello world", &targets, MatchOption::All));
    assert!(match_targets("", &strings(&[""]), MatchOption::All));
}

#[test]
fn text_matches_lowercases_both_sides() {
    let targets = strings(&["WORLD", "Hello"]);
    assert!(text_matches("hello World", &targets, MatchOption::All, false));
    assert!(!text_matches("hello World", &targets, MatchOption::All, true));
    assert!(!text_matches("HELLO", &strings(&["world"]), MatchOption::Any, false));
}

#[test]
fn content_unreadable_is_false() {
    let f = FileContentFilter::new(&["hello"], MatchOption::Any, true);
    assert!(!f.check_filter(&entry("/r/bin", "bin", EntryKind::File, 1, None)));
    let none = FileContentFilter::new(&["hello"], MatchOption::NoneOf, true);
    assert!(!none.check_filter(&entry("/r/bin", "bin", EntryKind::File, 1, None)));
    assert!(f.check_filter(&entry("/r/t", "t", EntryKind::File, 1, Some("say hello"))));
}

#[test]
fn content_check_content_words() {
    let f = FileContentFilter::new(&["Hello", "planet"], MatchOption::Any, false);
    assert!(f.check_content("hello world"));
    assert!(!f.check_content("goodbye world"));
}

#[test]
fn content_unreadable_file_does_not_stop_the_walk() {
    let filters = vec![Filter::Content(FileContentFilter::new(&["x"], MatchOption::Any, true))];
    let searcher = FileSearcher::new(filters, 10);
    let walk = vec![
        Ok(entry("/r/a.bin", "a.bin", EntryKind::File, 1, None)),
        unreadable(),
        Ok(entry("/r/b.txt", "b.txt", EntryKind::File, 1, Some("x marks"))),
    ];
    let results = searcher.search_path(&walk);
    assert_eq!(names_of(&results), vec!["b.txt".to_string()]);
}

#[test]
fn type_filter_kinds() {
    let d = entry("/r/d", "d", EntryKind::Directory, 1, None);
    let f = entry("/r/f", "f", EntryKind::File, 1, None);
    let s = entry("/r/s", "s", EntryKind::SymLink, 1, None);
    let o = entry("/r/o", "o", EntryKind::Other, 1, None);
    let all = EntryTypeFilter::new(ResultFilter::All);
    assert!(all.check_filter(&d) && all.check_filter(&f) && all.check_filter(&s) && all.check_filter(&o));
    let file = EntryTypeFilter::new(ResultFilter::File);
    assert!(file.check_filter(&f) && !file.check_filter(&d) && !file.check_filter(&s));
    let dir = EntryTypeFilter::new(ResultFilter::Directory);
    assert!(dir.check_filter(&d) && !dir.check_filter(&f));
    let link = EntryTypeFilter::new(ResultFilter::SymLink);
    assert!(link.check_filter(&s) && !link.check_filter(&o) && !link.check_filter(&f));
}

#[test]
fn type_filter_file_excludes_matching_dirs_and_links() {
    let filters = vec![
        Filter::Name(FilenameFilter::new(&["data"], MatchOption::Any, true)),
        Filter::EntryType(EntryTypeFilter::new(ResultFilter::File)),
    ];
    let searcher = FileSearcher::new(filters, 5);
    let walk = vec![
        Ok(entry("/r/data", "data", EntryKind::Directory, 1, None)),
        Ok(entry("/r/data.lnk", "data.lnk", EntryKind::SymLink, 1, None)),
        Ok(entry("/r/data.csv", "data.csv", EntryKind::File, 1, None)),
    ];
    let results = searcher.search_path(&walk);
    assert_eq!(results.len(), 1);
    assert_eq!(results[0].file_type(), EntryKind::File);
    assert_eq!(results[0].name(), "data.csv");
}

#[test]
fn depth_bound_drops_deeper_entries() {
    let searcher = FileSearcher::new(Vec::new(), 1);
    let walk = vec![
        Ok(entry("/r", "r", EntryKind::Directory, 0, None)),
        Ok(entry("/r/a", "a", EntryKind::Directory, 1, None)),
        Ok(entry("/r/a/b", "b", EntryKind::File, 2, None)),
        Ok(entry("/r/c", "c", EntryKind::File, 1, None)),
    ];
    let results = searcher.search_path(&walk);
    assert_eq!(names_of(&results), strings(&["r", "a", "c"]));
    let top = FileSearcher::new(Vec::new(), 0);
    assert_eq!(names_of(&top.search_path(&walk)), strings(&["r"]));
    assert_eq!(searcher.max_depth(), 1);
}

#[test]
fn empty_predicate_set_returns_everything_reachable() {
    let searcher = FileSearcher::new(Vec::new(), 100);
    let walk = vec![
        Ok(entry("/r", "r", EntryKind::Directory, 0, None)),
        unreadable(),
        Ok(entry("/r/x", "x", EntryKind::File, 1, None)),
        Ok(entry("/r/l", "l", EntryKind::SymLink, 1, None)),
        Ok(entry("/r/p", "p", EntryKind::Other, 1, None)),
    ];
    let results = searcher.search_path(&walk);
    assert_eq!(names_of(&results), strings(&["r", "x", "l", "p"]));
    assert_eq!(results[3].file_type(), EntryKind::SymLink);
}

#[test]
fn empty_walk_gives_no_results() {
    let searcher = FileSearcher::new(Vec::new(), 3);
    assert!(searcher.search_path(&Vec::new()).is_empty());
    assert!(searcher.search_paths(&Vec::new()).is_empty());
}

#[test]
fn two_roots_concatenate_in_order() {
    let filters = vec![Filter::Name(FilenameFilter::new(&["hit"], MatchOption::Any, true))];
    let searcher = FileSearcher::new(filters, 4);
    let first = vec![
        Ok(entry("/one", "one", EntryKind::Directory, 0, None)),
        Ok(entry("/one/hit1", "hit1", EntryKind::File, 1, None)),
    ];
    let second = vec![
        Ok(entry("/two", "two", EntryKind::Directory, 0, None)),
        Ok(entry("/two/hit2", "hit2", EntryKind::File, 1, None)),
    ];
    let results = searcher.search_paths(&vec![first, second]);
    assert_eq!(names_of(&results), strings(&["hit1", "hit2"]));
}

#[test]
fn overlapping_roots_are_not_deduplicated() {
    let filters = vec![Filter::Name(FilenameFilter::new(&["hit"], MatchOption::Any, true))];
    let searcher = FileSearcher::new(filters, 4);
    let walk = || vec![Ok(entry("/one/hit", "hit", EntryKind::File, 1, None))];
    let results = searcher.search_paths(&vec![walk(), walk()]);
    assert_eq!(results.len(), 2);
    assert_eq!(results[0].path(), results[1].path());
}

#[test]
fn visit_appends_kept_entries_only() {
    let searcher = FileSearcher::new(Vec::new(), 0);
    let mut results = Vec::new();
    searcher.visit(&mut results, &Ok(entry("/r", "r", EntryKind::Directory, 0, None)));
    searcher.visit(&mut results, &Ok(entry("/r/a", "a", EntryKind::File, 1, None)));
    searcher.visit(&mut results, &unreadable());
    assert_eq!(names_of(&results), strings(&["r"]));
}

fn scenario_walk() -> Vec<WalkItem> {
    vec![
        Ok(entry("root", "root", EntryKind::Directory, 0, None)),
        Ok(entry("root/notes.txt", "notes.txt", EntryKind::File, 1, Some("hello world"))),
        Ok(entry("root/photo.png", "photo.png", EntryKind::File, 1, None)),
        Ok(entry("root/docs", "docs", EntryKind::Directory, 1, None)),
        Ok(entry("root/docs/report.txt", "report.txt", EntryKind::File, 2, Some("hello"))),
    ]
}

#[test]
fn scenario_name_and_type_filter() {
    let filters = vec![
        Filter::Name(FilenameFilter::new(&["txt"], MatchOption::Any, false)),
        Filter::EntryType(EntryTypeFilter::new(ResultFilter::File)),
    ];
    let searcher = FileSearcher::new(filters, 10);
    let results = searcher.search_paths(&vec![scenario_walk()]);
    let paths: Vec<String> = results.iter().map(|r| r.path()).collect();
    assert_eq!(paths, strings(&["root/notes.txt", "root/docs/report.txt"]));
}

#[test]
fn scenario_content_narrows_to_notes() {
    let filters = vec![
        Filter::Name(FilenameFilter::new(&["txt"], MatchOption::Any, false)),
        Filter::Content(FileContentFilter::new(&["world"], MatchOption::Any, false)),
        Filter::EntryType(EntryTypeFilter::new(ResultFilter::File)),
    ];
    let searcher = FileSearcher::new(filters, 10);
    assert!(searcher.reads_content());
    let results = searcher.search_paths(&vec![scenario_walk()]);
    let paths: Vec<String> = results.iter().map(|r| r.path()).collect();
    assert_eq!(paths, strings(&["root/notes.txt"]));
}

#[test]
fn reads_content_only_with_content_predicate() {
    let searcher = FileSearcher::new(vec![Filter::EntryType(EntryTypeFilter::new(ResultFilter::All))], 1);
    assert!(!searcher.reads_content());
    assert!(!Filter::Name(FilenameFilter::new(&["a"], MatchOption::Any, true)).reads_content());
    assert!(Filter::Content(FileContentFilter::new(&["a"], MatchOption::Any, true)).reads_content());
}

#[test]
fn map_filetype_keeps_fields() {
    let meta = Metadata { size: 12, modified: Some(1_700_000_000), created: None };
    let mut e = entry("/r/f", "f", EntryKind::File, 1, None);
    e.metadata = Some(meta);
    let r = map_filetype(&e);
    assert_eq!(r.file_type(), EntryKind::File);
    assert_eq!(r.path(), "/r/f");
    assert_eq!(r.name(), "f");
    assert_eq!(r.metadata(), Some(meta));
    let d = map_filetype(&entry("/r/d", "d", EntryKind::Directory, 1, None));
    assert_eq!(d.file_type(), EntryKind::Directory);
    let o = map_filetype(&entry("/r/o", "o", EntryKind::Other, 1, None));
    assert_eq!(o.file_type(), EntryKind::SymLink);
}

#[test]
fn truncate_cuts_after_characters() {
    assert_eq!(truncate("hello", 2), "he");
    assert_eq!(truncate("hello", 5), "hello");
    assert_eq!(truncate("hello", 9), "hello");
    assert_eq!(truncate("héllo", 2), "hé");
    assert_eq!(truncate("", 0), "");
}

#[test]
fn summary_quotes_name_and_cut_path() {
    let long: String = std::iter::repeat('a').take(60).collect();
    let r = SearchResult::File { path: long.clone(), name: "n\"q".to_string(), metadata: None };
    let expected = format!("(f): \"n\\\"q\", path: \"{}\"", &long[..50]);
    assert_eq!(r.summary(), expected);
    let d = SearchResult::Directory { path: "/x".to_string(), name: "x".to_string(), metadata: None };
    assert_eq!(d.summary(), "(D): \"x\", path: \"/x\"");
    let s = SearchResult::SymLink { path: "/l".to_string(), name: "l".to_string(), metadata: None };
    assert_eq!(s.summary_with("N", "P"), "(s): N, path: P");
}

#[test]
fn opening_message_by_type() {
    let f = SearchResult::File { path: "/a b".to_string(), name: "a b".to_string(), metadata: None };
    assert_eq!(f.opening_message(), "(F) Opening: \"/a b\"");
    let d = SearchResult::Directory { path: "/d".to_string(), name: "d".to_string(), metadata: None };
    assert_eq!(d.opening_with("Q"), "(D) Opening: Q");
    let s = SearchResult::SymLink { path: "/s".to_string(), name: "s".to_string(), metadata: None };
    assert_eq!(s.opening_message(), "(S) Opening: \"/s\"");
}

#[test]
fn labels_and_menu_choices() {
    assert_eq!(MatchOption::All.label(), "all");
    assert_eq!(MatchOption::Any.label(), "any");
    assert_eq!(MatchOption::NoneOf.label(), "none");
    assert_eq!(ResultFilter::SymLink.label(), "symlink");
    assert_eq!(ResultFilter::Directory.label(), "directory");
    assert_eq!(MatchOption::from_menu_label("All"), MatchOption::All);
    assert_eq!(MatchOption::from_menu_label("None"), MatchOption::NoneOf);
    assert_eq!(MatchOption::from_menu_label("whatever"), MatchOption::Any);
    assert_eq!(ResultFilter::from_menu_label("Directory"), ResultFilter::Directory);
    assert_eq!(ResultFilter::from_menu_label("File"), ResultFilter::File);
    assert_eq!(ResultFilter::from_menu_label("Symlink"), ResultFilter::SymLink);
    assert_eq!(ResultFilter::from_menu_label("All"), ResultFilter::All);
}

fn args(names: &[&str], result_filter: ResultFilter) -> SearchTypeArgs {
    SearchTypeArgs {
        names: strings(names),
        case_sensisitiv: false,
        match_option: MatchOption::Any,
        order_by: None,
        result_filter,
    }
}

#[test]
fn filters_from_cli() {
    let mut cli = Cli { search_paths: strings(&["."]), depth: 10000, max_results: 10, search: None };
    assert!(create_filters_from_cli(&cli).is_empty());
    cli.search = Some(Search::Name(args(&["txt"], ResultFilter::File)));
    let filters = create_filters_from_cli(&cli);
    assert_eq!(filters.len(), 2);
    let searcher = FileSearcher::new(filters, 10);
    let results = searcher.search_path(&scenario_walk());
    assert_eq!(names_of(&results), strings(&["notes.txt", "report.txt"]));
    cli.search = Some(Search::Content(args(&["WORLD"], ResultFilter::All)));
    let filters = create_filters_from_cli(&cli);
    assert!(matches!(filters[0], Filter::Content(_)));
    let searcher = FileSearcher::new(filters, 10);
    assert_eq!(names_of(&searcher.search_path(&scenario_walk())), strings(&["notes.txt"]));
}

#[test]
fn filters_for_dialogue() {
    let only_type = create_filters_for_dialogue(Vec::new(), None, None, Vec::new(), None, None, ResultFilter::Directory);
    assert_eq!(only_type.len(), 1);
    let searcher = FileSearcher::new(only_type, 10);
    assert_eq!(names_of(&searcher.search_path(&scenario_walk())), strings(&["root", "docs"]));
    let both = create_filters_for_dialogue(
        strings(&["TXT"]),
        Some(MatchOption::Any),
        Some(false),
        strings(&["hello"]),
        Some(MatchOption::All),
        Some(true),
        ResultFilter::All,
    );
    assert_eq!(both.len(), 3);
    assert!(matches!(both[0], Filter::Name(_)));
    assert!(matches!(both[1], Filter::Content(_)));
    assert!(matches!(both[2], Filter::EntryType(_)));
    let searcher = FileSearcher::new(both, 10);
    assert_eq!(names_of(&searcher.search_path(&scenario_walk())), strings(&["notes.txt", "report.txt"]));
}
