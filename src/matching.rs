use vstd::prelude::*;

use crate::cli::MatchOption;
use crate::text::{has_substring, lower_of, lowercase, str_contains};

verus! {

/// Whether `text` meets `targets` under `policy`, comparing characters as they are.
pub open spec fn targets_satisfied(text: Seq<char>, targets: Seq<Seq<char>>, policy: MatchOption) -> bool {
    match policy {
        MatchOption::All => forall|j: int| 0 <= j < targets.len() ==> has_substring(text, #[trigger] targets[j]),
        MatchOption::Any => exists|j: int| 0 <= j < targets.len() && has_substring(text, #[trigger] targets[j]),
        MatchOption::NoneOf => !exists|j: int| 0 <= j < targets.len() && has_substring(text, #[trigger] targets[j]),
    }
}

/// The targets as they are compared without regard to case.
pub open spec fn lowered(targets: Seq<Seq<char>>) -> Seq<Seq<char>> {
    targets.map_values(|t: Seq<char>| lower_of(t))
}

/// Whether `text` meets `targets` under `policy`; without case sensitivity
/// both sides are lowercased first.
pub open spec fn text_satisfies(
    text: Seq<char>,
    targets: Seq<Seq<char>>,
    policy: MatchOption,
    case_sensitive: bool,
) -> bool {
    if case_sensitive {
        targets_satisfied(text, targets, policy)
    } else {
        targets_satisfied(lower_of(text), lowered(targets), policy)
    }
}

/// Checks `text` against `targets` under `match_option`, character for character.
pub fn match_targets(text: &str, targets: &Vec<String>, match_option: MatchOption) -> (r: bool)
    ensures
        r == targets_satisfied(text@, targets.deep_view(), match_option),
{
    let ghost tv = targets.deep_view();
    let mut all = true;
    let mut any = false;
    for i in 0..targets.len()
        invariant
            tv == targets.deep_view(),
            tv.len() == targets@.len(),
            forall|j: int| 0 <= j < tv.len() ==> #[trigger] tv[j] == targets@[j]@,
            all == (forall|j: int| 0 <= j < i ==> has_substring(text@, #[trigger] tv[j])),
            any == (exists|j: int| 0 <= j < i && has_substring(text@, #[trigger] tv[j])),
    {
        let hit = str_contains(text, targets[i].as_str());
        proof {
            assert(tv[i as int] == targets@[i as int]@);
        }
        all = all && hit;
        any = any || hit;
    }
    match match_option {
        MatchOption::All => all,
        MatchOption::Any => any,
        MatchOption::NoneOf => !any,
    }
}

/// Checks `text` against `targets` under `match_option`, lowercasing both
/// sides first when `case_sensitiv` is false.
pub fn text_matches(text: &str, targets: &Vec<String>, match_option: MatchOption, case_sensitiv: bool) -> (r: bool)
    ensures
        r == text_satisfies(text@, targets.deep_view(), match_option, case_sensitiv),
{
    if case_sensitiv {
        return match_targets(text, targets, match_option);
    }
    let lowered_text = lowercase(text);
    let mut lowered_targets: Vec<String> = Vec::new();
    for i in 0..targets.len()
        invariant
            lowered_targets@.len() == i,
            forall|j: int| 0 <= j < i ==> #[trigger] lowered_targets@[j]@ == lower_of(targets@[j]@),
    {
        lowered_targets.push(lowercase(targets[i].as_str()));
    }
    let r = match_targets(lowered_text.as_str(), &lowered_targets, match_option);
    assert(lowered_targets.deep_view() =~= lowered(targets.deep_view()));
    r
}

/// The NONE policy holds exactly where ANY does not: a text that contains no
/// target matches, one that contains any target does not.
pub proof fn lemma_none_is_not_any(text: Seq<char>, targets: Seq<Seq<char>>, case_sensitive: bool)
    ensures
        text_satisfies(text, targets, MatchOption::NoneOf, case_sensitive)
            == !text_satisfies(text, targets, MatchOption::Any, case_sensitive),
{
}

} // verus!
