//! Classification of a Quick Access path against the whitelist and blacklist rules.
use vstd::prelude::*;

use crate::rules::{Rule, RuleScope, RuleType};
use crate::text::{chars_of, contains_chars, contains_seq, to_lowercase, unicode_lowercase};

verus! {

/// The outcome of classifying one path.
#[derive(Debug, Clone, PartialEq, Eq)]
pub enum MatchResult {
    Protected { rule_id: i64, keyword: String },
    Targeted { rule_id: i64, keyword: String },
    Neutral,
}

/// `rule` is an enabled rule of `rule_type` for `item_scope` whose keyword, in
/// lowercase, occurs in the lowercase path `lower_path`.
pub open spec fn rule_matches(
    rule: Rule,
    lower_path: Seq<char>,
    item_scope: RuleScope,
    rule_type: RuleType,
) -> bool {
    &&& rule.enabled
    &&& rule.rule_type == rule_type
    &&& rule.scope.spec_applies_to(item_scope)
    &&& rule.keyword@.len() > 0
    &&& contains_seq(lower_path, unicode_lowercase(rule.keyword@))
}

/// The index, among the first `n` rules, of the matching rule with the smallest id;
/// of several with that id, the first.
pub open spec fn best_match(
    rules: Seq<Rule>,
    lower_path: Seq<char>,
    item_scope: RuleScope,
    rule_type: RuleType,
    n: int,
) -> Option<int>
    decreases n,
{
    if n <= 0 {
        None
    } else {
        let prev = best_match(rules, lower_path, item_scope, rule_type, n - 1);
        if rule_matches(rules[n - 1], lower_path, item_scope, rule_type) && (prev is None
            || rules[n - 1].id < rules[prev->0].id) {
            Some(n - 1)
        } else {
            prev
        }
    }
}

pub open spec fn spec_first_match(
    rules: Seq<Rule>,
    lower_path: Seq<char>,
    item_scope: RuleScope,
    rule_type: RuleType,
) -> Option<int> {
    best_match(rules, lower_path, item_scope, rule_type, rules.len() as int)
}

/// What `classify` answers: the best whitelist match protects the path; failing
/// that, the best blacklist match targets it; otherwise it is neutral.
pub open spec fn spec_classify(path: Seq<char>, item_scope: RuleScope, rules: Seq<Rule>) -> MatchResult {
    let lower = unicode_lowercase(path);
    match spec_first_match(rules, lower, item_scope, RuleType::Whitelist) {
        Some(j) => MatchResult::Protected { rule_id: rules[j].id, keyword: rules[j].keyword },
        None => match spec_first_match(rules, lower, item_scope, RuleType::Blacklist) {
            Some(j) => MatchResult::Targeted { rule_id: rules[j].id, keyword: rules[j].keyword },
            None => MatchResult::Neutral,
        },
    }
}

fn rule_matches_exec(rule: &Rule, lower_path: &[char], item_scope: RuleScope, rule_type: RuleType) -> (r:
    bool)
    ensures
        r == rule_matches(*rule, lower_path@, item_scope, rule_type),
{
    if !rule.enabled || rule.rule_type != rule_type || !rule.scope.applies_to(item_scope)
        || rule.keyword.as_str().is_empty() {
        return false;
    }
    let keyword = to_lowercase(rule.keyword.as_str());
    let keyword = chars_of(keyword.as_str());
    contains_chars(lower_path, keyword.as_slice())
}

/// The index of the matching rule of `rule_type` with the smallest id (the first of
/// equals), if any rule matches.
fn first_match(lower_path: &[char], item_scope: RuleScope, rules: &[Rule], rule_type: RuleType) -> (r:
    Option<usize>)
    ensures
        match r {
            Some(j) => j < rules.len() && spec_first_match(rules@, lower_path@, item_scope, rule_type)
                == Some(j as int),
            None => spec_first_match(rules@, lower_path@, item_scope, rule_type) is None,
        },
{
    let mut best: Option<usize> = None;
    let mut i: usize = 0;
    while i < rules.len()
        invariant
            i <= rules.len(),
            match best {
                Some(j) => j < i && best_match(rules@, lower_path@, item_scope, rule_type, i as int) == Some(
                    j as int,
                ),
                None => best_match(rules@, lower_path@, item_scope, rule_type, i as int) is None,
            },
        decreases rules.len() - i,
    {
        if rule_matches_exec(&rules[i], lower_path, item_scope, rule_type) {
            match best {
                Some(j) => {
                    if rules[i].id < rules[j].id {
                        best = Some(i);
                    }
                },
                None => {
                    best = Some(i);
                },
            }
        }
        i = i + 1;
    }
    best
}

/// Classifies `path` for an item of `item_scope`: the enabled whitelist rule with the
/// smallest id whose keyword occurs in the path, compared without regard to case,
/// protects it; failing that, the blacklist rule chosen the same way targets it.
pub fn classify(path: &str, item_scope: RuleScope, rules: &[Rule]) -> (r: MatchResult)
    ensures
        r == spec_classify(path@, item_scope, rules@),
{
    let lower = to_lowercase(path);
    let lower = chars_of(lower.as_str());
    match first_match(lower.as_slice(), item_scope, rules, RuleType::Whitelist) {
        Some(j) => MatchResult::Protected { rule_id: rules[j].id, keyword: rules[j].keyword.clone() },
        None => match first_match(lower.as_slice(), item_scope, rules, RuleType::Blacklist) {
            Some(j) => MatchResult::Targeted {
                rule_id: rules[j].id,
                keyword: rules[j].keyword.clone(),
            },
            None => MatchResult::Neutral,
        },
    }
}

/// `j` is the index, among the first `n` rules, of a matching rule with the smallest
/// id, and no earlier matching rule has that id.
pub open spec fn is_best_among(
    rules: Seq<Rule>,
    lower_path: Seq<char>,
    item_scope: RuleScope,
    rule_type: RuleType,
    n: int,
    j: int,
) -> bool {
    &&& 0 <= j < n
    &&& rule_matches(rules[j], lower_path, item_scope, rule_type)
    &&& forall|k: int|
        0 <= k < n && #[trigger] rule_matches(rules[k], lower_path, item_scope, rule_type)
            ==> rules[j].id <= rules[k].id
    &&& forall|k: int|
        0 <= k < j && #[trigger] rule_matches(rules[k], lower_path, item_scope, rule_type)
            ==> rules[j].id < rules[k].id
}

/// No two rules share an id (ids are the rules' primary keys).
pub open spec fn distinct_ids(rules: Seq<Rule>) -> bool {
    forall|i: int, j: int| 0 <= i < rules.len() && 0 <= j < rules.len() && i != j ==> #[trigger] rules[i].id
        != #[trigger] rules[j].id
}

proof fn lemma_best_match(
    rules: Seq<Rule>,
    lower_path: Seq<char>,
    item_scope: RuleScope,
    rule_type: RuleType,
    n: int,
)
    requires
        0 <= n <= rules.len(),
    ensures
        match best_match(rules, lower_path, item_scope, rule_type, n) {
            Some(j) => is_best_among(rules, lower_path, item_scope, rule_type, n, j),
            None => forall|k: int|
                0 <= k < n ==> !#[trigger] rule_matches(rules[k], lower_path, item_scope, rule_type),
        },
    decreases n,
{
    if n > 0 {
        lemma_best_match(rules, lower_path, item_scope, rule_type, n - 1);
    }
}

proof fn lemma_best_unique(
    rules: Seq<Rule>,
    lower_path: Seq<char>,
    item_scope: RuleScope,
    rule_type: RuleType,
    n: int,
    j1: int,
    j2: int,
)
    requires
        is_best_among(rules, lower_path, item_scope, rule_type, n, j1),
        is_best_among(rules, lower_path, item_scope, rule_type, n, j2),
    ensures
        j1 == j2,
{
    assert(rule_matches(rules[j1], lower_path, item_scope, rule_type));
    assert(rule_matches(rules[j2], lower_path, item_scope, rule_type));
}

/// The first match is the unique index satisfying `is_best_among` over all rules,
/// and there is none exactly when no rule matches.
proof fn lemma_first_match_is_best(
    rules: Seq<Rule>,
    lower_path: Seq<char>,
    item_scope: RuleScope,
    rule_type: RuleType,
    j: int,
)
    requires
        is_best_among(rules, lower_path, item_scope, rule_type, rules.len() as int, j),
    ensures
        spec_first_match(rules, lower_path, item_scope, rule_type) == Some(j),
{
    lemma_best_match(rules, lower_path, item_scope, rule_type, rules.len() as int);
    match spec_first_match(rules, lower_path, item_scope, rule_type) {
        Some(b) => {
            lemma_best_unique(rules, lower_path, item_scope, rule_type, rules.len() as int, b, j);
        },
        None => {
            assert(rule_matches(rules[j], lower_path, item_scope, rule_type));
        },
    }
}

/// A path is protected exactly when some enabled whitelist rule for its scope
/// matches it; the rule reported (its id and keyword) is then a matching whitelist
/// rule, and none has a smaller id. Blacklist rules are consulted only when no whitelist rule matches,
/// and a targeted path reports the matching blacklist rule with the smallest id.
pub proof fn law_whitelist_priority_and_lowest_id(path: Seq<char>, item_scope: RuleScope, rules: Seq<Rule>)
    ensures
        (spec_classify(path, item_scope, rules) is Protected) <==> exists|i: int|
            0 <= i < rules.len() && #[trigger] rule_matches(
                rules[i],
                unicode_lowercase(path),
                item_scope,
                RuleType::Whitelist,
            ),
        (spec_classify(path, item_scope, rules) is Targeted) <==> (!(exists|i: int|
            0 <= i < rules.len() && #[trigger] rule_matches(
                rules[i],
                unicode_lowercase(path),
                item_scope,
                RuleType::Whitelist,
            )) && exists|i: int|
            0 <= i < rules.len() && #[trigger] rule_matches(
                rules[i],
                unicode_lowercase(path),
                item_scope,
                RuleType::Blacklist,
            )),
        spec_classify(path, item_scope, rules) matches MatchResult::Protected { rule_id, .. } ==> forall|
            i: int,
        |
            0 <= i < rules.len() && #[trigger] rule_matches(
                rules[i],
                unicode_lowercase(path),
                item_scope,
                RuleType::Whitelist,
            ) ==> rule_id <= rules[i].id,
        spec_classify(path, item_scope, rules) matches MatchResult::Targeted { rule_id, .. } ==> forall|
            i: int,
        |
            0 <= i < rules.len() && #[trigger] rule_matches(
                rules[i],
                unicode_lowercase(path),
                item_scope,
                RuleType::Blacklist,
            ) ==> rule_id <= rules[i].id,
        spec_classify(path, item_scope, rules) matches MatchResult::Protected { rule_id, keyword }
            ==> exists|i: int|
            0 <= i < rules.len() && #[trigger] rule_matches(
                rules[i],
                unicode_lowercase(path),
                item_scope,
                RuleType::Whitelist,
            ) && rules[i].id == rule_id && rules[i].keyword == keyword,
        spec_classify(path, item_scope, rules) matches MatchResult::Targeted { rule_id, keyword }
            ==> exists|i: int|
            0 <= i < rules.len() && #[trigger] rule_matches(
                rules[i],
                unicode_lowercase(path),
                item_scope,
                RuleType::Blacklist,
            ) && rules[i].id == rule_id && rules[i].keyword == keyword,
{
    let lower = unicode_lowercase(path);
    lemma_best_match(rules, lower, item_scope, RuleType::Whitelist, rules.len() as int);
    lemma_best_match(rules, lower, item_scope, RuleType::Blacklist, rules.len() as int);
    match spec_first_match(rules, lower, item_scope, RuleType::Whitelist) {
        Some(j) => {
            assert(rule_matches(rules[j], lower, item_scope, RuleType::Whitelist));
        },
        None => match spec_first_match(rules, lower, item_scope, RuleType::Blacklist) {
            Some(j) => {
                assert(rule_matches(rules[j], lower, item_scope, RuleType::Blacklist));
            },
            None => {},
        },
    }
}

/// Classification compares paths without regard to case: two paths with the same
/// lowercase form are classified alike.
pub proof fn law_case_insensitive(p1: Seq<char>, p2: Seq<char>, item_scope: RuleScope, rules: Seq<Rule>)
    requires
        unicode_lowercase(p1) == unicode_lowercase(p2),
    ensures
        spec_classify(p1, item_scope, rules) == spec_classify(p2, item_scope, rules),
{
}

proof fn lemma_first_match_order_independent(
    rules1: Seq<Rule>,
    rules2: Seq<Rule>,
    lower_path: Seq<char>,
    item_scope: RuleScope,
    rule_type: RuleType,
)
    requires
        rules1.to_set() == rules2.to_set(),
        distinct_ids(rules1),
        distinct_ids(rules2),
    ensures
        match (
            spec_first_match(rules1, lower_path, item_scope, rule_type),
            spec_first_match(rules2, lower_path, item_scope, rule_type),
        ) {
            (Some(a), Some(b)) => rules1[a] == rules2[b],
            (None, None) => true,
            _ => false,
        },
{
    let n1 = rules1.len() as int;
    let n2 = rules2.len() as int;
    lemma_best_match(rules1, lower_path, item_scope, rule_type, n1);
    lemma_best_match(rules2, lower_path, item_scope, rule_type, n2);
    match spec_first_match(rules1, lower_path, item_scope, rule_type) {
        Some(a) => {
            assert(rules1.to_set().contains(rules1[a]));
            assert(rules2.contains(rules1[a]));
            let k = choose|k: int| 0 <= k < n2 && rules2[k] == rules1[a];
            assert(rule_matches(rules2[k], lower_path, item_scope, rule_type));
            let b = spec_first_match(rules2, lower_path, item_scope, rule_type)->0;
            assert(rules2.to_set().contains(rules2[b]));
            assert(rules1.contains(rules2[b]));
            let m = choose|m: int| 0 <= m < n1 && rules1[m] == rules2[b];
            assert(rule_matches(rules1[m], lower_path, item_scope, rule_type));
            assert(rules1[a].id <= rules1[m].id);
            assert(rules2[b].id <= rules2[k].id);
            assert(rules2[b].id == rules2[k].id);
            assert(b == k);
        },
        None => {
            match spec_first_match(rules2, lower_path, item_scope, rule_type) {
                Some(b) => {
                    assert(rules2.to_set().contains(rules2[b]));
                    assert(rules1.contains(rules2[b]));
                    let m = choose|m: int| 0 <= m < n1 && rules1[m] == rules2[b];
                    assert(rule_matches(rules1[m], lower_path, item_scope, rule_type));
                },
                None => {},
            }
        },
    }
}

/// The order in which rules are listed does not matter: two lists holding the same
/// rules, each with distinct ids, classify every path alike.
pub proof fn law_rule_order_does_not_matter(
    path: Seq<char>,
    item_scope: RuleScope,
    rules1: Seq<Rule>,
    rules2: Seq<Rule>,
)
    requires
        rules1.to_set() == rules2.to_set(),
        distinct_ids(rules1),
        distinct_ids(rules2),
    ensures
        spec_classify(path, item_scope, rules1) == spec_classify(path, item_scope, rules2),
{
    let lower = unicode_lowercase(path);
    lemma_first_match_order_independent(rules1, rules2, lower, item_scope, RuleType::Whitelist);
    lemma_first_match_order_independent(rules1, rules2, lower, item_scope, RuleType::Blacklist);
}

proof fn lemma_first_match_insert_non_matching(
    rules: Seq<Rule>,
    lower_path: Seq<char>,
    item_scope: RuleScope,
    rule_type: RuleType,
    i: int,
    x: Rule,
)
    requires
        0 <= i <= rules.len(),
        !rule_matches(x, lower_path, item_scope, rule_type),
    ensures
        match (
            spec_first_match(rules, lower_path, item_scope, rule_type),
            spec_first_match(rules.insert(i, x), lower_path, item_scope, rule_type),
        ) {
            (Some(a), Some(b)) => rules[a] == rules.insert(i, x)[b],
            (None, None) => true,
            _ => false,
        },
{
    let r2 = rules.insert(i, x);
    let n = rules.len() as int;
    assert(r2.len() == n + 1);
    assert forall|k: int| 0 <= k < n + 1 && k != i implies #[trigger] r2[k] == rules[if k < i {
        k
    } else {
        k - 1
    }] by {}
    assert(r2[i] == x);
    lemma_best_match(rules, lower_path, item_scope, rule_type, n);
    lemma_best_match(r2, lower_path, item_scope, rule_type, n + 1);
    match spec_first_match(rules, lower_path, item_scope, rule_type) {
        Some(a) => {
            let j = if a < i {
                a
            } else {
                a + 1
            };
            assert(r2[j] == rules[a]);
            assert forall|k: int|
                0 <= k < n + 1 && #[trigger] rule_matches(
                    r2[k],
                    lower_path,
                    item_scope,
                    rule_type,
                ) implies r2[j].id <= r2[k].id by {
                assert(k != i);
                let k0 = if k < i {
                    k
                } else {
                    k - 1
                };
                assert(r2[k] == rules[k0]);
                assert(rule_matches(rules[k0], lower_path, item_scope, rule_type));
            }
            assert forall|k: int|
                0 <= k < j && #[trigger] rule_matches(
                    r2[k],
                    lower_path,
                    item_scope,
                    rule_type,
                ) implies r2[j].id < r2[k].id by {
                assert(k != i);
                let k0 = if k < i {
                    k
                } else {
                    k - 1
                };
                assert(r2[k] == rules[k0]);
                assert(rule_matches(rules[k0], lower_path, item_scope, rule_type));
                assert(k0 < a);
            }
            lemma_first_match_is_best(r2, lower_path, item_scope, rule_type, j);
        },
        None => {
            match spec_first_match(r2, lower_path, item_scope, rule_type) {
                Some(b) => {
                    assert(b != i);
                    let b0 = if b < i {
                        b
                    } else {
                        b - 1
                    };
                    assert(r2[b] == rules[b0]);
                    assert(rule_matches(rules[b0], lower_path, item_scope, rule_type));
                },
                None => {},
            }
        },
    }
}

/// A rule that cannot match a path (disabled, keyword-less, scoped to other items,
/// or with a keyword absent from the path) changes nothing, wherever it is listed.
pub proof fn law_non_matching_rule_is_ignored(
    path: Seq<char>,
    item_scope: RuleScope,
    rules: Seq<Rule>,
    i: int,
    x: Rule,
)
    requires
        0 <= i <= rules.len(),
        !rule_matches(x, unicode_lowercase(path), item_scope, x.rule_type),
    ensures
        spec_classify(path, item_scope, rules.insert(i, x)) == spec_classify(path, item_scope, rules),
{
    let lower = unicode_lowercase(path);
    lemma_first_match_insert_non_matching(rules, lower, item_scope, RuleType::Whitelist, i, x);
    lemma_first_match_insert_non_matching(rules, lower, item_scope, RuleType::Blacklist, i, x);
}

/// Disabled rules, rules with an empty keyword and rules scoped to another kind of
/// item never influence a classification.
pub proof fn law_disabled_empty_and_out_of_scope_rules_are_ignored(
    path: Seq<char>,
    item_scope: RuleScope,
    rules: Seq<Rule>,
    i: int,
    x: Rule,
)
    requires
        0 <= i <= rules.len(),
        !x.enabled || x.keyword@.len() == 0 || !x.scope.spec_applies_to(item_scope),
    ensures
        spec_classify(path, item_scope, rules.insert(i, x)) == spec_classify(path, item_scope, rules),
{
    law_non_matching_rule_is_ignored(path, item_scope, rules, i, x);
}

/// Rules with distinct ids are distinct rules.
proof fn lemma_distinct_ids_no_duplicates(rules: Seq<Rule>)
    requires
        distinct_ids(rules),
    ensures
        rules.no_duplicates(),
{
    assert forall|i: int, j: int| 0 <= i < rules.len() && 0 <= j < rules.len() && i != j implies rules[i]
        != rules[j] by {
        assert(rules[i].id != rules[j].id);
    }
}

/// A reordering of rules with distinct ids holds the same rules, again with distinct ids.
proof fn lemma_permutation_keeps_rules(rules: Seq<Rule>, perm: Seq<Rule>)
    requires
        distinct_ids(rules),
        perm.to_multiset() == rules.to_multiset(),
    ensures
        perm.to_set() == rules.to_set(),
        distinct_ids(perm),
{
    broadcast use vstd::seq_lib::to_multiset_contains;

    lemma_distinct_ids_no_duplicates(rules);
    rules.lemma_multiset_has_no_duplicates();
    perm.lemma_multiset_has_no_duplicates_conv();
    assert forall|x: Rule| perm.to_set().contains(x) <==> rules.to_set().contains(x) by {
        assert(perm.contains(x) <==> perm.to_multiset().count(x) > 0);
        assert(rules.contains(x) <==> rules.to_multiset().count(x) > 0);
    }
    assert(perm.to_set() =~= rules.to_set());
    assert forall|i: int, j: int| 0 <= i < perm.len() && 0 <= j < perm.len() && i != j implies #[trigger] perm[i].id
        != #[trigger] perm[j].id by {
        assert(perm.to_multiset().count(perm[i]) > 0);
        assert(perm.to_multiset().count(perm[j]) > 0);
        assert(rules.contains(perm[i]));
        assert(rules.contains(perm[j]));
        let a = choose|a: int| 0 <= a < rules.len() && rules[a] == perm[i];
        let b = choose|b: int| 0 <= b < rules.len() && rules[b] == perm[j];
        if perm[i].id == perm[j].id {
            assert(a == b);
            assert(perm[i] != perm[j]);
        }
    }
}

/// Classification does not depend on the order of the rules: any reordering of a list
/// of rules with distinct ids classifies every path as the list itself does.
pub proof fn law_permuted_rules_classify_alike(
    path: Seq<char>,
    item_scope: RuleScope,
    rules: Seq<Rule>,
    perm: Seq<Rule>,
)
    requires
        distinct_ids(rules),
        perm.to_multiset() == rules.to_multiset(),
    ensures
        spec_classify(path, item_scope, perm) == spec_classify(path, item_scope, rules),
{
    lemma_permutation_keeps_rules(rules, perm);
    law_rule_order_does_not_matter(path, item_scope, perm, rules);
}

} // verus!
