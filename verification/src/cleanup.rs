//! Which Quick Access items a cleanup removes, and what it records of the removal.
use vstd::prelude::*;

use crate::history::{CleanSource, NewCleanRecord};
use crate::matcher::{classify, spec_classify, MatchResult};
use crate::quick_access::{QaBatchResult, QaItem};
use crate::rules::{Rule, RuleScope};
use crate::text::{chars_of, chars_eq_str, push_str, str_eq, string_of, to_lowercase, unicode_lowercase};

verus! {

/// Rejections of cleanup requests.
#[derive(Debug, Clone, PartialEq, Eq)]
pub enum CleanupError {
    UnsupportedType(String),
}

pub open spec fn cleanup_error_text(e: CleanupError) -> Seq<char> {
    match e {
        CleanupError::UnsupportedType(t) => "unsupported Quick Access cleanup type: "@ + t@,
    }
}

impl CleanupError {
    /// The description of the rejection.
    pub fn message(&self) -> (r: String)
        ensures
            r@ == cleanup_error_text(*self),
    {
        let mut out = String::new();
        match self {
            CleanupError::UnsupportedType(t) => {
                push_str(&mut out, "unsupported Quick Access cleanup type: ");
                push_str(&mut out, t.as_str());
            },
        }
        out
    }
}

/// The history item type recorded for a cleanup of `qa_type`.
pub open spec fn spec_cleanup_item_type(qa_type: Seq<char>) -> Option<Seq<char>> {
    if qa_type == "recent"@ {
        Some("recent_file"@)
    } else if qa_type == "frequent"@ {
        Some("frequent_folder"@)
    } else {
        None
    }
}

/// The item type of a cleanable category: `recent` items are recorded as
/// `recent_file`, `frequent` ones as `frequent_folder`; no other category is cleaned.
pub fn item_type_for(qa_type: &str) -> (r: Result<&'static str, CleanupError>)
    ensures
        match spec_cleanup_item_type(qa_type@) {
            Some(t) => r matches Ok(s) && s@ == t,
            None => r matches Err(CleanupError::UnsupportedType(t)) && t@ == qa_type@,
        },
{
    proof {
        reveal_strlit("recent_file");
        reveal_strlit("frequent_folder");
    }
    let chars = chars_of(qa_type);
    if chars_eq_str(chars.as_slice(), "recent") {
        Ok("recent_file")
    } else if chars_eq_str(chars.as_slice(), "frequent") {
        Ok("frequent_folder")
    } else {
        Err(CleanupError::UnsupportedType(string_of(qa_type)))
    }
}

/// The rule scope that applies to the items of `qa_type`.
pub open spec fn spec_item_scope(qa_type: Seq<char>) -> Option<RuleScope> {
    if qa_type == "recent"@ {
        Some(RuleScope::Files)
    } else if qa_type == "frequent"@ {
        Some(RuleScope::Folders)
    } else {
        None
    }
}

/// Recent items are files and frequent items are folders; no other category is cleaned.
pub fn item_scope_for(qa_type: &str) -> (r: Result<RuleScope, CleanupError>)
    ensures
        match spec_item_scope(qa_type@) {
            Some(s) => r == Ok::<RuleScope, CleanupError>(s),
            None => r matches Err(CleanupError::UnsupportedType(t)) && t@ == qa_type@,
        },
{
    let chars = chars_of(qa_type);
    if chars_eq_str(chars.as_slice(), "recent") {
        Ok(RuleScope::Files)
    } else if chars_eq_str(chars.as_slice(), "frequent") {
        Ok(RuleScope::Folders)
    } else {
        Err(CleanupError::UnsupportedType(string_of(qa_type)))
    }
}

/// Which classified items a cleanup removes.
#[derive(Debug, Clone, Copy, PartialEq, Eq, Structural)]
pub enum Selection {
    /// Every item that no whitelist rule protects (a manual removal).
    AllUnprotected,
    /// Only the items that a blacklist rule targets (a smart or automatic cleanup).
    TargetedOnly,
}

/// An item chosen for removal, with the classification that chose it.
#[derive(Debug, Clone, PartialEq, Eq)]
pub struct Candidate {
    pub path: String,
    pub match_result: MatchResult,
}

/// The plan of a cleanup, before anything is removed.
#[derive(Debug, Clone, PartialEq, Eq)]
pub struct PreparedCleanup {
    pub total: usize,
    pub candidates: Vec<Candidate>,
    pub skipped_protected: Vec<String>,
}

/// The key by which paths are told apart: their Unicode lowercase form.
pub open spec fn path_key(p: String) -> Seq<char> {
    unicode_lowercase(p@)
}

pub open spec fn keys_of(paths: Seq<String>) -> Seq<Seq<char>> {
    paths.map_values(|p: String| path_key(p))
}

/// The first `n` paths, each kept only where no earlier path has the same key.
pub open spec fn unique_upto(paths: Seq<String>, n: int) -> Seq<String>
    decreases n,
{
    if n <= 0 {
        seq![]
    } else {
        let prev = unique_upto(paths, n - 1);
        if keys_of(prev).contains(path_key(paths[n - 1])) {
            prev
        } else {
            prev.push(paths[n - 1])
        }
    }
}

/// The paths without case-insensitive duplicates; the first of each is kept, in order.
pub open spec fn unique_paths(paths: Seq<String>) -> Seq<String> {
    unique_upto(paths, paths.len() as int)
}

/// Whether `selection` removes an item classified as `m`.
pub open spec fn is_selected(selection: Selection, m: MatchResult) -> bool {
    match selection {
        Selection::AllUnprotected => !(m is Protected),
        Selection::TargetedOnly => m is Targeted,
    }
}

/// Whether `selection` reports an item classified as `m` as skipped for protection.
pub open spec fn is_skipped(selection: Selection, m: MatchResult) -> bool {
    selection == Selection::AllUnprotected && m is Protected
}

/// The candidates that `selection` takes from `paths`, in order.
pub open spec fn candidates_of(
    paths: Seq<String>,
    item_scope: RuleScope,
    rules: Seq<Rule>,
    selection: Selection,
) -> Seq<Candidate>
    decreases paths.len(),
{
    if paths.len() == 0 {
        seq![]
    } else {
        let prev = candidates_of(paths.drop_last(), item_scope, rules, selection);
        let m = spec_classify(paths.last()@, item_scope, rules);
        if is_selected(selection, m) {
            prev.push(Candidate { path: paths.last(), match_result: m })
        } else {
            prev
        }
    }
}

/// The paths of `paths` that `selection` skips for protection, in order.
pub open spec fn protected_of(
    paths: Seq<String>,
    item_scope: RuleScope,
    rules: Seq<Rule>,
    selection: Selection,
) -> Seq<String>
    decreases paths.len(),
{
    if paths.len() == 0 {
        seq![]
    } else {
        let prev = protected_of(paths.drop_last(), item_scope, rules, selection);
        if is_skipped(selection, spec_classify(paths.last()@, item_scope, rules)) {
            prev.push(paths.last())
        } else {
            prev
        }
    }
}

/// The plan that `prepare_cleanup` makes.
pub open spec fn is_prepared(
    r: PreparedCleanup,
    paths: Seq<String>,
    item_scope: RuleScope,
    rules: Seq<Rule>,
    selection: Selection,
) -> bool {
    let unique = unique_paths(paths);
    &&& r.candidates@ == candidates_of(unique, item_scope, rules, selection)
    &&& r.skipped_protected@ == protected_of(unique, item_scope, rules, selection)
    &&& r.total == match selection {
        Selection::AllUnprotected => unique.len(),
        Selection::TargetedOnly => r.candidates@.len(),
    }
}

/// Whether `key` is the key of one of `keys`.
fn key_seen(keys: &Vec<String>, key: &str) -> (r: bool)
    ensures
        r == keys@.map_values(|k: String| k@).contains(key@),
{
    let ghost ks = keys@.map_values(|k: String| k@);
    let mut i: usize = 0;
    while i < keys.len()
        invariant
            i <= keys@.len(),
            ks == keys@.map_values(|k: String| k@),
            forall|j: int| 0 <= j < i ==> ks[j] != key@,
        decreases keys@.len() - i,
    {
        if str_eq(keys[i].as_str(), key) {
            assert(ks[i as int] == key@);
            return true;
        }
        i = i + 1;
    }
    false
}

/// Plans a cleanup of `paths`, items of `item_scope`: paths that repeat an earlier one
/// without regard to case are dropped; each remaining path is classified against
/// `rules`; `selection` decides which become candidates for removal, and under
/// `AllUnprotected` the protected ones are reported as skipped. The total is the
/// number of distinct paths for a manual removal and the number of candidates for a
/// targeted cleanup.
pub fn prepare_cleanup(paths: Vec<String>, item_scope: RuleScope, rules: &[Rule], selection: Selection) -> (r:
    PreparedCleanup)
    ensures
        is_prepared(r, paths@, item_scope, rules@, selection),
{
    let mut unique: Vec<String> = Vec::new();
    let mut keys: Vec<String> = Vec::new();
    let mut candidates: Vec<Candidate> = Vec::new();
    let mut skipped_protected: Vec<String> = Vec::new();
    let mut i: usize = 0;
    while i < paths.len()
        invariant
            i <= paths@.len(),
            unique@ == unique_upto(paths@, i as int),
            keys@.map_values(|k: String| k@) == keys_of(unique@),
            candidates@ == candidates_of(unique@, item_scope, rules@, selection),
            skipped_protected@ == protected_of(unique@, item_scope, rules@, selection),
        decreases paths@.len() - i,
    {
        let path = &paths[i];
        let key = to_lowercase(path.as_str());
        if !key_seen(&keys, key.as_str()) {
            let ghost before = unique@;
            let ghost before_keys = keys@;
            let m = classify(path.as_str(), item_scope, rules);
            let selected = match selection {
                Selection::AllUnprotected => !matches!(m, MatchResult::Protected { .. }),
                Selection::TargetedOnly => matches!(m, MatchResult::Targeted { .. }),
            };
            if selected {
                candidates.push(Candidate { path: path.clone(), match_result: m });
            } else if selection == Selection::AllUnprotected {
                skipped_protected.push(path.clone());
            }
            unique.push(path.clone());
            keys.push(key);
            proof {
                assert(unique@.drop_last() == before);
                assert(keys@.map_values(|k: String| k@) =~= keys_of(before).push(
                    path_key(paths@[i as int]),
                )) by {
                    assert(keys@ == before_keys.push(keys@.last()));
                };
                assert(keys_of(unique@) =~= keys_of(before).push(path_key(paths@[i as int])));
            }
        }
        i = i + 1;
    }
    let total = match selection {
        Selection::AllUnprotected => unique.len(),
        Selection::TargetedOnly => candidates.len(),
    };
    PreparedCleanup { total, candidates, skipped_protected }
}


pub open spec fn candidate_paths(c: Seq<Candidate>) -> Seq<String> {
    c.map_values(|x: Candidate| x.path)
}

proof fn lemma_unique_upto(paths: Seq<String>, n: int)
    requires
        0 <= n <= paths.len(),
    ensures
        forall|i: int, j: int|
            0 <= i < j < unique_upto(paths, n).len() ==> path_key(#[trigger] unique_upto(paths, n)[i])
                != path_key(#[trigger] unique_upto(paths, n)[j]),
        forall|k: int| 0 <= k < n ==> keys_of(unique_upto(paths, n)).contains(path_key(#[trigger] paths[k])),
        forall|j: int| 0 <= j < unique_upto(paths, n).len() ==> paths.contains(#[trigger] unique_upto(paths, n)[j]),
    decreases n,
{
    if n > 0 {
        lemma_unique_upto(paths, n - 1);
        let prev = unique_upto(paths, n - 1);
        let u = unique_upto(paths, n);
        let p = paths[n - 1];
        if keys_of(prev).contains(path_key(p)) {
            assert forall|k: int| 0 <= k < n implies keys_of(u).contains(path_key(#[trigger] paths[k])) by {
                if k < n - 1 {
                    assert(keys_of(prev).contains(path_key(paths[k])));
                }
            }
        } else {
            assert(u == prev.push(p));
            assert(keys_of(u) =~= keys_of(prev).push(path_key(p)));
            assert forall|i: int, j: int| 0 <= i < j < u.len() implies path_key(#[trigger] u[i]) != path_key(
                #[trigger] u[j],
            ) by {
                if j == u.len() - 1 {
                    assert(keys_of(prev)[i] == path_key(prev[i]));
                    if path_key(u[i]) == path_key(u[j]) {
                        assert(keys_of(prev).contains(path_key(p)));
                    }
                } else {
                    assert(u[i] == prev[i] && u[j] == prev[j]);
                }
            }
            assert forall|k: int| 0 <= k < n implies keys_of(u).contains(path_key(#[trigger] paths[k])) by {
                if k < n - 1 {
                    assert(keys_of(prev).contains(path_key(paths[k])));
                    let w = choose|w: int| 0 <= w < keys_of(prev).len() && keys_of(prev)[w] == path_key(paths[k]);
                    assert(keys_of(u)[w] == keys_of(prev)[w]);
                } else {
                    assert(keys_of(u)[u.len() - 1] == path_key(p));
                }
            }
            assert forall|j: int| 0 <= j < u.len() implies paths.contains(#[trigger] u[j]) by {
                if j < u.len() - 1 {
                    assert(u[j] == prev[j]);
                } else {
                    assert(paths[n - 1] == u[j]);
                }
            }
        }
    }
}

proof fn lemma_candidates(paths: Seq<String>, item_scope: RuleScope, rules: Seq<Rule>, selection: Selection)
    ensures
        forall|i: int|
            0 <= i < candidates_of(paths, item_scope, rules, selection).len() ==> {
                let c = #[trigger] candidates_of(paths, item_scope, rules, selection)[i];
                &&& paths.contains(c.path)
                &&& c.match_result == spec_classify(c.path@, item_scope, rules)
                &&& is_selected(selection, c.match_result)
            },
        forall|i: int|
            0 <= i < protected_of(paths, item_scope, rules, selection).len() ==> {
                let p = #[trigger] protected_of(paths, item_scope, rules, selection)[i];
                &&& paths.contains(p)
                &&& is_skipped(selection, spec_classify(p@, item_scope, rules))
            },
        selection == Selection::AllUnprotected ==> candidates_of(paths, item_scope, rules, selection).len()
            + protected_of(paths, item_scope, rules, selection).len() == paths.len(),
        selection == Selection::AllUnprotected ==> forall|j: int|
            0 <= j < paths.len() ==> candidate_paths(candidates_of(paths, item_scope, rules, selection)).contains(
                #[trigger] paths[j],
            ) || protected_of(paths, item_scope, rules, selection).contains(paths[j]),
        selection == Selection::TargetedOnly ==> protected_of(paths, item_scope, rules, selection).len() == 0,
    decreases paths.len(),
{
    if paths.len() > 0 {
        let init = paths.drop_last();
        lemma_candidates(init, item_scope, rules, selection);
        let prev_c = candidates_of(init, item_scope, rules, selection);
        let prev_p = protected_of(init, item_scope, rules, selection);
        let c = candidates_of(paths, item_scope, rules, selection);
        let pr = protected_of(paths, item_scope, rules, selection);
        assert forall|i: int| 0 <= i < c.len() implies paths.contains(#[trigger] c[i].path) by {
            if i < prev_c.len() {
                assert(c[i] == prev_c[i]);
                assert(init.contains(prev_c[i].path));
                let w = choose|w: int| 0 <= w < init.len() && init[w] == prev_c[i].path;
                assert(paths[w] == init[w]);
            } else {
                assert(paths[paths.len() - 1] == c[i].path);
            }
        }
        assert forall|i: int| 0 <= i < pr.len() implies paths.contains(#[trigger] pr[i]) by {
            if i < prev_p.len() {
                assert(pr[i] == prev_p[i]);
                assert(init.contains(prev_p[i]));
                let w = choose|w: int| 0 <= w < init.len() && init[w] == prev_p[i];
                assert(paths[w] == init[w]);
            } else {
                assert(paths[paths.len() - 1] == pr[i]);
            }
        }
        assert forall|i: int| 0 <= i < c.len() implies (#[trigger] c[i]).match_result == spec_classify(
            c[i].path@,
            item_scope,
            rules,
        ) && is_selected(selection, c[i].match_result) by {
            if i < prev_c.len() {
                assert(c[i] == prev_c[i]);
            }
        }
        assert forall|i: int| 0 <= i < pr.len() implies is_skipped(
            selection,
            spec_classify((#[trigger] pr[i])@, item_scope, rules),
        ) by {
            if i < prev_p.len() {
                assert(pr[i] == prev_p[i]);
            }
        }
        if selection == Selection::AllUnprotected {
            assert forall|j: int| 0 <= j < paths.len() implies candidate_paths(c).contains(#[trigger] paths[j])
                || pr.contains(paths[j]) by {
                if j < paths.len() - 1 {
                    assert(paths[j] == init[j]);
                    if candidate_paths(prev_c).contains(init[j]) {
                        let w = choose|w: int| 0 <= w < candidate_paths(prev_c).len() && candidate_paths(prev_c)[w] == init[j];
                        assert(candidate_paths(c)[w] == candidate_paths(prev_c)[w]);
                    } else {
                        let w = choose|w: int| 0 <= w < prev_p.len() && prev_p[w] == init[j];
                        assert(pr[w] == prev_p[w]);
                    }
                } else {
                    if is_selected(selection, spec_classify(paths.last()@, item_scope, rules)) {
                        assert(candidate_paths(c)[c.len() - 1] == paths[j]);
                    } else {
                        assert(pr[pr.len() - 1] == paths[j]);
                    }
                }
            }
        }
    }
}

proof fn lemma_subsequences(u: Seq<String>, item_scope: RuleScope, rules: Seq<Rule>, selection: Selection)
    requires
        forall|i: int, j: int| 0 <= i < j < u.len() ==> path_key(#[trigger] u[i]) != path_key(#[trigger] u[j]),
    ensures
        forall|i: int, j: int|
            0 <= i < j < candidates_of(u, item_scope, rules, selection).len() ==> path_key(
                (#[trigger] candidates_of(u, item_scope, rules, selection)[i]).path,
            ) != path_key((#[trigger] candidates_of(u, item_scope, rules, selection)[j]).path),
        forall|i: int, j: int|
            0 <= i < j < protected_of(u, item_scope, rules, selection).len() ==> path_key(
                #[trigger] protected_of(u, item_scope, rules, selection)[i],
            ) != path_key(#[trigger] protected_of(u, item_scope, rules, selection)[j]),
        forall|i: int, j: int|
            0 <= i < candidates_of(u, item_scope, rules, selection).len() && 0 <= j < protected_of(
                u,
                item_scope,
                rules,
                selection,
            ).len() ==> path_key((#[trigger] candidates_of(u, item_scope, rules, selection)[i]).path)
                != path_key(#[trigger] protected_of(u, item_scope, rules, selection)[j]),
    decreases u.len(),
{
    if u.len() > 0 {
        let init = u.drop_last();
        let last = u.last();
        assert forall|i: int, j: int| 0 <= i < j < init.len() implies path_key(#[trigger] init[i]) != path_key(
            #[trigger] init[j],
        ) by {
            assert(init[i] == u[i] && init[j] == u[j]);
        }
        lemma_subsequences(init, item_scope, rules, selection);
        lemma_candidates(init, item_scope, rules, selection);
        assert forall|x: String| init.contains(x) implies path_key(x) != path_key(last) by {
            let w = choose|w: int| 0 <= w < init.len() && init[w] == x;
            assert(u[w] == x);
            assert(u[u.len() - 1] == last);
        }
        let prev_c = candidates_of(init, item_scope, rules, selection);
        let prev_p = protected_of(init, item_scope, rules, selection);
        let c = candidates_of(u, item_scope, rules, selection);
        let pr = protected_of(u, item_scope, rules, selection);
        assert forall|i: int| 0 <= i < prev_c.len() implies path_key((#[trigger] prev_c[i]).path) != path_key(
            last,
        ) by {
            assert(init.contains(prev_c[i].path));
        }
        assert forall|i: int| 0 <= i < prev_p.len() implies path_key(#[trigger] prev_p[i]) != path_key(last) by {
            assert(init.contains(prev_p[i]));
        }
        assert forall|i: int, j: int| 0 <= i < j < c.len() implies path_key((#[trigger] c[i]).path) != path_key(
            (#[trigger] c[j]).path,
        ) by {
            assert(c[i] == prev_c[i]);
            if j < prev_c.len() {
                assert(c[j] == prev_c[j]);
            } else {
                assert(c[j].path == last);
            }
        }
        assert forall|i: int, j: int| 0 <= i < j < pr.len() implies path_key(#[trigger] pr[i]) != path_key(
            #[trigger] pr[j],
        ) by {
            assert(pr[i] == prev_p[i]);
            if j < prev_p.len() {
                assert(pr[j] == prev_p[j]);
            } else {
                assert(pr[j] == last);
            }
        }
        assert forall|i: int, j: int| 0 <= i < c.len() && 0 <= j < pr.len() implies path_key(
            (#[trigger] c[i]).path,
        ) != path_key(#[trigger] pr[j]) by {
            if i < prev_c.len() && j < prev_p.len() {
                assert(c[i] == prev_c[i] && pr[j] == prev_p[j]);
            } else if i < prev_c.len() {
                assert(c[i] == prev_c[i] && pr[j] == last);
            } else if j < prev_p.len() {
                assert(c[i].path == last && pr[j] == prev_p[j]);
            }
        }
    }
}

/// No item that a whitelist rule protects is ever planned for removal: every
/// candidate is one of the given paths, carries the classification of that path,
/// and that classification is not `Protected`. Under `TargetedOnly` every candidate
/// is `Targeted` and nothing is reported as skipped.
pub proof fn law_protected_items_are_never_removed(
    r: PreparedCleanup,
    paths: Seq<String>,
    item_scope: RuleScope,
    rules: Seq<Rule>,
    selection: Selection,
)
    requires
        is_prepared(r, paths, item_scope, rules, selection),
    ensures
        forall|i: int|
            0 <= i < r.candidates@.len() ==> {
                let c = #[trigger] r.candidates@[i];
                &&& paths.contains(c.path)
                &&& c.match_result == spec_classify(c.path@, item_scope, rules)
                &&& !(c.match_result is Protected)
            },
        selection == Selection::TargetedOnly ==> r.skipped_protected@.len() == 0 && forall|i: int|
            0 <= i < r.candidates@.len() ==> (#[trigger] r.candidates@[i]).match_result is Targeted,
{
    let u = unique_paths(paths);
    lemma_unique_upto(paths, paths.len() as int);
    lemma_candidates(u, item_scope, rules, selection);
    assert forall|i: int| 0 <= i < r.candidates@.len() implies paths.contains(
        (#[trigger] r.candidates@[i]).path,
    ) by {
        assert(u.contains(r.candidates@[i].path));
        let w = choose|w: int| 0 <= w < u.len() && u[w] == r.candidates@[i].path;
        assert(paths.contains(u[w]));
    }
}

/// A cleanup never handles the same path twice: the candidates, and the candidates
/// together with the skipped paths, hold no two paths that are equal without regard
/// to case.
pub proof fn law_no_path_is_handled_twice(
    r: PreparedCleanup,
    paths: Seq<String>,
    item_scope: RuleScope,
    rules: Seq<Rule>,
    selection: Selection,
)
    requires
        is_prepared(r, paths, item_scope, rules, selection),
    ensures
        forall|i: int, j: int|
            0 <= i < j < r.candidates@.len() ==> path_key((#[trigger] r.candidates@[i]).path) != path_key(
                (#[trigger] r.candidates@[j]).path,
            ),
        forall|i: int, j: int|
            0 <= i < j < r.skipped_protected@.len() ==> path_key(#[trigger] r.skipped_protected@[i])
                != path_key(#[trigger] r.skipped_protected@[j]),
        forall|i: int, j: int|
            0 <= i < r.candidates@.len() && 0 <= j < r.skipped_protected@.len() ==> path_key(
                (#[trigger] r.candidates@[i]).path,
            ) != path_key(#[trigger] r.skipped_protected@[j]),
{
    let u = unique_paths(paths);
    lemma_unique_upto(paths, paths.len() as int);
    lemma_subsequences(u, item_scope, rules, selection);
}

/// Under `AllUnprotected` every given path is accounted for: the path itself, or an
/// earlier one equal to it without regard to case, is either a candidate or reported
/// as skipped; and the total counts each distinct path once.
pub proof fn law_manual_removal_accounts_for_every_path(
    r: PreparedCleanup,
    paths: Seq<String>,
    item_scope: RuleScope,
    rules: Seq<Rule>,
)
    requires
        is_prepared(r, paths, item_scope, rules, Selection::AllUnprotected),
    ensures
        r.total == r.candidates@.len() + r.skipped_protected@.len(),
        forall|k: int|
            0 <= k < paths.len() ==> (exists|i: int|
                0 <= i < r.candidates@.len() && path_key(r.candidates@[i].path) == path_key(
                    #[trigger] paths[k],
                )) || (exists|i: int|
                0 <= i < r.skipped_protected@.len() && path_key(r.skipped_protected@[i]) == path_key(
                    paths[k],
                )),
        forall|i: int|
            0 <= i < r.skipped_protected@.len() ==> spec_classify(
                (#[trigger] r.skipped_protected@[i])@,
                item_scope,
                rules,
            ) is Protected,
{
    let u = unique_paths(paths);
    let sel = Selection::AllUnprotected;
    lemma_unique_upto(paths, paths.len() as int);
    lemma_candidates(u, item_scope, rules, sel);
    assert forall|k: int| 0 <= k < paths.len() implies (exists|i: int|
        0 <= i < r.candidates@.len() && path_key(r.candidates@[i].path) == path_key(#[trigger] paths[k]))
        || (exists|i: int|
        0 <= i < r.skipped_protected@.len() && path_key(r.skipped_protected@[i]) == path_key(paths[k])) by {
        assert(keys_of(u).contains(path_key(paths[k])));
        let w = choose|w: int| 0 <= w < keys_of(u).len() && keys_of(u)[w] == path_key(paths[k]);
        assert(path_key(u[w]) == path_key(paths[k]));
        let c = candidates_of(u, item_scope, rules, sel);
        if candidate_paths(c).contains(u[w]) {
            let x = choose|x: int| 0 <= x < candidate_paths(c).len() && candidate_paths(c)[x] == u[w];
            assert(path_key(r.candidates@[x].path) == path_key(paths[k]));
        } else {
            let x = choose|x: int| 0 <= x < r.skipped_protected@.len() && r.skipped_protected@[x] == u[w];
            assert(path_key(r.skipped_protected@[x]) == path_key(paths[k]));
        }
    }
}

/// Whether `r` is the history entry for the removal of `path`: it names the rule only
/// when a blacklist rule targeted the item, keeping that rule's id and keyword.
pub open spec fn is_clean_record(
    r: NewCleanRecord,
    path: Seq<char>,
    item_type: Seq<char>,
    m: Option<MatchResult>,
    source: CleanSource,
    run_id: Option<i64>,
) -> bool {
    &&& r.item_path@ == path
    &&& r.item_type@ == item_type
    &&& r.source == source
    &&& r.run_id == run_id
    &&& match m {
        Some(MatchResult::Targeted { rule_id, keyword }) => r.rule_id == Some(rule_id) && r.rule_keyword
            == Some(keyword),
        _ => r.rule_id is None && r.rule_keyword is None,
    }
}

/// The history entry for the removal of `path` within the cleanup run `run_id`.
pub fn clean_record_in_run(
    run_id: Option<i64>,
    path: &str,
    item_type: &str,
    match_result: Option<&MatchResult>,
    source: CleanSource,
) -> (r: NewCleanRecord)
    ensures
        match match_result {
            Some(m) => is_clean_record(r, path@, item_type@, Some(*m), source, run_id),
            None => is_clean_record(r, path@, item_type@, None, source, run_id),
        },
{
    let (rule_id, rule_keyword) = match match_result {
        Some(MatchResult::Targeted { rule_id, keyword }) => (Some(*rule_id), Some(keyword.clone())),
        _ => (None, None),
    };
    NewCleanRecord {
        run_id,
        item_path: string_of(path),
        item_type: string_of(item_type),
        rule_id,
        rule_keyword,
        source,
    }
}

/// The history entry for the removal of `path`, outside any cleanup run.
pub fn clean_record(path: &str, item_type: &str, match_result: Option<&MatchResult>, source: CleanSource) -> (r:
    NewCleanRecord)
    ensures
        match match_result {
            Some(m) => is_clean_record(r, path@, item_type@, Some(*m), source, None),
            None => is_clean_record(r, path@, item_type@, None, source, None),
        },
{
    clean_record_in_run(None, path, item_type, match_result, source)
}

/// The classification of the last candidate whose path has `key`.
pub open spec fn match_for(c: Seq<Candidate>, key: Seq<char>) -> Option<MatchResult>
    decreases c.len(),
{
    if c.len() == 0 {
        None
    } else if path_key(c.last().path) == key {
        Some(c.last().match_result)
    } else {
        match_for(c.drop_last(), key)
    }
}

fn candidate_keys(candidates: &[Candidate]) -> (r: Vec<String>)
    ensures
        r@.len() == candidates@.len(),
        forall|i: int| 0 <= i < r@.len() ==> (#[trigger] r@[i])@ == path_key(candidates@[i].path),
{
    let mut keys: Vec<String> = Vec::new();
    let mut i: usize = 0;
    while i < candidates.len()
        invariant
            i <= candidates@.len(),
            keys@.len() == i,
            forall|j: int| 0 <= j < i ==> (#[trigger] keys@[j])@ == path_key(candidates@[j].path),
        decreases candidates@.len() - i,
    {
        keys.push(to_lowercase(candidates[i].path.as_str()));
        i = i + 1;
    }
    keys
}

fn find_match(keys: &Vec<String>, candidates: &[Candidate], key: &str) -> (r: Option<usize>)
    requires
        keys@.len() == candidates@.len(),
        forall|i: int| 0 <= i < keys@.len() ==> (#[trigger] keys@[i])@ == path_key(candidates@[i].path),
    ensures
        match r {
            Some(j) => j < candidates@.len() && match_for(candidates@, key@) == Some(
                candidates@[j as int].match_result,
            ),
            None => match_for(candidates@, key@) is None,
        },
{
    let mut best: Option<usize> = None;
    let mut i: usize = 0;
    while i < candidates.len()
        invariant
            i <= candidates@.len(),
            keys@.len() == candidates@.len(),
            forall|k: int| 0 <= k < keys@.len() ==> (#[trigger] keys@[k])@ == path_key(candidates@[k].path),
            match best {
                Some(j) => j < i && match_for(candidates@.take(i as int), key@) == Some(
                    candidates@[j as int].match_result,
                ),
                None => match_for(candidates@.take(i as int), key@) is None,
            },
        decreases candidates@.len() - i,
    {
        assert(candidates@.take(i + 1).drop_last() == candidates@.take(i as int));
        assert(candidates@.take(i + 1).last() == candidates@[i as int]);
        if str_eq(keys[i].as_str(), key) {
            best = Some(i);
        }
        i = i + 1;
    }
    assert(candidates@.take(candidates@.len() as int) == candidates@);
    best
}

/// Whether `records` are the history entries for the removal of `succeeded`, in order,
/// each naming the rule of the candidate with the same path.
pub open spec fn are_history_records(
    records: Seq<NewCleanRecord>,
    succeeded: Seq<String>,
    candidates: Seq<Candidate>,
    item_type: Seq<char>,
    source: CleanSource,
    run_id: Option<i64>,
) -> bool {
    &&& records.len() == succeeded.len()
    &&& forall|i: int|
        0 <= i < records.len() ==> is_clean_record(
            #[trigger] records[i],
            succeeded[i]@,
            item_type,
            match_for(candidates, path_key(succeeded[i])),
            source,
            run_id,
        )
}

/// The history entries for the removed paths `succeeded`: each names the rule that
/// targeted the candidate with the same path, compared without regard to case.
pub fn history_records(
    succeeded: &[String],
    candidates: &[Candidate],
    item_type: &str,
    source: CleanSource,
    run_id: Option<i64>,
) -> (r: Vec<NewCleanRecord>)
    ensures
        are_history_records(r@, succeeded@, candidates@, item_type@, source, run_id),
{
    let keys = candidate_keys(candidates);
    let mut records: Vec<NewCleanRecord> = Vec::new();
    let mut i: usize = 0;
    while i < succeeded.len()
        invariant
            i <= succeeded@.len(),
            keys@.len() == candidates@.len(),
            forall|k: int| 0 <= k < keys@.len() ==> (#[trigger] keys@[k])@ == path_key(candidates@[k].path),
            records@.len() == i,
            forall|k: int|
                0 <= k < i ==> is_clean_record(
                    #[trigger] records@[k],
                    succeeded@[k]@,
                    item_type@,
                    match_for(candidates@, path_key(succeeded@[k])),
                    source,
                    run_id,
                ),
        decreases succeeded@.len() - i,
    {
        let path = &succeeded[i];
        let key = to_lowercase(path.as_str());
        let record = match find_match(&keys, candidates, key.as_str()) {
            Some(j) => clean_record_in_run(run_id, path.as_str(), item_type, Some(&candidates[j].match_result), source),
            None => clean_record_in_run(run_id, path.as_str(), item_type, None, source),
        };
        records.push(record);
        i = i + 1;
    }
    records
}

/// Whether `res` reports a cleanup that followed `prepared` and removed `succeeded`,
/// failed on `failed`, warned about `warnings` and ended with `history_error`.
pub open spec fn is_completed(
    res: QaBatchResult,
    prepared: PreparedCleanup,
    succeeded: Seq<String>,
    failed: Seq<crate::quick_access::QaBatchFailure>,
    warnings: Seq<crate::quick_access::QaBatchWarning>,
    history_error: Option<String>,
) -> bool {
    &&& res.total == prepared.total
    &&& res.succeeded@ == succeeded
    &&& res.failed@ == failed
    &&& res.warnings@ == warnings
    &&& res.skipped_protected@ == prepared.skipped_protected@
    &&& res.history_error == history_error
}

/// What `execute` does with a plan: with no candidates nothing is removed and
/// nothing recorded; otherwise `remove` is handed the candidates' paths, its error is
/// returned as it is, and after a removal that removed anything `record` is handed
/// the history entries, and its error becomes the result's history error.
pub open spec fn is_execution<E, Remove, Record>(
    r: Result<QaBatchResult, E>,
    item_type: Seq<char>,
    prepared: PreparedCleanup,
    source: CleanSource,
    run_id: Option<i64>,
    remove: Remove,
    record: Record,
) -> bool where
    Remove: FnOnce(Vec<String>) -> Result<QaBatchResult, E>,
    Record: FnOnce(Vec<NewCleanRecord>) -> Result<(), String>,
 {
    if prepared.candidates@.len() == 0 {
        r matches Ok(res) && is_completed(res, prepared, seq![], seq![], seq![], None)
    } else {
        exists|paths: Vec<String>, out: Result<QaBatchResult, E>|
            #![trigger call_ensures(remove, (paths,), out)]
            {
                &&& paths@ == candidate_paths(prepared.candidates@)
                &&& call_ensures(remove, (paths,), out)
                &&& match out {
                    Err(e) => r == Err::<QaBatchResult, E>(e),
                    Ok(removal) => r matches Ok(res) && if removal.succeeded@.len() == 0 {
                        is_completed(
                            res,
                            prepared,
                            removal.succeeded@,
                            removal.failed@,
                            removal.warnings@,
                            removal.history_error,
                        )
                    } else {
                        exists|records: Vec<NewCleanRecord>, outcome: Result<(), String>|
                            #![trigger call_ensures(record, (records,), outcome)]
                            {
                                &&& are_history_records(
                                    records@,
                                    removal.succeeded@,
                                    prepared.candidates@,
                                    item_type,
                                    source,
                                    run_id,
                                )
                                &&& call_ensures(record, (records,), outcome)
                                &&& is_completed(
                                    res,
                                    prepared,
                                    removal.succeeded@,
                                    removal.failed@,
                                    removal.warnings@,
                                    match outcome {
                                        Err(e) => Some(e),
                                        Ok(_) => removal.history_error,
                                    },
                                )
                            }
                    },
                }
            }
    }
}

/// Carries out a plan: `remove` removes the candidates from Quick Access and
/// `record` writes the history of what was removed.
pub fn execute<E, Remove, Record>(
    item_type: &str,
    prepared: PreparedCleanup,
    source: CleanSource,
    run_id: Option<i64>,
    remove: Remove,
    record: Record,
) -> (r: Result<QaBatchResult, E>) where
    Remove: FnOnce(Vec<String>) -> Result<QaBatchResult, E>,
    Record: FnOnce(Vec<NewCleanRecord>) -> Result<(), String>,

    requires
        forall|paths: Vec<String>| call_requires(remove, (paths,)),
        forall|records: Vec<NewCleanRecord>| call_requires(record, (records,)),
    ensures
        is_execution(r, item_type@, prepared, source, run_id, remove, record),
{
    let PreparedCleanup { total, candidates, skipped_protected } = prepared;
    if candidates.len() == 0 {
        let mut result = QaBatchResult::default();
        result.total = total;
        result.skipped_protected = skipped_protected;
        assert(result.succeeded@ =~= seq![]);
        assert(result.failed@ =~= seq![]);
        assert(result.warnings@ =~= seq![]);
        return Ok(result);
    }
    let mut paths: Vec<String> = Vec::new();
    let mut i: usize = 0;
    while i < candidates.len()
        invariant
            i <= candidates@.len(),
            paths@ == candidate_paths(candidates@.take(i as int)),
        decreases candidates@.len() - i,
    {
        assert(candidate_paths(candidates@.take(i + 1)) =~= candidate_paths(candidates@.take(i as int)).push(
            candidates@[i as int].path,
        ));
        paths.push(candidates[i].path.clone());
        i = i + 1;
    }
    assert(candidates@.take(candidates@.len() as int) == candidates@);
    let ghost sent = paths;
    let out = remove(paths);
    let mut result = match out {
        Ok(removal) => removal,
        Err(e) => {
            return Err(e);
        },
    };
    let ghost removal = result;
    result.total = total;
    result.skipped_protected = skipped_protected;
    if result.succeeded.len() > 0 {
        let records = history_records(result.succeeded.as_slice(), candidates.as_slice(), item_type, source, run_id);
        let ghost sent_records = records;
        let outcome = record(records);
        let ghost got = outcome;
        if let Err(error) = outcome {
            result.history_error = Some(error);
        }
        assert(call_ensures(record, (sent_records,), got));
    }
    assert(call_ensures(remove, (sent,), Ok::<QaBatchResult, E>(removal)));
    Ok(result)
}

/// A Quick Access item with its classification, as listed to the user.
#[derive(Debug, Clone, PartialEq, Eq)]
pub struct ClassifiedItem {
    pub path: String,
    pub name: String,
    pub item_type: String,
    pub last_interaction_at: Option<u64>,
    pub match_result: MatchResult,
}

/// Classifies each listed item of `qa_type` against `rules`, keeping the listing's order.
pub fn list_classified(qa_type: &str, items: Vec<QaItem>, rules: &[Rule]) -> (r: Result<
    Vec<ClassifiedItem>,
    CleanupError,
>)
    ensures
        match spec_cleanup_item_type(qa_type@) {
            None => r matches Err(CleanupError::UnsupportedType(t)) && t@ == qa_type@,
            Some(item_type) => r matches Ok(v) && v@.len() == items@.len() && forall|i: int|
                0 <= i < v@.len() ==> {
                    let c = #[trigger] v@[i];
                    &&& c.path == items@[i].path
                    &&& c.name == items@[i].name
                    &&& c.item_type@ == item_type
                    &&& c.last_interaction_at == items@[i].last_interaction_at
                    &&& c.match_result == spec_classify(
                        items@[i].path@,
                        spec_item_scope(qa_type@)->0,
                        rules@,
                    )
                },
        },
{
    let item_type = match item_type_for(qa_type) {
        Ok(t) => t,
        Err(e) => {
            return Err(e);
        },
    };
    let item_scope = match item_scope_for(qa_type) {
        Ok(s) => s,
        Err(e) => {
            return Err(e);
        },
    };
    let mut out: Vec<ClassifiedItem> = Vec::new();
    let mut i: usize = 0;
    while i < items.len()
        invariant
            i <= items@.len(),
            out@.len() == i,
            spec_item_scope(qa_type@) == Some(item_scope),
            spec_cleanup_item_type(qa_type@) == Some(item_type@),
            forall|k: int|
                0 <= k < i ==> {
                    let c = #[trigger] out@[k];
                    &&& c.path == items@[k].path
                    &&& c.name == items@[k].name
                    &&& c.item_type@ == item_type@
                    &&& c.last_interaction_at == items@[k].last_interaction_at
                    &&& c.match_result == spec_classify(items@[k].path@, item_scope, rules@)
                },
        decreases items@.len() - i,
    {
        let item = &items[i];
        out.push(
            ClassifiedItem {
                match_result: classify(item.path.as_str(), item_scope, rules),
                path: item.path.clone(),
                name: item.name.clone(),
                item_type: string_of(item_type),
                last_interaction_at: item.last_interaction_at,
            },
        );
        i = i + 1;
    }
    Ok(out)
}

/// Why a cleanup produced no result.
#[derive(Debug, Clone, PartialEq, Eq)]
pub enum CleanupFailure<E> {
    /// The request named a category that is not cleaned.
    Invalid(CleanupError),
    /// Removing the items from Quick Access failed.
    Removal(E),
}

pub open spec fn item_paths(items: Seq<QaItem>) -> Seq<String> {
    items.map_values(|i: QaItem| i.path)
}

/// What a cleanup of `paths` in `qa_type` answers: the category is checked first,
/// then the paths are planned with `selection` and the plan is carried out.
pub open spec fn is_cleanup<E, Remove, Record>(
    r: Result<QaBatchResult, CleanupFailure<E>>,
    qa_type: Seq<char>,
    paths: Seq<String>,
    rules: Seq<Rule>,
    selection: Selection,
    source: CleanSource,
    run_id: Option<i64>,
    remove: Remove,
    record: Record,
) -> bool where
    Remove: FnOnce(Vec<String>) -> Result<QaBatchResult, E>,
    Record: FnOnce(Vec<NewCleanRecord>) -> Result<(), String>,
 {
    match spec_cleanup_item_type(qa_type) {
        None => r matches Err(CleanupFailure::Invalid(CleanupError::UnsupportedType(t))) && t@ == qa_type,
        Some(item_type) => exists|plan: PreparedCleanup, inner: Result<QaBatchResult, E>|
            #![trigger is_prepared(plan, paths, spec_item_scope(qa_type)->0, rules, selection), is_execution(inner, item_type, plan, source, run_id, remove, record)]
            {
                &&& is_prepared(plan, paths, spec_item_scope(qa_type)->0, rules, selection)
                &&& is_execution(inner, item_type, plan, source, run_id, remove, record)
                &&& r == match inner {
                    Ok(x) => Ok::<QaBatchResult, CleanupFailure<E>>(x),
                    Err(e) => Err::<QaBatchResult, CleanupFailure<E>>(CleanupFailure::Removal(e)),
                }
            },
    }
}

fn run_cleanup<E, Remove, Record>(
    qa_type: &str,
    paths: Vec<String>,
    rules: &[Rule],
    selection: Selection,
    source: CleanSource,
    run_id: Option<i64>,
    remove: Remove,
    record: Record,
) -> (r: Result<QaBatchResult, CleanupFailure<E>>) where
    Remove: FnOnce(Vec<String>) -> Result<QaBatchResult, E>,
    Record: FnOnce(Vec<NewCleanRecord>) -> Result<(), String>,

    requires
        forall|p: Vec<String>| call_requires(remove, (p,)),
        forall|v: Vec<NewCleanRecord>| call_requires(record, (v,)),
    ensures
        is_cleanup(r, qa_type@, paths@, rules@, selection, source, run_id, remove, record),
{
    let item_type = match item_type_for(qa_type) {
        Ok(t) => t,
        Err(e) => {
            return Err(CleanupFailure::Invalid(e));
        },
    };
    let item_scope = match item_scope_for(qa_type) {
        Ok(s) => s,
        Err(e) => {
            return Err(CleanupFailure::Invalid(e));
        },
    };
    let ghost input = paths@;
    let prepared = prepare_cleanup(paths, item_scope, rules, selection);
    let ghost plan = prepared;
    let inner = execute(item_type, prepared, source, run_id, remove, record);
    let ghost got = inner;
    assert(is_prepared(plan, input, item_scope, rules@, selection));
    assert(is_execution(got, item_type@, plan, source, run_id, remove, record));
    match inner {
        Ok(x) => Ok(x),
        Err(e) => Err(CleanupFailure::Removal(e)),
    }
}

/// Removes the chosen `paths` from `qa_type`: every distinct path that no whitelist
/// rule protects is removed; the protected ones are reported as skipped. History
/// entries are marked as manual.
pub fn remove_selected<E, Remove, Record>(
    qa_type: &str,
    paths: Vec<String>,
    rules: &[Rule],
    remove: Remove,
    record: Record,
) -> (r: Result<QaBatchResult, CleanupFailure<E>>) where
    Remove: FnOnce(Vec<String>) -> Result<QaBatchResult, E>,
    Record: FnOnce(Vec<NewCleanRecord>) -> Result<(), String>,

    requires
        forall|p: Vec<String>| call_requires(remove, (p,)),
        forall|v: Vec<NewCleanRecord>| call_requires(record, (v,)),
    ensures
        is_cleanup(
            r,
            qa_type@,
            paths@,
            rules@,
            Selection::AllUnprotected,
            CleanSource::Manual,
            None,
            remove,
            record,
        ),
{
    run_cleanup(qa_type, paths, rules, Selection::AllUnprotected, CleanSource::Manual, None, remove, record)
}

fn paths_of(items: Vec<QaItem>) -> (r: Vec<String>)
    ensures
        r@ == item_paths(items@),
{
    let mut paths: Vec<String> = Vec::new();
    let mut i: usize = 0;
    while i < items.len()
        invariant
            i <= items@.len(),
            paths@ == item_paths(items@.take(i as int)),
        decreases items@.len() - i,
    {
        assert(item_paths(items@.take(i + 1)) =~= item_paths(items@.take(i as int)).push(items@[i as int].path));
        paths.push(items[i].path.clone());
        i = i + 1;
    }
    assert(items@.take(items@.len() as int) == items@);
    paths
}

/// Empties the listed `items` of `qa_type`, sparing those that a whitelist rule
/// protects. History entries are marked as manual.
pub fn empty_current<E, Remove, Record>(
    qa_type: &str,
    items: Vec<QaItem>,
    rules: &[Rule],
    remove: Remove,
    record: Record,
) -> (r: Result<QaBatchResult, CleanupFailure<E>>) where
    Remove: FnOnce(Vec<String>) -> Result<QaBatchResult, E>,
    Record: FnOnce(Vec<NewCleanRecord>) -> Result<(), String>,

    requires
        forall|p: Vec<String>| call_requires(remove, (p,)),
        forall|v: Vec<NewCleanRecord>| call_requires(record, (v,)),
    ensures
        is_cleanup(
            r,
            qa_type@,
            item_paths(items@),
            rules@,
            Selection::AllUnprotected,
            CleanSource::Manual,
            None,
            remove,
            record,
        ),
{
    let paths = paths_of(items);
    run_cleanup(qa_type, paths, rules, Selection::AllUnprotected, CleanSource::Manual, None, remove, record)
}

/// Removes from the listed `items` of `qa_type` only those that a blacklist rule
/// targets, recording `source` in their history entries.
pub fn smart_clean<E, Remove, Record>(
    qa_type: &str,
    items: Vec<QaItem>,
    rules: &[Rule],
    source: CleanSource,
    remove: Remove,
    record: Record,
) -> (r: Result<QaBatchResult, CleanupFailure<E>>) where
    Remove: FnOnce(Vec<String>) -> Result<QaBatchResult, E>,
    Record: FnOnce(Vec<NewCleanRecord>) -> Result<(), String>,

    requires
        forall|p: Vec<String>| call_requires(remove, (p,)),
        forall|v: Vec<NewCleanRecord>| call_requires(record, (v,)),
    ensures
        is_cleanup(r, qa_type@, item_paths(items@), rules@, Selection::TargetedOnly, source, None, remove, record),
{
    let paths = paths_of(items);
    run_cleanup(qa_type, paths, rules, Selection::TargetedOnly, source, None, remove, record)
}

/// `smart_clean` within the cleanup run `run_id`, whose id its history entries carry.
pub fn smart_clean_in_run<E, Remove, Record>(
    qa_type: &str,
    items: Vec<QaItem>,
    rules: &[Rule],
    source: CleanSource,
    run_id: i64,
    remove: Remove,
    record: Record,
) -> (r: Result<QaBatchResult, CleanupFailure<E>>) where
    Remove: FnOnce(Vec<String>) -> Result<QaBatchResult, E>,
    Record: FnOnce(Vec<NewCleanRecord>) -> Result<(), String>,

    requires
        forall|p: Vec<String>| call_requires(remove, (p,)),
        forall|v: Vec<NewCleanRecord>| call_requires(record, (v,)),
    ensures
        is_cleanup(
            r,
            qa_type@,
            item_paths(items@),
            rules@,
            Selection::TargetedOnly,
            source,
            Some(run_id),
            remove,
            record,
        ),
{
    let paths = paths_of(items);
    run_cleanup(qa_type, paths, rules, Selection::TargetedOnly, source, Some(run_id), remove, record)
}

} // verus!
