//! The versioned rule file: which rules an export writes, which files an import
//! accepts, and which of their rules it adds.
use vstd::prelude::*;

use crate::rules::{NewRule, Rule};
use crate::text::{chars_of, push_decimal, push_str, digits, string_from, trim_chars, trim_str, trimmed};
use crate::winpath::{has_extension, is_absolute, is_absolute_exec, spec_extension};

verus! {

/// The version of the rule file format.
pub const RULE_FILE_VERSION: u32 = 1;

/// The most rules that one file may hold.
pub const MAX_IMPORT_RULES: usize = 10_000;

/// The largest rule file that is read, in bytes (10 MB).
pub const MAX_IMPORT_BYTES: u64 = 10_485_760;

/// What is wrong with the path of a rule file.
#[derive(Debug, Clone, Copy, PartialEq, Eq, Structural)]
pub enum PathProblem {
    Empty,
    NotAbsolute,
    NotJson,
    DirectoryMissing,
    FileMissing,
}

pub open spec fn path_problem_text(p: PathProblem) -> Seq<char> {
    match p {
        PathProblem::Empty => "path is empty"@,
        PathProblem::NotAbsolute => "path must be absolute"@,
        PathProblem::NotJson => "path must use the .json extension"@,
        PathProblem::DirectoryMissing => "directory does not exist"@,
        PathProblem::FileMissing => "file does not exist"@,
    }
}

/// Why a rule file was refused.
#[derive(Debug, Clone, PartialEq, Eq)]
pub enum RuleTransferError {
    InvalidPath(PathProblem),
    InvalidFormat(String),
    UnsupportedVersion(u32),
    EmptyFile,
    TooManyRules(usize),
    EmptySelection,
    InvalidSelection(usize),
    EmptyKeyword(usize),
}

pub open spec fn rule_transfer_error_text(e: RuleTransferError) -> Seq<char> {
    match e {
        RuleTransferError::InvalidPath(p) => "invalid rule file path: "@ + path_problem_text(p),
        RuleTransferError::InvalidFormat(detail) => "invalid rule file: "@ + detail@,
        RuleTransferError::UnsupportedVersion(v) => "unsupported rule file version "@ + digits(v as nat, 10),
        RuleTransferError::EmptyFile => "rule file contains no rules"@,
        RuleTransferError::TooManyRules(n) => "rule file contains too many rules: "@ + digits(n as nat, 10),
        RuleTransferError::EmptySelection => "no rules were selected"@,
        RuleTransferError::InvalidSelection(i) => "selected rule index "@ + digits(i as nat, 10)
            + " is out of range"@,
        RuleTransferError::EmptyKeyword(i) => "rule "@ + digits(i as nat, 10) + " has an empty keyword"@,
    }
}

impl RuleTransferError {
    /// The description of the refusal.
    pub fn message(&self) -> (r: String)
        ensures
            r@ == rule_transfer_error_text(*self),
    {
        let mut out = String::new();
        match self {
            RuleTransferError::InvalidPath(p) => {
                push_str(&mut out, "invalid rule file path: ");
                push_str(
                    &mut out,
                    match p {
                        PathProblem::Empty => "path is empty",
                        PathProblem::NotAbsolute => "path must be absolute",
                        PathProblem::NotJson => "path must use the .json extension",
                        PathProblem::DirectoryMissing => "directory does not exist",
                        PathProblem::FileMissing => "file does not exist",
                    },
                );
            },
            RuleTransferError::InvalidFormat(detail) => {
                push_str(&mut out, "invalid rule file: ");
                push_str(&mut out, detail.as_str());
            },
            RuleTransferError::UnsupportedVersion(v) => {
                push_str(&mut out, "unsupported rule file version ");
                push_decimal(&mut out, *v as u64);
            },
            RuleTransferError::EmptyFile => push_str(&mut out, "rule file contains no rules"),
            RuleTransferError::TooManyRules(n) => {
                push_str(&mut out, "rule file contains too many rules: ");
                push_decimal(&mut out, *n as u64);
            },
            RuleTransferError::EmptySelection => push_str(&mut out, "no rules were selected"),
            RuleTransferError::InvalidSelection(i) => {
                push_str(&mut out, "selected rule index ");
                push_decimal(&mut out, *i as u64);
                push_str(&mut out, " is out of range");
            },
            RuleTransferError::EmptyKeyword(i) => {
                push_str(&mut out, "rule ");
                push_decimal(&mut out, *i as u64);
                push_str(&mut out, " has an empty keyword");
            },
        }
        out
    }
}

/// The contents of a rule file.
#[derive(Debug, Clone, PartialEq, Eq)]
pub struct RuleFile {
    pub version: u32,
    pub rules: Vec<NewRule>,
}

#[derive(Debug, Clone, PartialEq, Eq)]
pub struct RuleExportResult {
    pub count: usize,
    pub path: String,
    pub version: u32,
}

#[derive(Debug, Clone, Copy, PartialEq, Eq, Structural)]
pub struct RuleImportResult {
    pub count: usize,
    pub version: u32,
}

#[derive(Debug, Clone, PartialEq, Eq)]
pub struct RuleImportPreview {
    pub count: usize,
    pub rules: Vec<NewRule>,
    pub version: u32,
}

/// The path of a rule file must be non-blank, absolute (as Windows reads paths) and
/// end in `.json`, in any case.
pub fn validate_json_path(path: &str) -> (r: Result<(), RuleTransferError>)
    ensures
        trimmed(path@).len() == 0 ==> r == Err::<(), RuleTransferError>(
            RuleTransferError::InvalidPath(PathProblem::Empty),
        ),
        trimmed(path@).len() > 0 && !is_absolute(path@) ==> r == Err::<(), RuleTransferError>(
            RuleTransferError::InvalidPath(PathProblem::NotAbsolute),
        ),
        trimmed(path@).len() > 0 && is_absolute(path@) ==> (if spec_extension(path@) matches Some(x)
            && crate::text::ascii_lowercase(x) == "json"@ {
            r is Ok
        } else {
            r == Err::<(), RuleTransferError>(RuleTransferError::InvalidPath(PathProblem::NotJson))
        }),
{
    let chars = chars_of(path);
    let t = trim_chars(chars.as_slice());
    if t.len() == 0 {
        return Err(RuleTransferError::InvalidPath(PathProblem::Empty));
    }
    if !is_absolute_exec(chars.as_slice()) {
        return Err(RuleTransferError::InvalidPath(PathProblem::NotAbsolute));
    }
    if !has_extension(chars.as_slice(), "json") {
        return Err(RuleTransferError::InvalidPath(PathProblem::NotJson));
    }
    Ok(())
}

/// A rule file larger than 10 MB is not read.
pub fn check_import_size(len: u64) -> (r: Result<(), RuleTransferError>)
    ensures
        len <= MAX_IMPORT_BYTES ==> r is Ok,
        len > MAX_IMPORT_BYTES ==> (r matches Err(RuleTransferError::InvalidFormat(d)) && d@
            == "file is larger than 10 MB"@),
{
    if len > MAX_IMPORT_BYTES {
        Err(RuleTransferError::InvalidFormat(crate::text::string_of("file is larger than 10 MB")))
    } else {
        Ok(())
    }
}

/// The 1-based number of the first rule among the first `n` whose keyword is blank.
pub open spec fn first_blank(rules: Seq<NewRule>, n: int) -> Option<int>
    decreases n,
{
    if n <= 0 {
        None
    } else {
        match first_blank(rules, n - 1) {
            Some(i) => Some(i),
            None => if trimmed(rules[n - 1].keyword@).len() == 0 {
                Some(n)
            } else {
                None
            },
        }
    }
}

/// Whether `out` holds `rules` with their keywords trimmed.
pub open spec fn are_trimmed(out: Seq<NewRule>, rules: Seq<NewRule>) -> bool {
    &&& out.len() == rules.len()
    &&& forall|i: int|
        0 <= i < out.len() ==> {
            &&& (#[trigger] out[i]).keyword@ == trimmed(rules[i].keyword@)
            &&& out[i].rule_type == rules[i].rule_type
            &&& out[i].scope == rules[i].scope
            &&& out[i].enabled == rules[i].enabled
        }
}

/// Checks a parsed rule file: it must be of the supported version, hold at least one
/// and at most 10,000 rules, and no rule may have a blank keyword; the keywords are
/// trimmed. The first failing check is reported.
pub fn check_payload(payload: RuleFile) -> (r: Result<RuleFile, RuleTransferError>)
    ensures
        payload.version != RULE_FILE_VERSION ==> r == Err::<RuleFile, RuleTransferError>(
            RuleTransferError::UnsupportedVersion(payload.version),
        ),
        payload.version == RULE_FILE_VERSION && payload.rules@.len() == 0 ==> r == Err::<
            RuleFile,
            RuleTransferError,
        >(RuleTransferError::EmptyFile),
        payload.version == RULE_FILE_VERSION && payload.rules@.len() > MAX_IMPORT_RULES ==> r == Err::<
            RuleFile,
            RuleTransferError,
        >(RuleTransferError::TooManyRules(payload.rules@.len() as usize)),
        payload.version == RULE_FILE_VERSION && 0 < payload.rules@.len() <= MAX_IMPORT_RULES ==> match first_blank(
            payload.rules@,
            payload.rules@.len() as int,
        ) {
            Some(i) => r == Err::<RuleFile, RuleTransferError>(RuleTransferError::EmptyKeyword(i as usize)),
            None => r matches Ok(f) && f.version == RULE_FILE_VERSION && are_trimmed(f.rules@, payload.rules@),
        },
{
    if payload.version != RULE_FILE_VERSION {
        return Err(RuleTransferError::UnsupportedVersion(payload.version));
    }
    if payload.rules.len() == 0 {
        return Err(RuleTransferError::EmptyFile);
    }
    if payload.rules.len() > MAX_IMPORT_RULES {
        return Err(RuleTransferError::TooManyRules(payload.rules.len()));
    }
    let rules = &payload.rules;
    let mut out: Vec<NewRule> = Vec::new();
    let mut i: usize = 0;
    while i < rules.len()
        invariant
            payload.version == RULE_FILE_VERSION,
            rules@ == payload.rules@,
            0 < rules@.len(),
            i <= rules@.len() <= MAX_IMPORT_RULES,
            first_blank(rules@, i as int) is None,
            are_trimmed(out@, rules@.take(i as int)),
        decreases rules@.len() - i,
    {
        let rule = &rules[i];
        let keyword = trim_str(rule.keyword.as_str());
        if keyword.len() == 0 {
            assert(first_blank(rules@, i + 1) == Some(i + 1));
            proof {
                lemma_first_blank_stays(rules@, i + 1, rules@.len() as int);
            }
            return Err(RuleTransferError::EmptyKeyword(i + 1));
        }
        out.push(
            NewRule {
                keyword: string_from(keyword.as_slice()),
                rule_type: rule.rule_type,
                scope: rule.scope,
                enabled: rule.enabled,
            },
        );
        i = i + 1;
    }
    assert(rules@.take(rules@.len() as int) == rules@);
    Ok(RuleFile { version: payload.version, rules: out })
}

proof fn lemma_first_blank_stays(rules: Seq<NewRule>, i: int, n: int)
    requires
        0 < i <= n,
        first_blank(rules, i) == Some(i),
    ensures
        first_blank(rules, n) == Some(i),
    decreases n - i,
{
    if n > i {
        lemma_first_blank_stays(rules, i, n - 1);
    }
}

/// The rules of the file chosen by `selected`, in the file's order: all of them
/// when there is no selection. A selection must name at least one rule, and only
/// rules of the file; the first index out of range is reported.
pub open spec fn index_selected(selected: Seq<usize>, i: int) -> bool {
    exists|k: int| 0 <= k < selected.len() && selected[k] == i
}

/// The rules among the first `n` whose index is selected, in order.
pub open spec fn selected_upto(rules: Seq<NewRule>, selected: Seq<usize>, n: int) -> Seq<NewRule>
    decreases n,
{
    if n <= 0 {
        seq![]
    } else {
        let prev = selected_upto(rules, selected, n - 1);
        if index_selected(selected, n - 1) {
            prev.push(rules[n - 1])
        } else {
            prev
        }
    }
}

/// The first selected index that is out of range.
pub open spec fn first_out_of_range(selected: Seq<usize>, len: int, n: int) -> Option<usize>
    decreases n,
{
    if n <= 0 {
        None
    } else {
        match first_out_of_range(selected, len, n - 1) {
            Some(i) => Some(i),
            None => if selected[n - 1] >= len {
                Some(selected[n - 1])
            } else {
                None
            },
        }
    }
}

fn is_index_selected(selected: &[usize], i: usize) -> (r: bool)
    ensures
        r == index_selected(selected@, i as int),
{
    let mut k: usize = 0;
    while k < selected.len()
        invariant
            k <= selected@.len(),
            forall|j: int| 0 <= j < k ==> selected@[j] != i,
        decreases selected@.len() - k,
    {
        if selected[k] == i {
            return true;
        }
        k = k + 1;
    }
    false
}

/// The rules of a file to import, as `selected_indices` chooses them: all rules
/// without a selection; otherwise the selection must not be empty and must name only
/// rules of the file (the first index that does not is reported), and the chosen
/// rules are kept once each, in the file's order.
pub fn select_rules(rules: Vec<NewRule>, selected_indices: Option<&[usize]>) -> (r: Result<
    Vec<NewRule>,
    RuleTransferError,
>)
    ensures
        match selected_indices {
            None => r matches Ok(v) && v@ == rules@,
            Some(sel) => if sel@.len() == 0 {
                r == Err::<Vec<NewRule>, RuleTransferError>(RuleTransferError::EmptySelection)
            } else {
                match first_out_of_range(sel@, rules@.len() as int, sel@.len() as int) {
                    Some(i) => r == Err::<Vec<NewRule>, RuleTransferError>(RuleTransferError::InvalidSelection(i)),
                    None => r matches Ok(v) && v@ == selected_upto(rules@, sel@, rules@.len() as int),
                }
            },
        },
{
    let selected = match selected_indices {
        None => {
            return Ok(rules);
        },
        Some(s) => s,
    };
    if selected.len() == 0 {
        return Err(RuleTransferError::EmptySelection);
    }
    let mut k: usize = 0;
    while k < selected.len()
        invariant
            selected_indices == Some(selected),
            0 < selected@.len(),
            k <= selected@.len(),
            first_out_of_range(selected@, rules@.len() as int, k as int) is None,
        decreases selected@.len() - k,
    {
        if selected[k] >= rules.len() {
            assert(first_out_of_range(selected@, rules@.len() as int, k + 1) == Some(selected@[k as int]));
            proof {
                lemma_first_out_of_range_stays(selected@, rules@.len() as int, k + 1, selected@.len() as int);
            }
            return Err(RuleTransferError::InvalidSelection(selected[k]));
        }
        k = k + 1;
    }
    let mut out: Vec<NewRule> = Vec::new();
    let mut i: usize = 0;
    while i < rules.len()
        invariant
            i <= rules@.len(),
            out@ == selected_upto(rules@, selected@, i as int),
        decreases rules@.len() - i,
    {
        if is_index_selected(selected, i) {
            let rule = &rules[i];
            out.push(
                NewRule {
                    keyword: rule.keyword.clone(),
                    rule_type: rule.rule_type,
                    scope: rule.scope,
                    enabled: rule.enabled,
                },
            );
        }
        i = i + 1;
    }
    Ok(out)
}

proof fn lemma_first_out_of_range_stays(selected: Seq<usize>, len: int, i: int, n: int)
    requires
        0 < i <= n,
        first_out_of_range(selected, len, i) == Some(selected[i - 1]),
    ensures
        first_out_of_range(selected, len, n) == Some(selected[i - 1]),
    decreases n - i,
{
    if n > i {
        lemma_first_out_of_range_stays(selected, len, i, n - 1);
    }
}

/// The rules among the first `n` that an export writes: each rule whose id is
/// selected (every rule without a selection), as a new rule without id and date.
pub open spec fn exported_upto(rules: Seq<Rule>, selected_ids: Option<Seq<i64>>, n: int) -> Seq<NewRule>
    decreases n,
{
    if n <= 0 {
        seq![]
    } else {
        let prev = exported_upto(rules, selected_ids, n - 1);
        let rule = rules[n - 1];
        let chosen = match selected_ids {
            None => true,
            Some(ids) => ids.contains(rule.id),
        };
        if chosen {
            prev.push(NewRule { keyword: rule.keyword, rule_type: rule.rule_type, scope: rule.scope, enabled: rule.enabled })
        } else {
            prev
        }
    }
}

fn contains_id(ids: &[i64], id: i64) -> (r: bool)
    ensures
        r == ids@.contains(id),
{
    let mut k: usize = 0;
    while k < ids.len()
        invariant
            k <= ids@.len(),
            forall|j: int| 0 <= j < k ==> ids@[j] != id,
        decreases ids@.len() - k,
    {
        if ids[k] == id {
            assert(ids@[k as int] == id);
            return true;
        }
        k = k + 1;
    }
    false
}

/// The rules that an export writes: the stored rules, in order, limited to the
/// selected ids when there is a selection.
pub fn export_rules(rules: &[Rule], selected_ids: Option<&[i64]>) -> (r: Vec<NewRule>)
    ensures
        r@ == exported_upto(
            rules@,
            match selected_ids {
                Some(ids) => Some(ids@),
                None => None,
            },
            rules@.len() as int,
        ),
{
    let ghost sel = match selected_ids {
        Some(ids) => Some(ids@),
        None => None::<Seq<i64>>,
    };
    let mut out: Vec<NewRule> = Vec::new();
    let mut i: usize = 0;
    while i < rules.len()
        invariant
            i <= rules@.len(),
            sel == match selected_ids {
                Some(ids) => Some(ids@),
                None => None::<Seq<i64>>,
            },
            out@ == exported_upto(rules@, sel, i as int),
        decreases rules@.len() - i,
    {
        let rule = &rules[i];
        let chosen = match selected_ids {
            None => true,
            Some(ids) => contains_id(ids, rule.id),
        };
        if chosen {
            out.push(
                NewRule {
                    keyword: rule.keyword.clone(),
                    rule_type: rule.rule_type,
                    scope: rule.scope,
                    enabled: rule.enabled,
                },
            );
        }
        i = i + 1;
    }
    out
}

/// The preview of an accepted rule file: its rules and their number.
pub fn preview(payload: RuleFile) -> (r: RuleImportPreview)
    ensures
        r.count == payload.rules@.len(),
        r.rules@ == payload.rules@,
        r.version == RULE_FILE_VERSION,
{
    RuleImportPreview { count: payload.rules.len(), rules: payload.rules, version: RULE_FILE_VERSION }
}

/// A selection for an import keeps only rules of the file that were chosen, in the
/// file's order, and never more rules than the file has.
pub proof fn law_selection_is_a_subsequence(rules: Seq<NewRule>, selected: Seq<usize>, n: int)
    requires
        0 <= n <= rules.len(),
    ensures
        selected_upto(rules, selected, n).len() <= n,
        forall|j: int|
            0 <= j < selected_upto(rules, selected, n).len() ==> exists|i: int|
                0 <= i < n && index_selected(selected, i) && #[trigger] selected_upto(rules, selected, n)[j]
                    == #[trigger] rules[i],
    decreases n,
{
    if n > 0 {
        law_selection_is_a_subsequence(rules, selected, n - 1);
        let prev = selected_upto(rules, selected, n - 1);
        let cur = selected_upto(rules, selected, n);
        assert forall|j: int| 0 <= j < cur.len() implies exists|i: int|
            0 <= i < n && index_selected(selected, i) && #[trigger] cur[j] == #[trigger] rules[i] by {
            if j < prev.len() {
                assert(cur[j] == prev[j]);
                let i = choose|i: int| 0 <= i < n - 1 && index_selected(selected, i) && prev[j] == rules[i];
                assert(cur[j] == rules[i]);
            } else {
                assert(cur[j] == rules[n - 1]);
            }
        }
    }
}

/// Every keyword is already trimmed and not empty, as stored rules' keywords are.
pub open spec fn keywords_are_clean(keywords: Seq<Seq<char>>) -> bool {
    forall|i: int| 0 <= i < keywords.len() ==> trimmed(#[trigger] keywords[i]) == keywords[i] && keywords[i].len() > 0
}

/// `a` and `b` hold the same rules, one for one: same keyword, type, scope and state.
pub open spec fn same_rules(a: Seq<NewRule>, b: Seq<NewRule>) -> bool {
    &&& a.len() == b.len()
    &&& forall|i: int|
        0 <= i < a.len() ==> {
            &&& (#[trigger] a[i]).keyword@ == b[i].keyword@
            &&& a[i].rule_type == b[i].rule_type
            &&& a[i].scope == b[i].scope
            &&& a[i].enabled == b[i].enabled
        }
}

proof fn lemma_exported_keywords_clean(rules: Seq<Rule>, selected_ids: Option<Seq<i64>>, n: int)
    requires
        0 <= n <= rules.len(),
        keywords_are_clean(rules.map_values(|r: Rule| r.keyword@)),
    ensures
        forall|j: int|
            0 <= j < exported_upto(rules, selected_ids, n).len() ==> trimmed(
                #[trigger] exported_upto(rules, selected_ids, n)[j].keyword@,
            ) == exported_upto(rules, selected_ids, n)[j].keyword@ && exported_upto(
                rules,
                selected_ids,
                n,
            )[j].keyword@.len() > 0,
    decreases n,
{
    if n > 0 {
        lemma_exported_keywords_clean(rules, selected_ids, n - 1);
        let k = rules.map_values(|r: Rule| r.keyword@);
        assert(k[n - 1] == rules[n - 1].keyword@);
        let prev = exported_upto(rules, selected_ids, n - 1);
        let cur = exported_upto(rules, selected_ids, n);
        assert forall|j: int| 0 <= j < cur.len() implies trimmed(#[trigger] cur[j].keyword@) == cur[j].keyword@
            && cur[j].keyword@.len() > 0 by {
            if j < prev.len() {
                assert(cur[j] == prev[j]);
            }
        }
    }
}

proof fn lemma_no_blank(rules: Seq<NewRule>, m: int)
    requires
        0 <= m <= rules.len(),
        forall|j: int| 0 <= j < rules.len() ==> trimmed(#[trigger] rules[j].keyword@).len() > 0,
    ensures
        first_blank(rules, m) is None,
    decreases m,
{
    if m > 0 {
        lemma_no_blank(rules, m - 1);
        assert(trimmed(rules[m - 1].keyword@).len() > 0);
    }
}

/// A rule file written from an export reads back as the exported rules. When the stored
/// keywords are trimmed and not empty (as stored rules are) and the export holds one to
/// ten thousand rules, the file of version 1 holding them passes every check of
/// `check_payload`, and whatever rules the check keeps are the exported rules, one for
/// one and in order; imported without a selection, all of them are added.
pub proof fn law_exported_rules_import_back(rules: Seq<Rule>, selected_ids: Option<Seq<i64>>)
    requires
        keywords_are_clean(rules.map_values(|r: Rule| r.keyword@)),
        0 < exported_upto(rules, selected_ids, rules.len() as int).len() <= MAX_IMPORT_RULES,
    ensures
        ({
            let exported = exported_upto(rules, selected_ids, rules.len() as int);
            &&& first_blank(exported, exported.len() as int) is None
            &&& forall|kept: Seq<NewRule>| #[trigger] are_trimmed(kept, exported) ==> same_rules(kept, exported)
        }),
{
    let exported = exported_upto(rules, selected_ids, rules.len() as int);
    lemma_exported_keywords_clean(rules, selected_ids, rules.len() as int);
    lemma_no_blank(exported, exported.len() as int);
    assert forall|kept: Seq<NewRule>| #[trigger] are_trimmed(kept, exported) implies same_rules(kept, exported) by {
        assert forall|i: int| 0 <= i < kept.len() implies (#[trigger] kept[i]).keyword@ == exported[i].keyword@ by {
            assert(trimmed(exported[i].keyword@) == exported[i].keyword@);
        }
    }
}


/// The stored rule `rule` and the exported rule `out` agree in everything a rule file
/// keeps: keyword, type, scope and whether it is enabled.
pub open spec fn carries(out: NewRule, rule: Rule) -> bool {
    &&& out.keyword == rule.keyword
    &&& out.rule_type == rule.rule_type
    &&& out.scope == rule.scope
    &&& out.enabled == rule.enabled
}

/// The stored rule is one that an export with `selected_ids` writes.
pub open spec fn is_exported(rule: Rule, selected_ids: Option<Seq<i64>>) -> bool {
    match selected_ids {
        None => true,
        Some(ids) => ids.contains(rule.id),
    }
}

/// What an export writes, over the first `n` stored rules: without a selection, one
/// rule per stored rule, in order, each carrying that rule's keyword, type, scope and
/// state; with a selection, every written rule carries one selected stored rule, and
/// every selected stored rule is carried by a written one. Protecting rules stay
/// protecting and targeting rules stay targeting.
pub proof fn law_export_keeps_each_rule(rules: Seq<Rule>, selected_ids: Option<Seq<i64>>, n: int)
    requires
        0 <= n <= rules.len(),
    ensures
        selected_ids is None ==> exported_upto(rules, selected_ids, n).len() == n && forall|k: int|
            0 <= k < n ==> carries(#[trigger] exported_upto(rules, selected_ids, n)[k], rules[k]),
        forall|k: int|
            0 <= k < exported_upto(rules, selected_ids, n).len() ==> exists|i: int|
                0 <= i < n && is_exported(rules[i], selected_ids) && carries(
                    #[trigger] exported_upto(rules, selected_ids, n)[k],
                    #[trigger] rules[i],
                ),
        forall|i: int|
            0 <= i < n && is_exported(#[trigger] rules[i], selected_ids) ==> exists|k: int|
                0 <= k < exported_upto(rules, selected_ids, n).len() && carries(
                    #[trigger] exported_upto(rules, selected_ids, n)[k],
                    rules[i],
                ),
    decreases n,
{
    if n > 0 {
        law_export_keeps_each_rule(rules, selected_ids, n - 1);
        let prev = exported_upto(rules, selected_ids, n - 1);
        let cur = exported_upto(rules, selected_ids, n);
        let chosen = is_exported(rules[n - 1], selected_ids);
        if chosen {
            assert(cur == prev.push(
                NewRule {
                    keyword: rules[n - 1].keyword,
                    rule_type: rules[n - 1].rule_type,
                    scope: rules[n - 1].scope,
                    enabled: rules[n - 1].enabled,
                },
            ));
            assert(carries(cur[prev.len() as int], rules[n - 1]));
        } else {
            assert(cur == prev);
        }
        assert forall|k: int| 0 <= k < cur.len() implies exists|i: int|
            0 <= i < n && is_exported(rules[i], selected_ids) && carries(#[trigger] cur[k], #[trigger] rules[i]) by {
            if k < prev.len() {
                assert(cur[k] == prev[k]);
                let i = choose|i: int|
                    0 <= i < n - 1 && is_exported(rules[i], selected_ids) && carries(#[trigger] prev[k], #[trigger] rules[i]);
                assert(carries(cur[k], rules[i]));
            } else {
                assert(carries(cur[k], rules[n - 1]));
            }
        }
        assert forall|i: int| 0 <= i < n && is_exported(#[trigger] rules[i], selected_ids) implies exists|k: int|
            0 <= k < cur.len() && carries(#[trigger] cur[k], rules[i]) by {
            if i < n - 1 {
                let k = choose|k: int| 0 <= k < prev.len() && carries(#[trigger] prev[k], rules[i]);
                assert(cur[k] == prev[k]);
                assert(carries(cur[k], rules[i]));
            } else {
                assert(carries(cur[prev.len() as int], rules[i]));
            }
        }
        if selected_ids is None {
            assert forall|k: int| 0 <= k < n implies carries(#[trigger] cur[k], rules[k]) by {
                if k < n - 1 {
                    assert(cur[k] == prev[k]);
                }
            }
        }
    }
}
} // verus!
