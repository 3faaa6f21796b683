//! Whitelist and blacklist rules that classify Quick Access items.
use vstd::prelude::*;

use crate::text::{chars_eq_str, chars_of, push_signed_decimal, push_str, signed_decimal, string_from, trim_str, trimmed};

verus! {

/// Whether a rule protects matching items or marks them for cleanup.
#[derive(Debug, Clone, Copy, PartialEq, Eq, Structural)]
pub enum RuleType {
    Whitelist,
    Blacklist,
}

/// The kind of Quick Access item that a rule applies to.
#[derive(Debug, Clone, Copy, PartialEq, Eq, Structural)]
pub enum RuleScope {
    All,
    Files,
    Folders,
}

impl RuleScope {
    pub open spec fn spec_name(self) -> Seq<char> {
        match self {
            RuleScope::All => seq!['a', 'l', 'l'],
            RuleScope::Files => seq!['f', 'i', 'l', 'e', 's'],
            RuleScope::Folders => seq!['f', 'o', 'l', 'd', 'e', 'r', 's'],
        }
    }

    /// The stored name of the scope.
    pub fn as_str(self) -> (r: &'static str)
        ensures
            r@ == self.spec_name(),
    {
        proof {
            reveal_strlit("all");
            reveal_strlit("files");
            reveal_strlit("folders");
        }
        match self {
            RuleScope::All => "all",
            RuleScope::Files => "files",
            RuleScope::Folders => "folders",
        }
    }

    pub open spec fn spec_applies_to(self, item_scope: RuleScope) -> bool {
        self == RuleScope::All || self == item_scope
    }

    /// A rule scoped to `All` applies to every item; otherwise the scopes must agree.
    pub fn applies_to(self, item_scope: RuleScope) -> (r: bool)
        ensures
            r == self.spec_applies_to(item_scope),
    {
        self == RuleScope::All || self == item_scope
    }
}

impl RuleType {
    pub open spec fn spec_name(self) -> Seq<char> {
        match self {
            RuleType::Whitelist => seq!['w', 'h', 'i', 't', 'e', 'l', 'i', 's', 't'],
            RuleType::Blacklist => seq!['b', 'l', 'a', 'c', 'k', 'l', 'i', 's', 't'],
        }
    }

    /// The stored name of the rule type.
    pub fn as_str(self) -> (r: &'static str)
        ensures
            r@ == self.spec_name(),
    {
        proof {
            reveal_strlit("whitelist");
            reveal_strlit("blacklist");
        }
        match self {
            RuleType::Whitelist => "whitelist",
            RuleType::Blacklist => "blacklist",
        }
    }
}

/// A stored rule.
#[derive(Debug, Clone, PartialEq, Eq)]
pub struct Rule {
    pub id: i64,
    pub keyword: String,
    pub rule_type: RuleType,
    pub scope: RuleScope,
    pub enabled: bool,
    pub created_at: String,
}

/// A rule as entered by the user, before it is stored.
#[derive(Debug, Clone, PartialEq, Eq)]
pub struct NewRule {
    pub keyword: String,
    pub rule_type: RuleType,
    pub scope: RuleScope,
    pub enabled: bool,
}

/// The rule type stored under `name`.
pub open spec fn spec_rule_type_named(name: Seq<char>) -> Option<RuleType> {
    if name == "whitelist"@ {
        Some(RuleType::Whitelist)
    } else if name == "blacklist"@ {
        Some(RuleType::Blacklist)
    } else {
        None
    }
}

/// The rule scope stored under `name`.
pub open spec fn spec_rule_scope_named(name: Seq<char>) -> Option<RuleScope> {
    if name == "all"@ {
        Some(RuleScope::All)
    } else if name == "files"@ {
        Some(RuleScope::Files)
    } else if name == "folders"@ {
        Some(RuleScope::Folders)
    } else {
        None
    }
}

impl RuleType {
    /// Reads a stored rule type; other names are invalid.
    pub fn from_name(name: &str) -> (r: Option<RuleType>)
        ensures
            r == spec_rule_type_named(name@),
    {
        let chars = chars_of(name);
        if chars_eq_str(chars.as_slice(), "whitelist") {
            Some(RuleType::Whitelist)
        } else if chars_eq_str(chars.as_slice(), "blacklist") {
            Some(RuleType::Blacklist)
        } else {
            None
        }
    }
}

impl RuleScope {
    /// Reads a stored rule scope; other names are invalid.
    pub fn from_name(name: &str) -> (r: Option<RuleScope>)
        ensures
            r == spec_rule_scope_named(name@),
    {
        let chars = chars_of(name);
        if chars_eq_str(chars.as_slice(), "all") {
            Some(RuleScope::All)
        } else if chars_eq_str(chars.as_slice(), "files") {
            Some(RuleScope::Files)
        } else if chars_eq_str(chars.as_slice(), "folders") {
            Some(RuleScope::Folders)
        } else {
            None
        }
    }
}

/// Storing a type or scope under its name and reading it back gives it back.
pub proof fn law_stored_names_read_back(t: RuleType, s: RuleScope)
    ensures
        spec_rule_type_named(t.spec_name()) == Some(t),
        spec_rule_scope_named(s.spec_name()) == Some(s),
{
    reveal_strlit("whitelist");
    reveal_strlit("blacklist");
    reveal_strlit("all");
    reveal_strlit("files");
    reveal_strlit("folders");
    assert(RuleType::Whitelist.spec_name() =~= "whitelist"@);
    assert(RuleType::Blacklist.spec_name() =~= "blacklist"@);
    assert(RuleScope::All.spec_name() =~= "all"@);
    assert(RuleScope::Files.spec_name() =~= "files"@);
    assert(RuleScope::Folders.spec_name() =~= "folders"@);
}

/// Rejections of rule changes.
#[derive(Debug, Clone, Copy, PartialEq, Eq, Structural)]
pub enum RuleError {
    EmptyKeyword,
    NotFound(i64),
}

pub open spec fn rule_error_text(e: RuleError) -> Seq<char> {
    match e {
        RuleError::EmptyKeyword => "rule keyword cannot be empty"@,
        RuleError::NotFound(id) => "rule "@ + signed_decimal(id as int) + " not found"@,
    }
}

impl RuleError {
    /// The description of the rejection.
    pub fn message(&self) -> (r: String)
        ensures
            r@ == rule_error_text(*self),
    {
        let mut out = String::new();
        match self {
            RuleError::EmptyKeyword => push_str(&mut out, "rule keyword cannot be empty"),
            RuleError::NotFound(id) => {
                push_str(&mut out, "rule ");
                push_signed_decimal(&mut out, *id);
                push_str(&mut out, " not found");
            },
        }
        out
    }
}

/// A rule as it is stored: its keyword without surrounding whitespace, which must
/// not be empty; the other fields as given.
pub fn normalize(rule: NewRule) -> (r: Result<NewRule, RuleError>)
    ensures
        trimmed(rule.keyword@).len() == 0 ==> r == Err::<NewRule, RuleError>(RuleError::EmptyKeyword),
        trimmed(rule.keyword@).len() > 0 ==> (r matches Ok(n) && n.keyword@ == trimmed(rule.keyword@)
            && n.rule_type == rule.rule_type && n.scope == rule.scope && n.enabled == rule.enabled),
{
    let keyword = trim_str(rule.keyword.as_str());
    if keyword.len() == 0 {
        return Err(RuleError::EmptyKeyword);
    }
    Ok(
        NewRule {
            keyword: string_from(keyword.as_slice()),
            rule_type: rule.rule_type,
            scope: rule.scope,
            enabled: rule.enabled,
        },
    )
}

/// A change that touched no row means that the rule `id` does not exist.
pub fn ensure_rule_changed(id: i64, changed: usize) -> (r: Result<(), RuleError>)
    ensures
        changed == 0 ==> r == Err::<(), RuleError>(RuleError::NotFound(id)),
        changed > 0 ==> r is Ok,
{
    if changed == 0 {
        return Err(RuleError::NotFound(id));
    }
    Ok(())
}

} // verus!
