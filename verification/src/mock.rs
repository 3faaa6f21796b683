//! The in-memory Quick Access backend used for demonstrations and tests: generated
//! items, scenarios that inject failures, and the state changes of each operation.
use vstd::prelude::*;

use fake::faker::filesystem::en::{DirPath, FileName};
use fake::{Fake, Faker};

use crate::clock::{epoch_millis, read_clock};
use crate::qa_cache::next_revision;
use crate::rules::{NewRule, RuleScope, RuleType};
use crate::scheduler::AutoCleanFinished;
use crate::error::{is_next_id, issued_one, CommandError, CommandWarning, ErrorCode, IncidentIds};
use crate::quick_access::{
    PathKind, QaBatchFailure, QaBatchResult, QaBatchWarning, QaItem, QaRawPathCleanupResult,
    QaRestoreResult, QaRestoreSectionResult, QaVisibility, QuickAccessError,
};
use crate::text::{
    lemma_after_last_dash, lemma_digits_have_no_dash, lemma_digits_injective,
    ascii_lowercase, chars_of, contains_chars, contains_seq, digits, ends_with, ends_with_str,
    eq_ignore_ascii_case, eq_ignoring_ascii_case, push_chars, push_decimal, push_str, string_from,
    string_of, str_eq, trim_str, trimmed,
};

verus! {

/// The number of Recent Files a seeded state holds.
pub const RECENT_FILE_COUNT: usize = 20;

/// The number of Frequent Folders a seeded state holds.
pub const FREQUENT_FOLDER_COUNT: usize = 8;

/// How far back, in milliseconds, generated interaction times reach: ninety days.
pub const TIMESTAMP_WINDOW_MS: u64 = 7_776_000_000;

/// What the in-memory backend simulates.
#[derive(Debug, Clone, Copy, PartialEq, Eq, Structural)]
pub enum MockScenario {
    Normal,
    Empty,
    PartialFailure,
    PostMutationWarning,
}

impl Default for MockScenario {
    fn default() -> (r: MockScenario)
        ensures
            r == MockScenario::Normal,
    {
        MockScenario::Normal
    }
}

/// The state of the in-memory backend.
#[derive(Debug)]
pub struct MockData {
    pub scenario: MockScenario,
    pub revision: u64,
    pub recent: Vec<QaItem>,
    pub frequent: Vec<QaItem>,
    pub visibility: QaVisibility,
}

/// The kind the in-memory backend gives a path: blank paths are missing, paths ending
/// in a backslash or under a `Folders` directory are folders, and paths under a
/// `Recent` directory or ending in `.txt` or `.docx` are files.
pub open spec fn spec_path_kind(path: Seq<char>) -> PathKind {
    if trimmed(path).len() == 0 {
        PathKind::Missing
    } else if ends_with(path, "\\"@) || contains_seq(path, "\\Folders\\"@) {
        PathKind::Directory
    } else if contains_seq(path, "\\Recent\\"@) || ends_with(path, ".txt"@) || ends_with(
        path,
        ".docx"@,
    ) {
        PathKind::File
    } else {
        PathKind::Missing
    }
}

/// The kind of `path`, as `spec_path_kind` defines it.
pub fn path_kind(path: &str) -> (r: PathKind)
    ensures
        r == spec_path_kind(path@),
{
    let t = trim_str(path);
    if t.len() == 0 {
        return PathKind::Missing;
    }
    let p = chars_of(path);
    let folders = chars_of("\\Folders\\");
    let recent = chars_of("\\Recent\\");
    if ends_with_str(p.as_slice(), "\\") || contains_chars(p.as_slice(), folders.as_slice()) {
        PathKind::Directory
    } else if contains_chars(p.as_slice(), recent.as_slice()) || ends_with_str(p.as_slice(), ".txt")
        || ends_with_str(p.as_slice(), ".docx") {
        PathKind::File
    } else {
        PathKind::Missing
    }
}

/// The part of `s` after its last backslash (all of `s` where it has none).
pub open spec fn after_last_backslash(s: Seq<char>) -> Seq<char>
    decreases s.len(),
{
    if s.len() == 0 {
        s
    } else if s.last() == '\\' {
        seq![]
    } else {
        after_last_backslash(s.drop_last()).push(s.last())
    }
}

/// The start of the part of `s` after its last backslash.
fn last_backslash_end(s: &[char]) -> (r: usize)
    ensures
        r <= s.len(),
        after_last_backslash(s@) == s@.subrange(r as int, s.len() as int),
{
    let n = s.len();
    let mut j: usize = n;
    assert(s@.subrange(0, n as int) =~= s@);
    assert(s@.subrange(n as int, n as int) =~= Seq::<char>::empty());
    while j > 0 && s[j - 1] != '\\'
        invariant
            n == s.len(),
            j <= n,
            after_last_backslash(s@) == after_last_backslash(s@.subrange(0, j as int)) + s@.subrange(
                j as int,
                n as int,
            ),
        decreases j,
    {
        let ghost pre = s@.subrange(0, j as int);
        assert(pre.drop_last() =~= s@.subrange(0, j - 1));
        assert(s@.subrange(j - 1, n as int) =~= seq![s@[j - 1]] + s@.subrange(j as int, n as int));
        assert(after_last_backslash(pre) == after_last_backslash(pre.drop_last()).push(pre.last()));
        assert(after_last_backslash(pre.drop_last()).push(pre.last()) + s@.subrange(j as int, n as int)
            =~= after_last_backslash(pre.drop_last()) + s@.subrange(j - 1, n as int));
        j = j - 1;
    }
    if j > 0 {
        let ghost pre = s@.subrange(0, j as int);
        assert(pre.last() == '\\');
        assert(after_last_backslash(pre) =~= Seq::<char>::empty());
    } else {
        assert(s@.subrange(0, 0) =~= Seq::<char>::empty());
    }
    assert(Seq::<char>::empty() + s@.subrange(j as int, n as int) =~= s@.subrange(j as int, n as int));
    j
}

/// The display name of a generated item: the text after the last backslash of its path.
pub fn item_name(path: &str) -> (r: String)
    ensures
        r@ == after_last_backslash(path@),
{
    let p = chars_of(path);
    let start = last_backslash_end(p.as_slice());
    let mut out: Vec<char> = Vec::new();
    let mut k: usize = start;
    while k < p.len()
        invariant
            start <= k <= p.len(),
            out@ == p@.subrange(start as int, k as int),
        decreases p.len() - k,
    {
        out.push(p[k]);
        assert(p@.subrange(start as int, k + 1) =~= p@.subrange(start as int, k as int).push(p@[k as int]));
        k = k + 1;
    }
    string_from(out.as_slice())
}

/// A separator between the parts of a generated directory path.
pub open spec fn is_slash(c: char) -> bool {
    c == '/' || c == '\\'
}

/// The part of `s` after its last slash or backslash.
pub open spec fn after_last_slash(s: Seq<char>) -> Seq<char>
    decreases s.len(),
{
    if s.len() == 0 {
        s
    } else if is_slash(s.last()) {
        seq![]
    } else {
        after_last_slash(s.drop_last()).push(s.last())
    }
}

/// The last non-empty part of `s` split at slashes and backslashes, if any.
pub open spec fn last_part(s: Seq<char>) -> Option<Seq<char>>
    decreases s.len(),
{
    if s.len() == 0 {
        None
    } else if is_slash(s.last()) {
        last_part(s.drop_last())
    } else {
        Some(after_last_slash(s))
    }
}

/// The last non-empty part of `s`, as `last_part` defines it.
pub fn last_path_part(s: &[char]) -> (r: Option<Vec<char>>)
    ensures
        match last_part(s@) {
            Some(p) => r matches Some(v) && v@ == p,
            None => r is None,
        },
{
    let n = s.len();
    let mut j: usize = n;
    assert(s@.subrange(0, n as int) =~= s@);
    while j > 0 && (s[j - 1] == '/' || s[j - 1] == '\\')
        invariant
            n == s.len(),
            j <= n,
            last_part(s@) == last_part(s@.subrange(0, j as int)),
        decreases j,
    {
        assert(s@.subrange(0, j as int).drop_last() =~= s@.subrange(0, j - 1));
        j = j - 1;
    }
    if j == 0 {
        assert(s@.subrange(0, 0) =~= Seq::<char>::empty());
        return None;
    }
    let ghost head = s@.subrange(0, j as int);
    assert(last_part(head) == Some(after_last_slash(head)));
    let mut k: usize = j;
    assert(head.subrange(0, j as int) =~= head);
    assert(s@.subrange(j as int, j as int) =~= Seq::<char>::empty());
    while k > 0 && s[k - 1] != '/' && s[k - 1] != '\\'
        invariant
            n == s.len(),
            k <= j <= n,
            head == s@.subrange(0, j as int),
            after_last_slash(head) == after_last_slash(s@.subrange(0, k as int)) + s@.subrange(
                k as int,
                j as int,
            ),
        decreases k,
    {
        let ghost pre = s@.subrange(0, k as int);
        assert(pre.drop_last() =~= s@.subrange(0, k - 1));
        assert(after_last_slash(pre) == after_last_slash(pre.drop_last()).push(pre.last()));
        assert(after_last_slash(pre.drop_last()).push(pre.last()) + s@.subrange(k as int, j as int)
            =~= after_last_slash(pre.drop_last()) + s@.subrange(k - 1, j as int));
        k = k - 1;
    }
    if k > 0 {
        assert(after_last_slash(s@.subrange(0, k as int)) =~= Seq::<char>::empty());
    } else {
        assert(s@.subrange(0, 0) =~= Seq::<char>::empty());
    }
    assert(Seq::<char>::empty() + s@.subrange(k as int, j as int) =~= s@.subrange(k as int, j as int));
    let mut out: Vec<char> = Vec::new();
    let mut m: usize = k;
    while m < j
        invariant
            k <= m <= j <= n,
            n == s.len(),
            out@ == s@.subrange(k as int, m as int),
        decreases j - m,
    {
        out.push(s[m]);
        assert(s@.subrange(k as int, m + 1) =~= s@.subrange(k as int, m as int).push(s@[m as int]));
        m = m + 1;
    }
    Some(out)
}

/// A character that file names cannot hold, replaced by a hyphen in generated names.
pub open spec fn is_reserved(c: char) -> bool {
    c == '<' || c == '>' || c == ':' || c == '"' || c == '/' || c == '\\' || c == '|' || c == '?'
        || c == '*'
}

pub open spec fn sanitized_char(c: char) -> char {
    if is_reserved(c) {
        '-'
    } else {
        c
    }
}

pub open spec fn is_pad(c: char) -> bool {
    c == ' ' || c == '.'
}

/// `s` without leading spaces and dots.
pub open spec fn strip_pad_start(s: Seq<char>) -> Seq<char>
    decreases s.len(),
{
    if s.len() > 0 && is_pad(s[0]) {
        strip_pad_start(s.drop_first())
    } else {
        s
    }
}

/// `s` without trailing spaces and dots.
pub open spec fn strip_pad_end(s: Seq<char>) -> Seq<char>
    decreases s.len(),
{
    if s.len() > 0 && is_pad(s.last()) {
        strip_pad_end(s.drop_last())
    } else {
        s
    }
}

/// `n` in decimal, padded with a leading zero to at least two digits.
pub open spec fn two_digits(n: nat) -> Seq<char> {
    if n < 10 {
        seq!['0'] + digits(n, 10)
    } else {
        digits(n, 10)
    }
}

/// The name component generated for position `index`: the position counted from
/// one in two digits, a hyphen, and `generated` with reserved characters replaced and
/// surrounding spaces and dots removed, or `fallback` where nothing is left.
pub open spec fn unique_component_text(index: nat, generated: Seq<char>, fallback: Seq<char>) -> Seq<
    char,
> {
    let cleaned = strip_pad_end(strip_pad_start(generated.map_values(|c: char| sanitized_char(c))));
    let value = if cleaned.len() == 0 {
        fallback
    } else {
        cleaned
    };
    two_digits(index + 1) + seq!['-'] + value
}

fn strip_pad(s: &[char]) -> (r: Vec<char>)
    ensures
        r@ == strip_pad_end(strip_pad_start(s@)),
{
    let n = s.len();
    let mut i: usize = 0;
    assert(s@.subrange(0, n as int) =~= s@);
    while i < n && (s[i] == ' ' || s[i] == '.')
        invariant
            n == s.len(),
            i <= n,
            strip_pad_start(s@) == strip_pad_start(s@.subrange(i as int, n as int)),
        decreases n - i,
    {
        assert(s@.subrange(i as int, n as int).drop_first() =~= s@.subrange(i + 1, n as int));
        i = i + 1;
    }
    let mut j: usize = n;
    while j > i && (s[j - 1] == ' ' || s[j - 1] == '.')
        invariant
            n == s.len(),
            i <= j <= n,
            strip_pad_end(s@.subrange(i as int, n as int)) == strip_pad_end(
                s@.subrange(i as int, j as int),
            ),
        decreases j - i,
    {
        assert(s@.subrange(i as int, j as int).drop_last() =~= s@.subrange(i as int, j - 1));
        j = j - 1;
    }
    let mut out: Vec<char> = Vec::new();
    let mut k: usize = i;
    while k < j
        invariant
            n == s.len(),
            i <= k <= j <= n,
            out@ == s@.subrange(i as int, k as int),
        decreases j - k,
    {
        out.push(s[k]);
        assert(s@.subrange(i as int, k + 1) =~= s@.subrange(i as int, k as int).push(s@[k as int]));
        k = k + 1;
    }
    out
}

/// The name component for position `index`, as `unique_component_text` defines it.
pub fn unique_component(index: u64, generated: &str, fallback: &str) -> (r: String)
    requires
        index < u64::MAX,
    ensures
        r@ == unique_component_text(index as nat, generated@, fallback@),
{
    let g = chars_of(generated);
    let mut mapped: Vec<char> = Vec::new();
    let mut i: usize = 0;
    while i < g.len()
        invariant
            i <= g.len(),
            mapped@ == g@.take(i as int).map_values(|c: char| sanitized_char(c)),
        decreases g.len() - i,
    {
        let c = g[i];
        let d = if c == '<' || c == '>' || c == ':' || c == '"' || c == '/' || c == '\\' || c == '|'
            || c == '?' || c == '*' {
            '-'
        } else {
            c
        };
        mapped.push(d);
        assert(g@.take(i + 1).map_values(|c: char| sanitized_char(c)) =~= g@.take(
            i as int,
        ).map_values(|c: char| sanitized_char(c)).push(sanitized_char(g@[i as int])));
        i = i + 1;
    }
    assert(g@.take(g.len() as int) =~= g@);
    let cleaned = strip_pad(mapped.as_slice());
    let mut out = String::new();
    let position = index + 1;
    if position < 10 {
        out.push('0');
    }
    push_decimal(&mut out, position);
    out.push('-');
    if cleaned.len() == 0 {
        push_str(&mut out, fallback);
    } else {
        push_chars(&mut out, cleaned.as_slice());
    }
    proof {
        let v = if cleaned@.len() == 0 {
            fallback@
        } else {
            cleaned@
        };
        if position < 10 {
            assert(seq!['0'] + digits(position as nat, 10) + seq!['-'] + v =~= seq![]
                .push('0') + digits(position as nat, 10) + seq!['-'] + v);
        }
        assert(out@ =~= two_digits(position as nat) + seq!['-'] + v);
    }
    out
}

/// `item` is the generated item at `path`, last used at `timestamp`; it carries a
/// pin state, `pinned`, only where the path has a `Folders` component.
pub open spec fn is_generated_item(item: QaItem, path: Seq<char>, pinned: bool, timestamp: u64) -> bool {
    &&& item.path@ == path
    &&& item.name@ == after_last_backslash(path)
    &&& item.last_interaction_at == Some(timestamp)
    &&& item.pinned == if contains_seq(path, "Folders"@) {
        Some(pinned)
    } else {
        None
    }
}

/// The generated item at `path`.
pub fn generated_item(path: &str, pinned: bool, timestamp: u64) -> (r: QaItem)
    ensures
        is_generated_item(r, path@, pinned, timestamp),
{
    let p = chars_of(path);
    let marker = chars_of("Folders");
    let has_pin = contains_chars(p.as_slice(), marker.as_slice());
    QaItem {
        path: string_of(path),
        name: item_name(path),
        last_interaction_at: Some(timestamp),
        pinned: if has_pin {
            Some(pinned)
        } else {
            None
        },
    }
}

/// The path of the generated Recent File at position `index`.
pub open spec fn file_path(index: nat, generated: Seq<char>) -> Seq<char> {
    "C:\\Mock\\Recent\\"@ + unique_component_text(index, generated, "item.txt"@)
}

/// The path of the generated Frequent Folder at position `index`.
pub open spec fn folder_path(index: nat, generated: Seq<char>) -> Seq<char> {
    let part = match last_part(generated) {
        Some(p) => p,
        None => "Folder"@,
    };
    "C:\\Mock\\Folders\\"@ + unique_component_text(index, part, "Folder"@)
}

/// The Recent File at position `index`, named after the generated file name `generated`.
pub fn file_item(index: u64, generated: &str, timestamp: u64) -> (r: QaItem)
    requires
        index < u64::MAX,
    ensures
        is_generated_item(r, file_path(index as nat, generated@), false, timestamp),
{
    let mut path = String::new();
    push_str(&mut path, "C:\\Mock\\Recent\\");
    let name = unique_component(index, generated, "item.txt");
    push_str(&mut path, name.as_str());
    generated_item(path.as_str(), false, timestamp)
}

/// The Frequent Folder at position `index`, named after the last part of the generated
/// directory path `generated`.
pub fn folder_item(index: u64, generated: &str, pinned: bool, timestamp: u64) -> (r: QaItem)
    requires
        index < u64::MAX,
    ensures
        is_generated_item(r, folder_path(index as nat, generated@), pinned, timestamp),
{
    let g = chars_of(generated);
    let part = match last_path_part(g.as_slice()) {
        Some(v) => string_from(v.as_slice()),
        None => string_of("Folder"),
    };
    let mut path = String::new();
    push_str(&mut path, "C:\\Mock\\Folders\\");
    let name = unique_component(index, part.as_str(), "Folder");
    push_str(&mut path, name.as_str());
    generated_item(path.as_str(), pinned, timestamp)
}

/// Calls `fake::faker::filesystem::en::FileName` for a random file name. Nothing is
/// promised of the name, which is drawn at random.
#[verifier::external_body]
fn fake_file_name() -> String {
    FileName().fake()
}

/// Calls `fake::faker::filesystem::en::DirPath` for a random directory path. Nothing
/// is promised of the path, which is drawn at random.
#[verifier::external_body]
fn fake_dir_path() -> String {
    DirPath().fake()
}

/// Calls `Faker` for a random `bool`.
#[verifier::external_body]
fn fake_flag() -> bool {
    Faker.fake()
}

/// Calls `Fake::fake` on the range `low..=high`, which draws from rand's
/// `Uniform::new_inclusive(low, high)`: a value within the range. The range must not
/// be empty, or the draw panics.
#[verifier::external_body]
fn fake_between(low: u64, high: u64) -> (r: u64)
    requires
        low <= high,
    ensures
        low <= r <= high,
{
    (low..=high).fake()
}

/// The latest instant of the window of interaction times for a clock reading of
/// `now_ms`: the reading, or the Unix epoch for a reading before it.
pub open spec fn window_end(now_ms: i64) -> u64 {
    if now_ms < 0 {
        0
    } else {
        now_ms as u64
    }
}

/// The earliest instant of that window: ninety days before its end, but not before
/// the epoch.
pub open spec fn window_start(now_ms: i64) -> u64 {
    if window_end(now_ms) >= TIMESTAMP_WINDOW_MS {
        (window_end(now_ms) - TIMESTAMP_WINDOW_MS) as u64
    } else {
        0
    }
}

/// The first and last instant, in milliseconds, of the window of interaction times
/// for a clock reading of `now_ms`.
pub fn interaction_window(now_ms: i64) -> (r: (u64, u64))
    ensures
        r == (window_start(now_ms), window_end(now_ms)),
{
    let now: u64 = if now_ms < 0 {
        0
    } else {
        now_ms as u64
    };
    (now.saturating_sub(TIMESTAMP_WINDOW_MS), now)
}

/// A random interaction time within the last ninety days; a clock before the Unix
/// epoch counts as the epoch. Whatever the clock reads, the time lies in the window
/// for that reading.
pub fn random_timestamp() -> (r: u64)
    ensures
        exists|now_ms: i64| #![trigger window_end(now_ms)] window_start(now_ms) <= r <= window_end(now_ms),
{
    let millis = epoch_millis(read_clock());
    let now_ms: i64 = if millis <= i64::MAX as u64 {
        millis as i64
    } else {
        i64::MAX
    };
    let (earliest, latest) = interaction_window(now_ms);
    fake_between(earliest, latest)
}

/// `item` is a Recent File generated for position `index`.
pub open spec fn is_file_at(item: QaItem, index: nat) -> bool {
    exists|g: Seq<char>, t: u64| is_generated_item(item, file_path(index, g), false, t)
}

/// `item` is a Frequent Folder generated for position `index`.
pub open spec fn is_folder_at(item: QaItem, index: nat) -> bool {
    exists|g: Seq<char>, p: bool, t: u64| is_generated_item(item, folder_path(index, g), p, t)
}

/// A Recent File for position `index`, with a random name and interaction time.
pub fn random_file(index: u64) -> (r: QaItem)
    requires
        index < u64::MAX,
    ensures
        is_file_at(r, index as nat),
{
    let generated = fake_file_name();
    let timestamp = random_timestamp();
    let item = file_item(index, generated.as_str(), timestamp);
    assert(is_generated_item(item, file_path(index as nat, generated@), false, timestamp));
    item
}

/// A Frequent Folder for position `index`, with a random name, pin state and
/// interaction time.
pub fn random_folder(index: u64) -> (r: QaItem)
    requires
        index < u64::MAX,
    ensures
        is_folder_at(r, index as nat),
{
    let generated = fake_dir_path();
    let pinned = fake_flag();
    let timestamp = random_timestamp();
    let item = folder_item(index, generated.as_str(), pinned, timestamp);
    assert(is_generated_item(item, folder_path(index as nat, generated@), pinned, timestamp));
    item
}

/// All three sections shown.
pub open spec fn all_visible() -> QaVisibility {
    QaVisibility { recent: true, frequent: true, start_recommended: true }
}

/// `items` holds, in order, the Recent Files generated for positions from zero.
pub open spec fn generated_files(items: Seq<QaItem>) -> bool {
    forall|k: int| 0 <= k < items.len() ==> #[trigger] is_file_at(items[k], k as nat)
}

/// `items` holds, in order, the Frequent Folders generated for positions from zero.
pub open spec fn generated_folders(items: Seq<QaItem>) -> bool {
    forall|k: int| 0 <= k < items.len() ==> #[trigger] is_folder_at(items[k], k as nat)
}

/// The freshly seeded state of `scenario`, apart from the generated items.
pub open spec fn is_seeded(d: MockData, scenario: MockScenario) -> bool {
    &&& d.scenario == scenario
    &&& d.visibility == all_visible()
    &&& generated_files(d.recent@)
    &&& generated_folders(d.frequent@)
    &&& scenario == MockScenario::Empty ==> d.recent@.len() == 0 && d.frequent@.len() == 0
    &&& scenario != MockScenario::Empty ==> d.recent@.len() == RECENT_FILE_COUNT && d.frequent@.len()
        == FREQUENT_FOLDER_COUNT
}

impl MockData {
    /// A fresh state for `scenario` at revision one: every section shown and, unless
    /// the scenario is `Empty`, twenty generated Recent Files and eight Frequent Folders.
    pub fn seed(scenario: MockScenario) -> (r: MockData)
        ensures
            is_seeded(r, scenario),
            r.revision == 1,
    {
        let mut recent: Vec<QaItem> = Vec::new();
        let mut frequent: Vec<QaItem> = Vec::new();
        if scenario != MockScenario::Empty {
            let mut i: usize = 0;
            while i < RECENT_FILE_COUNT
                invariant
                    i <= RECENT_FILE_COUNT,
                    recent@.len() == i,
                    generated_files(recent@),
                decreases RECENT_FILE_COUNT - i,
            {
                let item = random_file(i as u64);
                recent.push(item);
                assert(is_file_at(recent@[i as int], i as nat));
                i = i + 1;
            }
            let mut j: usize = 0;
            while j < FREQUENT_FOLDER_COUNT
                invariant
                    j <= FREQUENT_FOLDER_COUNT,
                    frequent@.len() == j,
                    generated_folders(frequent@),
                decreases FREQUENT_FOLDER_COUNT - j,
            {
                let item = random_folder(j as u64);
                frequent.push(item);
                assert(is_folder_at(frequent@[j as int], j as nat));
                j = j + 1;
            }
        }
        MockData {
            scenario,
            revision: 1,
            recent,
            frequent,
            visibility: QaVisibility { recent: true, frequent: true, start_recommended: true },
        }
    }

    /// Replaces the state by a fresh one for `scenario`.
    pub fn set_scenario(&mut self, scenario: MockScenario)
        ensures
            is_seeded(*final(self), scenario),
            final(self).revision == 1,
    {
        *self = MockData::seed(scenario);
    }

    /// Regenerates the items of the current scenario and advances the revision.
    pub fn refresh(&mut self)
        ensures
            is_seeded(*final(self), old(self).scenario),
            final(self).revision == next_revision(old(self).revision),
    {
        let revision = if self.revision == u64::MAX {
            0
        } else {
            self.revision + 1
        };
        *self = MockData::seed(self.scenario);
        self.revision = revision;
    }
}

/// A copy of `item`.
pub fn copy_item(item: &QaItem) -> (r: QaItem)
    ensures
        r == *item,
{
    QaItem {
        path: item.path.clone(),
        name: item.name.clone(),
        last_interaction_at: item.last_interaction_at,
        pinned: item.pinned,
    }
}

/// Copies of `items`, in order.
pub fn copy_items(items: &Vec<QaItem>) -> (r: Vec<QaItem>)
    ensures
        r@ == items@,
{
    let mut out: Vec<QaItem> = Vec::new();
    let mut i: usize = 0;
    while i < items.len()
        invariant
            i <= items.len(),
            out@ == items@.take(i as int),
        decreases items.len() - i,
    {
        out.push(copy_item(&items[i]));
        assert(items@.take(i + 1) =~= items@.take(i as int).push(items@[i as int]));
        i = i + 1;
    }
    assert(items@.take(items.len() as int) =~= items@);
    out
}

/// Rejections by the in-memory backend.
#[derive(Debug, Clone, PartialEq, Eq)]
pub enum MockError {
    Rejected(QuickAccessError),
    AlreadyExists(String),
}

pub open spec fn mock_error_text(e: MockError) -> Seq<char> {
    match e {
        MockError::Rejected(q) => crate::quick_access::quick_access_error_text(q),
        MockError::AlreadyExists(p) => "mock item already exists: "@ + p@,
    }
}

impl MockError {
    /// The description of the rejection.
    pub fn message(&self) -> (r: String)
        ensures
            r@ == mock_error_text(*self),
    {
        match self {
            MockError::Rejected(q) => q.message(),
            MockError::AlreadyExists(p) => {
                let mut out = String::new();
                push_str(&mut out, "mock item already exists: ");
                push_str(&mut out, p.as_str());
                out
            },
        }
    }
}

/// `items` holds an item whose path equals `path` up to ASCII case.
pub open spec fn holds_path(items: Seq<QaItem>, path: Seq<char>) -> bool {
    exists|k: int| 0 <= k < items.len() && eq_ignoring_ascii_case(#[trigger] items[k].path@, path)
}

fn find_path(items: &Vec<QaItem>, path: &str) -> (r: bool)
    ensures
        r == holds_path(items@, path@),
{
    let mut i: usize = 0;
    while i < items.len()
        invariant
            i <= items.len(),
            forall|k: int| 0 <= k < i ==> !eq_ignoring_ascii_case(#[trigger] items@[k].path@, path@),
        decreases items.len() - i,
    {
        if eq_ignore_ascii_case(items[i].path.as_str(), path) {
            return true;
        }
        i = i + 1;
    }
    false
}

/// `items` without the items whose path equals `path` up to ASCII case.
pub open spec fn without_path(items: Seq<QaItem>, path: Seq<char>) -> Seq<QaItem>
    decreases items.len(),
{
    if items.len() == 0 {
        items
    } else {
        let prev = without_path(items.drop_last(), path);
        if eq_ignoring_ascii_case(items.last().path@, path) {
            prev
        } else {
            prev.push(items.last())
        }
    }
}

/// `items` without the items matching any of `paths`, removed one path after another.
pub open spec fn without_paths(items: Seq<QaItem>, paths: Seq<String>) -> Seq<QaItem>
    decreases paths.len(),
{
    if paths.len() == 0 {
        items
    } else {
        without_path(without_paths(items, paths.drop_last()), paths.last()@)
    }
}

fn remove_path(items: &mut Vec<QaItem>, path: &str)
    ensures
        final(items)@ == without_path(old(items)@, path@),
{
    let mut kept: Vec<QaItem> = Vec::new();
    let mut i: usize = 0;
    while i < items.len()
        invariant
            i <= items.len(),
            kept@ == without_path(items@.take(i as int), path@),
        decreases items.len() - i,
    {
        assert(items@.take(i + 1).drop_last() =~= items@.take(i as int));
        if !eq_ignore_ascii_case(items[i].path.as_str(), path) {
            kept.push(copy_item(&items[i]));
        }
        i = i + 1;
    }
    assert(items@.take(items.len() as int) =~= items@);
    *items = kept;
}

/// Under `scenario`, the removal at position `index` of a batch fails: every second
/// item under `PartialFailure`.
pub open spec fn fails_at(scenario: MockScenario, index: int) -> bool {
    scenario == MockScenario::PartialFailure && index % 2 == 1
}

/// The paths of a batch whose removal succeeds under `scenario`, in order.
pub open spec fn removed_paths(scenario: MockScenario, paths: Seq<String>) -> Seq<String>
    decreases paths.len(),
{
    if paths.len() == 0 {
        paths
    } else {
        let prev = removed_paths(scenario, paths.drop_last());
        if fails_at(scenario, paths.len() - 1) {
            prev
        } else {
            prev.push(paths.last())
        }
    }
}

/// The paths of a batch whose removal fails under `scenario`, in order.
pub open spec fn refused_paths(scenario: MockScenario, paths: Seq<String>) -> Seq<String>
    decreases paths.len(),
{
    if paths.len() == 0 {
        paths
    } else {
        let prev = refused_paths(scenario, paths.drop_last());
        if fails_at(scenario, paths.len() - 1) {
            prev.push(paths.last())
        } else {
            prev
        }
    }
}

/// The error recorded for an item whose simulated removal failed.
pub open spec fn is_mock_failure(f: QaBatchFailure) -> bool {
    &&& f.error.code == ErrorCode::QuickAccessPermissionDenied
    &&& f.error.message@ == "The mock Quick Access operation failed."@
    &&& !f.error.retryable
}

/// The warning recorded for the first item of a batch under `PostMutationWarning`.
pub open spec fn is_mock_warning(w: QaBatchWarning, path: String) -> bool {
    &&& w.path == path
    &&& w.warning.code@ == "quick_access_post_mutation_failed"@
    &&& w.warning.step@ == "refresh_explorer"@
    &&& w.warning.message@ == "The mock Quick Access change completed with a warning."@
    &&& w.warning.incident_id@ == "mock-warning"@
}

/// The outcome of removing `paths` under `scenario` from a section that held `before`:
/// what the batch result reports and what the section holds afterwards.
pub open spec fn is_mock_removal(
    scenario: MockScenario,
    paths: Seq<String>,
    before: Seq<QaItem>,
    r: QaBatchResult,
    after: Seq<QaItem>,
) -> bool {
    &&& r.total == paths.len()
    &&& r.succeeded@ == removed_paths(scenario, paths)
    &&& r.failed@.map_values(|f: QaBatchFailure| f.path) == refused_paths(scenario, paths)
    &&& forall|k: int| 0 <= k < r.failed@.len() ==> is_mock_failure(#[trigger] r.failed@[k])
    &&& if scenario == MockScenario::PostMutationWarning && paths.len() > 0 {
        r.warnings@.len() == 1 && is_mock_warning(r.warnings@[0], paths[0])
    } else {
        r.warnings@.len() == 0
    }
    &&& r.skipped_protected@.len() == 0
    &&& r.history_error is None
    &&& after == without_paths(before, r.succeeded@)
}

fn mock_failure(ids: &mut IncidentIds, path: &String) -> (r: QaBatchFailure)
    ensures
        r.path == *path,
        is_mock_failure(r),
        is_next_id(r.error.incident_id@, *old(ids)),
        issued_one(*old(ids), *final(ids)),
{
    let mut detail = String::new();
    push_str(&mut detail, "mock failure for ");
    push_str(&mut detail, path.as_str());
    QaBatchFailure {
        path: path.clone(),
        error: CommandError::expected(
            ids,
            "mock_remove_qa_items",
            ErrorCode::QuickAccessPermissionDenied,
            "The mock Quick Access operation failed.",
            false,
            detail,
        ),
    }
}

fn mock_warning(path: &String) -> (r: QaBatchWarning)
    ensures
        is_mock_warning(r, *path),
{
    QaBatchWarning {
        path: path.clone(),
        warning: CommandWarning {
            code: "quick_access_post_mutation_failed",
            step: "refresh_explorer",
            message: string_of("The mock Quick Access change completed with a warning."),
            incident_id: string_of("mock-warning"),
        },
    }
}

fn remove_batch(
    ids: &mut IncidentIds,
    items: &mut Vec<QaItem>,
    scenario: MockScenario,
    paths: &Vec<String>,
) -> (r: QaBatchResult)
    ensures
        is_mock_removal(scenario, paths@, old(items)@, r, final(items)@),
        final(ids).process() == old(ids).process(),
{
    let ghost before = items@;
    let mut result = QaBatchResult {
        total: paths.len(),
        succeeded: Vec::new(),
        failed: Vec::new(),
        warnings: Vec::new(),
        skipped_protected: Vec::new(),
        history_error: None,
    };
    let mut i: usize = 0;
    while i < paths.len()
        invariant
            i <= paths.len(),
            before == old(items)@,
            result.total == paths.len(),
            result.succeeded@ == removed_paths(scenario, paths@.take(i as int)),
            result.failed@.map_values(|f: QaBatchFailure| f.path) == refused_paths(
                scenario,
                paths@.take(i as int),
            ),
            forall|k: int| 0 <= k < result.failed@.len() ==> is_mock_failure(#[trigger] result.failed@[k]),
            if scenario == MockScenario::PostMutationWarning && i > 0 {
                result.warnings@.len() == 1 && is_mock_warning(result.warnings@[0], paths@[0])
            } else {
                result.warnings@.len() == 0
            },
            result.skipped_protected@.len() == 0,
            result.history_error is None,
            items@ == without_paths(before, result.succeeded@),
            ids.process() == old(ids).process(),
        decreases paths.len() - i,
    {
        let ghost prefix = paths@.take(i + 1);
        assert(prefix.drop_last() =~= paths@.take(i as int));
        assert(prefix.last() == paths@[i as int]);
        let path = &paths[i];
        if scenario == MockScenario::PartialFailure && i % 2 == 1 {
            let f = mock_failure(ids, path);
            result.failed.push(f);
            assert(result.failed@.map_values(|f: QaBatchFailure| f.path) =~= refused_paths(
                scenario,
                paths@.take(i as int),
            ).push(*path));
        } else {
            if scenario == MockScenario::PostMutationWarning && i == 0 {
                result.warnings.push(mock_warning(path));
            }
            let ghost succeeded_before = result.succeeded@;
            result.succeeded.push(path.clone());
            assert(result.succeeded@.drop_last() =~= succeeded_before);
            remove_path(items, path.as_str());
            assert(result.failed@.map_values(|f: QaBatchFailure| f.path) =~= refused_paths(
                scenario,
                prefix,
            ));
        }
        i = i + 1;
    }
    assert(paths@.take(paths.len() as int) =~= paths@);
    result
}

/// Whether `qa_type` names Recent Files.
pub open spec fn names_recent(qa_type: Seq<char>) -> bool {
    qa_type == "recent"@
}

/// Whether `qa_type` names Frequent Folders.
pub open spec fn names_frequent(qa_type: Seq<char>) -> bool {
    qa_type == "frequent"@
}

/// The section results that restoring the defaults reports.
pub open spec fn restored_recent() -> QaRestoreSectionResult {
    QaRestoreSectionResult {
        success: true,
        deleted_lnk_count: 2,
        recent_files_cleared: Some(true),
        backing_file_deleted: None,
        rebuilt: None,
        non_default_raw_path_count: 0,
        raw_path_cleanup: None,
        error: None,
    }
}

pub open spec fn restored_frequent() -> QaRestoreSectionResult {
    QaRestoreSectionResult {
        success: true,
        deleted_lnk_count: 1,
        recent_files_cleared: None,
        backing_file_deleted: Some(true),
        rebuilt: Some(true),
        non_default_raw_path_count: 0,
        raw_path_cleanup: Some(
            QaRawPathCleanupResult {
                success: true,
                requested_count: 1,
                backing_file_deleted: true,
                rebuilt: true,
                remaining_count: 0,
                error: None,
            },
        ),
        error: None,
    }
}

impl MockData {
    /// Replaces the first item of a section (or adds one to an empty section) by a
    /// newly generated one for the position after the seeded items, offset by the
    /// revision, and advances the revision.
    pub fn trigger_change(&mut self, qa_type: &str) -> (r: Result<(), QuickAccessError>)
        requires
            old(self).revision < u64::MAX - RECENT_FILE_COUNT,
        ensures
            !names_recent(qa_type@) && !names_frequent(qa_type@) ==> {
                &&& r matches Err(QuickAccessError::UnsupportedWriteType(t)) && t@ == qa_type@
                &&& *final(self) == *old(self)
            },
            names_recent(qa_type@) ==> {
                &&& r is Ok
                &&& final(self).recent@.len() == if old(self).recent@.len() == 0 {
                    1
                } else {
                    old(self).recent@.len()
                }
                &&& is_file_at(
                    final(self).recent@[0],
                    (RECENT_FILE_COUNT + old(self).revision) as nat,
                )
                &&& forall|k: int|
                    1 <= k < final(self).recent@.len() ==> #[trigger] final(self).recent@[k]
                        == old(self).recent@[k]
                &&& final(self).frequent == old(self).frequent
            },
            names_frequent(qa_type@) ==> {
                &&& r is Ok
                &&& final(self).frequent@.len() == if old(self).frequent@.len() == 0 {
                    1
                } else {
                    old(self).frequent@.len()
                }
                &&& is_folder_at(
                    final(self).frequent@[0],
                    (FREQUENT_FOLDER_COUNT + old(self).revision) as nat,
                )
                &&& forall|k: int|
                    1 <= k < final(self).frequent@.len() ==> #[trigger] final(self).frequent@[k]
                        == old(self).frequent@[k]
                &&& final(self).recent == old(self).recent
            },
            r is Ok ==> {
                &&& final(self).revision == next_revision(old(self).revision)
                &&& final(self).scenario == old(self).scenario
                &&& final(self).visibility == old(self).visibility
            },
    {
        proof {
            reveal_strlit("recent");
            reveal_strlit("frequent");
            reveal_strlit("all");
            reveal_strlit("start_recommended");
            assert("recent"@.len() == 6 && "frequent"@.len() == 8 && "all"@.len() == 3);
            assert("start_recommended"@.len() == 17);
        }
        if str_eq(qa_type, "recent") {
            let item = random_file((RECENT_FILE_COUNT as u64) + self.revision);
            if self.recent.len() == 0 {
                self.recent.push(item);
            } else {
                self.recent.set(0, item);
            }
        } else if str_eq(qa_type, "frequent") {
            let item = random_folder((FREQUENT_FOLDER_COUNT as u64) + self.revision);
            if self.frequent.len() == 0 {
                self.frequent.push(item);
            } else {
                self.frequent.set(0, item);
            }
        } else {
            return Err(QuickAccessError::UnsupportedWriteType(string_of(qa_type)));
        }
        self.revision = if self.revision == u64::MAX {
            0
        } else {
            self.revision + 1
        };
        Ok(())
    }

    /// Adds the item at `path` to a section, as the real backend would: the path must
    /// be of the section's kind and not yet listed there (compared up to ASCII case).
    pub fn add_item(&mut self, qa_type: &str, path: &str) -> (r: Result<(), MockError>)
        ensures
            ({
                let kind = spec_path_kind(path@);
                let list = if names_recent(qa_type@) {
                    old(self).recent@
                } else {
                    old(self).frequent@
                };
                if kind == PathKind::Missing {
                    r matches Err(MockError::Rejected(QuickAccessError::ItemNotFound(p))) && p@
                        == path@
                } else if names_recent(qa_type@) && kind != PathKind::File {
                    r matches Err(MockError::Rejected(QuickAccessError::NotAFile(p))) && p@ == path@
                } else if names_frequent(qa_type@) && kind != PathKind::Directory {
                    r matches Err(MockError::Rejected(QuickAccessError::NotAFolder(p))) && p@
                        == path@
                } else if !names_recent(qa_type@) && !names_frequent(qa_type@) {
                    r matches Err(MockError::Rejected(QuickAccessError::UnsupportedWriteType(t)))
                        && t@ == qa_type@
                } else if holds_path(list, path@) {
                    r matches Err(MockError::AlreadyExists(p)) && p@ == path@
                } else {
                    r is Ok
                }
            }),
            r is Err ==> *final(self) == *old(self),
            r is Ok ==> {
                &&& final(self).revision == next_revision(old(self).revision)
                &&& final(self).scenario == old(self).scenario
                &&& final(self).visibility == old(self).visibility
                &&& names_recent(qa_type@) ==> {
                    &&& final(self).recent@.drop_last() == old(self).recent@
                    &&& final(self).recent@.len() == old(self).recent@.len() + 1
                    &&& exists|t: u64|
                        is_generated_item(final(self).recent@.last(), path@, false, t)
                    &&& final(self).frequent == old(self).frequent
                }
                &&& names_frequent(qa_type@) ==> {
                    &&& final(self).frequent@.drop_last() == old(self).frequent@
                    &&& final(self).frequent@.len() == old(self).frequent@.len() + 1
                    &&& exists|t: u64|
                        is_generated_item(final(self).frequent@.last(), path@, true, t)
                    &&& final(self).recent == old(self).recent
                }
            },
    {
        proof {
            reveal_strlit("recent");
            reveal_strlit("frequent");
            reveal_strlit("all");
            reveal_strlit("start_recommended");
            assert("recent"@.len() == 6 && "frequent"@.len() == 8 && "all"@.len() == 3);
            assert("start_recommended"@.len() == 17);
        }
        let kind = path_kind(path);
        let recent = str_eq(qa_type, "recent");
        let frequent = str_eq(qa_type, "frequent");
        if kind == PathKind::Missing {
            return Err(MockError::Rejected(QuickAccessError::ItemNotFound(string_of(path))));
        }
        if recent && kind != PathKind::File {
            return Err(MockError::Rejected(QuickAccessError::NotAFile(string_of(path))));
        }
        if frequent && kind != PathKind::Directory {
            return Err(MockError::Rejected(QuickAccessError::NotAFolder(string_of(path))));
        }
        if !recent && !frequent {
            return Err(
                MockError::Rejected(QuickAccessError::UnsupportedWriteType(string_of(qa_type))),
            );
        }
        let exists_already = if recent {
            find_path(&self.recent, path)
        } else {
            find_path(&self.frequent, path)
        };
        if exists_already {
            return Err(MockError::AlreadyExists(string_of(path)));
        }
        let timestamp = random_timestamp();
        let item = generated_item(path, frequent, timestamp);
        if recent {
            let ghost old_recent = self.recent@;
            self.recent.push(item);
            assert(self.recent@.drop_last() =~= old_recent);
            assert(is_generated_item(self.recent@.last(), path@, false, timestamp));
        } else {
            let ghost old_frequent = self.frequent@;
            self.frequent.push(item);
            assert(self.frequent@.drop_last() =~= old_frequent);
            assert(is_generated_item(self.frequent@.last(), path@, true, timestamp));
        }
        self.revision = if self.revision == u64::MAX {
            0
        } else {
            self.revision + 1
        };
        Ok(())
    }

    /// Removes the items at `paths` from a section, simulating the scenario: under
    /// `PartialFailure` every second removal fails, under `PostMutationWarning` the
    /// first removal carries a warning. The revision advances when anything was removed.
    pub fn remove_items(&mut self, ids: &mut IncidentIds, qa_type: &str, paths: Vec<String>) -> (r: Result<
        QaBatchResult,
        QuickAccessError,
    >)
        ensures
            !names_recent(qa_type@) && !names_frequent(qa_type@) ==> {
                &&& r matches Err(QuickAccessError::UnsupportedWriteType(t)) && t@ == qa_type@
                &&& *final(self) == *old(self)
            },
            names_recent(qa_type@) ==> (r matches Ok(b) && is_mock_removal(
                old(self).scenario,
                paths@,
                old(self).recent@,
                b,
                final(self).recent@,
            ) && final(self).frequent == old(self).frequent),
            names_frequent(qa_type@) ==> (r matches Ok(b) && is_mock_removal(
                old(self).scenario,
                paths@,
                old(self).frequent@,
                b,
                final(self).frequent@,
            ) && final(self).recent == old(self).recent),
            r matches Ok(b) ==> {
                &&& final(self).revision == if b.succeeded@.len() > 0 {
                    next_revision(old(self).revision)
                } else {
                    old(self).revision
                }
                &&& final(self).scenario == old(self).scenario
                &&& final(self).visibility == old(self).visibility
            },
            final(ids).process() == old(ids).process(),
    {
        proof {
            reveal_strlit("recent");
            reveal_strlit("frequent");
            reveal_strlit("all");
            reveal_strlit("start_recommended");
            assert("recent"@.len() == 6 && "frequent"@.len() == 8 && "all"@.len() == 3);
            assert("start_recommended"@.len() == 17);
        }
        let scenario = self.scenario;
        let result = if str_eq(qa_type, "recent") {
            remove_batch(ids, &mut self.recent, scenario, &paths)
        } else if str_eq(qa_type, "frequent") {
            remove_batch(ids, &mut self.frequent, scenario, &paths)
        } else {
            return Err(QuickAccessError::UnsupportedWriteType(string_of(qa_type)));
        };
        if result.succeeded.len() > 0 {
            self.revision = if self.revision == u64::MAX {
                0
            } else {
                self.revision + 1
            };
        }
        Ok(result)
    }

    /// Restores the default state of `recent`, `frequent` or `all` sections: they are
    /// emptied and reported as restored, and the revision advances.
    pub fn restore_defaults(&mut self, qa_type: &str) -> (r: Result<QaRestoreResult, QuickAccessError>)
        ensures
            ({
                let recent = names_recent(qa_type@) || qa_type@ == "all"@;
                let frequent = names_frequent(qa_type@) || qa_type@ == "all"@;
                if !recent && !frequent {
                    &&& r matches Err(QuickAccessError::UnsupportedType(t)) && t@ == qa_type@
                    &&& *final(self) == *old(self)
                } else {
                    &&& r == Ok::<QaRestoreResult, QuickAccessError>(
                        QaRestoreResult {
                            success: true,
                            recent: if recent {
                                Some(restored_recent())
                            } else {
                                None
                            },
                            frequent: if frequent {
                                Some(restored_frequent())
                            } else {
                                None
                            },
                        },
                    )
                    &&& final(self).recent@ == if recent {
                        Seq::<QaItem>::empty()
                    } else {
                        old(self).recent@
                    }
                    &&& final(self).frequent@ == if frequent {
                        Seq::<QaItem>::empty()
                    } else {
                        old(self).frequent@
                    }
                    &&& final(self).revision == next_revision(old(self).revision)
                    &&& final(self).scenario == old(self).scenario
                    &&& final(self).visibility == old(self).visibility
                }
            }),
    {
        proof {
            reveal_strlit("recent");
            reveal_strlit("frequent");
            reveal_strlit("all");
            reveal_strlit("start_recommended");
            assert("recent"@.len() == 6 && "frequent"@.len() == 8 && "all"@.len() == 3);
            assert("start_recommended"@.len() == 17);
        }
        let all = str_eq(qa_type, "all");
        let recent = all || str_eq(qa_type, "recent");
        let frequent = all || str_eq(qa_type, "frequent");
        if !recent && !frequent {
            return Err(QuickAccessError::UnsupportedType(string_of(qa_type)));
        }
        let recent_section = if recent {
            self.recent = Vec::new();
            Some(
                QaRestoreSectionResult {
                    success: true,
                    deleted_lnk_count: 2,
                    recent_files_cleared: Some(true),
                    backing_file_deleted: None,
                    rebuilt: None,
                    non_default_raw_path_count: 0,
                    raw_path_cleanup: None,
                    error: None,
                },
            )
        } else {
            None
        };
        let frequent_section = if frequent {
            self.frequent = Vec::new();
            Some(
                QaRestoreSectionResult {
                    success: true,
                    deleted_lnk_count: 1,
                    recent_files_cleared: None,
                    backing_file_deleted: Some(true),
                    rebuilt: Some(true),
                    non_default_raw_path_count: 0,
                    raw_path_cleanup: Some(
                        QaRawPathCleanupResult {
                            success: true,
                            requested_count: 1,
                            backing_file_deleted: true,
                            rebuilt: true,
                            remaining_count: 0,
                            error: None,
                        },
                    ),
                    error: None,
                },
            )
        } else {
            None
        };
        self.revision = if self.revision == u64::MAX {
            0
        } else {
            self.revision + 1
        };
        Ok(QaRestoreResult { success: true, recent: recent_section, frequent: frequent_section })
    }

    /// Shows or hides one section and advances the revision.
    pub fn set_visibility(&mut self, qa_type: &str, visible: bool) -> (r: Result<
        QaVisibility,
        QuickAccessError,
    >)
        ensures
            ({
                let v = old(self).visibility;
                if qa_type@ == "recent"@ {
                    final(self).visibility == QaVisibility { recent: visible, ..v }
                } else if qa_type@ == "frequent"@ {
                    final(self).visibility == QaVisibility { frequent: visible, ..v }
                } else if qa_type@ == "start_recommended"@ {
                    final(self).visibility == QaVisibility { start_recommended: visible, ..v }
                } else {
                    &&& r matches Err(QuickAccessError::UnsupportedVisibilityType(t)) && t@
                        == qa_type@
                    &&& *final(self) == *old(self)
                }
            }),
            r matches Ok(v) ==> {
                &&& v == final(self).visibility
                &&& final(self).revision == next_revision(old(self).revision)
                &&& final(self).recent == old(self).recent
                &&& final(self).frequent == old(self).frequent
                &&& final(self).scenario == old(self).scenario
            },
            (qa_type@ == "recent"@ || qa_type@ == "frequent"@ || qa_type@ == "start_recommended"@)
                ==> r is Ok,
    {
        proof {
            reveal_strlit("recent");
            reveal_strlit("frequent");
            reveal_strlit("all");
            reveal_strlit("start_recommended");
            assert("recent"@.len() == 6 && "frequent"@.len() == 8 && "all"@.len() == 3);
            assert("start_recommended"@.len() == 17);
        }
        if str_eq(qa_type, "recent") {
            self.visibility.recent = visible;
        } else if str_eq(qa_type, "frequent") {
            self.visibility.frequent = visible;
        } else if str_eq(qa_type, "start_recommended") {
            self.visibility.start_recommended = visible;
        } else {
            return Err(QuickAccessError::UnsupportedVisibilityType(string_of(qa_type)));
        }
        self.revision = if self.revision == u64::MAX {
            0
        } else {
            self.revision + 1
        };
        Ok(self.visibility)
    }

    /// The items of `recent`, `frequent` or `all` sections, Recent Files first.
    pub fn list_items(&self, qa_type: &str) -> (r: Result<Vec<QaItem>, QuickAccessError>)
        ensures
            names_recent(qa_type@) ==> (r matches Ok(v) && v@ == self.recent@),
            names_frequent(qa_type@) ==> (r matches Ok(v) && v@ == self.frequent@),
            qa_type@ == "all"@ ==> (r matches Ok(v) && v@ == self.recent@ + self.frequent@),
            !names_recent(qa_type@) && !names_frequent(qa_type@) && qa_type@ != "all"@ ==> (r matches Err(
                QuickAccessError::UnsupportedType(t),
            ) && t@ == qa_type@),
    {
        proof {
            reveal_strlit("recent");
            reveal_strlit("frequent");
            reveal_strlit("all");
            reveal_strlit("start_recommended");
            assert("recent"@.len() == 6 && "frequent"@.len() == 8 && "all"@.len() == 3);
            assert("start_recommended"@.len() == 17);
        }
        if str_eq(qa_type, "recent") {
            Ok(copy_items(&self.recent))
        } else if str_eq(qa_type, "frequent") {
            Ok(copy_items(&self.frequent))
        } else if str_eq(qa_type, "all") {
            let mut out = copy_items(&self.recent);
            let mut rest = copy_items(&self.frequent);
            out.append(&mut rest);
            Ok(out)
        } else {
            Err(QuickAccessError::UnsupportedType(string_of(qa_type)))
        }
    }
}

/// What `without_path` keeps is taken from `items`, in order, and does not match `path`.
proof fn lemma_without_path(items: Seq<QaItem>, path: Seq<char>)
    ensures
        !holds_path(without_path(items, path), path),
        forall|q: Seq<char>| !holds_path(items, q) ==> !holds_path(without_path(items, path), q),
    decreases items.len(),
{
    if items.len() > 0 {
        let rest = items.drop_last();
        lemma_without_path(rest, path);
        let prev = without_path(rest, path);
        assert forall|q: Seq<char>| !holds_path(items, q) implies !holds_path(without_path(items, path), q) by {
            assert forall|k: int| 0 <= k < rest.len() implies !eq_ignoring_ascii_case(
                #[trigger] rest[k].path@,
                q,
            ) by {
                assert(rest[k] == items[k]);
            }
            assert(!holds_path(rest, q));
            if !eq_ignoring_ascii_case(items.last().path@, path) {
                let r = prev.push(items.last());
                assert forall|k: int| 0 <= k < r.len() implies !eq_ignoring_ascii_case(
                    #[trigger] r[k].path@,
                    q,
                ) by {
                    if k < prev.len() {
                        assert(r[k] == prev[k]);
                    } else {
                        assert(r[k] == items[items.len() - 1]);
                    }
                }
            }
        }
        if !eq_ignoring_ascii_case(items.last().path@, path) {
            let r = prev.push(items.last());
            assert forall|k: int| 0 <= k < r.len() implies !eq_ignoring_ascii_case(
                #[trigger] r[k].path@,
                path,
            ) by {
                if k < prev.len() {
                    assert(r[k] == prev[k]);
                }
            }
        }
    }
}

proof fn lemma_without_paths(items: Seq<QaItem>, paths: Seq<String>, k: int)
    requires
        0 <= k < paths.len(),
    ensures
        !holds_path(without_paths(items, paths), paths[k]@),
    decreases paths.len(),
{
    let rest = paths.drop_last();
    lemma_without_path(without_paths(items, rest), paths.last()@);
    if k < paths.len() - 1 {
        assert(rest[k] == paths[k]);
        lemma_without_paths(items, rest, k);
    }
}

/// Once the in-memory backend reports the removal of an item, no item of the section
/// has that path any more, whatever its case.
pub proof fn law_removed_items_are_no_longer_listed(
    scenario: MockScenario,
    paths: Seq<String>,
    before: Seq<QaItem>,
    r: QaBatchResult,
    after: Seq<QaItem>,
    k: int,
)
    requires
        is_mock_removal(scenario, paths, before, r, after),
        0 <= k < r.succeeded@.len(),
    ensures
        !holds_path(after, r.succeeded@[k]@),
{
    lemma_without_paths(before, r.succeeded@, k);
}

/// The largest number of rules that can be generated at once.
pub const MAX_MOCK_RULES: usize = 1_000;

/// Requests that need the in-memory backend are refused while it is not in use.
pub fn mock_mode_guard(ids: &mut IncidentIds, mock_enabled: bool) -> (r: Result<(), CommandError>)
    ensures
        mock_enabled <==> r is Ok,
        r matches Err(e) ==> e.code == ErrorCode::ValidationInvalidArgument && e.message@
            == "Mock mode is not enabled."@ && !e.retryable,
        r matches Err(e) ==> is_next_id(e.incident_id@, *old(ids)) && issued_one(*old(ids), *final(ids)),
        r is Ok ==> *final(ids) == *old(ids),
{
    if mock_enabled {
        Ok(())
    } else {
        Err(
            CommandError::expected(
                ids,
                "mock_mode_guard",
                ErrorCode::ValidationInvalidArgument,
                "Mock mode is not enabled.",
                false,
                "mock mode is disabled",
            ),
        )
    }
}

/// The error reported when an operation of the in-memory backend fails.
pub fn mock_error<E: std::fmt::Display>(ids: &mut IncidentIds, operation: &str, error: E) -> (r: CommandError)
    ensures
        r.code == ErrorCode::InternalUnexpected,
        r.message@ == "The mock operation could not be completed."@,
        r.retryable,
        is_next_id(r.incident_id@, *old(ids)),
        issued_one(*old(ids), *final(ids)),
{
    CommandError::unexpected(
        ids,
        operation,
        ErrorCode::InternalUnexpected,
        "The mock operation could not be completed.",
        true,
        error,
    )
}

/// Between one and a thousand rules can be generated.
pub fn check_mock_rule_count(ids: &mut IncidentIds, count: usize) -> (r: Result<(), CommandError>)
    ensures
        (1 <= count <= MAX_MOCK_RULES) <==> r is Ok,
        r matches Err(e) ==> e.code == ErrorCode::ValidationInvalidArgument && e.message@
            == "The mock rule count is invalid."@ && !e.retryable,
        r matches Err(e) ==> is_next_id(e.incident_id@, *old(ids)) && issued_one(*old(ids), *final(ids)),
        r is Ok ==> *final(ids) == *old(ids),
{
    if 1 <= count && count <= MAX_MOCK_RULES {
        Ok(())
    } else {
        Err(
            CommandError::expected(
                ids,
                "generate_mock_rules",
                ErrorCode::ValidationInvalidArgument,
                "The mock rule count is invalid.",
                false,
                "rule count must be between 1 and 1000",
            ),
        )
    }
}

/// `n` in decimal, padded with leading zeros to at least `width` digits.
pub open spec fn zero_padded(n: nat, width: nat) -> Seq<char> {
    let d = digits(n, 10);
    if d.len() >= width {
        d
    } else {
        Seq::new((width - d.len()) as nat, |i: int| '0') + d
    }
}

/// The keyword of the rule generated for position `index`: the trimmed generated
/// name (or `item`), a hyphen, the six-digit `suffix`, a hyphen and the position.
pub open spec fn mock_keyword(generated: Seq<char>, suffix: nat, index: nat) -> Seq<char> {
    let t = trimmed(generated);
    let name = if t.len() == 0 {
        "item"@
    } else {
        t
    };
    name + seq!['-'] + zero_padded(suffix, 6) + seq!['-'] + digits(index, 10)
}

/// The scope chosen by the generated number `scope_index`.
pub open spec fn mock_scope(scope_index: u64) -> RuleScope {
    if scope_index == 0 {
        RuleScope::All
    } else if scope_index == 1 {
        RuleScope::Files
    } else {
        RuleScope::Folders
    }
}

/// The rule generated for position `index` from the generated values.
pub fn mock_rule(index: usize, generated: &str, suffix: u64, scope_index: u64, whitelist: bool, enabled: bool) -> (r:
    NewRule)
    ensures
        r.keyword@ == mock_keyword(generated@, suffix as nat, index as nat),
        r.rule_type == if whitelist {
            RuleType::Whitelist
        } else {
            RuleType::Blacklist
        },
        r.scope == mock_scope(scope_index),
        r.enabled == enabled,
{
    let t = trim_str(generated);
    let mut keyword = String::new();
    if t.len() == 0 {
        push_str(&mut keyword, "item");
    } else {
        push_chars(&mut keyword, t.as_slice());
    }
    keyword.push('-');
    let ghost before_pad = keyword@;
    let d = crate::text::digits_of(suffix, 10);
    let mut pad: usize = d.len();
    while pad < 6
        invariant
            d.len() <= pad <= 6 || (d.len() > 6 && pad == d.len()),
            keyword@ == before_pad + Seq::new((pad - d.len()) as nat, |i: int| '0'),
        decreases 6 - pad,
    {
        keyword.push('0');
        assert(Seq::new((pad + 1 - d.len()) as nat, |i: int| '0') =~= Seq::new(
            (pad - d.len()) as nat,
            |i: int| '0',
        ).push('0'));
        pad = pad + 1;
    }
    push_chars(&mut keyword, d.as_slice());
    keyword.push('-');
    push_decimal(&mut keyword, index as u64);
    proof {
        let name = if trimmed(generated@).len() == 0 {
            "item"@
        } else {
            trimmed(generated@)
        };
        assert(before_pad == name + seq!['-']);
        if d@.len() >= 6 {
            assert(Seq::new((pad - d.len()) as nat, |i: int| '0') =~= Seq::<char>::empty());
            assert(zero_padded(suffix as nat, 6) == d@);
        } else {
            assert(pad == 6);
        }
        assert(keyword@ =~= mock_keyword(generated@, suffix as nat, index as nat));
    }
    NewRule {
        keyword,
        rule_type: if whitelist {
            RuleType::Whitelist
        } else {
            RuleType::Blacklist
        },
        scope: if scope_index == 0 {
            RuleScope::All
        } else if scope_index == 1 {
            RuleScope::Files
        } else {
            RuleScope::Folders
        },
        enabled,
    }
}

/// `rule` is a rule generated for position `index`.
pub open spec fn is_mock_rule(rule: NewRule, index: nat) -> bool {
    exists|g: Seq<char>, suffix: nat| suffix < 1_000_000 && #[trigger] mock_keyword(g, suffix, index) == rule.keyword@
}

/// A rule with a random name, suffix, type, scope and state for position `index`.
pub fn random_rule(index: usize) -> (r: NewRule)
    ensures
        is_mock_rule(r, index as nat),
{
    proof {
        reveal_strlit("item");
    }
    let generated = fake_file_name();
    let suffix = fake_between(0, 999_999);
    let scope_index = fake_between(0, 2);
    let whitelist = fake_flag();
    let enabled = fake_flag();
    let rule = mock_rule(index, generated.as_str(), suffix, scope_index, whitelist, enabled);
    assert(mock_keyword(generated@, suffix as nat, index as nat) == rule.keyword@);
    rule
}

/// `count` random rules, generated for the positions from zero.
pub fn random_rules(count: usize) -> (r: Vec<NewRule>)
    ensures
        r@.len() == count,
        forall|k: int| 0 <= k < count ==> #[trigger] is_mock_rule(r@[k], k as nat),
{
    let mut rules: Vec<NewRule> = Vec::new();
    let mut i: usize = 0;
    while i < count
        invariant
            i <= count,
            rules@.len() == i,
            forall|k: int| 0 <= k < i ==> #[trigger] is_mock_rule(rules@[k], k as nat),
        decreases count - i,
    {
        let rule = random_rule(i);
        rules.push(rule);
        assert(is_mock_rule(rules@[i as int], i as nat));
        i = i + 1;
    }
    rules
}

/// Rules generated for different positions have different keywords, whatever names
/// and suffixes were drawn for them.
pub proof fn law_generated_rule_keywords_are_distinct(a: NewRule, i: nat, b: NewRule, j: nat)
    requires
        is_mock_rule(a, i),
        is_mock_rule(b, j),
        i != j,
    ensures
        a.keyword@ != b.keyword@,
{
    let (ga, sa) = choose|g: Seq<char>, suffix: nat| suffix < 1_000_000 && #[trigger] mock_keyword(g, suffix, i) == a.keyword@;
    let (gb, sb) = choose|g: Seq<char>, suffix: nat| suffix < 1_000_000 && #[trigger] mock_keyword(g, suffix, j) == b.keyword@;
    let ta = trimmed(ga);
    let tb = trimmed(gb);
    let na = if ta.len() == 0 {
        "item"@
    } else {
        ta
    };
    let nb = if tb.len() == 0 {
        "item"@
    } else {
        tb
    };
    lemma_digits_have_no_dash(i, 10);
    lemma_digits_have_no_dash(j, 10);
    lemma_after_last_dash(na + seq!['-'] + zero_padded(sa, 6), digits(i, 10));
    lemma_after_last_dash(nb + seq!['-'] + zero_padded(sb, 6), digits(j, 10));
    if a.keyword@ == b.keyword@ {
        lemma_digits_injective(i, j, 10);
    }
}

/// The events that can be simulated.
#[derive(Debug, Clone, Copy, PartialEq, Eq, Structural)]
pub enum MockEventKind {
    QuickAccessRecent,
    QuickAccessFrequent,
    AutoCleanFinished,
}

/// What simulating an event does: change a section (and refresh it and wake the
/// monitor), or announce a finished automatic cleanup.
#[derive(Debug, Clone, Copy, PartialEq, Eq)]
pub enum MockEventAction {
    Change(&'static str),
    Announce(AutoCleanFinished),
}

/// The simulated finished cleanup: three items, two removed and one failed, at
/// `completed_at`.
pub open spec fn mock_finished(completed_at: i64) -> AutoCleanFinished {
    AutoCleanFinished {
        completed_at,
        total: 3,
        succeeded: 2,
        failed: 1,
        warnings: 0,
        section_errors: 0,
        history_errors: 0,
    }
}

/// The action that simulates `event` at `now`.
pub fn mock_event_action(event: MockEventKind, now: i64) -> (r: MockEventAction)
    ensures
        event == MockEventKind::QuickAccessRecent ==> (r matches MockEventAction::Change(t) && t@
            == "recent"@),
        event == MockEventKind::QuickAccessFrequent ==> (r matches MockEventAction::Change(t) && t@
            == "frequent"@),
        event == MockEventKind::AutoCleanFinished ==> r == MockEventAction::Announce(mock_finished(now)),
{
    match event {
        MockEventKind::QuickAccessRecent => MockEventAction::Change("recent"),
        MockEventKind::QuickAccessFrequent => MockEventAction::Change("frequent"),
        MockEventKind::AutoCleanFinished => MockEventAction::Announce(
            AutoCleanFinished {
                completed_at: now,
                total: 3,
                succeeded: 2,
                failed: 1,
                warnings: 0,
                section_errors: 0,
                history_errors: 0,
            },
        ),
    }
}

/// The steps of switching the in-memory backend on, in order.
#[derive(Debug, Clone, Copy, PartialEq, Eq, Structural)]
pub enum MockSwitchStep {
    /// Privacy mode works on simulated locks.
    Privacy,
    /// The database is replaced by a temporary one.
    Database,
    /// The watchers pause and the in-memory backend takes over.
    Backend,
}

/// What is undone after a failed switch.
#[derive(Debug, Clone, Copy, PartialEq, Eq, Structural)]
pub enum MockSwitchUndo {
    RealDatabase,
    RealPrivacy,
    ResumeWatchers,
}

/// The undo steps after switching on failed at `failed`: the steps done before it are
/// undone, the latest first, and watchers that the failed step may have paused resume.
pub fn switch_rollback(failed: MockSwitchStep) -> (r: Vec<MockSwitchUndo>)
    ensures
        failed == MockSwitchStep::Privacy ==> r@ == Seq::<MockSwitchUndo>::empty(),
        failed == MockSwitchStep::Database ==> r@ == seq![MockSwitchUndo::RealPrivacy],
        failed == MockSwitchStep::Backend ==> r@ == seq![
            MockSwitchUndo::RealDatabase,
            MockSwitchUndo::RealPrivacy,
            MockSwitchUndo::ResumeWatchers,
        ],
{
    let mut undo: Vec<MockSwitchUndo> = Vec::new();
    match failed {
        MockSwitchStep::Privacy => {},
        MockSwitchStep::Database => {
            undo.push(MockSwitchUndo::RealPrivacy);
        },
        MockSwitchStep::Backend => {
            undo.push(MockSwitchUndo::RealDatabase);
            undo.push(MockSwitchUndo::RealPrivacy);
            undo.push(MockSwitchUndo::ResumeWatchers);
        },
    }
    assert(undo@ =~= match failed {
        MockSwitchStep::Privacy => Seq::<MockSwitchUndo>::empty(),
        MockSwitchStep::Database => seq![MockSwitchUndo::RealPrivacy],
        MockSwitchStep::Backend => seq![
            MockSwitchUndo::RealDatabase,
            MockSwitchUndo::RealPrivacy,
            MockSwitchUndo::ResumeWatchers,
        ],
    });
    undo
}

} // verus!
