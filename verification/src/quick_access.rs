//! Quick Access item types and the validation of Quick Access requests.
use vstd::prelude::*;

use crate::error::{
    spec_classify_wincent, wincent_command_error_ref, wincent_post_mutation_warning, CommandError,
    CommandWarning, IncidentIds, WincentErrorKind,
};
use crate::text::{
    chars_eq_str, chars_of, push_str, string_from, string_of, trim_str, trimmed, unicode_lowercase,
};
use crate::winpath::{file_name_bounds, spec_file_name};

verus! {

/// A Quick Access item as listed to the user.
#[derive(Debug, Clone, PartialEq, Eq)]
pub struct QaItem {
    pub path: String,
    pub name: String,
    pub last_interaction_at: Option<u64>,
    pub pinned: Option<bool>,
}

/// The number of items in each Quick Access category.
#[derive(Debug, Clone, Copy, PartialEq, Eq, Structural)]
pub struct QaCounts {
    pub recent: usize,
    pub frequent: usize,
    pub all: usize,
}

/// The outcome of removing a batch of Quick Access items.
#[derive(Debug, Clone, PartialEq, Eq)]
pub struct QaBatchResult {
    pub total: usize,
    pub succeeded: Vec<String>,
    pub failed: Vec<QaBatchFailure>,
    pub warnings: Vec<QaBatchWarning>,
    pub skipped_protected: Vec<String>,
    pub history_error: Option<String>,
}

impl Default for QaBatchResult {
    fn default() -> (r: QaBatchResult)
        ensures
            r.total == 0,
            r.succeeded@.len() == 0,
            r.failed@.len() == 0,
            r.warnings@.len() == 0,
            r.skipped_protected@.len() == 0,
            r.history_error is None,
    {
        QaBatchResult {
            total: 0,
            succeeded: Vec::new(),
            failed: Vec::new(),
            warnings: Vec::new(),
            skipped_protected: Vec::new(),
            history_error: None,
        }
    }
}

/// An item whose removal failed.
#[derive(Debug, Clone, PartialEq, Eq)]
pub struct QaBatchFailure {
    pub path: String,
    pub error: CommandError,
}

/// An item that was removed, after which a follow-up step failed.
#[derive(Debug, Clone, PartialEq, Eq)]
pub struct QaBatchWarning {
    pub path: String,
    pub warning: CommandWarning,
}

/// The outcome of a single Quick Access mutation.
#[derive(Debug, Clone, PartialEq, Eq)]
pub struct QaMutationResult {
    pub action: &'static str,
    pub target: String,
    pub affected: u64,
    pub warnings: Vec<CommandWarning>,
}

/// The outcome of restoring the default Quick Access state.
#[derive(Debug, Clone, PartialEq, Eq)]
pub struct QaRestoreResult {
    pub success: bool,
    pub recent: Option<QaRestoreSectionResult>,
    pub frequent: Option<QaRestoreSectionResult>,
}

/// The outcome of restoring one Quick Access category.
#[derive(Debug, Clone, PartialEq, Eq)]
pub struct QaRestoreSectionResult {
    pub success: bool,
    pub deleted_lnk_count: usize,
    pub recent_files_cleared: Option<bool>,
    pub backing_file_deleted: Option<bool>,
    pub rebuilt: Option<bool>,
    pub non_default_raw_path_count: usize,
    pub raw_path_cleanup: Option<QaRawPathCleanupResult>,
    pub error: Option<CommandError>,
}

/// The outcome of removing non-default raw paths from Frequent Folders.
#[derive(Debug, Clone, PartialEq, Eq)]
pub struct QaRawPathCleanupResult {
    pub success: bool,
    pub requested_count: usize,
    pub backing_file_deleted: bool,
    pub rebuilt: bool,
    pub remaining_count: usize,
    pub error: Option<CommandError>,
}

/// Whether each Quick Access section is shown.
#[derive(Debug, Clone, Copy, PartialEq, Eq, Structural)]
pub struct QaVisibility {
    pub recent: bool,
    pub frequent: bool,
    pub start_recommended: bool,
}

/// A Quick Access category.
#[derive(Debug, Clone, Copy, PartialEq, Eq, Structural)]
pub enum QaKind {
    All,
    RecentFiles,
    FrequentFolders,
}

/// A section whose visibility can be changed.
#[derive(Debug, Clone, Copy, PartialEq, Eq, Structural)]
pub enum VisibilityTarget {
    Recent,
    Frequent,
    StartRecommended,
}

/// Rejections of Quick Access requests.
#[derive(Debug, Clone, PartialEq, Eq)]
pub enum QuickAccessError {
    UnsupportedType(String),
    UnsupportedWriteType(String),
    UnsupportedVisibilityType(String),
    EmptyItemPath,
    ItemNotFound(String),
    NotAFile(String),
    NotAFolder(String),
}

pub open spec fn quick_access_error_text(e: QuickAccessError) -> Seq<char> {
    match e {
        QuickAccessError::UnsupportedType(t) => "unsupported Quick Access type: "@ + t@,
        QuickAccessError::UnsupportedWriteType(t) => "unsupported Quick Access write type: "@ + t@,
        QuickAccessError::UnsupportedVisibilityType(t) => "unsupported Quick Access visibility type: "@
            + t@,
        QuickAccessError::EmptyItemPath => "item path is empty"@,
        QuickAccessError::ItemNotFound(p) => "item path does not exist: "@ + p@,
        QuickAccessError::NotAFile(p) => "Recent Files requires a file path: "@ + p@,
        QuickAccessError::NotAFolder(p) => "path is not a folder: "@ + p@,
    }
}

impl QuickAccessError {
    /// The description of the rejection.
    pub fn message(&self) -> (r: String)
        ensures
            r@ == quick_access_error_text(*self),
    {
        let mut out = String::new();
        match self {
            QuickAccessError::UnsupportedType(t) => {
                push_str(&mut out, "unsupported Quick Access type: ");
                push_str(&mut out, t.as_str());
            },
            QuickAccessError::UnsupportedWriteType(t) => {
                push_str(&mut out, "unsupported Quick Access write type: ");
                push_str(&mut out, t.as_str());
            },
            QuickAccessError::UnsupportedVisibilityType(t) => {
                push_str(&mut out, "unsupported Quick Access visibility type: ");
                push_str(&mut out, t.as_str());
            },
            QuickAccessError::EmptyItemPath => push_str(&mut out, "item path is empty"),
            QuickAccessError::ItemNotFound(p) => {
                push_str(&mut out, "item path does not exist: ");
                push_str(&mut out, p.as_str());
            },
            QuickAccessError::NotAFile(p) => {
                push_str(&mut out, "Recent Files requires a file path: ");
                push_str(&mut out, p.as_str());
            },
            QuickAccessError::NotAFolder(p) => {
                push_str(&mut out, "path is not a folder: ");
                push_str(&mut out, p.as_str());
            },
        }
        out
    }
}

/// The category that a request names: `all`, `recent` or `frequent`.
pub open spec fn spec_parse_qa_type(qa_type: Seq<char>) -> Option<QaKind> {
    if qa_type == "all"@ {
        Some(QaKind::All)
    } else if qa_type == "recent"@ {
        Some(QaKind::RecentFiles)
    } else if qa_type == "frequent"@ {
        Some(QaKind::FrequentFolders)
    } else {
        None
    }
}

/// Parses a category name for reading.
pub fn parse_qa_type(qa_type: &str) -> (r: Result<QaKind, QuickAccessError>)
    ensures
        match spec_parse_qa_type(qa_type@) {
            Some(k) => r == Ok::<QaKind, QuickAccessError>(k),
            None => r matches Err(QuickAccessError::UnsupportedType(t)) && t@ == qa_type@,
        },
{
    let chars = chars_of(qa_type);
    if chars_eq_str(chars.as_slice(), "all") {
        Ok(QaKind::All)
    } else if chars_eq_str(chars.as_slice(), "recent") {
        Ok(QaKind::RecentFiles)
    } else if chars_eq_str(chars.as_slice(), "frequent") {
        Ok(QaKind::FrequentFolders)
    } else {
        Err(QuickAccessError::UnsupportedType(string_of(qa_type)))
    }
}

/// The category that a write request names: only `recent` or `frequent`.
pub open spec fn spec_parse_write_qa_type(qa_type: Seq<char>) -> Option<QaKind> {
    if qa_type == "recent"@ {
        Some(QaKind::RecentFiles)
    } else if qa_type == "frequent"@ {
        Some(QaKind::FrequentFolders)
    } else {
        None
    }
}

/// Parses a category name for writing; `all` is not writable.
pub fn parse_write_qa_type(qa_type: &str) -> (r: Result<QaKind, QuickAccessError>)
    ensures
        match spec_parse_write_qa_type(qa_type@) {
            Some(k) => r == Ok::<QaKind, QuickAccessError>(k),
            None => r matches Err(QuickAccessError::UnsupportedWriteType(t)) && t@ == qa_type@,
        },
{
    let chars = chars_of(qa_type);
    if chars_eq_str(chars.as_slice(), "recent") {
        Ok(QaKind::RecentFiles)
    } else if chars_eq_str(chars.as_slice(), "frequent") {
        Ok(QaKind::FrequentFolders)
    } else {
        Err(QuickAccessError::UnsupportedWriteType(string_of(qa_type)))
    }
}

pub open spec fn spec_visibility_name(target: VisibilityTarget) -> Seq<char> {
    match target {
        VisibilityTarget::Recent => "recent"@,
        VisibilityTarget::Frequent => "frequent"@,
        VisibilityTarget::StartRecommended => "start_recommended"@,
    }
}

/// Parses the name of a section whose visibility is to change.
pub fn parse_visibility_qa_type(qa_type: &str) -> (r: Result<VisibilityTarget, QuickAccessError>)
    ensures
        (r is Ok) <==> exists|t: VisibilityTarget| spec_visibility_name(t) == qa_type@,
        r matches Ok(t) ==> spec_visibility_name(t) == qa_type@,
        r matches Err(e) ==> e matches QuickAccessError::UnsupportedVisibilityType(t) && t@ == qa_type@,
{
    let chars = chars_of(qa_type);
    if chars_eq_str(chars.as_slice(), "recent") {
        assert(spec_visibility_name(VisibilityTarget::Recent) == qa_type@);
        Ok(VisibilityTarget::Recent)
    } else if chars_eq_str(chars.as_slice(), "frequent") {
        assert(spec_visibility_name(VisibilityTarget::Frequent) == qa_type@);
        Ok(VisibilityTarget::Frequent)
    } else if chars_eq_str(chars.as_slice(), "start_recommended") {
        assert(spec_visibility_name(VisibilityTarget::StartRecommended) == qa_type@);
        Ok(VisibilityTarget::StartRecommended)
    } else {
        proof {
            assert forall|t: VisibilityTarget| spec_visibility_name(t) != qa_type@ by {
                match t {
                    VisibilityTarget::Recent => {},
                    VisibilityTarget::Frequent => {},
                    VisibilityTarget::StartRecommended => {},
                }
            }
        }
        Err(QuickAccessError::UnsupportedVisibilityType(string_of(qa_type)))
    }
}

/// The name of a visibility target.
pub fn visibility_name(target: VisibilityTarget) -> (r: &'static str)
    ensures
        r@ == spec_visibility_name(target),
{
    match target {
        VisibilityTarget::Recent => "recent",
        VisibilityTarget::Frequent => "frequent",
        VisibilityTarget::StartRecommended => "start_recommended",
    }
}

pub open spec fn spec_qa_name(kind: QaKind) -> Seq<char> {
    match kind {
        QaKind::RecentFiles => "recent"@,
        QaKind::FrequentFolders => "frequent"@,
        QaKind::All => "all"@,
    }
}

/// The name of a category.
pub fn qa_name(kind: QaKind) -> (r: &'static str)
    ensures
        r@ == spec_qa_name(kind),
{
    match kind {
        QaKind::RecentFiles => "recent",
        QaKind::FrequentFolders => "frequent",
        QaKind::All => "all",
    }
}

/// Counts of both categories and their sum.
pub fn counts(recent: usize, frequent: usize) -> (r: QaCounts)
    requires
        recent + frequent <= usize::MAX,
    ensures
        r == (QaCounts { recent, frequent, all: (recent + frequent) as usize }),
{
    QaCounts { recent, frequent, all: recent + frequent }
}

/// The name shown for an item: the final component of its path, or the path itself
/// when it has none.
pub open spec fn spec_item_name(path: Seq<char>) -> Seq<char> {
    match spec_file_name(path) {
        Some(name) => if name.len() > 0 {
            name
        } else {
            path
        },
        None => path,
    }
}

/// The name shown for an item: the final component of its Windows path, or the
/// whole path when it has none (a bare drive or root, or a path ending in `..`).
pub fn item_name(path: &str) -> (r: String)
    ensures
        r@ == spec_item_name(path@),
{
    let s = chars_of(path);
    match file_name_bounds(s.as_slice()) {
        Some((b, e)) => {
            let mut name: Vec<char> = Vec::new();
            let mut k = b;
            while k < e
                invariant
                    b <= k <= e <= s.len(),
                    name@ == s@.subrange(b as int, k as int),
                decreases e - k,
            {
                name.push(s[k]);
                assert(s@.subrange(b as int, k + 1) == s@.subrange(b as int, k as int).push(s@[k as int]));
                k = k + 1;
            }
            string_from(name.as_slice())
        },
        None => string_of(path),
    }
}

/// The offset between the Windows FILETIME epoch (1601) and the Unix epoch, in
/// 100-nanosecond ticks.
pub const FILETIME_UNIX_EPOCH_OFFSET: u64 = 116_444_736_000_000_000;

/// Converts a Windows FILETIME to Unix milliseconds; times before 1970 have none.
pub fn filetime_to_unix_ms(filetime: u64) -> (r: Option<u64>)
    ensures
        r == (if filetime >= FILETIME_UNIX_EPOCH_OFFSET {
            Some(((filetime - FILETIME_UNIX_EPOCH_OFFSET) / 10_000) as u64)
        } else {
            None::<u64>
        }),
{
    if filetime >= FILETIME_UNIX_EPOCH_OFFSET {
        Some((filetime - FILETIME_UNIX_EPOCH_OFFSET) / 10_000)
    } else {
        None
    }
}

/// The pin state that Quick Access reports for a frequent folder.
#[derive(Debug, Clone, Copy, PartialEq, Eq, Structural)]
pub enum PinStatus {
    Pinned,
    Unpinned,
    NotFound,
}

/// Whether a listed folder is pinned; unknown when Quick Access no longer lists it.
pub fn pin_status_value(status: PinStatus) -> (r: Option<bool>)
    ensures
        r == match status {
            PinStatus::Pinned => Some(true),
            PinStatus::Unpinned => Some(false),
            PinStatus::NotFound => None::<bool>,
        },
{
    match status {
        PinStatus::Pinned => Some(true),
        PinStatus::Unpinned => Some(false),
        PinStatus::NotFound => None,
    }
}

/// What a path names on disk.
#[derive(Debug, Clone, Copy, PartialEq, Eq, Structural)]
pub enum PathKind {
    Missing,
    File,
    Directory,
}

/// The trimmed path of an item to add, which must not be empty.
pub fn add_item_path(path: &str) -> (r: Result<String, QuickAccessError>)
    ensures
        trimmed(path@).len() == 0 ==> r == Err::<String, QuickAccessError>(
            QuickAccessError::EmptyItemPath,
        ),
        trimmed(path@).len() > 0 ==> (r matches Ok(p) && p@ == trimmed(path@)),
{
    let t = trim_str(path);
    if t.len() == 0 {
        Err(QuickAccessError::EmptyItemPath)
    } else {
        Ok(string_from(t.as_slice()))
    }
}

/// Checks that `path`, of kind `kind`, may be added to category `qa_type`: it must
/// exist, Recent Files take only files and Frequent Folders only folders.
pub fn check_add_item_kind(qa_type: QaKind, path: String, kind: PathKind) -> (r: Result<
    String,
    QuickAccessError,
>)
    ensures
        kind == PathKind::Missing ==> (r matches Err(QuickAccessError::ItemNotFound(p)) && p@ == path@),
        kind != PathKind::Missing && qa_type == QaKind::RecentFiles && kind != PathKind::File ==> (r matches Err(
            QuickAccessError::NotAFile(p),
        ) && p@ == path@),
        kind != PathKind::Missing && qa_type == QaKind::FrequentFolders && kind != PathKind::Directory
            ==> (r matches Err(QuickAccessError::NotAFolder(p)) && p@ == path@),
        (kind != PathKind::Missing && (qa_type == QaKind::All || (qa_type == QaKind::RecentFiles && kind
            == PathKind::File) || (qa_type == QaKind::FrequentFolders && kind == PathKind::Directory)))
            ==> (r matches Ok(p) && p@ == path@),
{
    if kind == PathKind::Missing {
        return Err(QuickAccessError::ItemNotFound(path));
    }
    match qa_type {
        QaKind::RecentFiles => {
            if kind != PathKind::File {
                return Err(QuickAccessError::NotAFile(path));
            }
        },
        QaKind::FrequentFolders => {
            if kind != PathKind::Directory {
                return Err(QuickAccessError::NotAFolder(path));
            }
        },
        QaKind::All => {},
    }
    Ok(path)
}

/// An item whose removal failed, with the failure's kind.
#[derive(Debug, Clone, PartialEq, Eq)]
pub struct BatchItemFailure {
    pub path: String,
    pub error: WincentErrorKind,
}

/// The paths of the failures that only a follow-up step caused, in order.
pub open spec fn post_mutation_paths(f: Seq<BatchItemFailure>) -> Seq<String>
    decreases f.len(),
{
    if f.len() == 0 {
        seq![]
    } else {
        let prev = post_mutation_paths(f.drop_last());
        if f.last().error is PostMutationFailure {
            prev.push(f.last().path)
        } else {
            prev
        }
    }
}

/// The path and reported code of each remaining failure, in order.
pub open spec fn failure_entries(f: Seq<BatchItemFailure>) -> Seq<(String, crate::error::ErrorCode)>
    decreases f.len(),
{
    if f.len() == 0 {
        seq![]
    } else {
        let prev = failure_entries(f.drop_last());
        if f.last().error is PostMutationFailure {
            prev
        } else {
            prev.push((f.last().path, spec_classify_wincent(f.last().error).0))
        }
    }
}

/// Converts a batch removal report: items whose only failure was a follow-up step
/// count as removed and carry a warning; the other failures keep a classified error.
pub fn to_batch_result(
    ids: &mut IncidentIds,
    operation: &str,
    total: usize,
    succeeded: Vec<String>,
    failed: Vec<BatchItemFailure>,
) -> (r: QaBatchResult)
    ensures
        r.total == total,
        r.succeeded@ == succeeded@ + post_mutation_paths(failed@),
        r.warnings@.map_values(|w: QaBatchWarning| w.path) == post_mutation_paths(failed@),
        r.failed@.map_values(|c: QaBatchFailure| (c.path, c.error.code)) == failure_entries(failed@),
        r.skipped_protected@.len() == 0,
        r.history_error is None,
        final(ids).process() == old(ids).process(),
{
    let mut out_succeeded = succeeded;
    let ghost base = out_succeeded@;
    let mut command_failures: Vec<QaBatchFailure> = Vec::new();
    let mut warnings: Vec<QaBatchWarning> = Vec::new();
    let mut i: usize = 0;
    while i < failed.len()
        invariant
            i <= failed@.len(),
            base == succeeded@,
            out_succeeded@ == base + post_mutation_paths(failed@.take(i as int)),
            warnings@.map_values(|w: QaBatchWarning| w.path) == post_mutation_paths(
                failed@.take(i as int),
            ),
            command_failures@.map_values(|c: QaBatchFailure| (c.path, c.error.code))
                == failure_entries(failed@.take(i as int)),
            ids.process() == old(ids).process(),
        decreases failed@.len() - i,
    {
        let failure = &failed[i];
        assert(failed@.take(i + 1).drop_last() == failed@.take(i as int));
        assert(failed@.take(i + 1).last() == failed@[i as int]);
        match wincent_post_mutation_warning(ids, operation, &failure.error) {
            Some(warning) => {
                out_succeeded.push(failure.path.clone());
                let ghost before = warnings@;
                warnings.push(QaBatchWarning { path: failure.path.clone(), warning });
                assert(warnings@.map_values(|w: QaBatchWarning| w.path) == before.map_values(
                    |w: QaBatchWarning| w.path,
                ).push(failure.path));
            },
            None => {
                let error = wincent_command_error_ref(ids, operation, &failure.error);
                let ghost before = command_failures@;
                command_failures.push(QaBatchFailure { path: failure.path.clone(), error });
                assert(command_failures@.map_values(|c: QaBatchFailure| (c.path, c.error.code))
                    == before.map_values(|c: QaBatchFailure| (c.path, c.error.code)).push(
                    (failure.path, spec_classify_wincent(failure.error).0),
                ));
            },
        }
        i = i + 1;
    }
    assert(failed@.take(failed@.len() as int) == failed@);
    QaBatchResult {
        total,
        succeeded: out_succeeded,
        failed: command_failures,
        warnings,
        skipped_protected: Vec::new(),
        history_error: None,
    }
}

/// A metadata entry of a Quick Access category: a path and the FILETIME of its last
/// interaction, where one is known.
#[derive(Debug, Clone, PartialEq, Eq)]
pub struct InteractionEntry {
    pub path: String,
    pub filetime: Option<u64>,
}

/// The last interaction, in Unix milliseconds, of the item whose lowercase path is
/// `key`: taken from the last entry for that path whose time is known and not before
/// 1970.
pub open spec fn interaction_time(entries: Seq<InteractionEntry>, key: Seq<char>) -> Option<u64>
    decreases entries.len(),
{
    if entries.len() == 0 {
        None
    } else {
        let e = entries.last();
        if e.filetime matches Some(t) && t >= FILETIME_UNIX_EPOCH_OFFSET && unicode_lowercase(e.path@)
            == key {
            Some(((e.filetime->0 - FILETIME_UNIX_EPOCH_OFFSET) / 10_000) as u64)
        } else {
            interaction_time(entries.drop_last(), key)
        }
    }
}

/// `item` shows the listed `path` of a category, with its last interaction taken
/// from `entries` and, for Frequent Folders, the pin state `pin`.
pub open spec fn is_listed_item(
    item: QaItem,
    kind: QaKind,
    path: String,
    entries: Seq<InteractionEntry>,
    pin: Option<bool>,
) -> bool {
    &&& item.path == path
    &&& item.name@ == spec_item_name(path@)
    &&& item.last_interaction_at == interaction_time(entries, unicode_lowercase(path@))
    &&& item.pinned == if kind == QaKind::FrequentFolders {
        pin
    } else {
        None
    }
}

fn lookup_time(lowered: &Vec<String>, entries: &[InteractionEntry], key: &str) -> (r: Option<u64>)
    requires
        lowered@.len() == entries@.len(),
        forall|k: int| 0 <= k < lowered@.len() ==> #[trigger] lowered@[k]@ == unicode_lowercase(
            entries@[k].path@,
        ),
    ensures
        r == interaction_time(entries@, key@),
{
    let mut i: usize = entries.len();
    assert(entries@.take(entries@.len() as int) =~= entries@);
    while i > 0
        invariant
            i <= entries@.len(),
            lowered@.len() == entries@.len(),
            forall|k: int| 0 <= k < lowered@.len() ==> #[trigger] lowered@[k]@ == unicode_lowercase(
                entries@[k].path@,
            ),
            interaction_time(entries@, key@) == interaction_time(entries@.take(i as int), key@),
        decreases i,
    {
        let ghost prefix = entries@.take(i as int);
        assert(prefix.drop_last() =~= entries@.take(i - 1));
        assert(prefix.last() == entries@[i - 1]);
        let e = &entries[i - 1];
        let same = crate::text::str_eq(lowered[i - 1].as_str(), key);
        if let Some(t) = e.filetime {
            if t >= FILETIME_UNIX_EPOCH_OFFSET && same {
                return Some((t - FILETIME_UNIX_EPOCH_OFFSET) / 10_000);
            }
        }
        i = i - 1;
    }
    assert(entries@.take(0) =~= Seq::<InteractionEntry>::empty());
    None
}

/// The items of category `kind` from its listed `paths`: each named after its path,
/// with the last interaction that the metadata `entries` give for it (compared in
/// lowercase) and, for Frequent Folders, the pin state at the same position of `pins`
/// (none where `pins` holds none).
pub fn items_from_paths(kind: QaKind, paths: Vec<String>, entries: &[InteractionEntry], pins: &[Option<bool>]) -> (r:
    Vec<QaItem>)
    ensures
        r@.len() == paths@.len(),
        forall|i: int|
            0 <= i < paths@.len() ==> is_listed_item(
                #[trigger] r@[i],
                kind,
                paths@[i],
                entries@,
                if i < pins@.len() {
                    pins@[i]
                } else {
                    None
                },
            ),
{
    let mut lowered: Vec<String> = Vec::new();
    let mut j: usize = 0;
    while j < entries.len()
        invariant
            j <= entries@.len(),
            lowered@.len() == j,
            forall|k: int| 0 <= k < j ==> #[trigger] lowered@[k]@ == unicode_lowercase(entries@[k].path@),
        decreases entries@.len() - j,
    {
        lowered.push(crate::text::to_lowercase(entries[j].path.as_str()));
        j = j + 1;
    }
    let mut out: Vec<QaItem> = Vec::new();
    let mut i: usize = 0;
    while i < paths.len()
        invariant
            i <= paths@.len(),
            out@.len() == i,
            lowered@.len() == entries@.len(),
            forall|k: int| 0 <= k < lowered@.len() ==> #[trigger] lowered@[k]@ == unicode_lowercase(
                entries@[k].path@,
            ),
            forall|k: int|
                0 <= k < i ==> is_listed_item(
                    #[trigger] out@[k],
                    kind,
                    paths@[k],
                    entries@,
                    if k < pins@.len() {
                        pins@[k]
                    } else {
                        None
                    },
                ),
        decreases paths@.len() - i,
    {
        let path = &paths[i];
        let key = crate::text::to_lowercase(path.as_str());
        let pin = if i < pins.len() {
            pins[i]
        } else {
            None
        };
        let item = QaItem {
            path: path.clone(),
            name: item_name(path.as_str()),
            last_interaction_at: lookup_time(&lowered, entries, key.as_str()),
            pinned: if kind == QaKind::FrequentFolders {
                pin
            } else {
                None
            },
        };
        out.push(item);
        i = i + 1;
    }
    out
}

/// What restoring the default Recent Files reported.
#[derive(Debug, Clone, PartialEq, Eq)]
pub struct RecentRestoreReport {
    pub success: bool,
    pub deleted_lnk_count: usize,
    pub recent_files_cleared: bool,
    pub error: Option<WincentErrorKind>,
}

/// What removing non-default raw paths from Frequent Folders reported.
#[derive(Debug, Clone, PartialEq, Eq)]
pub struct RawPathRemoveReport {
    pub success: bool,
    pub requested_count: usize,
    pub backing_file_deleted: bool,
    pub rebuilt: bool,
    pub remaining_count: usize,
    pub error: Option<WincentErrorKind>,
}

/// What restoring the default Frequent Folders reported.
#[derive(Debug, Clone, PartialEq, Eq)]
pub struct FrequentRestoreReport {
    pub success: bool,
    pub deleted_lnk_count: usize,
    pub backing_file_deleted: bool,
    pub rebuilt: bool,
    pub non_default_raw_path_count: usize,
    pub raw_path_cleanup: Option<RawPathRemoveReport>,
    pub error: Option<WincentErrorKind>,
}

/// `e` reports the failure `kind`, classified.
pub open spec fn reports_failure(e: Option<CommandError>, kind: Option<WincentErrorKind>) -> bool {
    match kind {
        None => e is None,
        Some(k) => e matches Some(c) && {
            let x = spec_classify_wincent(k);
            c.code == x.0 && c.message@ == x.1 && c.retryable == x.2
        },
    }
}

fn classified(ids: &mut IncidentIds, operation: &str, kind: &Option<WincentErrorKind>) -> (r: Option<
    CommandError,
>)
    ensures
        reports_failure(r, *kind),
        final(ids).process() == old(ids).process(),
{
    match kind {
        Some(k) => Some(wincent_command_error_ref(ids, operation, k)),
        None => None,
    }
}

/// The raw path cleanup as reported to the user.
pub fn raw_path_cleanup_result(ids: &mut IncidentIds, report: &RawPathRemoveReport) -> (r:
    QaRawPathCleanupResult)
    ensures
        r.success == report.success,
        r.requested_count == report.requested_count,
        r.backing_file_deleted == report.backing_file_deleted,
        r.rebuilt == report.rebuilt,
        r.remaining_count == report.remaining_count,
        reports_failure(r.error, report.error),
        final(ids).process() == old(ids).process(),
{
    let error = classified(ids, "restore_qa_defaults.raw_path_cleanup", &report.error);
    QaRawPathCleanupResult {
        success: report.success,
        requested_count: report.requested_count,
        backing_file_deleted: report.backing_file_deleted,
        rebuilt: report.rebuilt,
        remaining_count: report.remaining_count,
        error,
    }
}

/// The restore of Recent Files as reported to the user.
pub fn recent_restore_section(ids: &mut IncidentIds, report: &RecentRestoreReport) -> (r:
    QaRestoreSectionResult)
    ensures
        r.success == report.success,
        r.deleted_lnk_count == report.deleted_lnk_count,
        r.recent_files_cleared == Some(report.recent_files_cleared),
        r.backing_file_deleted is None,
        r.rebuilt is None,
        r.non_default_raw_path_count == 0,
        r.raw_path_cleanup is None,
        reports_failure(r.error, report.error),
        final(ids).process() == old(ids).process(),
{
    let error = classified(ids, "restore_qa_defaults.recent", &report.error);
    QaRestoreSectionResult {
        success: report.success,
        deleted_lnk_count: report.deleted_lnk_count,
        recent_files_cleared: Some(report.recent_files_cleared),
        backing_file_deleted: None,
        rebuilt: None,
        non_default_raw_path_count: 0,
        raw_path_cleanup: None,
        error,
    }
}

/// The restore of Frequent Folders as reported to the user.
pub fn frequent_restore_section(ids: &mut IncidentIds, report: &FrequentRestoreReport) -> (r:
    QaRestoreSectionResult)
    ensures
        r.success == report.success,
        r.deleted_lnk_count == report.deleted_lnk_count,
        r.recent_files_cleared is None,
        r.backing_file_deleted == Some(report.backing_file_deleted),
        r.rebuilt == Some(report.rebuilt),
        r.non_default_raw_path_count == report.non_default_raw_path_count,
        match report.raw_path_cleanup {
            None => r.raw_path_cleanup is None,
            Some(raw) => r.raw_path_cleanup matches Some(c) && c.success == raw.success
                && c.requested_count == raw.requested_count && c.backing_file_deleted
                == raw.backing_file_deleted && c.rebuilt == raw.rebuilt && c.remaining_count
                == raw.remaining_count && reports_failure(c.error, raw.error),
        },
        reports_failure(r.error, report.error),
        final(ids).process() == old(ids).process(),
{
    let raw_path_cleanup = match &report.raw_path_cleanup {
        Some(raw) => Some(raw_path_cleanup_result(ids, raw)),
        None => None,
    };
    let error = classified(ids, "restore_qa_defaults.frequent", &report.error);
    QaRestoreSectionResult {
        success: report.success,
        deleted_lnk_count: report.deleted_lnk_count,
        recent_files_cleared: None,
        backing_file_deleted: Some(report.backing_file_deleted),
        rebuilt: Some(report.rebuilt),
        non_default_raw_path_count: report.non_default_raw_path_count,
        raw_path_cleanup,
        error,
    }
}

/// The restore of the default Quick Access state as reported to the user.
pub fn to_restore_result(
    ids: &mut IncidentIds,
    success: bool,
    recent: Option<RecentRestoreReport>,
    frequent: Option<FrequentRestoreReport>,
) -> (r: QaRestoreResult)
    ensures
        r.success == success,
        recent is None <==> r.recent is None,
        frequent is None <==> r.frequent is None,
        recent matches Some(x) ==> (r.recent matches Some(s) && s.success == x.success
            && s.deleted_lnk_count == x.deleted_lnk_count && s.recent_files_cleared == Some(
            x.recent_files_cleared,
        ) && reports_failure(s.error, x.error)),
        frequent matches Some(x) ==> (r.frequent matches Some(s) && s.success == x.success
            && s.deleted_lnk_count == x.deleted_lnk_count && s.backing_file_deleted == Some(
            x.backing_file_deleted,
        ) && s.rebuilt == Some(x.rebuilt) && reports_failure(s.error, x.error)),
        final(ids).process() == old(ids).process(),
{
    let recent = match &recent {
        Some(x) => Some(recent_restore_section(ids, x)),
        None => None,
    };
    let frequent = match &frequent {
        Some(x) => Some(frequent_restore_section(ids, x)),
        None => None,
    };
    QaRestoreResult { success, recent, frequent }
}

} // verus!
