//! The cached listings of the Quick Access categories, and when a change of them is
//! announced.
use vstd::prelude::*;

use crate::quick_access::{qa_name, spec_qa_name, QaItem, QaKind};
use crate::text::str_eq;

verus! {

/// How often the watchers look at Quick Access, in seconds.
pub const POLL_INTERVAL_SECS: u64 = 3;

/// The announcement that the listing of a category changed, with the cache's new
/// revision.
#[derive(Debug, Clone, Copy, PartialEq, Eq)]
pub struct QuickAccessChanged {
    pub qa_type: &'static str,
    pub revision: u64,
}

/// Why the cache refused a listing.
#[derive(Debug, Clone, Copy, PartialEq, Eq, Structural)]
pub enum CacheError {
    /// Only the recent files and the frequent folders are cached, each on its own.
    NotACategory,
}

impl CacheError {
    /// The description of the refusal.
    pub fn message(&self) -> (r: &'static str)
        ensures
            r@ == "Quick Access cache only stores individual categories"@,
    {
        "Quick Access cache only stores individual categories"
    }
}

/// The last listing of each category, if any, and the number of changes so far.
#[derive(Debug, Clone, Default)]
pub struct CacheSnapshot {
    pub recent: Option<Vec<QaItem>>,
    pub frequent: Option<Vec<QaItem>>,
    pub revision: u64,
}

/// Two items that show the same.
pub open spec fn same_item(a: QaItem, b: QaItem) -> bool {
    &&& a.path@ == b.path@
    &&& a.name@ == b.name@
    &&& a.last_interaction_at == b.last_interaction_at
    &&& a.pinned == b.pinned
}

/// Two listings that show the same items in the same order.
pub open spec fn same_items(a: Seq<QaItem>, b: Seq<QaItem>) -> bool {
    a.len() == b.len() && forall|i: int| 0 <= i < a.len() ==> #[trigger] same_item(a[i], b[i])
}

fn items_equal(a: &[QaItem], b: &[QaItem]) -> (r: bool)
    ensures
        r == same_items(a@, b@),
{
    if a.len() != b.len() {
        return false;
    }
    let mut i: usize = 0;
    while i < a.len()
        invariant
            a@.len() == b@.len(),
            i <= a@.len(),
            forall|k: int| 0 <= k < i ==> #[trigger] same_item(a@[k], b@[k]),
        decreases a@.len() - i,
    {
        let x = &a[i];
        let y = &b[i];
        if !(str_eq(x.path.as_str(), y.path.as_str()) && str_eq(x.name.as_str(), y.name.as_str())
            && x.last_interaction_at == y.last_interaction_at && x.pinned == y.pinned) {
            assert(!same_item(a@[i as int], b@[i as int]));
            return false;
        }
        i = i + 1;
    }
    true
}

/// The cached listing of a category.
pub open spec fn slot_of(s: CacheSnapshot, kind: QaKind) -> Option<Vec<QaItem>> {
    match kind {
        QaKind::RecentFiles => s.recent,
        QaKind::FrequentFolders => s.frequent,
        QaKind::All => None,
    }
}

pub open spec fn next_revision(revision: u64) -> u64 {
    if revision == u64::MAX {
        0
    } else {
        (revision + 1) as u64
    }
}

impl CacheSnapshot {
    /// The cached listing of a category; none is kept for `All`.
    pub fn cached(&self, kind: QaKind) -> (r: Option<Vec<QaItem>>)
        ensures
            match slot_of(*self, kind) {
                Some(v) => r matches Some(w) && same_items(w@, v@),
                None => r is None,
            },
    {
        let slot = match kind {
            QaKind::RecentFiles => &self.recent,
            QaKind::FrequentFolders => &self.frequent,
            QaKind::All => {
                return None;
            },
        };
        match slot {
            Some(items) => {
                let mut copy: Vec<QaItem> = Vec::new();
                let mut i: usize = 0;
                while i < items.len()
                    invariant
                        i <= items@.len(),
                        copy@.len() == i,
                        forall|k: int| 0 <= k < i ==> #[trigger] same_item(copy@[k], items@[k]),
                    decreases items@.len() - i,
                {
                    let item = &items[i];
                    copy.push(
                        QaItem {
                            path: crate::text::string_of(item.path.as_str()),
                            name: crate::text::string_of(item.name.as_str()),
                            last_interaction_at: item.last_interaction_at,
                            pinned: item.pinned,
                        },
                    );
                    i = i + 1;
                }
                Some(copy)
            },
            None => None,
        }
    }

    /// Stores a new listing of a category. A listing that shows the same as the
    /// cached one changes nothing. Otherwise it replaces it and the revision advances
    /// (wrapping around); the change is announced only when the category had been
    /// listed before.
    pub fn store(&mut self, kind: QaKind, items: Vec<QaItem>) -> (r: Result<Option<QuickAccessChanged>, CacheError>)
        ensures
            kind == QaKind::All ==> r == Err::<Option<QuickAccessChanged>, CacheError>(CacheError::NotACategory)
                && *final(self) == *old(self),
            kind != QaKind::All ==> match slot_of(*old(self), kind) {
                Some(v) => if same_items(v@, items@) {
                    r == Ok::<Option<QuickAccessChanged>, CacheError>(None) && *final(self) == *old(self)
                } else {
                    &&& slot_of(*final(self), kind) == Some(items)
                    &&& final(self).revision == next_revision(old(self).revision)
                    &&& r matches Ok(Some(c)) && c.qa_type@ == spec_qa_name(kind) && c.revision == final(self).revision
                    &&& kind == QaKind::RecentFiles ==> final(self).frequent == old(self).frequent
                    &&& kind == QaKind::FrequentFolders ==> final(self).recent == old(self).recent
                },
                None => {
                    &&& slot_of(*final(self), kind) == Some(items)
                    &&& final(self).revision == next_revision(old(self).revision)
                    &&& r == Ok::<Option<QuickAccessChanged>, CacheError>(None)
                    &&& kind == QaKind::RecentFiles ==> final(self).frequent == old(self).frequent
                    &&& kind == QaKind::FrequentFolders ==> final(self).recent == old(self).recent
                },
            },
    {
        let unchanged = match kind {
            QaKind::RecentFiles => match &self.recent {
                Some(v) => Some(items_equal(v.as_slice(), items.as_slice())),
                None => None,
            },
            QaKind::FrequentFolders => match &self.frequent {
                Some(v) => Some(items_equal(v.as_slice(), items.as_slice())),
                None => None,
            },
            QaKind::All => {
                return Err(CacheError::NotACategory);
            },
        };
        if unchanged == Some(true) {
            return Ok(None);
        }
        match kind {
            QaKind::RecentFiles => {
                self.recent = Some(items);
            },
            _ => {
                self.frequent = Some(items);
            },
        }
        self.revision = self.revision.wrapping_add(1);
        if unchanged.is_some() {
            Ok(Some(QuickAccessChanged { qa_type: qa_name(kind), revision: self.revision }))
        } else {
            Ok(None)
        }
    }
}

/// The watcher of a category after a poll that succeeded (`ok`) or failed: the first
/// failure after a success is reported and later ones are not, until a poll succeeds
/// again. Gives whether to report this poll, and whether a failure has been reported
/// since the last success.
pub fn watch_error_report(reported: bool, ok: bool) -> (r: (bool, bool))
    ensures
        r.0 == (!ok && !reported),
        r.1 == !ok,
{
    (!ok && !reported, !ok)
}

/// Where the listing of a category comes from: the cache, unless a fresh listing is
/// asked for or the category was never listed.
pub fn must_list(snapshot: &CacheSnapshot, kind: QaKind, fresh: bool) -> (r: bool)
    ensures
        r == (fresh || slot_of(*snapshot, kind) is None),
{
    if fresh {
        return true;
    }
    match kind {
        QaKind::RecentFiles => snapshot.recent.is_none(),
        QaKind::FrequentFolders => snapshot.frequent.is_none(),
        QaKind::All => true,
    }
}

/// A listing shows the same as itself: by `store`'s contract, storing the listing
/// that is already cached announces nothing and leaves the cache as it was.
pub proof fn law_storing_the_cached_listing_changes_nothing(items: Seq<QaItem>)
    ensures
        same_items(items, items),
{
}


/// A listing counts as unchanged only when it shows exactly the cached items: as many,
/// and each with the same path, name, interaction time and pin state. So `store` keeps
/// the cache and announces nothing only for such a listing.
pub proof fn law_unchanged_listing_shows_the_same_items(cached: Seq<QaItem>, listed: Seq<QaItem>)
    requires
        same_items(cached, listed),
    ensures
        cached.len() == listed.len(),
        forall|i: int|
            0 <= i < cached.len() ==> {
                &&& (#[trigger] cached[i]).path@ == listed[i].path@
                &&& cached[i].name@ == listed[i].name@
                &&& cached[i].last_interaction_at == listed[i].last_interaction_at
                &&& cached[i].pinned == listed[i].pinned
            },
{
    assert forall|i: int| 0 <= i < cached.len() implies {
        &&& (#[trigger] cached[i]).path@ == listed[i].path@
        &&& cached[i].name@ == listed[i].name@
        &&& cached[i].last_interaction_at == listed[i].last_interaction_at
        &&& cached[i].pinned == listed[i].pinned
    } by {
        assert(same_item(cached[i], listed[i]));
    }
}

/// Pinning or unpinning an item is a change: a listing in which some item's pin state
/// differs from the cached one is not the same listing, so `store` replaces the
/// cached listing, advances the revision and announces the change.
pub proof fn law_pin_change_is_a_change(cached: Seq<QaItem>, listed: Seq<QaItem>, i: int)
    requires
        0 <= i < cached.len(),
        i < listed.len(),
        cached[i].pinned != listed[i].pinned,
    ensures
        !same_items(cached, listed),
{
    if same_items(cached, listed) {
        law_unchanged_listing_shows_the_same_items(cached, listed);
        assert(cached[i].pinned == listed[i].pinned);
    }
}
} // verus!
