//! Privacy mode: which Quick Access categories are locked against changes.
use vstd::prelude::*;

verus! {

/// How much of Quick Access a lock request protected.
#[derive(Debug, Clone, Copy, PartialEq, Eq, Structural)]
pub enum LockResult {
    Full,
    Partial,
}

/// The privacy mode as the rest of the application sees it.
#[derive(Debug, Clone, Copy, PartialEq, Eq, Structural)]
pub enum PrivacyModeState {
    Inactive,
    ActiveFull,
    ActivePartial { recent: bool, frequent: bool },
}

/// Rejections of privacy mode requests.
#[derive(Debug, Clone, Copy, PartialEq, Eq, Structural)]
pub enum PrivacyError {
    NothingLocked,
}

impl PrivacyError {
    /// The description of the failure.
    pub fn message(&self) -> (r: &'static str)
        ensures
            r@ == "failed to lock any Quick Access target"@,
    {
        "failed to lock any Quick Access target"
    }
}

/// Whether privacy mode is on, fully or partly.
pub fn is_privacy_enabled(state: PrivacyModeState) -> (r: bool)
    ensures
        r == !(state is Inactive),
{
    !matches!(state, PrivacyModeState::Inactive)
}

/// The Quick Access locks held in privacy mode, of some lock type `L`.
#[derive(Debug)]
pub enum PrivacyLocks<L> {
    Inactive,
    ActiveFull(L),
    ActivePartial { recent: Option<L>, frequent: Option<L> },
}

/// The privacy mode that the held locks amount to.
pub open spec fn spec_mode<L>(s: PrivacyLocks<L>) -> PrivacyModeState {
    match s {
        PrivacyLocks::Inactive => PrivacyModeState::Inactive,
        PrivacyLocks::ActiveFull(_) => PrivacyModeState::ActiveFull,
        PrivacyLocks::ActivePartial { recent, frequent } => PrivacyModeState::ActivePartial {
            recent: recent is Some,
            frequent: frequent is Some,
        },
    }
}

/// The held locks, in the order they are released: the full lock, or the recent
/// files' lock and then the frequent folders'.
pub open spec fn held_locks<L>(s: PrivacyLocks<L>) -> Seq<L> {
    match s {
        PrivacyLocks::Inactive => seq![],
        PrivacyLocks::ActiveFull(l) => seq![l],
        PrivacyLocks::ActivePartial { recent, frequent } => {
            let first: Seq<L> = match recent {
                Some(l) => seq![l],
                None => seq![],
            };
            match frequent {
                Some(l) => first.push(l),
                None => first,
            }
        },
    }
}

impl<L> PrivacyLocks<L> {
    /// No locks held.
    pub fn new() -> (r: Self)
        ensures
            r is Inactive,
    {
        PrivacyLocks::Inactive
    }

    /// The privacy mode that the held locks amount to.
    pub fn mode(&self) -> (r: PrivacyModeState)
        ensures
            r == spec_mode(*self),
    {
        match self {
            PrivacyLocks::Inactive => PrivacyModeState::Inactive,
            PrivacyLocks::ActiveFull(_) => PrivacyModeState::ActiveFull,
            PrivacyLocks::ActivePartial { recent, frequent } => PrivacyModeState::ActivePartial {
                recent: recent.is_some(),
                frequent: frequent.is_some(),
            },
        }
    }

    /// Enters privacy mode. When it is already on, the protection already held is
    /// reported and nothing is locked. Otherwise `lock_all` tries to lock all of
    /// Quick Access; when that fails, `lock_recent` and `lock_frequent` try to lock
    /// each category, and whichever succeed give a partial protection. When none
    /// succeeds the request fails and privacy mode stays off.
    pub fn enter<E, Full, Recent, Frequent>(
        &mut self,
        lock_all: Full,
        lock_recent: Recent,
        lock_frequent: Frequent,
    ) -> (r: Result<LockResult, PrivacyError>) where
        Full: FnOnce() -> Result<L, E>,
        Recent: FnOnce() -> Option<L>,
        Frequent: FnOnce() -> Option<L>,

        requires
            call_requires(lock_all, ()),
            call_requires(lock_recent, ()),
            call_requires(lock_frequent, ()),
        ensures
            !(*old(self) is Inactive) ==> *final(self) == *old(self) && r == Ok::<LockResult, PrivacyError>(
                if *old(self) is ActiveFull {
                    LockResult::Full
                } else {
                    LockResult::Partial
                },
            ),
            *old(self) is Inactive ==> (exists|l: L|
                #![trigger call_ensures(lock_all, (), Ok::<L, E>(l))]
                call_ensures(lock_all, (), Ok::<L, E>(l)) && *final(self) == PrivacyLocks::ActiveFull(l) && r
                    == Ok::<LockResult, PrivacyError>(LockResult::Full)) || (exists|
                e: E,
                rl: Option<L>,
                fl: Option<L>,
            |
                #![trigger call_ensures(lock_all, (), Err::<L, E>(e)), call_ensures(lock_recent, (), rl), call_ensures(lock_frequent, (), fl)]
                {
                    &&& call_ensures(lock_all, (), Err::<L, E>(e))
                    &&& call_ensures(lock_recent, (), rl)
                    &&& call_ensures(lock_frequent, (), fl)
                    &&& if rl is None && fl is None {
                        *final(self) is Inactive && r == Err::<LockResult, PrivacyError>(
                            PrivacyError::NothingLocked,
                        )
                    } else {
                        *final(self) == PrivacyLocks::ActivePartial { recent: rl, frequent: fl } && r == Ok::<
                            LockResult,
                            PrivacyError,
                        >(LockResult::Partial)
                    }
                }),
    {
        match self {
            PrivacyLocks::Inactive => {},
            PrivacyLocks::ActiveFull(_) => {
                return Ok(LockResult::Full);
            },
            PrivacyLocks::ActivePartial { .. } => {
                return Ok(LockResult::Partial);
            },
        }
        match lock_all() {
            Ok(lock) => {
                *self = PrivacyLocks::ActiveFull(lock);
                return Ok(LockResult::Full);
            },
            Err(_) => {},
        }
        let recent = lock_recent();
        let frequent = lock_frequent();
        if recent.is_none() && frequent.is_none() {
            return Err(PrivacyError::NothingLocked);
        }
        *self = PrivacyLocks::ActivePartial { recent, frequent };
        Ok(LockResult::Partial)
    }

    /// Leaves privacy mode: the held locks are handed out, in the order they are to be
    /// released, and none is held any more.
    pub fn take(&mut self) -> (r: Vec<L>)
        ensures
            *final(self) is Inactive,
            r@ == held_locks(*old(self)),
    {
        let mut state = PrivacyLocks::Inactive;
        std::mem::swap(&mut state, self);
        let mut locks: Vec<L> = Vec::new();
        match state {
            PrivacyLocks::Inactive => {},
            PrivacyLocks::ActiveFull(lock) => {
                locks.push(lock);
            },
            PrivacyLocks::ActivePartial { recent, frequent } => {
                if let Some(lock) = recent {
                    locks.push(lock);
                }
                if let Some(lock) = frequent {
                    locks.push(lock);
                }
            },
        }
        assert(locks@ =~= held_locks(*old(self)));
        locks
    }
}

/// Privacy mode is off exactly when no lock is held in the `Inactive` state, and the
/// locks to release are none exactly then or in a partial state that holds neither
/// category's lock.
pub proof fn law_privacy_mode_matches_locks<L>(s: PrivacyLocks<L>)
    ensures
        (spec_mode(s) == PrivacyModeState::Inactive) <==> (s is Inactive),
        held_locks(s).len() == 0 <==> (s is Inactive || s matches PrivacyLocks::ActivePartial {
            recent: None,
            frequent: None,
        }),
        spec_mode(PrivacyLocks::<L>::Inactive) == PrivacyModeState::Inactive,
{
}

/// What one released lock reported about the shortcut links.
#[derive(Debug, Clone, Copy, PartialEq, Eq, Structural)]
pub struct UnlockCounts {
    pub new_links: usize,
    pub deleted_links: usize,
    pub failed_link_deletions: usize,
}

/// The outcome of a change of privacy mode.
#[derive(Debug, Clone, Copy, PartialEq, Eq, Structural)]
pub struct PrivacyTransition {
    pub state: PrivacyModeState,
    pub lock_result: Option<LockResult>,
    pub reports: usize,
    pub new_links: usize,
    pub deleted_links: usize,
    pub failed_link_deletions: usize,
}

/// The outcome of entering privacy mode with the protection `result`.
pub fn enter_transition(state: PrivacyModeState, result: LockResult) -> (r: PrivacyTransition)
    ensures
        r == (PrivacyTransition {
            state,
            lock_result: Some(result),
            reports: 0,
            new_links: 0,
            deleted_links: 0,
            failed_link_deletions: 0,
        }),
{
    PrivacyTransition {
        state,
        lock_result: Some(result),
        reports: 0,
        new_links: 0,
        deleted_links: 0,
        failed_link_deletions: 0,
    }
}

pub open spec fn sum_new(r: Seq<UnlockCounts>) -> int
    decreases r.len(),
{
    if r.len() == 0 {
        0
    } else {
        sum_new(r.drop_last()) + r.last().new_links
    }
}

pub open spec fn sum_deleted(r: Seq<UnlockCounts>) -> int
    decreases r.len(),
{
    if r.len() == 0 {
        0
    } else {
        sum_deleted(r.drop_last()) + r.last().deleted_links
    }
}

pub open spec fn sum_failed(r: Seq<UnlockCounts>) -> int
    decreases r.len(),
{
    if r.len() == 0 {
        0
    } else {
        sum_failed(r.drop_last()) + r.last().failed_link_deletions
    }
}

proof fn lemma_sums_monotone(r: Seq<UnlockCounts>, i: int)
    requires
        0 <= i <= r.len(),
    ensures
        sum_new(r.take(i)) <= sum_new(r),
        sum_deleted(r.take(i)) <= sum_deleted(r),
        sum_failed(r.take(i)) <= sum_failed(r),
    decreases r.len() - i,
{
    if i < r.len() {
        lemma_sums_monotone(r, i + 1);
        assert(r.take(i + 1).drop_last() == r.take(i));
    } else {
        assert(r.take(i) == r);
    }
}

/// The outcome of leaving privacy mode: how many locks were released and, over
/// their reports, how many links were new, deleted, or could not be deleted.
pub fn exit_transition(state: PrivacyModeState, reports: &[UnlockCounts]) -> (r: PrivacyTransition)
    requires
        sum_new(reports@) <= usize::MAX,
        sum_deleted(reports@) <= usize::MAX,
        sum_failed(reports@) <= usize::MAX,
    ensures
        r.state == state,
        r.lock_result is None,
        r.reports == reports@.len(),
        r.new_links == sum_new(reports@),
        r.deleted_links == sum_deleted(reports@),
        r.failed_link_deletions == sum_failed(reports@),
{
    let mut new_links: usize = 0;
    let mut deleted_links: usize = 0;
    let mut failed: usize = 0;
    let mut i: usize = 0;
    while i < reports.len()
        invariant
            i <= reports@.len(),
            sum_new(reports@) <= usize::MAX,
            sum_deleted(reports@) <= usize::MAX,
            sum_failed(reports@) <= usize::MAX,
            new_links == sum_new(reports@.take(i as int)),
            deleted_links == sum_deleted(reports@.take(i as int)),
            failed == sum_failed(reports@.take(i as int)),
        decreases reports@.len() - i,
    {
        proof {
            lemma_sums_monotone(reports@, i + 1);
            assert(reports@.take(i + 1).drop_last() == reports@.take(i as int));
        }
        new_links = new_links + reports[i].new_links;
        deleted_links = deleted_links + reports[i].deleted_links;
        failed = failed + reports[i].failed_link_deletions;
        i = i + 1;
    }
    assert(reports@.take(reports@.len() as int) == reports@);
    PrivacyTransition {
        state,
        lock_result: None,
        reports: reports.len(),
        new_links,
        deleted_links,
        failed_link_deletions: failed,
    }
}

} // verus!
