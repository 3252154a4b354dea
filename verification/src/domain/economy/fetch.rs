//! The steps of fetching the exchange data of an economy type in a league,
//! as a machine the caller drives: it performs each action (a cache read, a
//! lock, a request, a save) and hands back what happened. Only one fetch per
//! cache key runs at a time, a fresh cache answers without a request, and a
//! failed request falls back to stale cached data.

use vstd::prelude::*;
use crate::domain::economy::models::EconomyType;
use crate::domain::economy::service::{
    EconomyService, cache_key_text, league_for_api, poe_ninja_url,
};
use crate::errors::{AppError, ErrorKind, operation_message};
use crate::text::is_blank;

verus! {

/// Where a fetch stands.
#[derive(Debug, Clone, Copy, PartialEq, Eq, Structural)]
pub enum FetchPhase {
    /// Waiting for the cache read made without the lock.
    FastCacheCheck,
    /// Waiting for the lock of the cache key.
    Locking,
    /// Waiting for the cache read made under the lock.
    LockedCacheCheck,
    /// Waiting for the request to poe.ninja.
    Fetching,
    /// Waiting for fetched data to be saved.
    Saving,
    /// Waiting for the read of stale cached data.
    StaleCheck,
    /// Waiting for the lock to be released.
    Releasing,
    /// Finished.
    Done,
}

/// What happened to the last action.
#[derive(Debug)]
pub enum FetchEvent<D> {
    /// The fresh cache was read: the data, none, or a read error.
    FreshCache(Result<Option<D>, AppError>),
    /// The lock was taken, or could not be (with the reason).
    LockAcquired(Result<(), String>),
    /// The request answered with data or failed.
    Fetched(Result<D, AppError>),
    /// The data was saved (a failed save is only logged), and is handed back.
    Saved(D),
    /// The stale cache was read: the data, none, or a read error.
    StaleCache(Result<Option<D>, AppError>),
    /// The lock was released.
    Released,
}

/// What the caller is to do next.
#[derive(Debug)]
pub enum FetchAction<D> {
    /// Read cached data that is still fresh.
    LoadFreshCache,
    /// Take the lock of this cache key.
    AcquireLock(String),
    /// Request this address.
    Fetch(String),
    /// Save this data to the cache, then hand it back.
    Save(D),
    /// Read cached data however old.
    LoadStaleCache,
    /// Release the lock of this cache key.
    Release(String),
    /// The fetch is over with this result; `true` marks stale data.
    Finish(Result<D, AppError>, bool),
}

/// A fetch of the exchange data of an economy type in a league.
#[derive(Debug)]
pub struct CurrencyFetch<D> {
    pub league: String,
    pub is_hardcore: bool,
    pub economy_type: EconomyType,
    pub key: String,
    pub phase: FetchPhase,
    /// The result waiting for the lock to be released, and whether it is
    /// stale data.
    pub outcome: Option<(Result<D, AppError>, bool)>,
    /// The failure of the request, while stale data is looked for.
    pub failure: Option<AppError>,
}

/// The event a phase waits for.
pub open spec fn expects<D>(phase: FetchPhase, event: FetchEvent<D>) -> bool {
    match phase {
        FetchPhase::FastCacheCheck => event is FreshCache,
        FetchPhase::Locking => event is LockAcquired,
        FetchPhase::LockedCacheCheck => event is FreshCache,
        FetchPhase::Fetching => event is Fetched,
        FetchPhase::Saving => event is Saved,
        FetchPhase::StaleCheck => event is StaleCache,
        FetchPhase::Releasing => event is Released,
        FetchPhase::Done => false,
    }
}

/// The fields of a fetch that its steps keep.
pub open spec fn same_request<D>(a: CurrencyFetch<D>, b: CurrencyFetch<D>) -> bool {
    &&& a.league == b.league
    &&& a.is_hardcore == b.is_hardcore
    &&& a.economy_type == b.economy_type
    &&& a.key == b.key
}

/// The fetch is consistent: its key is that of its league, flag and type; a
/// release waits with an outcome, and a stale check with the failure.
pub open spec fn fetch_well_formed<D>(f: CurrencyFetch<D>) -> bool {
    &&& f.key@ == cache_key_text(f.league@, f.is_hardcore, f.economy_type)
    &&& (f.phase == FetchPhase::Releasing ==> f.outcome is Some)
    &&& (f.phase == FetchPhase::StaleCheck ==> f.failure is Some)
}

/// One step of a fetch: from `before`, on `event`, the fetch becomes
/// `after` and asks for `res`.
pub open spec fn fetch_step<D>(
    before: CurrencyFetch<D>,
    event: FetchEvent<D>,
    after: CurrencyFetch<D>,
    res: FetchAction<D>,
) -> bool {
    match (before.phase, event) {
        (FetchPhase::FastCacheCheck, FetchEvent::FreshCache(Err(e))) => after.phase
            == FetchPhase::Done && res == FetchAction::<D>::Finish(Err(e), false),
        (FetchPhase::FastCacheCheck, FetchEvent::FreshCache(Ok(Some(d)))) => after.phase
            == FetchPhase::Done && res == FetchAction::<D>::Finish(Ok(d), false),
        (FetchPhase::FastCacheCheck, FetchEvent::FreshCache(Ok(None))) => after.phase
            == FetchPhase::Locking && res == FetchAction::<D>::AcquireLock(before.key),
        (FetchPhase::Locking, FetchEvent::LockAcquired(Err(reason))) => after.phase
            == FetchPhase::Done && (res matches FetchAction::Finish(Err(e), false)
            && e.kind() == ErrorKind::Internal && e.message() == operation_message(
            "fetch_currency_exchange_data"@,
            lock_failure_text(reason@),
        )),
        (FetchPhase::Locking, FetchEvent::LockAcquired(Ok(()))) => after.phase
            == FetchPhase::LockedCacheCheck && res is LoadFreshCache,
        (FetchPhase::LockedCacheCheck, FetchEvent::FreshCache(Err(e))) => after.phase
            == FetchPhase::Releasing && after.outcome == Some((Err::<D, AppError>(e), false))
            && res == FetchAction::<D>::Release(before.key),
        (FetchPhase::LockedCacheCheck, FetchEvent::FreshCache(Ok(Some(d)))) => after.phase
            == FetchPhase::Releasing && after.outcome == Some((Ok::<D, AppError>(d), false))
            && res == FetchAction::<D>::Release(before.key),
        (FetchPhase::LockedCacheCheck, FetchEvent::FreshCache(Ok(None))) => after.phase
            == FetchPhase::Fetching && (res matches FetchAction::Fetch(url) && url@
            == poe_ninja_url(
            league_for_api(before.league@, before.is_hardcore),
            before.economy_type,
        )),
        (FetchPhase::Fetching, FetchEvent::Fetched(Ok(d))) => after.phase
            == FetchPhase::Saving && res == FetchAction::<D>::Save(d),
        (FetchPhase::Fetching, FetchEvent::Fetched(Err(e))) => after.phase
            == FetchPhase::StaleCheck && after.failure == Some(e) && res is LoadStaleCache,
        (FetchPhase::Saving, FetchEvent::Saved(d)) => after.phase
            == FetchPhase::Releasing && after.outcome == Some((Ok::<D, AppError>(d), false))
            && res == FetchAction::<D>::Release(before.key),
        (FetchPhase::StaleCheck, FetchEvent::StaleCache(Err(e))) => after.phase
            == FetchPhase::Releasing && after.outcome == Some((Err::<D, AppError>(e), false))
            && res == FetchAction::<D>::Release(before.key),
        (FetchPhase::StaleCheck, FetchEvent::StaleCache(Ok(Some(d)))) => after.phase
            == FetchPhase::Releasing && after.outcome == Some((Ok::<D, AppError>(d), true))
            && res == FetchAction::<D>::Release(before.key),
        (FetchPhase::StaleCheck, FetchEvent::StaleCache(Ok(None))) => after.phase
            == FetchPhase::Releasing && after.outcome == Some(
            (Err::<D, AppError>(before.failure->0), false),
        ) && res == FetchAction::<D>::Release(before.key),
        (FetchPhase::Releasing, FetchEvent::Released) => after.phase == FetchPhase::Done
            && res == FetchAction::<D>::Finish((before.outcome->0).0, (before.outcome->0).1),
        _ => false,
    }
}

/// Once the lock of a cache key is taken, a fetch finishes only after
/// releasing it, a failed cache read too (its error is reported once the
/// lock is released).
pub proof fn lemma_lock_released_before_finish<D>(
    before: CurrencyFetch<D>,
    event: FetchEvent<D>,
    after: CurrencyFetch<D>,
    res: FetchAction<D>,
)
    requires
        fetch_step(before, event, after, res),
        before.phase == FetchPhase::LockedCacheCheck || before.phase == FetchPhase::Fetching
            || before.phase == FetchPhase::Saving || before.phase == FetchPhase::StaleCheck,
    ensures
        !(res is Finish),
        after.phase != FetchPhase::Done,
{
}

/// A fetch that releases its lock finishes next, with the result it kept.
pub proof fn lemma_release_then_finish<D>(
    before: CurrencyFetch<D>,
    event: FetchEvent<D>,
    after: CurrencyFetch<D>,
    res: FetchAction<D>,
)
    requires
        fetch_well_formed(before),
        fetch_step(before, event, after, res),
        before.phase == FetchPhase::Releasing,
    ensures
        after.phase == FetchPhase::Done,
        res matches FetchAction::Finish(r, stale) && Some((r, stale)) == before.outcome,
{
}

/// The message a lock that cannot be taken is reported with.
pub open spec fn lock_failure_text(reason: Seq<char>) -> Seq<char> {
    "Failed to acquire fetch lock: "@ + reason
}

impl<D> CurrencyFetch<D> {
    /// Starts a fetch: a blank league is refused at once; otherwise the fresh
    /// cache is read first.
    pub fn start(league: &str, is_hardcore: bool, economy_type: EconomyType) -> (res: (
        CurrencyFetch<D>,
        FetchAction<D>,
    ))
        ensures
            fetch_well_formed(res.0),
            res.0.league@ == league@,
            res.0.is_hardcore == is_hardcore,
            res.0.economy_type == economy_type,
            is_blank(league@) ==> res.0.phase == FetchPhase::Done && (res.1 matches FetchAction::Finish(
                Err(e),
                false,
            ) && e.kind() == ErrorKind::Validation && e.message() == operation_message(
                "fetch_currency_exchange_data"@,
                "League name cannot be empty"@,
            )),
            !is_blank(league@) ==> res.0.phase == FetchPhase::FastCacheCheck && res.1 is LoadFreshCache,
    {
        let key = EconomyService::cache_key(league, is_hardcore, economy_type);
        let check = EconomyService::validate_league(league);
        let (phase, action) = match check {
            Err(e) => (FetchPhase::Done, FetchAction::Finish(Err(e), false)),
            Ok(()) => (FetchPhase::FastCacheCheck, FetchAction::LoadFreshCache),
        };
        (
            CurrencyFetch {
                league: String::from_str(league),
                is_hardcore,
                economy_type,
                key,
                phase,
                outcome: None,
                failure: None,
            },
            action,
        )
    }

    /// Whether `event` is what the fetch waits for.
    pub fn accepts(&self, event: &FetchEvent<D>) -> (res: bool)
        ensures
            res == expects(self.phase, *event),
    {
        match self.phase {
            FetchPhase::FastCacheCheck => matches!(event, FetchEvent::FreshCache(_)),
            FetchPhase::Locking => matches!(event, FetchEvent::LockAcquired(_)),
            FetchPhase::LockedCacheCheck => matches!(event, FetchEvent::FreshCache(_)),
            FetchPhase::Fetching => matches!(event, FetchEvent::Fetched(_)),
            FetchPhase::Saving => matches!(event, FetchEvent::Saved(_)),
            FetchPhase::StaleCheck => matches!(event, FetchEvent::StaleCache(_)),
            FetchPhase::Releasing => matches!(event, FetchEvent::Released),
            FetchPhase::Done => false,
        }
    }

    /// The next step after `event`, the outcome of the last action.
    pub fn step(&mut self, event: FetchEvent<D>) -> (res: FetchAction<D>)
        requires
            fetch_well_formed(*old(self)),
            expects(old(self).phase, event),
        ensures
            fetch_well_formed(*final(self)),
            same_request(*final(self), *old(self)),
            fetch_step(*old(self), event, *final(self), res),
    {
        match event {
            FetchEvent::FreshCache(read) => {
                if self.phase == FetchPhase::FastCacheCheck {
                    match read {
                        Err(e) => {
                            self.phase = FetchPhase::Done;
                            FetchAction::Finish(Err(e), false)
                        },
                        Ok(Some(d)) => {
                            self.phase = FetchPhase::Done;
                            FetchAction::Finish(Ok(d), false)
                        },
                        Ok(None) => {
                            self.phase = FetchPhase::Locking;
                            FetchAction::AcquireLock(self.key.clone())
                        },
                    }
                } else {
                    match read {
                        Err(e) => {
                            self.phase = FetchPhase::Releasing;
                            self.outcome = Some((Err(e), false));
                            FetchAction::Release(self.key.clone())
                        },
                        Ok(Some(d)) => {
                            self.phase = FetchPhase::Releasing;
                            self.outcome = Some((Ok(d), false));
                            FetchAction::Release(self.key.clone())
                        },
                        Ok(None) => {
                            let name = EconomyService::format_league_for_api(
                                self.league.as_str(),
                                self.is_hardcore,
                            );
                            let url = EconomyService::build_poe_ninja_url(name.as_str(), self.economy_type);
                            self.phase = FetchPhase::Fetching;
                            FetchAction::Fetch(url)
                        },
                    }
                }
            },
            FetchEvent::LockAcquired(taken) => match taken {
                Err(reason) => {
                    self.phase = FetchPhase::Done;
                    let message = String::from_str("Failed to acquire fetch lock: ").concat(
                        reason.as_str(),
                    );
                    FetchAction::Finish(
                        Err(AppError::internal_error("fetch_currency_exchange_data", message.as_str())),
                        false,
                    )
                },
                Ok(()) => {
                    self.phase = FetchPhase::LockedCacheCheck;
                    FetchAction::LoadFreshCache
                },
            },
            FetchEvent::Fetched(fetched) => match fetched {
                Ok(d) => {
                    self.phase = FetchPhase::Saving;
                    FetchAction::Save(d)
                },
                Err(e) => {
                    self.phase = FetchPhase::StaleCheck;
                    self.failure = Some(e);
                    FetchAction::LoadStaleCache
                },
            },
            FetchEvent::Saved(d) => {
                self.phase = FetchPhase::Releasing;
                self.outcome = Some((Ok(d), false));
                FetchAction::Release(self.key.clone())
            },
            FetchEvent::StaleCache(read) => match read {
                Err(e) => {
                    self.phase = FetchPhase::Releasing;
                    self.outcome = Some((Err(e), false));
                    FetchAction::Release(self.key.clone())
                },
                Ok(Some(d)) => {
                    self.phase = FetchPhase::Releasing;
                    self.outcome = Some((Ok(d), true));
                    FetchAction::Release(self.key.clone())
                },
                Ok(None) => {
                    let failure = self.failure.take();
                    let e = match failure {
                        Some(e) => e,
                        None => AppError::network_error(
                            "fetch_from_poe_ninja",
                            "All retry attempts failed with no error captured",
                        ),
                    };
                    self.phase = FetchPhase::Releasing;
                    self.outcome = Some((Err(e), false));
                    FetchAction::Release(self.key.clone())
                },
            },
            FetchEvent::Released => {
                self.phase = FetchPhase::Done;
                let outcome = self.outcome.take();
                match outcome {
                    Some((result, stale)) => FetchAction::Finish(result, stale),
                    None => FetchAction::Finish(
                        Err(AppError::internal_error("fetch_currency_exchange_data", "no outcome")),
                        false,
                    ),
                }
            },
        }
    }
}

/// The phases in which a fetch holds the lock of its cache key.
pub open spec fn holds_lock_phase(p: FetchPhase) -> bool {
    p == FetchPhase::LockedCacheCheck || p == FetchPhase::Fetching || p == FetchPhase::Saving
        || p == FetchPhase::StaleCheck || p == FetchPhase::Releasing
}

/// Whether `key` is among `keys`.
spec fn key_listed(keys: Seq<String>, key: Seq<char>) -> bool {
    exists|i: int| 0 <= i < keys.len() && #[trigger] keys[i]@ == key
}

/// The cache keys whose fetch holds the lock, each once. A fetch takes the
/// lock of its key here when asked to, waits while that key is held, and
/// releases it here when asked to.
#[derive(Debug)]
pub struct FetchLocks {
    held: Vec<String>,
}

impl FetchLocks {
    /// No key is held twice.
    #[verifier::type_invariant]
    spec fn keys_distinct(self) -> bool {
        forall|i: int, j: int|
            0 <= i < self.held@.len() && 0 <= j < self.held@.len() && i != j
                ==> self.held@[i]@ != self.held@[j]@
    }

    /// Whether the lock of `key` is held.
    pub closed spec fn holds(self, key: Seq<char>) -> bool {
        key_listed(self.held@, key)
    }

    /// No lock is held.
    pub fn new() -> (res: FetchLocks)
        ensures
            forall|k: Seq<char>| !res.holds(k),
    {
        FetchLocks { held: Vec::new() }
    }

    /// The position of `key` among the held keys, if it is held.
    fn position(&self, key: &str) -> (res: Option<usize>)
        ensures
            match res {
                Some(i) => i < self.held@.len() && self.held@[i as int]@ == key@,
                None => !self.holds(key@),
            },
    {
        let mut i: usize = 0;
        while i < self.held.len()
            invariant
                i <= self.held@.len(),
                forall|j: int| 0 <= j < i ==> self.held@[j]@ != key@,
            decreases self.held.len() - i,
        {
            if crate::text::str_equals(self.held[i].as_str(), key) {
                return Some(i);
            }
            i = i + 1;
        }
        None
    }

    /// Whether the lock of `key` is held.
    pub fn is_held(&self, key: &str) -> (res: bool)
        ensures
            res == self.holds(key@),
    {
        match self.position(key) {
            Some(_) => true,
            None => false,
        }
    }

    /// Takes the lock of `key` when no fetch holds it: true when taken. A
    /// held key is refused and nothing changes; the other keys do not matter.
    pub fn try_acquire(&mut self, key: &str) -> (acquired: bool)
        ensures
            acquired == !old(self).holds(key@),
            forall|k: Seq<char>| #[trigger] final(self).holds(k) == (old(self).holds(k) || k == key@),
    {
        proof {
            use_type_invariant(&*self);
        }
        match self.position(key) {
            Some(_) => false,
            None => {
                let mut held: Vec<String> = Vec::new();
                std::mem::swap(&mut held, &mut self.held);
                let ghost before = held@;
                held.push(String::from_str(key));
                let ghost after = held@;
                assert forall|k: Seq<char>| #[trigger] key_listed(after, k)
                    == (key_listed(before, k) || k == key@) by {
                    if exists|i: int| 0 <= i < before.len() && #[trigger] before[i]@ == k {
                        let i = choose|i: int| 0 <= i < before.len() && #[trigger] before[i]@ == k;
                        assert(after[i]@ == k);
                    }
                    if k == key@ {
                        assert(after[before.len() as int]@ == k);
                    }
                }
                self.held = held;
                true
            },
        }
    }

    /// Releases the lock of `key`; the other keys stay as they were.
    pub fn release(&mut self, key: &str)
        ensures
            forall|k: Seq<char>| #[trigger] final(self).holds(k) == (old(self).holds(k) && k != key@),
    {
        proof {
            use_type_invariant(&*self);
        }
        match self.position(key) {
            None => {},
            Some(p) => {
                let mut held: Vec<String> = Vec::new();
                std::mem::swap(&mut held, &mut self.held);
                let ghost before = held@;
                held.remove(p);
                let ghost after = held@;
                assert(after =~= before.remove(p as int));
                assert forall|k: Seq<char>| #[trigger] key_listed(after, k)
                    == (key_listed(before, k) && k != key@) by {
                    if exists|i: int| 0 <= i < after.len() && #[trigger] after[i]@ == k {
                        let i = choose|i: int| 0 <= i < after.len() && #[trigger] after[i]@ == k;
                        if i < p {
                            assert(before[i]@ == k);
                            assert(i != p);
                        } else {
                            assert(before[i + 1]@ == k);
                            assert(i + 1 != p);
                        }
                    }
                    if (exists|i: int| 0 <= i < before.len() && #[trigger] before[i]@ == k) && k != key@ {
                        let i = choose|i: int| 0 <= i < before.len() && #[trigger] before[i]@ == k;
                        assert(i != p);
                        if i < p {
                            assert(after[i]@ == k);
                        } else {
                            assert(after[i - 1]@ == k);
                        }
                    }
                }
                assert forall|i: int, j: int|
                    0 <= i < after.len() && 0 <= j < after.len() && i != j implies after[i]@ != after[j]@ by {
                    let bi = if i < p { i } else { i + 1 };
                    let bj = if j < p { j } else { j + 1 };
                    assert(after[i] == before[bi]);
                    assert(after[j] == before[bj]);
                }
                self.held = held;
            },
        }
    }
}

/// The fetches under way and the lock table agree: a fetch holds the lock
/// of its key in the phases between taking and releasing it, no two such
/// fetches share a key, and every held key is held by such a fetch.
pub open spec fn lock_protocol<D>(fetches: Seq<CurrencyFetch<D>>, locks: FetchLocks) -> bool {
    &&& forall|i: int|
        0 <= i < fetches.len() && holds_lock_phase(#[trigger] fetches[i].phase) ==> locks.holds(
            fetches[i].key@,
        )
    &&& forall|i: int, j: int|
        0 <= i < fetches.len() && 0 <= j < fetches.len() && i != j && holds_lock_phase(
            #[trigger] fetches[i].phase,
        ) && holds_lock_phase(#[trigger] fetches[j].phase) ==> fetches[i].key@ != fetches[j].key@
    &&& forall|k: Seq<char>|
        #[trigger] locks.holds(k) ==> exists|i: int|
            0 <= i < fetches.len() && holds_lock_phase(fetches[i].phase) && #[trigger] fetches[i].key@ == k
}

/// What the lock table does on a step of a fetch with key `key`: the lock is
/// granted on `LockAcquired(Ok)` only where the key was free, released on
/// `Released`, and left alone otherwise.
pub open spec fn locks_follow<D>(
    locks: FetchLocks,
    event: FetchEvent<D>,
    key: Seq<char>,
    after: FetchLocks,
) -> bool {
    if event matches FetchEvent::LockAcquired(Ok(_)) {
        &&& !locks.holds(key)
        &&& forall|k: Seq<char>| #[trigger] after.holds(k) == (locks.holds(k) || k == key)
    } else if event is Released {
        forall|k: Seq<char>| #[trigger] after.holds(k) == (locks.holds(k) && k != key)
    } else {
        forall|k: Seq<char>| #[trigger] after.holds(k) == locks.holds(k)
    }
}

/// No fetch and no lock is the start of the protocol.
pub proof fn lemma_lock_protocol_start<D>(locks: FetchLocks)
    requires
        forall|k: Seq<char>| !locks.holds(k),
    ensures
        lock_protocol(Seq::<CurrencyFetch<D>>::empty(), locks),
{
}

/// A fetch that starts, and does not hold a lock yet, keeps the protocol.
pub proof fn lemma_lock_protocol_join<D>(
    fetches: Seq<CurrencyFetch<D>>,
    locks: FetchLocks,
    f: CurrencyFetch<D>,
)
    requires
        lock_protocol(fetches, locks),
        !holds_lock_phase(f.phase),
    ensures
        lock_protocol(fetches.push(f), locks),
{
    let after = fetches.push(f);
    assert forall|k: Seq<char>| #[trigger] locks.holds(k) implies exists|i: int|
        0 <= i < after.len() && holds_lock_phase(after[i].phase) && #[trigger] after[i].key@ == k by {
        let i = choose|i: int|
            0 <= i < fetches.len() && holds_lock_phase(fetches[i].phase) && #[trigger] fetches[i].key@ == k;
        assert(after[i] == fetches[i]);
    }
}

/// Each step of one fetch, with the lock table doing what the step asks,
/// keeps the protocol: so at most one fetch of a cache key holds its lock,
/// and a key is held only by a fetch of that key.
pub proof fn lemma_lock_protocol_step<D>(
    fetches: Seq<CurrencyFetch<D>>,
    locks: FetchLocks,
    i: int,
    event: FetchEvent<D>,
    after: CurrencyFetch<D>,
    res: FetchAction<D>,
    locks_after: FetchLocks,
)
    requires
        lock_protocol(fetches, locks),
        0 <= i < fetches.len(),
        fetch_step(fetches[i], event, after, res),
        same_request(after, fetches[i]),
        locks_follow(locks, event, fetches[i].key@, locks_after),
    ensures
        lock_protocol(fetches.update(i, after), locks_after),
{
    let before = fetches[i];
    let key = before.key@;
    let next = fetches.update(i, after);
    if event matches FetchEvent::LockAcquired(Ok(_)) {
        assert(before.phase == FetchPhase::Locking);
        assert(after.phase == FetchPhase::LockedCacheCheck);
        assert forall|j: int| 0 <= j < fetches.len() && j != i && holds_lock_phase(fetches[j].phase)
            implies fetches[j].key@ != key by {
            assert(locks.holds(fetches[j].key@));
        }
        assert forall|k: Seq<char>| #[trigger] locks_after.holds(k) implies exists|j: int|
            0 <= j < next.len() && holds_lock_phase(next[j].phase) && #[trigger] next[j].key@ == k by {
            if k == key {
                assert(next[i].key@ == k);
            } else {
                let j = choose|j: int|
                    0 <= j < fetches.len() && holds_lock_phase(fetches[j].phase) && #[trigger] fetches[j].key@ == k;
                assert(next[j].key@ == k);
            }
        }
    } else if event is Released {
        assert(before.phase == FetchPhase::Releasing);
        assert(after.phase == FetchPhase::Done);
        assert forall|k: Seq<char>| #[trigger] locks_after.holds(k) implies exists|j: int|
            0 <= j < next.len() && holds_lock_phase(next[j].phase) && #[trigger] next[j].key@ == k by {
            let j = choose|j: int|
                0 <= j < fetches.len() && holds_lock_phase(fetches[j].phase) && #[trigger] fetches[j].key@ == k;
            assert(j != i);
            assert(next[j].key@ == k);
        }
        assert forall|j: int| 0 <= j < next.len() && holds_lock_phase(#[trigger] next[j].phase)
            implies locks_after.holds(next[j].key@) by {
            assert(j != i);
            assert(locks.holds(fetches[j].key@));
            assert(holds_lock_phase(fetches[i].phase));
            assert(fetches[j].key@ != key);
        }
    } else {
        assert(holds_lock_phase(after.phase) == holds_lock_phase(before.phase));
        assert forall|k: Seq<char>| #[trigger] locks_after.holds(k) implies exists|j: int|
            0 <= j < next.len() && holds_lock_phase(next[j].phase) && #[trigger] next[j].key@ == k by {
            let j = choose|j: int|
                0 <= j < fetches.len() && holds_lock_phase(fetches[j].phase) && #[trigger] fetches[j].key@ == k;
            assert(next[j].key@ == k);
        }
    }
}

/// Under the protocol, at most one request for a cache key is in flight.
pub proof fn lemma_one_request_per_key<D>(
    fetches: Seq<CurrencyFetch<D>>,
    locks: FetchLocks,
    i: int,
    j: int,
)
    requires
        lock_protocol(fetches, locks),
        0 <= i < fetches.len(),
        0 <= j < fetches.len(),
        i != j,
        fetches[i].phase == FetchPhase::Fetching,
        fetches[j].phase == FetchPhase::Fetching,
    ensures
        fetches[i].key@ != fetches[j].key@,
{
    assert(holds_lock_phase(fetches[i].phase) && holds_lock_phase(fetches[j].phase));
}

/// Under the protocol, a fetch waits for the lock of its key only while a
/// fetch of that same key holds it: fetches of other keys never make it wait.
pub proof fn lemma_waits_only_on_same_key<D>(
    fetches: Seq<CurrencyFetch<D>>,
    locks: FetchLocks,
    key: Seq<char>,
)
    requires
        lock_protocol(fetches, locks),
        locks.holds(key),
    ensures
        exists|j: int|
            0 <= j < fetches.len() && holds_lock_phase(fetches[j].phase) && #[trigger] fetches[j].key@ == key,
{
}

/// A fetch that took the lock and then finds fresh data hands that data
/// back without a request: it releases the lock and finishes with it.
pub proof fn lemma_waiter_takes_fresh_data<D>(
    f0: CurrencyFetch<D>,
    d: D,
    f1: CurrencyFetch<D>,
    r1: FetchAction<D>,
    f2: CurrencyFetch<D>,
    r2: FetchAction<D>,
)
    requires
        f0.phase == FetchPhase::LockedCacheCheck,
        fetch_step(f0, FetchEvent::<D>::FreshCache(Ok(Some(d))), f1, r1),
        fetch_step(f1, FetchEvent::<D>::Released, f2, r2),
    ensures
        r1 == FetchAction::<D>::Release(f0.key),
        r2 == FetchAction::<D>::Finish(Ok(d), false),
        f2.phase == FetchPhase::Done,
{
}

/// How many steps a fetch has left at most, by its phase.
pub open spec fn steps_left(p: FetchPhase) -> nat {
    match p {
        FetchPhase::FastCacheCheck => 7,
        FetchPhase::Locking => 6,
        FetchPhase::LockedCacheCheck => 5,
        FetchPhase::Fetching => 4,
        FetchPhase::Saving => 3,
        FetchPhase::StaleCheck => 3,
        FetchPhase::Releasing => 1,
        FetchPhase::Done => 0,
    }
}

/// Every step brings a fetch closer to its end: a fetch finishes after at
/// most seven steps (not counting the wait for the lock).
pub proof fn lemma_fetch_terminates<D>(
    before: CurrencyFetch<D>,
    event: FetchEvent<D>,
    after: CurrencyFetch<D>,
    res: FetchAction<D>,
)
    requires
        fetch_step(before, event, after, res),
    ensures
        steps_left(after.phase) < steps_left(before.phase),
        res is Finish <==> after.phase == FetchPhase::Done,
{
}

} // verus!
