use vstd::prelude::*;
use crate::model::{Player, Team};

verus! {

/// Seconds a cached roster snapshot stays valid.
pub const CACHE_TTL_SECONDS: u64 = 300;

/// One cached flattened roster with the time (in seconds) it was created.
#[derive(Debug)]
pub struct CacheEntry {
    pub value: Vec<(Team, Player)>,
    pub created_at: u64,
}

/// What a cache lookup tells its caller to do.
#[derive(Clone, Copy, PartialEq, Eq, Structural, Debug)]
pub enum CacheAction {
    /// A fresh snapshot is cached: read it with `cached_value`.
    Serve,
    /// A refresh for this key is already in flight: await its outcome, then
    /// look up again.
    Await,
    /// No fresh snapshot and no refresh in flight: the caller must fetch
    /// remote data and report back with `complete_refresh` or
    /// `fail_refresh`, and is the only caller told to do so.
    Refresh,
}

/// The roster cache: one independently timestamped entry per visibility
/// flag, with an in-flight marker per flag that keeps refreshes
/// single-flight.
pub struct RosterCache {
    pub standard: Option<CacheEntry>,
    pub full: Option<CacheEntry>,
    pub standard_refreshing: bool,
    pub full_refreshing: bool,
}

/// The cached entry for a visibility flag.
pub open spec fn entry_of(s: RosterCache, forbidden: bool) -> Option<CacheEntry> {
    if forbidden {
        s.full
    } else {
        s.standard
    }
}

/// Whether a refresh is in flight for a visibility flag.
pub open spec fn refreshing_of(s: RosterCache, forbidden: bool) -> bool {
    if forbidden {
        s.full_refreshing
    } else {
        s.standard_refreshing
    }
}

/// A snapshot created at `created_at` is still fresh at `now`: its age is
/// below the time-to-live.
pub open spec fn is_fresh(created_at: u64, now: u64) -> bool {
    created_at <= now && now - created_at < CACHE_TTL_SECONDS
}

/// The cache holds a fresh entry for the flag at time `now`.
pub open spec fn has_fresh_entry(s: RosterCache, forbidden: bool, now: u64) -> bool {
    match entry_of(s, forbidden) {
        Some(e) => is_fresh(e.created_at, now),
        None => false,
    }
}

/// What a lookup for the given flag at the given time decides: serve the
/// fresh entry if one exists; else await a refresh already in flight; else
/// start a refresh.
pub open spec fn spec_decision(s: RosterCache, forbidden: bool, now: u64) -> CacheAction {
    if has_fresh_entry(s, forbidden, now) {
        CacheAction::Serve
    } else if refreshing_of(s, forbidden) {
        CacheAction::Await
    } else {
        CacheAction::Refresh
    }
}

/// The cache state after a lookup: deciding to refresh marks the flag
/// in-flight and drops the stale entry (no stale-on-error fallback); any
/// other decision leaves the state unchanged.
pub open spec fn after_lookup(s: RosterCache, forbidden: bool, now: u64) -> RosterCache {
    if spec_decision(s, forbidden, now) is Refresh {
        if forbidden {
            RosterCache { full: None, full_refreshing: true, ..s }
        } else {
            RosterCache { standard: None, standard_refreshing: true, ..s }
        }
    } else {
        s
    }
}

/// A refresh marked in flight never coexists with a cached entry for the
/// same flag.
pub open spec fn cache_wf(s: RosterCache) -> bool {
    &&& (s.standard_refreshing ==> s.standard is None)
    &&& (s.full_refreshing ==> s.full is None)
}

impl RosterCache {
    /// An empty cache: no entries, nothing in flight.
    pub fn new() -> (r: RosterCache)
        ensures
            r.standard is None,
            r.full is None,
            !r.standard_refreshing,
            !r.full_refreshing,
            cache_wf(r),
    {
        RosterCache { standard: None, full: None, standard_refreshing: false, full_refreshing: false }
    }

    /// Decides what the caller of `getFlattenedRoster` must do for the given
    /// visibility flag at time `now`, and records a refresh decision so that
    /// later callers await it instead of fetching again.
    pub fn lookup(&mut self, forbidden: bool, now: u64) -> (r: CacheAction)
        requires
            cache_wf(*old(self)),
        ensures
            r == spec_decision(*old(self), forbidden, now),
            *final(self) == after_lookup(*old(self), forbidden, now),
            cache_wf(*final(self)),
            r is Serve ==> has_fresh_entry(*old(self), forbidden, now),
    {
        if forbidden {
            match &self.full {
                Some(e) => {
                    if e.created_at <= now && now - e.created_at < CACHE_TTL_SECONDS {
                        CacheAction::Serve
                    } else {
                        self.full = None;
                        self.full_refreshing = true;
                        CacheAction::Refresh
                    }
                },
                None => {
                    if self.full_refreshing {
                        CacheAction::Await
                    } else {
                        self.full_refreshing = true;
                        CacheAction::Refresh
                    }
                },
            }
        } else {
            match &self.standard {
                Some(e) => {
                    if e.created_at <= now && now - e.created_at < CACHE_TTL_SECONDS {
                        CacheAction::Serve
                    } else {
                        self.standard = None;
                        self.standard_refreshing = true;
                        CacheAction::Refresh
                    }
                },
                None => {
                    if self.standard_refreshing {
                        CacheAction::Await
                    } else {
                        self.standard_refreshing = true;
                        CacheAction::Refresh
                    }
                },
            }
        }
    }

    /// The cached snapshot for a visibility flag; callers reach it after a
    /// `Serve` decision.
    pub fn cached_value(&self, forbidden: bool) -> (r: &Vec<(Team, Player)>)
        requires
            entry_of(*self, forbidden) is Some,
        ensures
            match entry_of(*self, forbidden) {
                Some(e) => r == &e.value,
                None => false,
            },
    {
        if forbidden {
            match &self.full {
                Some(e) => &e.value,
                None => unreached(),
            }
        } else {
            match &self.standard {
                Some(e) => &e.value,
                None => unreached(),
            }
        }
    }

    /// Stores the snapshot a successful refresh fetched, stamped with the
    /// time of completion, and lets waiters proceed.
    pub fn complete_refresh(&mut self, forbidden: bool, now: u64, value: Vec<(Team, Player)>)
        requires
            cache_wf(*old(self)),
            refreshing_of(*old(self), forbidden),
        ensures
            cache_wf(*final(self)),
            !refreshing_of(*final(self), forbidden),
            match entry_of(*final(self), forbidden) {
                Some(e) => e.value == value && e.created_at == now,
                None => false,
            },
            entry_of(*final(self), !forbidden) == entry_of(*old(self), !forbidden),
            refreshing_of(*final(self), !forbidden) == refreshing_of(*old(self), !forbidden),
    {
        if forbidden {
            self.full = Some(CacheEntry { value, created_at: now });
            self.full_refreshing = false;
        } else {
            self.standard = Some(CacheEntry { value, created_at: now });
            self.standard_refreshing = false;
        }
    }

    /// Records a failed refresh: the entry stays unset, so the next caller
    /// retries fully; waiters see the failure and give up on this attempt.
    pub fn fail_refresh(&mut self, forbidden: bool)
        requires
            cache_wf(*old(self)),
            refreshing_of(*old(self), forbidden),
        ensures
            cache_wf(*final(self)),
            !refreshing_of(*final(self), forbidden),
            entry_of(*final(self), forbidden) is None,
            entry_of(*final(self), !forbidden) == entry_of(*old(self), !forbidden),
            refreshing_of(*final(self), !forbidden) == refreshing_of(*old(self), !forbidden),
    {
        if forbidden {
            self.full_refreshing = false;
        } else {
            self.standard_refreshing = false;
        }
    }
}

/// Refreshes are single-flight: once one lookup has been told to refresh a
/// flag, every later lookup for that flag is told to await that refresh (at
/// any time), not to fetch again.
pub proof fn lemma_single_flight(s: RosterCache, forbidden: bool, now1: u64, now2: u64)
    requires
        spec_decision(s, forbidden, now1) is Refresh,
    ensures
        spec_decision(after_lookup(s, forbidden, now1), forbidden, now2) is Await,
{
}

/// Independent keys: a lookup for one visibility flag never changes the
/// entry or the in-flight marker of the other flag.
pub proof fn lemma_keys_independent(s: RosterCache, forbidden: bool, now: u64)
    ensures
        entry_of(after_lookup(s, forbidden, now), !forbidden) == entry_of(s, !forbidden),
        refreshing_of(after_lookup(s, forbidden, now), !forbidden) == refreshing_of(s, !forbidden),
{
}

/// Bounded staleness: with an entry created at `t` and no refresh in
/// flight, a lookup within the time-to-live serves the cached snapshot, and
/// a lookup at or past it starts a new refresh.
pub proof fn lemma_ttl(s: RosterCache, forbidden: bool, t: u64, now: u64)
    requires
        match entry_of(s, forbidden) {
            Some(e) => e.created_at == t,
            None => false,
        },
        t <= now,
    ensures
        now - t < CACHE_TTL_SECONDS ==> spec_decision(s, forbidden, now) is Serve,
        now - t >= CACHE_TTL_SECONDS ==> !(spec_decision(s, forbidden, now) is Serve),
{
}

} // verus!
