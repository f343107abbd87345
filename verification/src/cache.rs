//! Expiring single-flight cache used to protect expensive status
//! endpoints against denial of service: within one freshness window every
//! read is served from the stored value and the producer runs at most
//! once.
//!
//! Callers serialize access to the cache (the surrounding service holds
//! it under a mutual-exclusion lock), so the sequential contracts here
//! describe exactly what any interleaving of callers observes.

use vstd::prelude::*;

verus! {

/// A value cached together with the unix-millisecond instant at which it
/// was stored, plus the configured freshness window.
pub struct ExpiringCache<T> {
    data: Option<(T, u64)>,
    duration_ms: u64,
}

impl<T> ExpiringCache<T> {
    /// The stored value and its storage instant, if any.
    pub closed spec fn spec_entry(&self) -> Option<(T, u64)> {
        self.data
    }

    /// The configured freshness window in milliseconds.
    pub closed spec fn spec_duration(&self) -> u64 {
        self.duration_ms
    }

    /// Whether the stored value is still fresh at `now_ms`: its age is
    /// strictly below the window.
    pub open spec fn fresh_at(&self, now_ms: u64) -> bool {
        match self.spec_entry() {
            Some(e) => now_ms - e.1 < self.spec_duration(),
            None => false,
        }
    }

    /// The stored value.
    pub open spec fn cached_value(&self) -> T
        recommends
            self.spec_entry() is Some,
    {
        self.spec_entry().unwrap().0
    }

    /// Creates an empty cache with the given freshness window.
    pub fn new(duration_ms: u64) -> (r: Self)
        ensures
            r.spec_entry() is None,
            r.spec_duration() == duration_ms,
    {
        ExpiringCache { data: None, duration_ms }
    }

    /// Returns the cached value while it is fresh; otherwise runs the
    /// producer `f`, stores its result at `now_ms`, and returns it.
    /// Every produced value is stored, so this is for infallible
    /// producers; a fallible producer goes through
    /// [`ExpiringCache::get_try`], which never caches a failure.
    pub fn get<F: FnOnce() -> T>(&mut self, now_ms: u64, f: F) -> (r: T) where T: Copy
        requires
            match old(self).spec_entry() {
                Some(e) => e.1 <= now_ms,
                None => true,
            },
            call_requires(f, ()),
        ensures
            final(self).spec_duration() == old(self).spec_duration(),
            old(self).fresh_at(now_ms) ==> r == old(self).cached_value()
                && final(self).spec_entry() == old(self).spec_entry(),
            !old(self).fresh_at(now_ms) ==> call_ensures(f, (), r) && final(self).spec_entry()
                == Some((r, now_ms)),
    {
        match &self.data {
            Some(entry) => {
                if now_ms - entry.1 < self.duration_ms {
                    return entry.0;
                }
            },
            None => {},
        }
        let v = f();
        self.data = Some((v, now_ms));
        v
    }

    /// Returns the cached value while it is fresh; otherwise runs the
    /// fallible producer `f`. A produced value is stored at `now_ms`
    /// and returned; a producer failure is propagated and not cached —
    /// the entry is left as it was, so the next read within any window
    /// runs the producer again.
    pub fn get_try<E, F: FnOnce() -> Result<T, E>>(&mut self, now_ms: u64, f: F) -> (r: Result<
        T,
        E,
    >) where T: Copy
        requires
            match old(self).spec_entry() {
                Some(e) => e.1 <= now_ms,
                None => true,
            },
            call_requires(f, ()),
        ensures
            final(self).spec_duration() == old(self).spec_duration(),
            old(self).fresh_at(now_ms) ==> r == Ok::<T, E>(old(self).cached_value())
                && final(self).spec_entry() == old(self).spec_entry(),
            !old(self).fresh_at(now_ms) ==> call_ensures(f, (), r) && match r {
                Ok(v) => final(self).spec_entry() == Some((v, now_ms)),
                Err(_) => final(self).spec_entry() == old(self).spec_entry(),
            },
    {
        match &self.data {
            Some(entry) => {
                if now_ms - entry.1 < self.duration_ms {
                    return Ok(entry.0);
                }
            },
            None => {},
        }
        match f() {
            Ok(v) => {
                self.data = Some((v, now_ms));
                Ok(v)
            },
            Err(e) => Err(e),
        }
    }

    /// Returns a reference to the cached value if it is still fresh at
    /// `now_ms`, and nothing otherwise.
    pub fn get_if_fresh(&self, now_ms: u64) -> (r: Option<&T>)
        requires
            match self.spec_entry() {
                Some(e) => e.1 <= now_ms,
                None => true,
            },
        ensures
            match r {
                Some(v) => self.fresh_at(now_ms) && *v == self.cached_value(),
                None => !self.fresh_at(now_ms),
            },
    {
        match &self.data {
            Some(entry) => {
                if now_ms - entry.1 < self.duration_ms {
                    Some(&entry.0)
                } else {
                    None
                }
            },
            None => None,
        }
    }

    /// Stores `value` at instant `now_ms`, replacing whatever was cached.
    pub fn refresh(&mut self, value: T, now_ms: u64)
        ensures
            final(self).spec_duration() == old(self).spec_duration(),
            final(self).spec_entry() == Some((value, now_ms)),
    {
        self.data = Some((value, now_ms));
    }
}

/// Single-flight law: once a value is stored at some instant, the cache
/// stays fresh at every later instant within one window. By the contract
/// of [`ExpiringCache::get`], every read in that window therefore returns
/// the stored value and leaves the cache unchanged, so the producer is
/// consulted at most once per window.
pub proof fn lemma_single_flight_window<T>(c: ExpiringCache<T>, read_ms: u64)
    requires
        c.spec_entry() is Some,
        c.spec_entry().unwrap().1 <= read_ms,
        read_ms - c.spec_entry().unwrap().1 < c.spec_duration(),
    ensures
        c.fresh_at(read_ms),
{
}

} // verus!
