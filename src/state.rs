use vstd::prelude::*;
use vstd::string::StringExecFns;

use crate::clock::now_ns;
use crate::contracts::CheckImageVersionResponse;
use crate::errors::{VersionError, VersionResult};
use crate::text::same_text;

verus! {

/// How long a check result stays usable, in milliseconds.
pub const CHECK_CACHE_TTL_MS: u64 = 30_000;

/// How long an update lock is honoured before it may be reclaimed, in milliseconds.
pub const LOCK_TIMEOUT_MS: u64 = 900_000;

/// Whether a record made at `at_ns` is past `ttl_ms` at `now_ns`. A clock
/// reading earlier than the record counts as past too.
pub open spec fn stale(at_ns: u64, ttl_ms: u64, now_ns: u64) -> bool {
    now_ns < at_ns || (now_ns - at_ns) as int > ttl_ms as int * 1_000_000
}

fn stale_exec(at_ns: u64, ttl_ms: u64, now_ns: u64) -> (r: bool)
    ensures
        r == stale(at_ns, ttl_ms, now_ns),
{
    now_ns < at_ns || ((now_ns - at_ns) as u128) > (ttl_ms as u128) * 1_000_000
}

/// A cached check result and when it was stored.
#[derive(Debug, Clone)]
pub struct VersionCheckCache {
    pub response: CheckImageVersionResponse,
    pub cached_at_ns: u64,
}

impl VersionCheckCache {
    pub open spec fn expired_at(&self, ttl_ms: u64, now_ns: u64) -> bool {
        stale(self.cached_at_ns, ttl_ms, now_ns)
    }

    /// Whether this entry is past `ttl_ms` at clock reading `now_ns`.
    pub fn is_expired_at(&self, ttl_ms: u64, now_ns: u64) -> (r: bool)
        ensures
            r == self.expired_at(ttl_ms, now_ns),
    {
        stale_exec(self.cached_at_ns, ttl_ms, now_ns)
    }

    /// Whether this entry is past `ttl_ms` now.
    pub fn is_expired(&self, ttl_ms: u64) -> (r: bool)
        ensures
            exists|t: u64| r == self.expired_at(ttl_ms, t),
    {
        self.is_expired_at(ttl_ms, now_ns())
    }
}

/// A held update lock.
#[derive(Debug, Clone)]
pub struct UpdateLock {
    pub operation_id: String,
    pub image_key: String,
    pub locked_at_ns: u64,
}

impl UpdateLock {
    pub open spec fn expired_at(&self, timeout_ms: u64, now_ns: u64) -> bool {
        stale(self.locked_at_ns, timeout_ms, now_ns)
    }

    /// Whether this lock is past `timeout_ms` at clock reading `now_ns`.
    pub fn is_expired_at(&self, timeout_ms: u64, now_ns: u64) -> (r: bool)
        ensures
            r == self.expired_at(timeout_ms, now_ns),
    {
        stale_exec(self.locked_at_ns, timeout_ms, now_ns)
    }

    /// Whether this lock is past `timeout_ms` now.
    pub fn is_expired(&self, timeout_ms: u64) -> (r: bool)
        ensures
            exists|t: u64| r == self.expired_at(timeout_ms, t),
    {
        self.is_expired_at(timeout_ms, now_ns())
    }
}

/// The entry filed last under `key`: later entries shadow earlier ones.
pub open spec fn cache_lookup(s: Seq<(String, VersionCheckCache)>, key: Seq<char>) -> Option<VersionCheckCache>
    decreases s.len(),
{
    if s.len() == 0 {
        None
    } else if s.last().0@ == key {
        Some(s.last().1)
    } else {
        cache_lookup(s.drop_last(), key)
    }
}

/// The lock filed last under `key`.
pub open spec fn lock_lookup(s: Seq<UpdateLock>, key: Seq<char>) -> Option<UpdateLock>
    decreases s.len(),
{
    if s.len() == 0 {
        None
    } else if s.last().image_key@ == key {
        Some(s.last())
    } else {
        lock_lookup(s.drop_last(), key)
    }
}

/// No two locks share an image key.
pub open spec fn distinct_lock_keys(s: Seq<UpdateLock>) -> bool {
    forall|i: int, j: int| 0 <= i < j < s.len() ==> s[i].image_key@ != s[j].image_key@
}

/// No two cache entries share an image key.
pub open spec fn distinct_cache_keys(s: Seq<(String, VersionCheckCache)>) -> bool {
    forall|i: int, j: int| 0 <= i < j < s.len() ==> s[i].0@ != s[j].0@
}

/// The cache entries still within `ttl_ms` at `now_ns`.
pub open spec fn cache_swept(s: Seq<(String, VersionCheckCache)>, ttl_ms: u64, now_ns: u64) -> Seq<(String, VersionCheckCache)> {
    s.filter(|e: (String, VersionCheckCache)| !e.1.expired_at(ttl_ms, now_ns))
}

/// The locks still honoured at `now_ns`.
pub open spec fn live_locks(s: Seq<UpdateLock>, now_ns: u64) -> Seq<UpdateLock> {
    s.filter(|l: UpdateLock| !l.expired_at(LOCK_TIMEOUT_MS, now_ns))
}

/// The lock table after an attempt by `op` to lock `key` at `now_ns`: the
/// stale locks are dropped, then the new lock is added unless a live one
/// holds `key`; `None` when one does.
pub open spec fn lock_attempt(s: Seq<UpdateLock>, key: String, op: String, now_ns: u64) -> Option<Seq<UpdateLock>> {
    let live = live_locks(s, now_ns);
    if lock_lookup(live, key@) is Some {
        None
    } else {
        Some(live.push(UpdateLock { operation_id: op, image_key: key, locked_at_ns: now_ns }))
    }
}

/// The lock table after `key` is released, whoever held it.
pub open spec fn lock_release(s: Seq<UpdateLock>, key: Seq<char>) -> Seq<UpdateLock> {
    s.filter(|l: UpdateLock| l.image_key@ != key)
}

/// Filtering keeps the lookup of every key that the predicate never drops.
proof fn lemma_cache_lookup_filter(s: Seq<(String, VersionCheckCache)>, p: spec_fn((String, VersionCheckCache)) -> bool, key: Seq<char>)
    requires
        forall|i: int| 0 <= i < s.len() && s[i].0@ == key ==> p(s[i]),
    ensures
        cache_lookup(s.filter(p), key) == cache_lookup(s, key),
    decreases s.len(),
{
    reveal(Seq::filter);
    if s.len() > 0 {
        lemma_cache_lookup_filter(s.drop_last(), p, key);
        let sub = s.drop_last().filter(p);
        if p(s.last()) {
            assert(s.filter(p) == sub.push(s.last()));
            assert(sub.push(s.last()).drop_last() =~= sub);
        }
    }
}

/// A key with no lock filed under it appears nowhere in the table.
proof fn lemma_lock_lookup_none(s: Seq<UpdateLock>, key: Seq<char>)
    ensures
        lock_lookup(s, key) is None <==> forall|i: int| 0 <= i < s.len() ==> s[i].image_key@ != key,
    decreases s.len(),
{
    if s.len() > 0 {
        lemma_lock_lookup_none(s.drop_last(), key);
        if lock_lookup(s, key) is None {
            assert forall|i: int| 0 <= i < s.len() implies s[i].image_key@ != key by {
                if i < s.len() - 1 {
                    assert(s[i] == s.drop_last()[i]);
                }
            }
        } else if s.last().image_key@ != key {
            let j = choose|j: int| 0 <= j < s.drop_last().len() && s.drop_last()[j].image_key@ == key;
            assert(s[j] == s.drop_last()[j]);
        }
    }
}

/// Filtering keeps the table free of repeated keys, and keeps only entries of the table.
proof fn lemma_filter_distinct(s: Seq<UpdateLock>, p: spec_fn(UpdateLock) -> bool)
    requires
        distinct_lock_keys(s),
    ensures
        distinct_lock_keys(s.filter(p)),
        forall|i: int| 0 <= i < s.filter(p).len() ==> exists|j: int| 0 <= j < s.len() && s[j] == #[trigger] s.filter(p)[i],
    decreases s.len(),
{
    reveal(Seq::filter);
    if s.len() > 0 {
        let d = s.drop_last();
        assert(distinct_lock_keys(d)) by {
            assert forall|i: int, j: int| 0 <= i < j < d.len() implies d[i].image_key@ != d[j].image_key@ by {
                assert(d[i] == s[i] && d[j] == s[j]);
            }
        }
        lemma_filter_distinct(d, p);
        let sub = d.filter(p);
        assert forall|i: int| 0 <= i < sub.len() implies exists|j: int| 0 <= j < s.len() && s[j] == #[trigger] sub[i] by {
            let j = choose|j: int| 0 <= j < d.len() && d[j] == sub[i];
            assert(s[j] == d[j]);
        }
        if p(s.last()) {
            let f = sub.push(s.last());
            assert(s.filter(p) == f);
            assert forall|i: int, j: int| 0 <= i < j < f.len() implies f[i].image_key@ != f[j].image_key@ by {
                if j == f.len() - 1 {
                    let k = choose|k: int| 0 <= k < s.len() && s[k] == #[trigger] sub[i];
                    assert(f[i] == sub[i]);
                    assert(k < s.len() - 1) by {
                        if k == s.len() - 1 {
                            let k2 = choose|k2: int| 0 <= k2 < d.len() && d[k2] == sub[i];
                            assert(s[k2] == d[k2]);
                        }
                    }
                } else {
                    assert(f[i] == sub[i] && f[j] == sub[j]);
                }
            }
            assert forall|i: int| 0 <= i < f.len() implies exists|j: int| 0 <= j < s.len() && s[j] == #[trigger] f[i] by {
                if i == f.len() - 1 {
                    assert(s[s.len() - 1] == f[i]);
                } else {
                    assert(f[i] == sub[i]);
                }
            }
        }
    }
}

/// Filtering keeps the cache free of repeated keys, and keeps only its entries.
proof fn lemma_cache_filter_distinct(s: Seq<(String, VersionCheckCache)>, p: spec_fn((String, VersionCheckCache)) -> bool)
    requires
        distinct_cache_keys(s),
    ensures
        distinct_cache_keys(s.filter(p)),
        forall|i: int| 0 <= i < s.filter(p).len() ==> exists|j: int| 0 <= j < s.len() && s[j] == #[trigger] s.filter(p)[i],
    decreases s.len(),
{
    reveal(Seq::filter);
    if s.len() > 0 {
        let d = s.drop_last();
        assert(distinct_cache_keys(d)) by {
            assert forall|i: int, j: int| 0 <= i < j < d.len() implies d[i].0@ != d[j].0@ by {
                assert(d[i] == s[i] && d[j] == s[j]);
            }
        }
        lemma_cache_filter_distinct(d, p);
        let sub = d.filter(p);
        assert forall|i: int| 0 <= i < sub.len() implies exists|j: int| 0 <= j < s.len() && s[j] == #[trigger] sub[i] by {
            let j = choose|j: int| 0 <= j < d.len() && d[j] == sub[i];
            assert(s[j] == d[j]);
        }
        if p(s.last()) {
            let f = sub.push(s.last());
            assert(s.filter(p) == f);
            assert forall|i: int, j: int| 0 <= i < j < f.len() implies f[i].0@ != f[j].0@ by {
                if j == f.len() - 1 {
                    let k = choose|k: int| 0 <= k < s.len() && s[k] == #[trigger] sub[i];
                    assert(f[i] == sub[i]);
                    assert(k < s.len() - 1) by {
                        if k == s.len() - 1 {
                            let k2 = choose|k2: int| 0 <= k2 < d.len() && d[k2] == sub[i];
                            assert(s[k2] == d[k2]);
                        }
                    }
                } else {
                    assert(f[i] == sub[i] && f[j] == sub[j]);
                }
            }
            assert forall|i: int| 0 <= i < f.len() implies exists|j: int| 0 <= j < s.len() && s[j] == #[trigger] f[i] by {
                if i == f.len() - 1 {
                    assert(s[s.len() - 1] == f[i]);
                } else {
                    assert(f[i] == sub[i]);
                }
            }
        }
    }
}

/// Version-check cache and update-lock table, keyed by image key.
///
/// Callers that share one value between threads hold it behind a mutex, so
/// that each method runs as one short critical section.
#[derive(Debug)]
pub struct VersionRuntimeState {
    check_cache: Vec<(String, VersionCheckCache)>,
    update_locks: Vec<UpdateLock>,
}

impl VersionRuntimeState {
    pub closed spec fn wf(&self) -> bool {
        distinct_lock_keys(self.update_locks@) && distinct_cache_keys(self.check_cache@)
    }

    pub closed spec fn cache_view(&self) -> Seq<(String, VersionCheckCache)> {
        self.check_cache@
    }

    pub closed spec fn locks_view(&self) -> Seq<UpdateLock> {
        self.update_locks@
    }

    pub fn new() -> (r: VersionRuntimeState)
        ensures
            r.wf(),
            r.cache_view().len() == 0,
            r.locks_view().len() == 0,
    {
        VersionRuntimeState { check_cache: Vec::new(), update_locks: Vec::new() }
    }

    /// The cached response for `image_key`, if one was stored no longer than
    /// `ttl_ms` before the clock reading `now_ns`.
    pub fn get_cached_check_at(&self, image_key: &str, ttl_ms: u64, now_ns: u64) -> (r: Option<CheckImageVersionResponse>)
        ensures
            match cache_lookup(self.cache_view(), image_key@) {
                None => r is None,
                Some(e) => if e.expired_at(ttl_ms, now_ns) {
                    r is None
                } else {
                    r is Some && r->0.same_as(&e.response)
                },
            },
    {
        let mut i: usize = self.check_cache.len();
        assert(self.check_cache@.subrange(0, i as int) =~= self.check_cache@);
        while i > 0
            invariant
                i <= self.check_cache@.len(),
                cache_lookup(self.check_cache@, image_key@) == cache_lookup(self.check_cache@.subrange(0, i as int), image_key@),
            decreases i,
        {
            let ghost pre = self.check_cache@.subrange(0, i as int);
            assert(pre.drop_last() =~= self.check_cache@.subrange(0, i - 1));
            i = i - 1;
            let slot = &self.check_cache[i];
            assert(pre.last() == *slot);
            if same_text(slot.0.as_str(), image_key) {
                if slot.1.is_expired_at(ttl_ms, now_ns) {
                    return None;
                }
                return Some(slot.1.response.duplicate());
            }
        }
        None
    }

    /// The cached response for `image_key`, if it is no older than `ttl_ms` now.
    pub fn get_cached_check(&self, image_key: &str, ttl_ms: u64) -> (r: Option<CheckImageVersionResponse>)
        ensures
            cache_lookup(self.cache_view(), image_key@) is None ==> r is None,
            r is Some ==> cache_lookup(self.cache_view(), image_key@) is Some
                && r->0.same_as(&cache_lookup(self.cache_view(), image_key@)->0.response),
    {
        self.get_cached_check_at(image_key, ttl_ms, now_ns())
    }

    /// Files `response` under `image_key` as stored at `now_ns`, replacing any earlier entry.
    pub fn cache_check_at(&mut self, image_key: String, response: CheckImageVersionResponse, now_ns: u64)
        requires
            old(self).wf(),
        ensures
            final(self).wf(),
            final(self).locks_view() == old(self).locks_view(),
            forall|k: Seq<char>| #[trigger] cache_lookup(final(self).cache_view(), k) == if k == image_key@ {
                Some(VersionCheckCache { response, cached_at_ns: now_ns })
            } else {
                cache_lookup(old(self).cache_view(), k)
            },
    {
        let ghost orig = self.check_cache@;
        let ghost keep = |e: (String, VersionCheckCache)| e.0@ != image_key@;
        let mut rest: Vec<(String, VersionCheckCache)> = Vec::new();
        std::mem::swap(&mut self.check_cache, &mut rest);
        while rest.len() > 0
            invariant
                keep == (|e: (String, VersionCheckCache)| e.0@ != image_key@),
                rest.len() <= orig.len(),
                rest@ == orig.subrange(orig.len() - rest.len(), orig.len() as int),
                self.check_cache@ == orig.subrange(0, orig.len() - rest.len()).filter(keep),
                self.update_locks == old(self).update_locks,
            decreases rest.len(),
        {
            proof { reveal(Seq::filter); }
            let ghost k = orig.len() - rest.len();
            let slot = rest.remove(0);
            assert(slot == orig[k]);
            let ghost pre = orig.subrange(0, k);
            let ghost post = orig.subrange(0, k + 1);
            assert(post.drop_last() =~= pre);
            assert(post.last() == orig[k]);
            assert(post.filter(keep) == if keep(orig[k]) { pre.filter(keep).push(orig[k]) } else { pre.filter(keep) });
            assert(rest@ =~= orig.subrange(k + 1, orig.len() as int));
            if !same_text(slot.0.as_str(), image_key.as_str()) {
                self.check_cache.push(slot);
            }
        }
        assert(orig.subrange(0, orig.len() as int) =~= orig);
        proof {
            assert forall|k: Seq<char>| k != image_key@ implies cache_lookup(orig.filter(keep), k) == cache_lookup(orig, k) by {
                lemma_cache_lookup_filter(orig, keep, k);
            }
        }
        let ghost filtered = self.check_cache@;
        proof {
            lemma_cache_filter_distinct(orig, keep);
            orig.filter_lemma(keep);
        }
        let ghost key = image_key@;
        self.check_cache.push((image_key, VersionCheckCache { response, cached_at_ns: now_ns }));
        assert(self.check_cache@.drop_last() =~= filtered);
        assert forall|i: int, j: int| 0 <= i < j < self.check_cache@.len()
            implies self.check_cache@[i].0@ != self.check_cache@[j].0@ by {
            assert(self.check_cache@[i] == filtered[i]);
            if j < filtered.len() {
                assert(self.check_cache@[j] == filtered[j]);
            } else {
                assert(keep(filtered[i]));
            }
        }
    }

    /// Files `response` under `image_key` as stored now, replacing any earlier entry.
    pub fn cache_check(&mut self, image_key: String, response: CheckImageVersionResponse)
        requires
            old(self).wf(),
        ensures
            final(self).wf(),
            final(self).locks_view() == old(self).locks_view(),
            cache_lookup(final(self).cache_view(), image_key@) is Some,
            cache_lookup(final(self).cache_view(), image_key@)->0.response == response,
            forall|k: Seq<char>| k != image_key@ ==> #[trigger] cache_lookup(final(self).cache_view(), k)
                == cache_lookup(old(self).cache_view(), k),
    {
        let t = now_ns();
        let ghost key = image_key@;
        self.cache_check_at(image_key, response, t);
        assert(cache_lookup(self.cache_view(), key) is Some);
    }

    /// Drops the stale locks, then locks `image_key` for `operation_id` at
    /// `now_ns` unless a live lock holds it already.
    pub fn try_lock_update_at(&mut self, image_key: String, operation_id: String, now_ns: u64) -> (r: VersionResult<()>)
        requires
            old(self).wf(),
        ensures
            final(self).wf(),
            final(self).cache_view() == old(self).cache_view(),
            r is Ok <==> lock_attempt(old(self).locks_view(), image_key, operation_id, now_ns) is Some,
            r is Ok ==> final(self).locks_view() == live_locks(old(self).locks_view(), now_ns).push(
                UpdateLock { operation_id, image_key, locked_at_ns: now_ns }),
            r is Err ==> final(self).locks_view() == live_locks(old(self).locks_view(), now_ns),
            r is Err ==> r->Err_0 is UpdateConflict,
    {
        let ghost orig = self.update_locks@;
        let ghost keep = |l: UpdateLock| !l.expired_at(LOCK_TIMEOUT_MS, now_ns);
        let mut rest: Vec<UpdateLock> = Vec::new();
        std::mem::swap(&mut self.update_locks, &mut rest);
        while rest.len() > 0
            invariant
                keep == (|l: UpdateLock| !l.expired_at(LOCK_TIMEOUT_MS, now_ns)),
                rest.len() <= orig.len(),
                rest@ == orig.subrange(orig.len() - rest.len(), orig.len() as int),
                self.update_locks@ == orig.subrange(0, orig.len() - rest.len()).filter(keep),
                self.check_cache == old(self).check_cache,
            decreases rest.len(),
        {
            proof { reveal(Seq::filter); }
            let ghost k = orig.len() - rest.len();
            let lock = rest.remove(0);
            assert(lock == orig[k]);
            let ghost pre = orig.subrange(0, k);
            let ghost post = orig.subrange(0, k + 1);
            assert(post.drop_last() =~= pre);
            assert(post.last() == orig[k]);
            assert(post.filter(keep) == if keep(orig[k]) { pre.filter(keep).push(orig[k]) } else { pre.filter(keep) });
            assert(rest@ =~= orig.subrange(k + 1, orig.len() as int));
            let live_one = !lock.is_expired_at(LOCK_TIMEOUT_MS, now_ns);
            if live_one {
                self.update_locks.push(lock);
            }
        }
        assert(orig.subrange(0, orig.len() as int) =~= orig);
        proof {
            assert(keep =~= (|l: UpdateLock| !l.expired_at(LOCK_TIMEOUT_MS, now_ns)));
            assert(live_locks(orig, now_ns) == orig.filter(keep));
            lemma_filter_distinct(orig, keep);
            lemma_lock_lookup_none(self.update_locks@, image_key@);
        }
        let ghost live = self.update_locks@;
        let mut i: usize = 0;
        while i < self.update_locks.len()
            invariant
                self.update_locks@ == live,
                distinct_cache_keys(self.check_cache@),
                live == live_locks(old(self).update_locks@, now_ns),
                lock_lookup(live, image_key@) is None <==> forall|j: int| 0 <= j < live.len() ==> live[j].image_key@ != image_key@,
                distinct_lock_keys(live),
                self.check_cache == old(self).check_cache,
                i <= self.update_locks@.len(),
                forall|j: int| 0 <= j < i ==> self.update_locks@[j].image_key@ != image_key@,
            decreases self.update_locks.len() - i,
        {
            if same_text(self.update_locks[i].image_key.as_str(), image_key.as_str()) {
                let mut message = String::from_str("镜像 ");
                message.append(image_key.as_str());
                message.append(" 正在被操作 ");
                message.append(self.update_locks[i].operation_id.as_str());
                message.append(" 更新中");
                return Err(VersionError::UpdateConflict(message));
            }
            i = i + 1;
        }
        let lock = UpdateLock { operation_id, image_key, locked_at_ns: now_ns };
        self.update_locks.push(lock);
        assert forall|a: int, b: int| 0 <= a < b < self.update_locks@.len()
            implies self.update_locks@[a].image_key@ != self.update_locks@[b].image_key@ by {
            if b < live.len() {
                assert(self.update_locks@[a] == live[a] && self.update_locks@[b] == live[b]);
            } else {
                assert(self.update_locks@[a] == live[a]);
            }
        }
        Ok(())
    }

    /// Drops the stale locks, then locks `image_key` for `operation_id` now
    /// unless a live lock holds it already.
    pub fn try_lock_update(&mut self, image_key: String, operation_id: String) -> (r: VersionResult<()>)
        requires
            old(self).wf(),
        ensures
            final(self).wf(),
            final(self).cache_view() == old(self).cache_view(),
            r is Ok ==> lock_lookup(final(self).locks_view(), image_key@) is Some,
            r is Ok ==> lock_lookup(final(self).locks_view(), image_key@)->0.operation_id == operation_id,
            r is Err ==> lock_lookup(old(self).locks_view(), image_key@) is Some,
            r is Err ==> r->Err_0 is UpdateConflict,
    {
        let t = now_ns();
        let ghost key = image_key@;
        let ghost op = operation_id;
        let ghost before = self.update_locks@;
        let r = self.try_lock_update_at(image_key, operation_id, t);
        proof {
            if r is Err {
                let live = live_locks(before, t);
                lemma_filter_distinct(before, |l: UpdateLock| !l.expired_at(LOCK_TIMEOUT_MS, t));
                lemma_lock_lookup_none(live, key);
                lemma_lock_lookup_none(before, key);
                let i = choose|i: int| 0 <= i < live.len() && live[i].image_key@ == key;
                let j = choose|j: int| 0 <= j < before.len() && before[j] == #[trigger] live[i];
                assert(before[j].image_key@ == key);
            }
        }
        r
    }

    /// Releases any lock on `image_key`, whichever operation holds it.
    pub fn unlock_update(&mut self, image_key: &str)
        requires
            old(self).wf(),
        ensures
            final(self).wf(),
            final(self).cache_view() == old(self).cache_view(),
            final(self).locks_view() == lock_release(old(self).locks_view(), image_key@),
    {
        let ghost orig = self.update_locks@;
        let ghost keep = |l: UpdateLock| l.image_key@ != image_key@;
        let mut rest: Vec<UpdateLock> = Vec::new();
        std::mem::swap(&mut self.update_locks, &mut rest);
        while rest.len() > 0
            invariant
                keep == (|l: UpdateLock| l.image_key@ != image_key@),
                rest.len() <= orig.len(),
                rest@ == orig.subrange(orig.len() - rest.len(), orig.len() as int),
                self.update_locks@ == orig.subrange(0, orig.len() - rest.len()).filter(keep),
                self.check_cache == old(self).check_cache,
            decreases rest.len(),
        {
            proof { reveal(Seq::filter); }
            let ghost k = orig.len() - rest.len();
            let lock = rest.remove(0);
            assert(lock == orig[k]);
            let ghost pre = orig.subrange(0, k);
            let ghost post = orig.subrange(0, k + 1);
            assert(post.drop_last() =~= pre);
            assert(post.last() == orig[k]);
            assert(post.filter(keep) == if keep(orig[k]) { pre.filter(keep).push(orig[k]) } else { pre.filter(keep) });
            assert(rest@ =~= orig.subrange(k + 1, orig.len() as int));
            if !same_text(lock.image_key.as_str(), image_key) {
                self.update_locks.push(lock);
            }
        }
        assert(orig.subrange(0, orig.len() as int) =~= orig);
        proof { lemma_filter_distinct(orig, keep); }
    }

    /// Drops every cache entry past `ttl_ms` at clock reading `now_ns`.
    pub fn cleanup_cache_at(&mut self, ttl_ms: u64, now_ns: u64)
        requires
            old(self).wf(),
        ensures
            final(self).wf(),
            final(self).locks_view() == old(self).locks_view(),
            final(self).cache_view() == old(self).cache_view().filter(
                |e: (String, VersionCheckCache)| !e.1.expired_at(ttl_ms, now_ns)),
    {
        let ghost orig = self.check_cache@;
        let ghost keep = |e: (String, VersionCheckCache)| !e.1.expired_at(ttl_ms, now_ns);
        let mut rest: Vec<(String, VersionCheckCache)> = Vec::new();
        std::mem::swap(&mut self.check_cache, &mut rest);
        while rest.len() > 0
            invariant
                keep == (|e: (String, VersionCheckCache)| !e.1.expired_at(ttl_ms, now_ns)),
                rest.len() <= orig.len(),
                rest@ == orig.subrange(orig.len() - rest.len(), orig.len() as int),
                self.check_cache@ == orig.subrange(0, orig.len() - rest.len()).filter(keep),
                self.update_locks == old(self).update_locks,
            decreases rest.len(),
        {
            proof { reveal(Seq::filter); }
            let ghost k = orig.len() - rest.len();
            let slot = rest.remove(0);
            assert(slot == orig[k]);
            let ghost pre = orig.subrange(0, k);
            let ghost post = orig.subrange(0, k + 1);
            assert(post.drop_last() =~= pre);
            assert(post.last() == orig[k]);
            assert(post.filter(keep) == if keep(orig[k]) { pre.filter(keep).push(orig[k]) } else { pre.filter(keep) });
            assert(rest@ =~= orig.subrange(k + 1, orig.len() as int));
            if !slot.1.is_expired_at(ttl_ms, now_ns) {
                self.check_cache.push(slot);
            }
        }
        assert(orig.subrange(0, orig.len() as int) =~= orig);
        proof { lemma_cache_filter_distinct(orig, keep); }
    }

    /// Drops every cache entry past `ttl_ms` now.
    pub fn cleanup_cache(&mut self, ttl_ms: u64)
        requires
            old(self).wf(),
        ensures
            final(self).wf(),
            final(self).locks_view() == old(self).locks_view(),
            exists|t: u64| final(self).cache_view() == #[trigger] cache_swept(old(self).cache_view(), ttl_ms, t),
    {
        let t = now_ns();
        self.cleanup_cache_at(ttl_ms, t);
        assert(self.cache_view() == cache_swept(old(self).cache_view(), ttl_ms, t));
    }
}

/// A response filed at `t` is handed back unchanged while no more than the
/// cache lifetime has passed since `t`, and is treated as absent afterwards.
pub proof fn lemma_cache_lifetime(table: Seq<(String, VersionCheckCache)>, key: Seq<char>,
    response: CheckImageVersionResponse, t: u64, now: u64)
    requires
        cache_lookup(table, key) == Some(VersionCheckCache { response, cached_at_ns: t }),
        t <= now,
    ensures
        cache_lookup(table, key)->0.response == response,
        (now - t) as int <= CHECK_CACHE_TTL_MS as int * 1_000_000
            <==> !cache_lookup(table, key)->0.expired_at(CHECK_CACHE_TTL_MS, now),
{
}

/// Locking is exclusive until released: once `op1` has locked `key`, an
/// attempt by any operation within the lock timeout fails; once `key` is
/// released, an attempt by any operation at any time succeeds.
pub proof fn lemma_lock_exclusive(table: Seq<UpdateLock>, key: String, op1: String, op2: String,
    op3: String, t1: u64, t2: u64, t3: u64)
    requires
        lock_attempt(table, key, op1, t1) is Some,
        t1 <= t2,
        (t2 - t1) as int <= LOCK_TIMEOUT_MS as int * 1_000_000,
    ensures
        lock_attempt(lock_attempt(table, key, op1, t1)->0, key, op2, t2) is None,
        lock_attempt(lock_release(lock_attempt(table, key, op1, t1)->0, key@), key, op3, t3) is Some,
{
    reveal(Seq::filter);
    let held = lock_attempt(table, key, op1, t1)->0;
    let lock = UpdateLock { operation_id: op1, image_key: key, locked_at_ns: t1 };
    let live_then = |l: UpdateLock| !l.expired_at(LOCK_TIMEOUT_MS, t2);
    assert(held.drop_last() =~= live_locks(table, t1));
    assert(held.last() == lock);
    assert(live_then(lock));
    let held_live = held.filter(live_then);
    assert(held_live == held.drop_last().filter(live_then).push(lock));
    assert(live_locks(held, t2) == held_live);
    assert(held_live.last() == lock);
    assert(lock_lookup(held_live, key@) == Some(lock));

    let released = lock_release(held, key@);
    let p_rel = |l: UpdateLock| l.image_key@ != key@;
    let live_later = |l: UpdateLock| !l.expired_at(LOCK_TIMEOUT_MS, t3);
    held.filter_lemma(p_rel);
    released.filter_lemma(live_later);
    let later_live = released.filter(live_later);
    assert(live_locks(released, t3) == later_live);
    assert forall|i: int| 0 <= i < later_live.len() implies later_live[i].image_key@ != key@ by {
        released.lemma_filter_contains_rev(live_later, later_live[i]);
        assert(later_live.contains(later_live[i]));
        assert(released.contains(later_live[i]));
        let j = choose|j: int| 0 <= j < released.len() && released[j] == later_live[i];
        assert(p_rel(released[j]));
    }
    lemma_lock_lookup_none(later_live, key@);
}

} // verus!
