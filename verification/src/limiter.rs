//! Sliding-window rate limiting. A `RateLimitCache` is a time-bounded counter
//! store keyed by an opaque subject key; every admission check reads the
//! counter and increments it in the same step, so concurrent checks for one
//! subject linearize. An entry older than its window is treated as absent:
//! absence and "zero within the window" are the same observable state.

use vstd::prelude::*;
use crate::crypto::hmac_sha256_hex;
use crate::crypto::sha256_hmac;

verus! {

/// One counter: the subject key, the count within the current window, and the
/// instant at which the window closes. The window is fixed at the first
/// write; increments do not extend it.
pub struct Entry {
    pub key: String,
    pub count: u32,
    pub expires_at: u64,
}

/// Generic time-bounded counter store. The model is a map from subject key to
/// the pair (count, window end).
pub struct RateLimitCache {
    pub ttl_seconds: u64,
    pub entries: Vec<Entry>,
}

/// The map a sequence of entries denotes; later entries win, though a
/// well-formed cache never stores one key twice.
pub open spec fn map_of(s: Seq<Entry>) -> Map<Seq<char>, (u32, u64)>
    decreases s.len(),
{
    if s.len() == 0 {
        Map::empty()
    } else {
        map_of(s.drop_last()).insert(s.last().key@, (s.last().count, s.last().expires_at))
    }
}

pub open spec fn unique_keys(s: Seq<Entry>) -> bool {
    forall|i: int, j: int|
        #![trigger s[i].key, s[j].key]
        0 <= i < j < s.len() ==> s[i].key@ != s[j].key@
}

/// The count an admission check observes: the stored count while the window
/// is open, and zero for an absent or aged-out entry.
pub open spec fn live_count(m: Map<Seq<char>, (u32, u64)>, key: Seq<char>, now: u64) -> u32 {
    if m.contains_key(key) && now < m[key].1 {
        m[key].0
    } else {
        0u32
    }
}

/// Whether an admission check for `key` passes against `quota` at `now`.
pub open spec fn rl_allows(
    m: Map<Seq<char>, (u32, u64)>,
    key: Seq<char>,
    quota: u32,
    now: u64,
) -> bool {
    live_count(m, key, now) < quota
}

/// The store after an allowed check: an open window keeps its end and counts
/// one more; an absent or aged-out entry restarts at one with a fresh window.
pub open spec fn rl_step(
    m: Map<Seq<char>, (u32, u64)>,
    key: Seq<char>,
    now: u64,
    ttl: u64,
) -> Map<Seq<char>, (u32, u64)> {
    if m.contains_key(key) && now < m[key].1 {
        m.insert(key, (((m[key].0 + 1) as u32), m[key].1))
    } else {
        m.insert(key, (1u32, ((now + ttl) as u64)))
    }
}

proof fn lemma_map_of_not_contains(s: Seq<Entry>, key: Seq<char>)
    requires
        forall|i: int| #![trigger s[i].key] 0 <= i < s.len() ==> s[i].key@ != key,
    ensures
        !map_of(s).contains_key(key),
    decreases s.len(),
{
    if s.len() > 0 {
        assert(forall|i: int|
            #![trigger s.drop_last()[i].key]
            0 <= i < s.drop_last().len() ==> s.drop_last()[i].key@ != key);
        lemma_map_of_not_contains(s.drop_last(), key);
    }
}

proof fn lemma_map_of_index(s: Seq<Entry>, j: int)
    requires
        unique_keys(s),
        0 <= j < s.len(),
    ensures
        map_of(s).contains_key(s[j].key@),
        map_of(s)[s[j].key@] == (s[j].count, s[j].expires_at),
    decreases s.len(),
{
    if j < s.len() - 1 {
        assert(unique_keys(s.drop_last())) by {
            assert(forall|a: int, b: int|
                #![trigger s.drop_last()[a].key, s.drop_last()[b].key]
                0 <= a < b < s.drop_last().len() ==> s[a].key@ != s[b].key@);
        }
        lemma_map_of_index(s.drop_last(), j);
        assert(s.last().key@ != s[j].key@);
    }
}

proof fn lemma_map_of_update(s: Seq<Entry>, j: int, e: Entry)
    requires
        unique_keys(s),
        0 <= j < s.len(),
        e.key@ == s[j].key@,
    ensures
        map_of(s.update(j, e)) == map_of(s).insert(e.key@, (e.count, e.expires_at)),
    decreases s.len(),
{
    let u = s.update(j, e);
    if j == s.len() - 1 {
        assert(u.drop_last() =~= s.drop_last());
        assert(map_of(u) =~= map_of(s).insert(e.key@, (e.count, e.expires_at)));
    } else {
        assert(u.drop_last() =~= s.drop_last().update(j, e));
        assert(unique_keys(s.drop_last())) by {
            assert(forall|a: int, b: int|
                #![trigger s.drop_last()[a].key, s.drop_last()[b].key]
                0 <= a < b < s.drop_last().len() ==> s[a].key@ != s[b].key@);
        }
        assert(s.drop_last()[j].key@ == s[j].key@);
        lemma_map_of_update(s.drop_last(), j, e);
        assert(s.last().key@ != e.key@);
        assert(map_of(u) =~= map_of(s).insert(e.key@, (e.count, e.expires_at)));
    }
}

impl View for RateLimitCache {
    type V = Map<Seq<char>, (u32, u64)>;

    open spec fn view(&self) -> Map<Seq<char>, (u32, u64)> {
        map_of(self.entries@)
    }
}

impl RateLimitCache {
    /// No key is stored twice, so each subject has exactly one counter.
    pub open spec fn wf(&self) -> bool {
        unique_keys(self.entries@)
    }

    pub fn new(ttl_seconds: u64) -> (r: Self)
        ensures
            r.wf(),
            r@ == Map::<Seq<char>, (u32, u64)>::empty(),
            r.ttl_seconds == ttl_seconds,
    {
        let r = RateLimitCache { ttl_seconds, entries: Vec::new() };
        proof {
            assert(r@ =~= Map::<Seq<char>, (u32, u64)>::empty());
        }
        r
    }

    fn find_index(entries: &Vec<Entry>, key: &String) -> (r: Option<usize>)
        ensures
            match r {
                Some(j) => j < entries@.len() && entries@[j as int].key@ == key@,
                None => forall|i: int|
                    #![trigger entries@[i].key]
                    0 <= i < entries@.len() ==> entries@[i].key@ != key@,
            },
    {
        let n = entries.len();
        let mut i: usize = 0;
        while i < n
            invariant
                i <= n,
                n == entries@.len(),
                forall|k: int| #![trigger entries@[k].key] 0 <= k < i ==> entries@[k].key@ != key@,
            decreases n - i,
        {
            if entries[i].key == *key {
                return Some(i);
            }
            i = i + 1;
        }
        None
    }

    /// The single logical admission step: read the live count for `key`; at
    /// or over `quota`, reject without writing; under it, count the request
    /// (starting a fresh window if the key was absent or aged out) and allow.
    pub fn check_and_increment(&mut self, key: &String, quota: u32, now: u64) -> (allowed: bool)
        requires
            old(self).wf(),
            now + old(self).ttl_seconds <= u64::MAX,
        ensures
            final(self).wf(),
            final(self).ttl_seconds == old(self).ttl_seconds,
            allowed == rl_allows(old(self)@, key@, quota, now),
            allowed ==> final(self)@ == rl_step(old(self)@, key@, now, old(self).ttl_seconds),
            !allowed ==> *final(self) == *old(self),
    {
        let ghost s0 = self.entries@;
        match Self::find_index(&self.entries, key) {
            None => {
                proof {
                    lemma_map_of_not_contains(s0, key@);
                }
                if quota == 0 {
                    return false;
                }
                let e = Entry { key: key.clone(), count: 1, expires_at: now + self.ttl_seconds };
                self.entries.push(e);
                proof {
                    assert(self.entries@.drop_last() =~= s0);
                    assert(final(self)@ == rl_step(map_of(s0), key@, now, self.ttl_seconds)) by {
                        assert(map_of(self.entries@) =~= map_of(s0).insert(
                            key@,
                            (1u32, (now + self.ttl_seconds) as u64),
                        ));
                    }
                    assert(unique_keys(self.entries@)) by {
                        assert(forall|a: int, b: int|
                            #![trigger self.entries@[a].key, self.entries@[b].key]
                            0 <= a < b < self.entries@.len() ==> self.entries@[a].key@
                                != self.entries@[b].key@);
                    }
                }
                true
            },
            Some(j) => {
                proof {
                    lemma_map_of_index(s0, j as int);
                }
                let live = now < self.entries[j].expires_at;
                if live {
                    let c = self.entries[j].count;
                    if c >= quota {
                        return false;
                    }
                    let e = Entry {
                        key: key.clone(),
                        count: c + 1,
                        expires_at: self.entries[j].expires_at,
                    };
                    self.entries[j] = e;
                    proof {
                        lemma_map_of_update(s0, j as int, e);
                        assert(unique_keys(self.entries@)) by {
                            assert(forall|a: int|
                                #![trigger self.entries@[a].key]
                                0 <= a < self.entries@.len() ==> self.entries@[a].key@
                                    == s0[a].key@);
                        }
                    }
                    true
                } else {
                    if quota == 0 {
                        return false;
                    }
                    let e = Entry {
                        key: key.clone(),
                        count: 1,
                        expires_at: now + self.ttl_seconds,
                    };
                    self.entries[j] = e;
                    proof {
                        lemma_map_of_update(s0, j as int, e);
                        assert(unique_keys(self.entries@)) by {
                            assert(forall|a: int|
                                #![trigger self.entries@[a].key]
                                0 <= a < self.entries@.len() ==> self.entries@[a].key@
                                    == s0[a].key@);
                        }
                    }
                    true
                }
            },
        }
    }
}

pub open spec fn min_nat(a: nat, b: nat) -> nat {
    if a <= b {
        a
    } else {
        b
    }
}

/// How many of `n` consecutive admission checks for `key` pass, starting from
/// store `m`, all within the same instant `now`.
pub open spec fn approvals(
    m: Map<Seq<char>, (u32, u64)>,
    key: Seq<char>,
    quota: u32,
    now: u64,
    ttl: u64,
    n: nat,
) -> nat
    decreases n,
{
    if n == 0 {
        0
    } else if rl_allows(m, key, quota, now) {
        1 + approvals(rl_step(m, key, now, ttl), key, quota, now, ttl, (n - 1) as nat)
    } else {
        approvals(m, key, quota, now, ttl, (n - 1) as nat)
    }
}

proof fn lemma_approvals_bounded(
    m: Map<Seq<char>, (u32, u64)>,
    key: Seq<char>,
    quota: u32,
    now: u64,
    ttl: u64,
    n: nat,
)
    requires
        1 <= ttl,
        now + ttl <= u64::MAX,
    ensures
        live_count(m, key, now) < quota ==> approvals(m, key, quota, now, ttl, n) == min_nat(
            n,
            (quota - live_count(m, key, now)) as nat,
        ),
        live_count(m, key, now) >= quota ==> approvals(m, key, quota, now, ttl, n) == 0,
    decreases n,
{
    if n > 0 {
        if rl_allows(m, key, quota, now) {
            let m1 = rl_step(m, key, now, ttl);
            assert(live_count(m1, key, now) == live_count(m, key, now) + 1);
            lemma_approvals_bounded(m1, key, quota, now, ttl, (n - 1) as nat);
        } else {
            lemma_approvals_bounded(m, key, quota, now, ttl, (n - 1) as nat);
        }
    }
}

/// Rate-limit linearizability: with each check-and-increment an atomic step,
/// n admission checks for one subject key against quota q, all inside the
/// key's window, approve exactly min(n, q) requests, however they interleave
/// with checks for other keys (the store is keyed per subject).
pub proof fn lemma_rate_limit_linearizable(
    m: Map<Seq<char>, (u32, u64)>,
    key: Seq<char>,
    quota: u32,
    now: u64,
    ttl: u64,
    n: nat,
)
    requires
        live_count(m, key, now) == 0,
        1 <= ttl,
        now + ttl <= u64::MAX,
    ensures
        approvals(m, key, quota, now, ttl, n) == min_nat(n, quota as nat),
{
    lemma_approvals_bounded(m, key, quota, now, ttl, n);
}

/// Checks for one subject do not disturb another's: a counted check for a
/// different key leaves this key's live count — and so its remaining quota —
/// unchanged, which is why the approval count of `approvals` holds however
/// checks for other subjects interleave.
pub proof fn lemma_step_frames_other_keys(
    m: Map<Seq<char>, (u32, u64)>,
    key: Seq<char>,
    other: Seq<char>,
    quota: u32,
    now: u64,
    ttl: u64,
)
    requires
        key != other,
    ensures
        live_count(rl_step(m, other, now, ttl), key, now) == live_count(m, key, now),
        rl_allows(rl_step(m, other, now, ttl), key, quota, now) == rl_allows(m, key, quota, now),
{
}

/// Expiry correctness: an admission check for a key whose only prior entry
/// has aged past its window decides and updates exactly as it would for a key
/// never seen before.
pub proof fn lemma_expired_entry_like_absent(
    m: Map<Seq<char>, (u32, u64)>,
    key: Seq<char>,
    quota: u32,
    now: u64,
    ttl: u64,
)
    requires
        m.contains_key(key),
        m[key].1 <= now,
    ensures
        rl_allows(m, key, quota, now) == rl_allows(m.remove(key), key, quota, now),
        rl_step(m, key, now, ttl) == rl_step(m.remove(key), key, now, ttl),
{
    assert(rl_step(m, key, now, ttl) =~= rl_step(m.remove(key), key, now, ttl));
}

/// Admission failures ahead of any handler work.
#[derive(Clone, Copy, Debug, PartialEq, Eq, Structural)]
pub enum AdmissionError {
    MissingToken,
    TooManyRequests,
}

impl AdmissionError {
    /// The HTTP status this error is rendered with: an unauthenticated
    /// caller, or one asked to back off.
    pub fn http_status(&self) -> (r: u16)
        ensures
            r == self.http_status_spec(),
    {
        match self {
            AdmissionError::MissingToken => 401,
            AdmissionError::TooManyRequests => 429,
        }
    }

    pub open spec fn http_status_spec(&self) -> u16 {
        match self {
            AdmissionError::MissingToken => 401u16,
            AdmissionError::TooManyRequests => 429u16,
        }
    }

    /// The human-readable message this error is rendered with.
    pub fn message(&self) -> (r: String)
        ensures
            r@ == self.message_spec(),
    {
        match self {
            AdmissionError::MissingToken => "Missing api token".to_owned(),
            AdmissionError::TooManyRequests => "Too many requests".to_owned(),
        }
    }

    pub open spec fn message_spec(&self) -> Seq<char> {
        match self {
            AdmissionError::MissingToken => "Missing api token"@,
            AdmissionError::TooManyRequests => "Too many requests"@,
        }
    }
}

/// Short-window limiter for authenticated API callers, keyed by the bearer
/// token itself.
pub struct ApiLimiter {
    pub cache: RateLimitCache,
}

impl ApiLimiter {
    pub fn new(ttl_seconds: u64) -> (r: Self)
        ensures
            r.cache.wf(),
            r.cache@ == Map::<Seq<char>, (u32, u64)>::empty(),
            r.cache.ttl_seconds == ttl_seconds,
    {
        ApiLimiter { cache: RateLimitCache::new(ttl_seconds) }
    }

    /// Admission for an authenticated route: a missing credential is refused
    /// outright; otherwise the token's counter decides, and a rejected
    /// request is not counted.
    pub fn check_request(&mut self, auth_header: Option<&String>, quota: u32, now: u64) -> (r: Result<
        (),
        AdmissionError,
    >)
        requires
            old(self).cache.wf(),
            now + old(self).cache.ttl_seconds <= u64::MAX,
        ensures
            final(self).cache.wf(),
            final(self).cache.ttl_seconds == old(self).cache.ttl_seconds,
            match auth_header {
                None => r == Err::<(), AdmissionError>(AdmissionError::MissingToken) && *final(self)
                    == *old(self),
                Some(token) => {
                    &&& (r matches Ok(())) <==> rl_allows(old(self).cache@, token@, quota, now)
                    &&& r matches Ok(()) ==> final(self).cache@ == rl_step(
                        old(self).cache@,
                        token@,
                        now,
                        old(self).cache.ttl_seconds,
                    )
                    &&& r matches Err(e) ==> e == AdmissionError::TooManyRequests && *final(self)
                        == *old(self)
                },
            },
    {
        match auth_header {
            None => Err(AdmissionError::MissingToken),
            Some(token) => {
                if self.cache.check_and_increment(token, quota, now) {
                    Ok(())
                } else {
                    Err(AdmissionError::TooManyRequests)
                }
            },
        }
    }
}

/// Long-window, low-quota limiter for anonymous guest-sensitive operations,
/// keyed by a salted one-way hash of the client network identity so raw
/// addresses never appear in the cache.
pub struct GuestLimiter {
    pub cache: RateLimitCache,
}

impl GuestLimiter {
    pub fn new(ttl_seconds: u64) -> (r: Self)
        ensures
            r.cache.wf(),
            r.cache@ == Map::<Seq<char>, (u32, u64)>::empty(),
            r.cache.ttl_seconds == ttl_seconds,
    {
        GuestLimiter { cache: RateLimitCache::new(ttl_seconds) }
    }
}

/// Guest admission: hash the caller's network identity with the shared secret
/// and run one check-and-increment against that subject key.
pub fn guest_limiter(ip: &str, secret: &str, cache: &mut GuestLimiter, limit: u32, now: u64) -> (allowed:
    bool)
    requires
        old(cache).cache.wf(),
        now + old(cache).cache.ttl_seconds <= u64::MAX,
    ensures
        final(cache).cache.wf(),
        final(cache).cache.ttl_seconds == old(cache).cache.ttl_seconds,
        allowed == rl_allows(old(cache).cache@, hmac_sha256_hex(ip@, secret@), limit, now),
        allowed ==> final(cache).cache@ == rl_step(
            old(cache).cache@,
            hmac_sha256_hex(ip@, secret@),
            now,
            old(cache).cache.ttl_seconds,
        ),
        !allowed ==> *final(cache) == *old(cache),
{
    let hashed_ip = sha256_hmac(ip, secret);
    cache.cache.check_and_increment(&hashed_ip, limit, now)
}

} // verus!
