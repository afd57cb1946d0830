use vstd::prelude::*;
use crate::types::RateLimitError;

verus! {

/// Default number of tenants whose limiters are kept.
pub const MAX_CACHE_SIZE: usize = 1000;

/// governor's limiter: `governor::RateLimiter` cannot be named in verified
/// signatures, since Verus refuses the outside trait bounds of its
/// declaration, so it is held here out of Verus's sight.
#[verifier::external_body]
struct GovernorLimiter {
    limiter: governor::DefaultDirectRateLimiter,
}

impl GovernorLimiter {
    /// Relies on governor::Quota::per_minute and governor::RateLimiter::direct:
    /// a limiter with a burst of `rpm` cells that refills `rpm` cells per minute.
    #[verifier::external_body]
    fn per_minute(rpm: u32) -> (r: GovernorLimiter)
        requires
            rpm > 0,
    {
        let quota = governor::Quota::per_minute(std::num::NonZeroU32::new(rpm).unwrap());
        GovernorLimiter { limiter: governor::RateLimiter::direct(quota) }
    }
}

/// A token bucket, with its quota and the number of tokens taken from it
/// since it was made.
pub struct TokenBucket {
    limiter: GovernorLimiter,
    quota: Ghost<nat>,
    taken: Ghost<nat>,
}

impl TokenBucket {
    /// The burst size and refill per minute.
    pub closed spec fn quota(&self) -> nat {
        self.quota@
    }

    /// Tokens taken since the bucket was made.
    pub closed spec fn taken(&self) -> nat {
        self.taken@
    }

    /// A full bucket of `rpm` tokens that refills `rpm` tokens per minute.
    fn per_minute(rpm: u32) -> (r: TokenBucket)
        requires
            rpm > 0,
        ensures
            r.quota() == rpm as nat,
            r.taken() == 0,
    {
        TokenBucket { limiter: GovernorLimiter::per_minute(rpm), quota: Ghost(rpm as nat), taken: Ghost(0) }
    }

    /// Relies on governor::RateLimiter::check: a cell passes while fewer than
    /// the burst have passed since the limiter was made (refill only adds
    /// room), and a refused check changes nothing. Whether a cell passes
    /// beyond the burst depends on the time of the call.
    #[verifier::external_body]
    fn try_take(&mut self) -> (r: bool)
        ensures
            final(self).quota() == old(self).quota(),
            final(self).taken() == (if r { old(self).taken() + 1 } else { old(self).taken() }),
            old(self).taken() < old(self).quota() ==> r,
    {
        self.limiter.limiter.check().is_ok()
    }
}

#[verifier::external_type_specification]
#[verifier::external_body]
#[verifier::reject_recursive_types(K)]
#[verifier::reject_recursive_types(V)]
#[verifier::reject_recursive_types(S)]
pub struct ExDashMap<K, V, S>(dashmap::DashMap<K, V, S>);

/// The cached bucket of one tenant.
pub struct CachedLimiter {
    bucket: TokenBucket,
    rpm: i32,
    last_used: u64,
    created: u64,
}

/// The tenant-to-bucket map.
pub type LimiterTable = dashmap::DashMap<String, CachedLimiter>;

/// What the cache holds of one tenant: quota, last use and creation of its
/// bucket (stamps of the cache's own clock), the bucket's quota and the
/// tokens taken from it.
pub type LimiterInfo = (i32, u64, u64, nat, nat);

/// The tenants that a table holds, with what it holds of each.
pub uninterp spec fn limiter_table(m: LimiterTable) -> Map<Seq<char>, LimiterInfo>;

/// The empty cache.
pub open spec fn no_limiters() -> Map<Seq<char>, LimiterInfo> {
    Map::empty()
}

/// What an entry says of its tenant.
pub closed spec fn info_of(c: CachedLimiter) -> LimiterInfo {
    (c.rpm, c.last_used, c.created, c.bucket.quota(), c.bucket.taken())
}

/// Relies on dashmap::DashMap::new: an empty map.
#[verifier::external_body]
fn table_new() -> (r: LimiterTable)
    ensures
        limiter_table(r) == no_limiters(),
{
    dashmap::DashMap::new()
}

/// Relies on dashmap::DashMap::get: the quota and stamps of a key's entry,
/// where there is one.
#[verifier::external_body]
fn table_get(m: &LimiterTable, key: &str) -> (r: Option<(i32, u64, u64)>)
    ensures
        r is None <==> !limiter_table(*m).contains_key(key@),
        r matches Some(x) ==> x.0 == limiter_table(*m)[key@].0 && x.1 == limiter_table(*m)[key@].1
            && x.2 == limiter_table(*m)[key@].2,
{
    m.get(key).map(|e| (e.rpm, e.last_used, e.created))
}

/// Relies on dashmap::DashMap::insert: the key now holds the entry, in place
/// of any earlier one.
#[verifier::external_body]
fn table_insert(m: &mut LimiterTable, key: String, value: CachedLimiter)
    ensures
        limiter_table(*final(m)) == limiter_table(*old(m)).insert(key@, info_of(value)),
{
    m.insert(key, value);
}

/// Relies on dashmap::DashMap::remove: the key no longer holds an entry, and
/// the entry it held is handed back.
#[verifier::external_body]
fn table_take_entry(m: &mut LimiterTable, key: &str) -> (r: Option<CachedLimiter>)
    ensures
        limiter_table(*final(m)) == limiter_table(*old(m)).remove(key@),
        r is None <==> !limiter_table(*old(m)).contains_key(key@),
        r matches Some(c) ==> info_of(c) == limiter_table(*old(m))[key@],
{
    m.remove(key).map(|(_, v)| v)
}

/// Relies on dashmap::DashMap::len: the number of entries.
#[verifier::external_body]
fn table_len(m: &LimiterTable) -> (r: usize)
    ensures
        r == limiter_table(*m).len(),
{
    m.len()
}

/// Relies on dashmap::DashMap::iter: each key once, with its last use, in
/// an order that the map's hashing decides.
#[verifier::external_body]
fn table_stamps(m: &LimiterTable) -> (r: Vec<(String, u64)>)
    ensures
        forall|i: int| 0 <= i < r@.len() ==> #[trigger] limiter_table(*m).contains_key(r@[i].0@)
            && limiter_table(*m)[r@[i].0@].1 == r@[i].1,
        forall|k: Seq<char>| #[trigger] limiter_table(*m).contains_key(k) ==> exists|i: int| 0 <= i < r@.len() && r@[i].0@ == k,
{
    m.iter().map(|e| (e.key().clone(), e.value().last_used)).collect()
}

/// Tenant `k` was used least recently.
pub open spec fn oldest_key(m: Map<Seq<char>, LimiterInfo>, k: Seq<char>) -> bool {
    &&& m.contains_key(k)
    &&& forall|k2: Seq<char>| #[trigger] m.contains_key(k2) ==> m[k].1 <= m[k2].1
}

/// A fresh bucket for tenant `k` with quota `rpm`, made and used at `now`.
pub open spec fn fresh_info(rpm: i32, now: u64) -> LimiterInfo {
    (rpm, now, now, rpm as nat, 0)
}

/// The cache after an admission check of tenant `k` with quota `rpm` at
/// stamp `now`, before a token is taken: a held bucket with the same quota
/// is touched; one with another quota is replaced by a fresh bucket; a
/// tenant not held gets a fresh bucket, after the least recently used tenant
/// leaves where the cache is full. An unlimited quota leaves the cache as it is.
pub open spec fn checked(m: Map<Seq<char>, LimiterInfo>, k: Seq<char>, rpm: i32, now: u64, capacity: nat) -> Map<Seq<char>, LimiterInfo> {
    if rpm <= 0 {
        m
    } else if m.contains_key(k) {
        if m[k].0 == rpm {
            m.insert(k, (rpm, now, m[k].2, m[k].3, m[k].4))
        } else {
            m.insert(k, fresh_info(rpm, now))
        }
    } else if m.len() >= capacity {
        m.remove(choose|v: Seq<char>| oldest_key(m, v)).insert(k, fresh_info(rpm, now))
    } else {
        m.insert(k, fresh_info(rpm, now))
    }
}

/// The cache after one token was taken, or not, from tenant `k`'s bucket.
pub open spec fn took(m: Map<Seq<char>, LimiterInfo>, k: Seq<char>, taken: bool) -> Map<Seq<char>, LimiterInfo> {
    if taken && m.contains_key(k) {
        m.insert(k, (m[k].0, m[k].1, m[k].2, m[k].3, m[k].4 + 1))
    } else {
        m
    }
}

/// The cache after an admission check whose outcome was `admitted`.
pub open spec fn check_outcome(m: Map<Seq<char>, LimiterInfo>, k: Seq<char>, rpm: i32, now: u64, capacity: nat, admitted: bool) -> Map<Seq<char>, LimiterInfo> {
    if rpm <= 0 {
        m
    } else {
        took(checked(m, k, rpm, now, capacity), k, admitted)
    }
}

/// The check is admitted whatever the time: the quota is unlimited, or fewer
/// than `rpm` tokens have been taken from the bucket that the check uses.
pub open spec fn surely_admitted(m: Map<Seq<char>, LimiterInfo>, k: Seq<char>, rpm: i32, now: u64, capacity: nat) -> bool {
    rpm <= 0 || checked(m, k, rpm, now, capacity)[k].4 < rpm as nat
}

/// Finitely many tenants, at most `capacity`; last-use stamps are distinct
/// and earlier than `clock`; a bucket is not used before it was made; each
/// bucket's quota is the tenant's positive quota.
pub open spec fn wf_table(m: Map<Seq<char>, LimiterInfo>, clock: int, capacity: nat) -> bool {
    &&& m.dom().finite()
    &&& m.len() <= capacity
    &&& forall|k1: Seq<char>, k2: Seq<char>|
        #[trigger] m.contains_key(k1) && #[trigger] m.contains_key(k2) && k1 != k2 ==> m[k1].1 != m[k2].1
    &&& forall|k: Seq<char>| #[trigger] m.contains_key(k) ==> m[k].1 < clock && m[k].2 <= m[k].1 && m[k].0 > 0
        && m[k].3 == m[k].0 as nat
}

proof fn lemma_oldest_unique(m: Map<Seq<char>, LimiterInfo>, clock: int, capacity: nat, a: Seq<char>, b: Seq<char>)
    requires
        wf_table(m, clock, capacity),
        oldest_key(m, a),
        oldest_key(m, b),
    ensures
        a == b,
{
    assert(m[a].1 <= m[b].1 && m[b].1 <= m[a].1);
}

/// Admission control: a bounded cache of per-tenant token buckets that evicts
/// the least recently used tenant.
pub struct RateLimitState {
    limiters: LimiterTable,
    capacity: usize,
    clock: u64,
}

impl RateLimitState {
    pub closed spec fn view(&self) -> Map<Seq<char>, LimiterInfo> {
        limiter_table(self.limiters)
    }

    /// The stamp that the next use gets.
    pub closed spec fn clock(&self) -> u64 {
        self.clock
    }

    /// The most tenants held at once.
    pub closed spec fn capacity(&self) -> nat {
        self.capacity as nat
    }

    pub open spec fn wf(&self) -> bool {
        &&& self.capacity() >= 1
        &&& wf_table(self@, self.clock() as int, self.capacity())
    }

    /// An empty cache of the default capacity.
    pub fn new() -> (r: RateLimitState)
        ensures
            r.wf(),
            r@.len() == 0,
            r.capacity() == MAX_CACHE_SIZE,
            r.clock() == 0,
    {
        Self::with_capacity(MAX_CACHE_SIZE)
    }

    /// An empty cache that holds at most `capacity` tenants.
    pub fn with_capacity(capacity: usize) -> (r: RateLimitState)
        requires
            capacity >= 1,
        ensures
            r.wf(),
            r@.len() == 0,
            r.capacity() == capacity,
            r.clock() == 0,
    {
        let r = RateLimitState { limiters: table_new(), capacity, clock: 0 };
        assert(r@.dom() =~= Set::<Seq<char>>::empty());
        r
    }

    /// Number of tenants held.
    pub fn len(&self) -> (r: usize)
        ensures
            r == self@.len(),
    {
        table_len(&self.limiters)
    }

    /// Whether another use can still be stamped.
    pub fn can_stamp(&self) -> (r: bool)
        ensures
            r == (self.clock() < u64::MAX),
    {
        self.clock < u64::MAX
    }

    /// The quota, last use and creation stamp held for a tenant.
    pub fn entry(&self, project_id: &str) -> (r: Option<(i32, u64, u64)>)
        ensures
            r is None <==> !self@.contains_key(project_id@),
            r matches Some(x) ==> x.0 == self@[project_id@].0 && x.1 == self@[project_id@].1 && x.2 == self@[project_id@].2,
    {
        table_get(&self.limiters, project_id)
    }

    /// The tenant used least recently (the cache is not empty).
    fn oldest(&self) -> (r: String)
        requires
            self.wf(),
            self@.len() > 0,
        ensures
            oldest_key(self@, r@),
    {
        let stamps = table_stamps(&self.limiters);
        let ghost m = self@;
        proof {
            let k0 = m.dom().choose();
            assert(m.dom().len() > 0);
            assert(m.contains_key(k0));
        }
        let mut best: usize = 0;
        let mut i: usize = 1;
        while i < stamps.len()
            invariant
                m == self@,
                1 <= i <= stamps@.len(),
                best < i,
                forall|j: int| 0 <= j < i ==> stamps@[best as int].1 <= stamps@[j].1,
            decreases stamps@.len() - i,
        {
            if stamps[i].1 < stamps[best].1 {
                best = i;
            }
            i = i + 1;
        }
        let key = stamps[best].0.clone();
        proof {
            assert(m.contains_key(stamps@[best as int].0@));
            assert forall|k2: Seq<char>| #[trigger] m.contains_key(k2) implies m[key@].1 <= m[k2].1 by {
                let j = choose|j: int| 0 <= j < stamps@.len() && stamps@[j].0@ == k2;
                assert(m.contains_key(stamps@[j].0@));
            }
        }
        key
    }

    /// Admission check of one request of a tenant whose quota is
    /// `rate_limit_rpm` requests per minute: admitted at once where the quota
    /// is unlimited; otherwise the tenant's bucket is looked up or made fresh
    /// (see `checked`), and one token is taken from it where one is left.
    /// A bucket admits at least its quota of requests from when it is made.
    pub fn check(&mut self, project_id: &str, rate_limit_rpm: i32) -> (r: Result<(), RateLimitError>)
        requires
            old(self).wf(),
            old(self).clock() < u64::MAX,
        ensures
            final(self).wf(),
            final(self)@ == check_outcome(old(self)@, project_id@, rate_limit_rpm, old(self).clock(), old(self).capacity(), r is Ok),
            surely_admitted(old(self)@, project_id@, rate_limit_rpm, old(self).clock(), old(self).capacity()) ==> r is Ok,
            final(self).capacity() == old(self).capacity(),
            final(self).clock() == (if rate_limit_rpm <= 0 { old(self).clock() } else { (old(self).clock() + 1) as u64 }),
    {
        if rate_limit_rpm <= 0 {
            return Ok(());
        }
        let now = self.clock;
        let ghost m = self@;
        let ghost c = checked(m, project_id@, rate_limit_rpm, now, self.capacity());
        let mut entry = match table_take_entry(&mut self.limiters, project_id) {
            Some(held) => {
                if held.rpm == rate_limit_rpm {
                    CachedLimiter { bucket: held.bucket, rpm: held.rpm, last_used: now, created: held.created }
                } else {
                    CachedLimiter {
                        bucket: TokenBucket::per_minute(rate_limit_rpm as u32),
                        rpm: rate_limit_rpm,
                        last_used: now,
                        created: now,
                    }
                }
            },
            None => {
                assert(self@ =~= m);
                if table_len(&self.limiters) >= self.capacity {
                    let victim = self.oldest();
                    proof {
                        let v2 = choose|v2: Seq<char>| oldest_key(m, v2);
                        lemma_oldest_unique(m, now as int, self.capacity(), victim@, v2);
                    }
                    table_take_entry(&mut self.limiters, victim.as_str());
                }
                CachedLimiter {
                    bucket: TokenBucket::per_minute(rate_limit_rpm as u32),
                    rpm: rate_limit_rpm,
                    last_used: now,
                    created: now,
                }
            },
        };
        assert(info_of(entry) == c[project_id@]);
        assert(self@.insert(project_id@, info_of(entry)) =~= c);
        let admitted = entry.bucket.try_take();
        table_insert(&mut self.limiters, project_id.to_string(), entry);
        assert(self@ =~= took(c, project_id@, admitted));
        self.clock = now + 1;
        proof {
            let t = self@;
            assert forall|k1: Seq<char>, k2: Seq<char>|
                #[trigger] t.contains_key(k1) && #[trigger] t.contains_key(k2) && k1 != k2 implies t[k1].1 != t[k2].1 by {
                if k1 != project_id@ && k2 != project_id@ {
                    assert(m.contains_key(k1) && m.contains_key(k2));
                } else if k1 == project_id@ {
                    assert(m.contains_key(k2));
                } else {
                    assert(m.contains_key(k1));
                }
            }
            assert forall|k: Seq<char>| #[trigger] t.contains_key(k) implies t[k].1 < now + 1 && t[k].2 <= t[k].1
                && t[k].0 > 0 && t[k].3 == t[k].0 as nat by {
                if k != project_id@ {
                    assert(m.contains_key(k));
                }
            }
            if !m.contains_key(project_id@) && m.len() >= self.capacity() {
                let v = choose|v: Seq<char>| oldest_key(m, v);
                assert(m.remove(v).len() == m.len() - 1);
            }
            if m.contains_key(project_id@) {
                assert(m.contains_key(project_id@));
            }
        }
        if admitted {
            Ok(())
        } else {
            Err(RateLimitError::TooManyRequests)
        }
    }

    /// Drops a tenant's bucket; nothing happens where none is held.
    pub fn remove(&mut self, project_id: &str)
        requires
            old(self).wf(),
        ensures
            final(self).wf(),
            final(self)@ == old(self)@.remove(project_id@),
            final(self).capacity() == old(self).capacity(),
            final(self).clock() == old(self).clock(),
    {
        let ghost m = self@;
        table_take_entry(&mut self.limiters, project_id);
        proof {
            let t = self@;
            assert forall|k1: Seq<char>, k2: Seq<char>|
                #[trigger] t.contains_key(k1) && #[trigger] t.contains_key(k2) && k1 != k2 implies t[k1].1 != t[k2].1 by {
                assert(m.contains_key(k1) && m.contains_key(k2));
            }
            assert forall|k: Seq<char>| #[trigger] t.contains_key(k) implies t[k].1 < self.clock() && t[k].2 <= t[k].1
                && t[k].0 > 0 && t[k].3 == t[k].0 as nat by {
                assert(m.contains_key(k));
            }
            if m.contains_key(project_id@) {
                assert(t.len() == m.len() - 1);
            } else {
                assert(t.dom() =~= m.dom());
            }
        }
    }
}

/// On a full cache, checking a tenant that is not held, with a limited quota,
/// evicts exactly the least recently used tenant: every other tenant stays as
/// it was, the new tenant gets a fresh bucket, and the evicted tenant's next
/// check makes a fresh bucket for it.
pub proof fn lemma_full_cache_evicts_oldest(
    m: Map<Seq<char>, LimiterInfo>,
    k: Seq<char>,
    rpm: i32,
    now: u64,
    capacity: nat,
    v: Seq<char>,
    rpm2: i32,
    later: u64,
)
    requires
        wf_table(m, now as int, capacity),
        m.len() == capacity,
        !m.contains_key(k),
        rpm > 0,
        oldest_key(m, v),
        rpm2 > 0,
    ensures
        checked(m, k, rpm, now, capacity).len() == m.len(),
        !checked(m, k, rpm, now, capacity).contains_key(v),
        forall|j: Seq<char>|
            #[trigger] m.contains_key(j) && j != v ==> checked(m, k, rpm, now, capacity).contains_key(j)
                && checked(m, k, rpm, now, capacity)[j] == m[j],
        checked(m, k, rpm, now, capacity)[k] == fresh_info(rpm, now),
        checked(checked(m, k, rpm, now, capacity), v, rpm2, later, capacity)[v] == fresh_info(rpm2, later),
        surely_admitted(checked(m, k, rpm, now, capacity), v, rpm2, later, capacity),
{
    let v2 = choose|v2: Seq<char>| oldest_key(m, v2);
    lemma_oldest_unique(m, now as int, capacity, v, v2);
    let t = checked(m, k, rpm, now, capacity);
    assert(t == m.remove(v).insert(k, fresh_info(rpm, now)));
    assert(m.remove(v).len() == m.len() - 1);
    assert(k != v);
}

/// A tenant with a limited quota that is not held, or is held with another
/// quota, gets a fresh bucket, and its check is admitted whatever the time.
pub proof fn lemma_fresh_bucket_admits(m: Map<Seq<char>, LimiterInfo>, k: Seq<char>, rpm: i32, now: u64, capacity: nat)
    requires
        wf_table(m, now as int, capacity),
        rpm > 0,
        !(m.contains_key(k) && m[k].0 == rpm),
    ensures
        checked(m, k, rpm, now, capacity)[k] == fresh_info(rpm, now),
        surely_admitted(m, k, rpm, now, capacity),
{
}

/// With a quota of two, the first two checks of a tenant that is not held
/// are both admitted, whatever the time.
pub proof fn lemma_quota_two_admits_two(m: Map<Seq<char>, LimiterInfo>, k: Seq<char>, now: u64, capacity: nat)
    requires
        wf_table(m, now as int, capacity),
        !m.contains_key(k),
        now < u64::MAX,
    ensures
        surely_admitted(m, k, 2, now, capacity),
        surely_admitted(check_outcome(m, k, 2, now, capacity, true), k, 2, (now + 1) as u64, capacity),
{
    let c = checked(m, k, 2, now, capacity);
    assert(c.contains_key(k) && c[k] == fresh_info(2, now));
    let m1 = check_outcome(m, k, 2, now, capacity, true);
    assert(m1[k] == (2i32, now, now, 2nat, 1nat));
}

} // verus!
