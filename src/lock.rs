use vstd::prelude::*;
use crate::text::str_eq;

verus! {

/// Seconds after which a held summary lock is stale.
pub const SUMMARY_LOCK_TTL_SECS: i64 = 300;

/// Context size above which a summary is due, in bytes.
pub const CONTEXT_CHAR_THRESHOLD: i64 = 8000;

/// Number of recent exchanges at which a summary is due.
pub const CONTEXT_COUNT_THRESHOLD: usize = 5;

/// Seconds that must pass between two summaries.
pub const MIN_SUMMARY_INTERVAL_SECS: i64 = 300;

/// Fewest recent exchanges worth a summary.
pub const MIN_CONVERSATIONS_FOR_SUMMARY: usize = 3;

/// A lock taken at `locked_at` still blocks a new summary at `now`.
pub open spec fn blocks_summary(locked_at: Option<i64>, now: i64) -> bool {
    locked_at matches Some(t) && (now as int - t as int) < SUMMARY_LOCK_TTL_SECS as int
}

/// A summary is due: the context is large or long, the last summary is old
/// enough (or there is none), there are enough exchanges, and no lock blocks it.
pub open spec fn summary_due(context_bytes: i64, count: usize, last_summarized_at: Option<i64>, locked_at: Option<i64>, now: i64) -> bool {
    &&& (context_bytes > CONTEXT_CHAR_THRESHOLD || count >= CONTEXT_COUNT_THRESHOLD)
    &&& match last_summarized_at {
        Some(t) => now as int - t as int > MIN_SUMMARY_INTERVAL_SECS as int,
        None => true,
    }
    &&& count >= MIN_CONVERSATIONS_FOR_SUMMARY
    &&& !blocks_summary(locked_at, now)
}

/// Whether a summary lock taken at `locked_at` still blocks at `now`.
pub fn summary_locked(locked_at: Option<i64>, now: i64) -> (r: bool)
    ensures
        r == blocks_summary(locked_at, now),
{
    match locked_at {
        Some(t) => (now as i128) - (t as i128) < (SUMMARY_LOCK_TTL_SECS as i128),
        None => false,
    }
}

/// Whether a user's context is due for a new summary; see `summary_due`.
pub fn needs_summary(context_bytes: i64, count: usize, last_summarized_at: Option<i64>, locked_at: Option<i64>, now: i64) -> (r: bool)
    ensures
        r == summary_due(context_bytes, count, last_summarized_at, locked_at, now),
{
    let large = context_bytes > CONTEXT_CHAR_THRESHOLD || count >= CONTEXT_COUNT_THRESHOLD;
    let old_enough = match last_summarized_at {
        Some(t) => (now as i128) - (t as i128) > (MIN_SUMMARY_INTERVAL_SECS as i128),
        None => true,
    };
    large && old_enough && count >= MIN_CONVERSATIONS_FOR_SUMMARY && !summary_locked(locked_at, now)
}

/// One held lock: end-user id, holder id, acquisition time in seconds.
pub type LockView = (Seq<char>, Seq<char>, i64);

/// Entry `i` is the lock of user `u`.
pub open spec fn lock_index(s: Seq<LockView>, u: Seq<char>, i: int) -> bool {
    0 <= i < s.len() && s[i].0 == u
}

/// A lock of user `u` is held.
pub open spec fn locked(s: Seq<LockView>, u: Seq<char>) -> bool {
    exists|i: int| lock_index(s, u, i)
}

/// A lock taken at `at` is still live at `now`: its age does not exceed the TTL.
pub open spec fn live(at: i64, now: i64, ttl: i64) -> bool {
    now as int - at as int <= ttl as int
}

/// An acquire by `holder` for user `u` at `now`: it succeeds, and stores
/// `(now, holder)`, where no lock is held or the held one is stale; it fails,
/// changing nothing, where a live lock is held.
pub open spec fn acquired(s: Seq<LockView>, u: Seq<char>, holder: Seq<char>, now: i64, ttl: i64) -> (bool, Seq<LockView>) {
    if locked(s, u) {
        let i = choose|i: int| lock_index(s, u, i);
        if live(s[i].2, now, ttl) {
            (false, s)
        } else {
            (true, s.update(i, (u, holder, now)))
        }
    } else {
        (true, s.push((u, holder, now)))
    }
}

/// A release by `holder` for user `u`: it clears the lock only where `holder`
/// is the stored holder.
pub open spec fn released(s: Seq<LockView>, u: Seq<char>, holder: Seq<char>) -> (bool, Seq<LockView>) {
    if locked(s, u) && s[choose|i: int| lock_index(s, u, i)].1 == holder {
        (true, s.remove(choose|i: int| lock_index(s, u, i)))
    } else {
        (false, s)
    }
}

/// Users are held once each.
pub open spec fn lock_wf(s: Seq<LockView>) -> bool {
    forall|i: int, j: int| 0 <= i < j < s.len() ==> s[i].0 != s[j].0
}

struct HeldLock {
    user_id: String,
    holder_id: String,
    locked_at: i64,
}

/// Advisory per-user locks of the background summarisation job, with a TTL
/// after which a lock may be taken over.
pub struct SummaryLockStore {
    locks: Vec<HeldLock>,
    ttl: i64,
}

impl SummaryLockStore {
    pub closed spec fn view(&self) -> Seq<LockView> {
        self.locks@.map_values(|l: HeldLock| (l.user_id@, l.holder_id@, l.locked_at))
    }

    pub closed spec fn ttl(&self) -> i64 {
        self.ttl
    }

    pub open spec fn wf(&self) -> bool {
        lock_wf(self@)
    }

    /// An empty store with the default TTL.
    pub fn new() -> (r: SummaryLockStore)
        ensures
            r.wf(),
            r@.len() == 0,
            r.ttl() == SUMMARY_LOCK_TTL_SECS,
    {
        SummaryLockStore { locks: Vec::new(), ttl: SUMMARY_LOCK_TTL_SECS }
    }

    /// An empty store whose locks go stale after `ttl` seconds.
    pub fn with_ttl(ttl: i64) -> (r: SummaryLockStore)
        ensures
            r.wf(),
            r@.len() == 0,
            r.ttl() == ttl,
    {
        SummaryLockStore { locks: Vec::new(), ttl }
    }

    fn position(&self, user_id: &str) -> (r: Option<usize>)
        ensures
            match r {
                Some(i) => lock_index(self@, user_id@, i as int),
                None => !locked(self@, user_id@),
            },
    {
        let mut i: usize = 0;
        while i < self.locks.len()
            invariant
                i <= self@.len(),
                forall|j: int| 0 <= j < i ==> self@[j].0 != user_id@,
            decreases self@.len() - i,
        {
            if str_eq(self.locks[i].user_id.as_str(), user_id) {
                return Some(i);
            }
            i = i + 1;
        }
        None
    }

    /// The holder of a user's lock and when it was taken, where one is held.
    pub fn holder(&self, user_id: &str) -> (r: Option<(String, i64)>)
        requires
            self.wf(),
        ensures
            match r {
                Some((h, at)) => exists|i: int| #[trigger] lock_index(self@, user_id@, i) && self@[i].1 == h@ && self@[i].2 == at,
                None => !locked(self@, user_id@),
            },
    {
        match self.position(user_id) {
            Some(i) => Some((self.locks[i].holder_id.clone(), self.locks[i].locked_at)),
            None => None,
        }
    }

    /// Takes the lock of `user_id` for `holder_id` at time `now` (seconds),
    /// where no live lock is held; see `acquired`.
    pub fn acquire(&mut self, user_id: &str, holder_id: &str, now: i64) -> (r: bool)
        requires
            old(self).wf(),
        ensures
            final(self).wf(),
            final(self).ttl() == old(self).ttl(),
            (r, final(self)@) == acquired(old(self)@, user_id@, holder_id@, now, old(self).ttl()),
    {
        let ghost s = self@;
        match self.position(user_id) {
            Some(i) => {
                proof {
                    let i2 = choose|i2: int| lock_index(s, user_id@, i2);
                    assert(i2 == i as int);
                }
                let at = self.locks[i].locked_at;
                if (now as i128) - (at as i128) <= (self.ttl as i128) {
                    false
                } else {
                    self.locks.remove(i);
                    self.locks.insert(
                        i,
                        HeldLock { user_id: user_id.to_string(), holder_id: holder_id.to_string(), locked_at: now },
                    );
                    assert(self@ =~= s.update(i as int, (user_id@, holder_id@, now)));
                    true
                }
            },
            None => {
                self.locks.push(
                    HeldLock { user_id: user_id.to_string(), holder_id: holder_id.to_string(), locked_at: now },
                );
                assert(self@ =~= s.push((user_id@, holder_id@, now)));
                proof {
                    assert forall|i: int, j: int| 0 <= i < j < self@.len() implies self@[i].0 != self@[j].0 by {
                        if j == s.len() && self@[i].0 == user_id@ {
                            assert(lock_index(s, user_id@, i));
                        }
                    }
                }
                true
            },
        }
    }

    /// Clears the lock of `user_id` where `holder_id` holds it; see `released`.
    pub fn release(&mut self, user_id: &str, holder_id: &str) -> (r: bool)
        requires
            old(self).wf(),
        ensures
            final(self).wf(),
            final(self).ttl() == old(self).ttl(),
            (r, final(self)@) == released(old(self)@, user_id@, holder_id@),
    {
        let ghost s = self@;
        match self.position(user_id) {
            Some(i) => {
                proof {
                    let i2 = choose|i2: int| lock_index(s, user_id@, i2);
                    assert(i2 == i as int);
                }
                if str_eq(self.locks[i].holder_id.as_str(), holder_id) {
                    self.locks.remove(i);
                    assert(self@ =~= s.remove(i as int));
                    true
                } else {
                    false
                }
            },
            None => false,
        }
    }
}

/// The lock's lifecycle: holder `a` takes a user's free lock; holder `b`
/// cannot take it while it is live; once the TTL has passed, holder `c` takes
/// it over; `a` can then no longer release it, and `c` can.
pub proof fn lemma_lock_lifecycle(
    s: Seq<LockView>,
    u: Seq<char>,
    a: Seq<char>,
    b: Seq<char>,
    c: Seq<char>,
    t0: i64,
    t1: i64,
    t2: i64,
    ttl: i64,
)
    requires
        lock_wf(s),
        !locked(s, u),
        a != c,
        t1 as int - t0 as int <= ttl as int,
        t2 as int - t0 as int > ttl as int,
    ensures
        acquired(s, u, a, t0, ttl).0,
        !acquired(acquired(s, u, a, t0, ttl).1, u, b, t1, ttl).0,
        acquired(acquired(s, u, a, t0, ttl).1, u, c, t2, ttl).0,
        !released(acquired(acquired(s, u, a, t0, ttl).1, u, c, t2, ttl).1, u, a).0,
        released(acquired(acquired(s, u, a, t0, ttl).1, u, c, t2, ttl).1, u, c).0,
{
    let s1 = acquired(s, u, a, t0, ttl).1;
    assert(s1 == s.push((u, a, t0)));
    let n = s.len() as int;
    assert(lock_index(s1, u, n));
    assert forall|i: int| lock_index(s1, u, i) implies i == n by {
        if i < n {
            assert(lock_index(s, u, i));
        }
    }
    let s2 = acquired(s1, u, c, t2, ttl).1;
    assert(s2 == s1.update(n, (u, c, t2)));
    assert(lock_index(s2, u, n));
    assert forall|i: int| lock_index(s2, u, i) implies i == n by {
        if i < n {
            assert(s2[i] == s1[i]);
            assert(lock_index(s1, u, i));
        }
    }
}

} // verus!
