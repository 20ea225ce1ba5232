use vstd::prelude::*;

use vstd::hash_map::StringHashMap;

verus! {

/// Whether a request stamped `t` still falls inside the sliding window that
/// ends at `now`: its age is strictly below the window's length.
pub open spec fn in_window(now: int, window: int, t: int) -> bool {
    now - t < window
}

/// The window after pruning: the stamps still inside the window, in their
/// stored order.
pub open spec fn pruned(s: Seq<i64>, now: int, window: int) -> Seq<i64>
    decreases s.len(),
{
    if s.len() == 0 {
        Seq::empty()
    } else {
        let rest = pruned(s.drop_last(), now, window);
        if in_window(now, window, s.last() as int) {
            rest.push(s.last())
        } else {
            rest
        }
    }
}

/// Whether a request is admitted: after pruning, the window still has room.
pub open spec fn window_allows(s: Seq<i64>, now: int, window: int, max: int) -> bool {
    pruned(s, now, window).len() < max
}

/// The window after one admission check: pruned, and with the current stamp
/// recorded exactly when the request was admitted.
pub open spec fn next_window(s: Seq<i64>, now: int, window: int, max: int) -> Seq<i64> {
    if window_allows(s, now, window, max) {
        pruned(s, now, window).push(now as i64)
    } else {
        pruned(s, now, window)
    }
}

/// The stamps recorded for one client, the empty sequence for a client
/// never seen.
pub open spec fn window_of(m: Map<Seq<char>, Vec<i64>>, key: Seq<char>) -> Seq<i64> {
    if m.contains_key(key) {
        m[key]@
    } else {
        Seq::empty()
    }
}

/// One admission check, as a relation between the guard's state before and
/// after: the caller's window is pruned and then, if it had room, extended
/// by the current stamp; the answer reports the opposite case; every other
/// client's window and the policy itself are untouched.
pub open spec fn admit_transition(
    pre: RateLimiter,
    post: RateLimiter,
    key: Seq<char>,
    now: i64,
    limited: bool,
) -> bool {
    &&& now >= 0
    &&& limited == !window_allows(
        window_of(pre@, key),
        now as int,
        pre.window() as int,
        pre.limit() as int,
    )
    &&& post@.contains_key(key)
    &&& post@[key]@ == next_window(
        window_of(pre@, key),
        now as int,
        pre.window() as int,
        pre.limit() as int,
    )
    &&& forall|k: Seq<char>|
        k != key ==> #[trigger] post@.contains_key(k) == pre@.contains_key(k)
    &&& forall|k: Seq<char>|
        k != key && #[trigger] pre@.contains_key(k) ==> post@[k] == pre@[k]
    &&& post.limit() == pre.limit()
    &&& post.window() == pre.window()
}

pub open spec fn all_nonneg(s: Seq<i64>) -> bool {
    forall|i: int| 0 <= i < s.len() ==> #[trigger] s[i] >= 0
}

/// The shared admission filter in front of upload and retrieval: per client
/// key, the stamps of its recent requests; a request is admitted only while
/// the pruned window holds fewer than `max_requests` stamps.
pub struct RateLimiter {
    requests: StringHashMap<Vec<i64>>,
    max_requests: usize,
    window_millis: i64,
}

impl View for RateLimiter {
    type V = Map<Seq<char>, Vec<i64>>;

    closed spec fn view(&self) -> Map<Seq<char>, Vec<i64>> {
        self.requests@
    }
}

impl RateLimiter {
    /// How many requests one client may have inside the window.
    pub closed spec fn limit(&self) -> usize {
        self.max_requests
    }

    /// The window's length, in milliseconds.
    pub closed spec fn window(&self) -> i64 {
        self.window_millis
    }

    /// Every stored stamp is a valid time: the window's length is
    /// non-negative and no stamp lies before the epoch.
    pub closed spec fn wf(&self) -> bool {
        &&& self.window_millis >= 0
        &&& forall|k: Seq<char>|
            #[trigger] self.requests@.contains_key(k) ==> all_nonneg(self.requests@[k]@)
    }

    pub fn new(max_requests: usize, window_millis: i64) -> (r: Self)
        requires
            window_millis >= 0,
        ensures
            r@ == Map::<Seq<char>, Vec<i64>>::empty(),
            r.limit() == max_requests,
            r.window() == window_millis,
            r.wf(),
    {
        RateLimiter { requests: StringHashMap::new(), max_requests, window_millis }
    }

    /// One admission check at an explicit time: prune the client's window,
    /// answer whether it was already full, and record the stamp when it was
    /// not. Pruning is kept even when the request is rejected.
    pub fn is_rate_limited_at(&mut self, client_ip: &str, now: i64) -> (r: bool)
        requires
            old(self).wf(),
            now >= 0,
        ensures
            final(self).wf(),
            admit_transition(*old(self), *final(self), client_ip@, now, r),
    {
        let ghost pre_window = window_of(self@, client_ip@);
        let mut kept: Vec<i64> = Vec::new();
        match self.requests.get(client_ip) {
            Some(stamps) => {
                let n = stamps.len();
                let mut i: usize = 0;
                while i < n
                    invariant
                        i <= n,
                        n == stamps@.len(),
                        stamps@ == pre_window,
                        all_nonneg(stamps@),
                        now >= 0,
                        kept@ == pruned(
                            stamps@.subrange(0, i as int),
                            now as int,
                            self.window_millis as int,
                        ),
                        all_nonneg(kept@),
                    decreases n - i,
                {
                    let t = stamps[i];
                    if now - t < self.window_millis {
                        kept.push(t);
                    }
                    proof {
                        assert(stamps@.subrange(0, i + 1 as int).drop_last() =~= stamps@.subrange(
                            0,
                            i as int,
                        ));
                        assert(stamps@.subrange(0, i + 1 as int).last() == stamps@[i as int]);
                    }
                    i = i + 1;
                }
                proof {
                    assert(stamps@.subrange(0, n as int) =~= stamps@);
                }
            },
            None => {
                proof {
                    assert(pre_window =~= Seq::<i64>::empty());
                }
            },
        }
        let limited = kept.len() >= self.max_requests;
        if !limited {
            kept.push(now);
        }
        self.requests.insert(client_ip.to_owned(), kept);
        limited
    }

    /// The admission check as the middleware calls it, stamped with the
    /// wall clock. The clock's value is outside anyone's control, so the
    /// contract holds for some valid stamp rather than a named one.
    pub fn is_rate_limited(&mut self, client_ip: &str) -> (r: bool)
        requires
            old(self).wf(),
        ensures
            final(self).wf(),
            exists|t: i64| admit_transition(*old(self), *final(self), client_ip@, t, r),
    {
        let raw = crate::clock::now_millis();
        let now: i64 = if raw < 0 {
            0
        } else {
            raw
        };
        let ghost pre = *self;
        let r = self.is_rate_limited_at(client_ip, now);
        proof {
            assert(admit_transition(pre, *self, client_ip@, now, r));
        }
        r
    }
}

/// Pruning never grows a window.
pub proof fn lemma_pruned_len(s: Seq<i64>, now: int, window: int)
    ensures
        pruned(s, now, window).len() <= s.len(),
    decreases s.len(),
{
    if s.len() > 0 {
        lemma_pruned_len(s.drop_last(), now, window);
    }
}

/// The stored-window invariant: a window that respects the limit still
/// respects it after one admission check, whichever way the check went.
pub proof fn lemma_window_bounded(s: Seq<i64>, now: int, window: int, max: int)
    requires
        s.len() <= max,
    ensures
        next_window(s, now, window, max).len() <= max,
{
    lemma_pruned_len(s, now, window);
}

/// The scenario law of the sliding window: with room for two requests in a
/// one-second window, three requests inside one second are answered allow,
/// allow, reject; and once the window has elapsed since the two admitted
/// stamps, a later request is admitted again.
pub proof fn lemma_rate_limit_window(t0: i64, t1: i64, t2: i64, t3: i64)
    requires
        0 <= t0 <= t1 <= t2 <= t3,
        t2 - t0 < 1000,
        t3 - t1 >= 1000,
    ensures
        ({
            let w0 = Seq::<i64>::empty();
            let w1 = next_window(w0, t0 as int, 1000, 2);
            let w2 = next_window(w1, t1 as int, 1000, 2);
            let w3 = next_window(w2, t2 as int, 1000, 2);
            &&& window_allows(w0, t0 as int, 1000, 2)
            &&& window_allows(w1, t1 as int, 1000, 2)
            &&& !window_allows(w2, t2 as int, 1000, 2)
            &&& window_allows(w3, t3 as int, 1000, 2)
        }),
{
    reveal_with_fuel(pruned, 4);
    let w0 = Seq::<i64>::empty();
    assert(pruned(w0, t0 as int, 1000) =~= w0);
    let w1 = next_window(w0, t0 as int, 1000, 2);
    assert(w1 =~= w0.push(t0));
    assert(w1.drop_last() =~= w0);
    assert(w1.last() == t0);
    assert(pruned(w1, t1 as int, 1000) =~= w0.push(t0));
    let w2 = next_window(w1, t1 as int, 1000, 2);
    assert(w2 =~= w0.push(t0).push(t1));
    assert(w2.drop_last() =~= w0.push(t0));
    assert(w2.last() == t1);
    assert(pruned(w2, t2 as int, 1000) =~= w0.push(t0).push(t1));
    assert(!window_allows(w2, t2 as int, 1000, 2));
    let w3 = next_window(w2, t2 as int, 1000, 2);
    assert(w3 =~= w0.push(t0).push(t1));
    assert forall|i: int| 0 <= i < w3.len() implies t3 as int - #[trigger] w3[i] >= 1000 by {
        assert(w3[0] == t0 && w3[1] == t1);
    }
    lemma_window_clears(w3, t3 as int, 1000, 2);
}

/// Once every stamp of a window has aged past the window's length, the next
/// request is admitted again, whatever came before.
pub proof fn lemma_window_clears(s: Seq<i64>, now: int, window: int, max: int)
    requires
        forall|i: int| 0 <= i < s.len() ==> now - #[trigger] s[i] >= window,
        max > 0,
    ensures
        window_allows(s, now, window, max),
    decreases s.len(),
{
    if s.len() > 0 {
        assert(forall|i: int|
            0 <= i < s.drop_last().len() ==> now - #[trigger] s.drop_last()[i] >= window);
        lemma_window_clears(s.drop_last(), now, window, max);
    }
}

} // verus!
