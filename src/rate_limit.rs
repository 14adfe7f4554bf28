//! Sliding-window admission control keyed by source address.
use vstd::prelude::*;

verus! {

/// Width of the sliding window, in milliseconds.
pub const WINDOW_MS: u64 = 60_000;

/// The earliest timestamp that still counts as recent at `now`.
pub open spec fn cutoff_of(now: u64) -> u64 {
    if now >= WINDOW_MS {
        (now - WINDOW_MS) as u64
    } else {
        0
    }
}

/// The timestamps of `s` that are at or after `cutoff`, in their original order.
pub open spec fn prune(s: Seq<u64>, cutoff: u64) -> Seq<u64>
    decreases s.len(),
{
    if s.len() == 0 {
        s
    } else {
        let p = prune(s.drop_last(), cutoff);
        if s.last() >= cutoff {
            p.push(s.last())
        } else {
            p
        }
    }
}

/// How many timestamps of `s` are at or after `t`.
pub open spec fn count_since(s: Seq<u64>, t: u64) -> nat
    decreases s.len(),
{
    if s.len() == 0 {
        0
    } else {
        count_since(s.drop_last(), t) + if s.last() >= t {
            1nat
        } else {
            0nat
        }
    }
}

/// One admission decision on an address's history: the recent part of the
/// history is kept, and `now` is recorded only when fewer than `threshold`
/// recent attempts remain.
pub open spec fn decide(history: Seq<u64>, threshold: nat, now: u64) -> (bool, Seq<u64>) {
    let kept = prune(history, cutoff_of(now));
    if kept.len() < threshold {
        (true, kept.push(now))
    } else {
        (false, kept)
    }
}

/// A series of attempts at the given times: the final history and how many
/// of the attempts were admitted.
pub open spec fn decide_all(history: Seq<u64>, threshold: nat, times: Seq<u64>) -> (Seq<u64>, nat)
    decreases times.len(),
{
    if times.len() == 0 {
        (history, 0)
    } else {
        let (h, n) = decide_all(history, threshold, times.drop_last());
        let (ok, h2) = decide(h, threshold, times.last());
        (h2, n + if ok {
            1nat
        } else {
            0nat
        })
    }
}

proof fn lemma_prune_keeps_count(s: Seq<u64>, cutoff: u64, t: u64)
    requires
        cutoff <= t,
    ensures
        count_since(prune(s, cutoff), t) == count_since(s, t),
    decreases s.len(),
{
    if s.len() > 0 {
        lemma_prune_keeps_count(s.drop_last(), cutoff, t);
        let p = prune(s.drop_last(), cutoff);
        if s.last() >= cutoff {
            assert(p.push(s.last()).drop_last() == p);
        }
    }
}

proof fn lemma_count_at_most_len(s: Seq<u64>, t: u64)
    ensures
        count_since(s, t) <= s.len(),
    decreases s.len(),
{
    if s.len() > 0 {
        lemma_count_at_most_len(s.drop_last(), t);
    }
}

proof fn lemma_prune_all_old(s: Seq<u64>, cutoff: u64)
    requires
        forall|i: int| 0 <= i < s.len() ==> s[i] < cutoff,
    ensures
        prune(s, cutoff).len() == 0,
    decreases s.len(),
{
    if s.len() > 0 {
        lemma_prune_all_old(s.drop_last(), cutoff);
    }
}

proof fn lemma_window_count(history: Seq<u64>, threshold: nat, times: Seq<u64>, start: u64)
    requires
        forall|i: int| 0 <= i < times.len() ==> start <= times[i] && times[i] <= start + WINDOW_MS,
    ensures
        decide_all(history, threshold, times).1 <= count_since(decide_all(history, threshold, times).0, start),
        decide_all(history, threshold, times).1 <= threshold,
    decreases times.len(),
{
    if times.len() > 0 {
        let prefix = times.drop_last();
        lemma_window_count(history, threshold, prefix, start);
        let (h, n) = decide_all(history, threshold, prefix);
        let now = times.last();
        let kept = prune(h, cutoff_of(now));
        lemma_prune_keeps_count(h, cutoff_of(now), start);
        lemma_count_at_most_len(kept, start);
        if kept.len() < threshold {
            assert(kept.push(now).drop_last() == kept);
        }
    }
}

/// Within any one window, at most `threshold` of a series of attempts from
/// one address are admitted, whatever its history was before; and once
/// `threshold` of them were admitted, every further attempt inside that
/// window is rejected.
pub proof fn lemma_window_admits_at_most_threshold(
    history: Seq<u64>,
    threshold: nat,
    times: Seq<u64>,
    start: u64,
)
    requires
        forall|i: int| 0 <= i < times.len() ==> start <= times[i] && times[i] <= start + WINDOW_MS,
    ensures
        decide_all(history, threshold, times).1 <= threshold,
        forall|t: u64|
            start <= t <= start + WINDOW_MS && decide_all(history, threshold, times).1 == threshold
                ==> !(#[trigger] decide(decide_all(history, threshold, times).0, threshold, t)).0,
{
    lemma_window_count(history, threshold, times, start);
    let h = decide_all(history, threshold, times).0;
    assert forall|t: u64|
        start <= t <= start + WINDOW_MS && decide_all(history, threshold, times).1 == threshold
            implies !(#[trigger] decide(h, threshold, t)).0 by {
        lemma_prune_keeps_count(h, cutoff_of(t), start);
        lemma_count_at_most_len(prune(h, cutoff_of(t)), start);
    }
}

/// Once every recorded attempt of an address has left the window, its next
/// attempt is admitted again (for any positive threshold).
pub proof fn lemma_admitted_after_window(history: Seq<u64>, threshold: nat, now: u64)
    requires
        threshold > 0,
        forall|i: int| 0 <= i < history.len() ==> history[i] < cutoff_of(now),
    ensures
        decide(history, threshold, now).0,
{
    lemma_prune_all_old(history, cutoff_of(now));
}

/// The recent attempts of one source address, oldest first.
pub struct Bucket {
    pub addr: u128,
    pub times: Vec<u64>,
}

/// Per-address sliding-window rate limiter.
pub struct RateLimiter {
    buckets: Vec<Bucket>,
    threshold: usize,
}

impl RateLimiter {
    /// Addresses are distinct across buckets.
    pub closed spec fn wf(&self) -> bool {
        forall|i: int, j: int|
            0 <= i < j < self.buckets@.len() ==> self.buckets@[i].addr != self.buckets@[j].addr
    }

    pub closed spec fn spec_threshold(&self) -> nat {
        self.threshold as nat
    }

    pub closed spec fn has_bucket(&self, addr: u128) -> bool {
        exists|i: int| 0 <= i < self.buckets@.len() && self.buckets@[i].addr == addr
    }

    /// The recorded attempts of `addr`, oldest first (empty when none are recorded).
    pub closed spec fn history(&self, addr: u128) -> Seq<u64> {
        if self.has_bucket(addr) {
            let i = choose|i: int| 0 <= i < self.buckets@.len() && self.buckets@[i].addr == addr;
            self.buckets@[i].times@
        } else {
            Seq::empty()
        }
    }

    /// A limiter that admits at most `threshold` attempts per address per window.
    pub fn new(threshold: usize) -> (r: RateLimiter)
        ensures
            r.wf(),
            r.spec_threshold() == threshold,
            forall|a: u128| #[trigger] r.history(a) == Seq::<u64>::empty(),
    {
        RateLimiter { buckets: Vec::new(), threshold }
    }

    pub fn threshold(&self) -> (r: usize)
        ensures
            r == self.spec_threshold(),
    {
        self.threshold
    }

    /// The number of attempts recorded for `addr`.
    pub fn recorded(&self, addr: u128) -> (r: usize)
        requires
            self.wf(),
        ensures
            r == self.history(addr).len(),
    {
        match self.find(addr) {
            Some(i) => self.buckets[i].times.len(),
            None => 0,
        }
    }

    fn find(&self, addr: u128) -> (r: Option<usize>)
        requires
            self.wf(),
        ensures
            match r {
                Some(i) => i < self.buckets@.len() && self.buckets@[i as int].addr == addr
                    && self.has_bucket(addr) && self.history(addr) == self.buckets@[i as int].times@,
                None => !self.has_bucket(addr),
            },
    {
        let mut i: usize = 0;
        while i < self.buckets.len()
            invariant
                self.wf(),
                i <= self.buckets@.len(),
                forall|j: int| 0 <= j < i ==> self.buckets@[j].addr != addr,
            decreases self.buckets@.len() - i,
        {
            if self.buckets[i].addr == addr {
                assert(self.has_bucket(addr));
                proof {
                    let j = choose|j: int|
                        0 <= j < self.buckets@.len() && self.buckets@[j].addr == addr;
                    assert(self.buckets@[i as int].addr == addr);
                    if j < i {
                        assert(self.buckets@[j].addr != addr);
                    } else if j > i {
                        assert(self.buckets@[i as int].addr != self.buckets@[j].addr);
                    }
                }
                return Some(i);
            }
            i += 1;
        }
        None
    }

    /// Decides whether an attempt from `peer` at time `now` (milliseconds) is
    /// admitted. Attempts without a known source are always admitted and not
    /// recorded. Otherwise the attempts older than the window are discarded,
    /// and the attempt is admitted and recorded exactly when fewer than the
    /// threshold remain.
    pub fn allow(&mut self, peer: Option<u128>, now: u64) -> (r: bool)
        requires
            old(self).wf(),
        ensures
            final(self).wf(),
            final(self).spec_threshold() == old(self).spec_threshold(),
            match peer {
                None => r && forall|b: u128| #[trigger]
                    final(self).history(b) == old(self).history(b),
                Some(a) => {
                    &&& (r, final(self).history(a)) == decide(
                        old(self).history(a),
                        old(self).spec_threshold(),
                        now,
                    )
                    &&& forall|b: u128|
                        b != a ==> #[trigger] final(self).history(b) == old(self).history(b)
                },
            },
    {
        let addr = match peer {
            None => {
                return true;
            },
            Some(a) => a,
        };
        let cutoff = now.saturating_sub(WINDOW_MS);
        let ghost before = self.history(addr);
        let found = self.find(addr);
        let mut kept: Vec<u64> = Vec::new();
        if let Some(i) = found {
            let times = &self.buckets[i].times;
            let mut k: usize = 0;
            while k < times.len()
                invariant
                    k <= times@.len(),
                    times@ == before,
                    cutoff == cutoff_of(now),
                    kept@ == prune(before.take(k as int), cutoff),
                decreases times@.len() - k,
            {
                proof {
                    assert(before.take(k as int + 1).drop_last() == before.take(k as int));
                }
                if times[k] >= cutoff {
                    kept.push(times[k]);
                }
                k += 1;
            }
            assert(before.take(times@.len() as int) == before);
        } else {
            assert(before == Seq::<u64>::empty());
        }
        let admitted = kept.len() < self.threshold;
        if admitted {
            kept.push(now);
        }
        let ghost old_self = *self;
        let ghost new_times = kept@;
        match found {
            Some(i) => {
                self.buckets.set(i, Bucket { addr, times: kept });
                proof {
                    self.lemma_after_set(old_self, i as int, addr);
                }
            },
            None => {
                self.buckets.push(Bucket { addr, times: kept });
                proof {
                    self.lemma_after_push(old_self, addr);
                }
            },
        }
        assert(self.history(addr) == new_times);
        admitted
    }

    proof fn lemma_after_set(&self, prev: RateLimiter, i: int, addr: u128)
        requires
            prev.wf(),
            0 <= i < prev.buckets@.len(),
            prev.buckets@[i].addr == addr,
            self.threshold == prev.threshold,
            self.buckets@.len() == prev.buckets@.len(),
            self.buckets@[i].addr == addr,
            forall|j: int| 0 <= j < prev.buckets@.len() && j != i ==> self.buckets@[j] == prev.buckets@[j],
        ensures
            self.wf(),
            self.has_bucket(addr),
            self.history(addr) == self.buckets@[i].times@,
            forall|b: u128| b != addr ==> #[trigger] self.history(b) == prev.history(b),
    {
        assert(self.has_bucket(addr));
        assert forall|b: u128| b != addr implies #[trigger] self.history(b) == prev.history(b) by {
            if prev.has_bucket(b) {
                let j = choose|j: int| 0 <= j < prev.buckets@.len() && prev.buckets@[j].addr == b;
                assert(self.buckets@[j].addr == b);
                assert(self.has_bucket(b));
            }
            if self.has_bucket(b) {
                let j = choose|j: int| 0 <= j < self.buckets@.len() && self.buckets@[j].addr == b;
                assert(prev.buckets@[j].addr == b);
            }
        }
    }

    proof fn lemma_after_push(&self, prev: RateLimiter, addr: u128)
        requires
            prev.wf(),
            !prev.has_bucket(addr),
            self.threshold == prev.threshold,
            self.buckets@ == prev.buckets@.push(self.buckets@.last()),
            self.buckets@.last().addr == addr,
        ensures
            self.wf(),
            self.has_bucket(addr),
            self.history(addr) == self.buckets@.last().times@,
            forall|b: u128| b != addr ==> #[trigger] self.history(b) == prev.history(b),
    {
        let n = prev.buckets@.len() as int;
        assert(self.buckets@[n].addr == addr);
        assert(self.has_bucket(addr));
        assert forall|b: u128| b != addr implies #[trigger] self.history(b) == prev.history(b) by {
            if prev.has_bucket(b) {
                let j = choose|j: int| 0 <= j < prev.buckets@.len() && prev.buckets@[j].addr == b;
                assert(self.buckets@[j].addr == b);
            }
            if self.has_bucket(b) {
                let j = choose|j: int| 0 <= j < self.buckets@.len() && self.buckets@[j].addr == b;
                assert(j != n);
                assert(prev.buckets@[j].addr == b);
            }
        }
    }
}

} // verus!
