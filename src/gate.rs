//! A counted pool of permits bounding the number of simultaneous sessions.
use vstd::prelude::*;

verus! {

/// How many slots of `s` are taken.
pub open spec fn taken(s: Seq<bool>) -> nat
    decreases s.len(),
{
    if s.len() == 0 {
        0
    } else {
        taken(s.drop_last()) + if s.last() {
            1nat
        } else {
            0nat
        }
    }
}

proof fn lemma_taken_at_most_len(s: Seq<bool>)
    ensures
        taken(s) <= s.len(),
    decreases s.len(),
{
    if s.len() > 0 {
        lemma_taken_at_most_len(s.drop_last());
    }
}

proof fn lemma_taken_all(s: Seq<bool>)
    requires
        forall|i: int| 0 <= i < s.len() ==> s[i],
    ensures
        taken(s) == s.len(),
    decreases s.len(),
{
    if s.len() > 0 {
        lemma_taken_all(s.drop_last());
    }
}

proof fn lemma_taken_update(s: Seq<bool>, i: int, v: bool)
    requires
        0 <= i < s.len(),
    ensures
        taken(s.update(i, v)) + (if s[i] {
            1int
        } else {
            0int
        }) == taken(s) + (if v {
            1int
        } else {
            0int
        }),
    decreases s.len(),
{
    let u = s.update(i, v);
    if i == s.len() - 1 {
        assert(u.drop_last() == s.drop_last());
    } else {
        lemma_taken_update(s.drop_last(), i, v);
        assert(u.drop_last() == s.drop_last().update(i, v));
    }
}

/// The token for one unit of a gate's capacity. It cannot be copied: the
/// unit becomes free again only when the permit is handed back.
pub struct Permit {
    slot: usize,
}

impl Permit {
    pub closed spec fn id(&self) -> nat {
        self.slot as nat
    }
}

/// A non-blocking admission gate with a fixed number of slots.
pub struct AdmissionGate {
    slots: Vec<bool>,
}

impl AdmissionGate {
    /// Which slots are taken by a live permit.
    pub closed spec fn in_use(&self) -> Seq<bool> {
        self.slots@
    }

    pub open spec fn capacity(&self) -> nat {
        self.in_use().len()
    }

    pub open spec fn active(&self) -> nat {
        taken(self.in_use())
    }

    pub open spec fn holds(&self, p: &Permit) -> bool {
        p.id() < self.capacity() && self.in_use()[p.id() as int]
    }

    /// A gate of `capacity` free slots.
    pub fn new(capacity: usize) -> (r: AdmissionGate)
        ensures
            r.capacity() == capacity,
            r.active() == 0,
            forall|i: int| 0 <= i < capacity ==> !#[trigger] r.in_use()[i],
    {
        let mut slots: Vec<bool> = Vec::new();
        let mut i: usize = 0;
        while i < capacity
            invariant
                i <= capacity,
                slots@.len() == i,
                taken(slots@) == 0,
                forall|j: int| 0 <= j < i ==> !#[trigger] slots@[j],
            decreases capacity - i,
        {
            let ghost prev = slots@;
            slots.push(false);
            assert(slots@.drop_last() == prev);
            i += 1;
        }
        AdmissionGate { slots }
    }

    /// Takes a free slot if there is one. Nothing waits: a full gate answers
    /// `None` at once and is left unchanged.
    pub fn try_acquire(&mut self) -> (r: Option<Permit>)
        ensures
            final(self).capacity() == old(self).capacity(),
            final(self).active() <= final(self).capacity(),
            r is Some <==> old(self).active() < old(self).capacity(),
            match r {
                Some(p) => {
                    &&& p.id() < old(self).capacity()
                    &&& !old(self).in_use()[p.id() as int]
                    &&& final(self).in_use() == old(self).in_use().update(p.id() as int, true)
                    &&& final(self).active() == old(self).active() + 1
                },
                None => *final(self) == *old(self),
            },
    {
        let mut i: usize = 0;
        while i < self.slots.len()
            invariant
                *self == *old(self),
                i <= self.slots@.len(),
                forall|j: int| 0 <= j < i ==> #[trigger] self.slots@[j],
            decreases self.slots@.len() - i,
        {
            if !self.slots[i] {
                let ghost prev = self.slots@;
                self.slots.set(i, true);
                proof {
                    lemma_taken_update(prev, i as int, true);
                    lemma_taken_at_most_len(self.slots@);
                    lemma_taken_at_most_len(prev);
                }
                return Some(Permit { slot: i });
            }
            i += 1;
        }
        proof {
            lemma_taken_all(self.slots@);
        }
        None
    }

    /// Hands a permit back. When this gate holds it, its slot becomes free
    /// and `true` is returned; otherwise nothing changes.
    pub fn release(&mut self, p: Permit) -> (r: bool)
        ensures
            final(self).capacity() == old(self).capacity(),
            final(self).active() <= final(self).capacity(),
            r == old(self).holds(&p),
            r ==> final(self).in_use() == old(self).in_use().update(p.id() as int, false)
                && final(self).active() + 1 == old(self).active(),
            !r ==> *final(self) == *old(self),
    {
        proof {
            lemma_taken_at_most_len(self.slots@);
        }
        if p.slot < self.slots.len() && self.slots[p.slot] {
            let ghost prev = self.slots@;
            self.slots.set(p.slot, false);
            proof {
                lemma_taken_update(prev, p.slot as int, false);
                lemma_taken_at_most_len(self.slots@);
            }
            true
        } else {
            false
        }
    }

    /// The fixed number of slots.
    pub fn max_sessions(&self) -> (r: usize)
        ensures
            r == self.capacity(),
    {
        self.slots.len()
    }

    /// The number of slots taken by live permits.
    pub fn active_sessions(&self) -> (r: usize)
        ensures
            r == self.active(),
    {
        let mut n: usize = 0;
        let mut i: usize = 0;
        while i < self.slots.len()
            invariant
                i <= self.slots@.len(),
                n == taken(self.slots@.take(i as int)),
                n <= i,
            decreases self.slots@.len() - i,
        {
            assert(self.slots@.take(i as int + 1).drop_last() == self.slots@.take(i as int));
            if self.slots[i] {
                n += 1;
            }
            i += 1;
        }
        assert(self.slots@.take(i as int) == self.slots@);
        n
    }
}

/// The number of live permits never exceeds the capacity.
pub proof fn lemma_active_within_capacity(g: &AdmissionGate)
    ensures
        g.active() <= g.capacity(),
{
    lemma_taken_at_most_len(g.in_use());
}

/// Handing back a held permit frees exactly one slot, and a gate with a free
/// slot admits the next attempt.
pub proof fn lemma_release_frees_one_slot(before: &AdmissionGate, after: &AdmissionGate, p: &Permit)
    requires
        before.holds(p),
        after.capacity() == before.capacity(),
        after.in_use() == before.in_use().update(p.id() as int, false),
    ensures
        after.active() + 1 == before.active(),
        after.active() < after.capacity(),
{
    lemma_taken_update(before.in_use(), p.id() as int, false);
    lemma_taken_at_most_len(before.in_use());
}

} // verus!
