//! Time-indexed event queue.
//!
//! An [`XEQ`] is an ordered collection of scheduled events, at most one per
//! timestamp.  Scheduling a second event into an occupied slot is a fatal
//! design error that is surfaced as a [`Conflict`] rather than resolved by
//! overwriting.  Popping removes and returns the earliest event only when it
//! has become due; strictly-future events are left untouched.

use vstd::prelude::*;

verus! {

/// An event that knows the timestamp it is scheduled for and the name of the
/// producer that scheduled it (the latter only for diagnostics).
pub trait Cycled: Sized {
    /// The timestamp this event is scheduled for.
    spec fn spec_cycle(&self) -> usize;

    /// The producer that scheduled this event.
    spec fn spec_pusher(&self) -> &'static str;

    fn cycle(&self) -> (r: usize)
        ensures
            r == self.spec_cycle(),
    ;

    fn pusher(&self) -> (r: &'static str)
        ensures
            r == self.spec_pusher(),
    ;
}

/// Two producers tried to mutate the same resource in the same timestep.
#[derive(Clone, Copy, Debug)]
pub struct Conflict {
    /// The timestamp both events were scheduled for.
    pub stamp: usize,
    /// The producer whose event already occupied the slot.
    pub occupied_by: &'static str,
    /// The producer whose event was rejected.
    pub rejected: &'static str,
}

/// True when the events of `s` are ordered by strictly increasing timestamp
/// (so no timestamp occurs twice).
pub open spec fn sorted_by_cycle<T: Cycled>(s: Seq<T>) -> bool {
    forall|i: int, j: int|
        0 <= i < j < s.len() ==> #[trigger] s[i].spec_cycle() < #[trigger] s[j].spec_cycle()
}

/// True when some event of `s` is scheduled for timestamp `c`.
pub open spec fn slot_occupied<T: Cycled>(s: Seq<T>, c: usize) -> bool {
    exists|i: int| 0 <= i < s.len() && (#[trigger] s[i].spec_cycle()) == c
}

/// `s` with `e` inserted in timestamp order.
pub open spec fn insert_by_cycle<T: Cycled>(s: Seq<T>, e: T) -> Seq<T>
    decreases s.len(),
{
    if s.len() == 0 {
        seq![e]
    } else if e.spec_cycle() < s[0].spec_cycle() {
        seq![e] + s
    } else {
        seq![s[0]] + insert_by_cycle(s.drop_first(), e)
    }
}

/// Inserting at the index found by a linear scan produces exactly the ordered
/// insertion [`insert_by_cycle`].
proof fn lemma_insert_at_scan_index<T: Cycled>(s: Seq<T>, e: T, i: int)
    requires
        sorted_by_cycle(s),
        0 <= i <= s.len(),
        forall|k: int| 0 <= k < i ==> (#[trigger] s[k].spec_cycle()) < e.spec_cycle(),
        i < s.len() ==> e.spec_cycle() < s[i].spec_cycle(),
    ensures
        s.insert(i, e) == insert_by_cycle(s, e),
    decreases i,
{
    if i == 0 {
        if s.len() == 0 {
            assert(s.insert(0, e) =~= seq![e]);
        } else {
            assert(s.insert(0, e) =~= seq![e] + s);
        }
    } else {
        let rest = s.drop_first();
        assert(sorted_by_cycle(rest)) by {
            assert(forall|p: int, q: int|
                0 <= p < q < rest.len() ==> rest[p] == s[p + 1] && rest[q] == s[q + 1]);
        }
        assert(forall|k: int| 0 <= k < i - 1 ==> (#[trigger] rest[k].spec_cycle()) < e.spec_cycle())
            by {
            assert(forall|k: int| 0 <= k < i - 1 ==> rest[k] == s[k + 1]);
        }
        lemma_insert_at_scan_index(rest, e, i - 1);
        assert(s[0].spec_cycle() < e.spec_cycle());
        assert(s.insert(i, e) =~= seq![s[0]] + rest.insert(i - 1, e));
    }
}

/// Ordered insertion adds exactly `e` to the contents, seen as a multiset.
pub proof fn lemma_insert_by_cycle_multiset<T: Cycled>(s: Seq<T>, e: T, i: int)
    requires
        0 <= i <= s.len(),
        s.insert(i, e) == insert_by_cycle(s, e),
    ensures
        insert_by_cycle(s, e).to_multiset() == s.to_multiset().insert(e),
{
    broadcast use vstd::seq_lib::group_to_multiset_ensures;

    let r = s.insert(i, e);
    assert(r.remove(i) =~= s);
    assert(r.remove(i).to_multiset() =~= r.to_multiset().remove(r[i]));
    assert(r.to_multiset().remove(e).insert(e) =~= r.to_multiset()) by {
        assert(r[i] == e);
        assert(r.to_multiset().count(e) > 0);
    }
    assert(r.to_multiset() =~= s.to_multiset().insert(e));
}

/// Two queues in timestamp order that hold the same events hold them in the
/// same order: the committed view of a queue is independent of the order in
/// which its events were scheduled.
pub proof fn lemma_sorted_queue_unique<T: Cycled>(s1: Seq<T>, s2: Seq<T>)
    requires
        sorted_by_cycle(s1),
        sorted_by_cycle(s2),
        s1.to_multiset() == s2.to_multiset(),
    ensures
        s1 == s2,
    decreases s1.len(),
{
    broadcast use vstd::seq_lib::group_to_multiset_ensures;

    if s1.len() == 0 {
        assert(s2.to_multiset().len() == 0);
        assert(s1 =~= s2);
    } else {
        assert(s2.to_multiset().count(s1[0]) > 0);
        assert(s2.contains(s1[0]));
        let j = choose|j: int| 0 <= j < s2.len() && s2[j] == s1[0];
        assert(s1.to_multiset().count(s2[0]) > 0);
        assert(s1.contains(s2[0]));
        let k = choose|k: int| 0 <= k < s1.len() && s1[k] == s2[0];
        // The head of each queue carries the minimal timestamp, so the heads
        // must be equal: otherwise one queue would order two of the shared
        // events against the timestamp order of the other.
        if j > 0 {
            assert(s2[0].spec_cycle() < s2[j].spec_cycle());
            assert(s1[k].spec_cycle() < s1[0].spec_cycle());
            assert(k > 0 ==> s1[0].spec_cycle() < s1[k].spec_cycle());
            assert(false);
        }
        assert(s1[0] == s2[0]);
        let t1 = s1.drop_first();
        let t2 = s2.drop_first();
        assert(s1 =~= seq![s1[0]] + t1);
        assert(s1.remove(0) =~= t1);
        assert(s2.remove(0) =~= t2);
        assert(t1.to_multiset() =~= s1.to_multiset().remove(s1[0]));
        assert(t2.to_multiset() =~= s2.to_multiset().remove(s2[0]));
        assert(t1.to_multiset() == t2.to_multiset());
        assert(sorted_by_cycle(t1)) by {
            assert(forall|p: int, q: int|
                0 <= p < q < t1.len() ==> t1[p] == s1[p + 1] && t1[q] == s1[q + 1]);
        }
        assert(sorted_by_cycle(t2)) by {
            assert(forall|p: int, q: int|
                0 <= p < q < t2.len() ==> t2[p] == s2[p + 1] && t2[q] == s2[q + 1]);
        }
        lemma_sorted_queue_unique(t1, t2);
        assert(s1 =~= s2);
    }
}

/// Time-indexed event queue: an ordered mapping from a future timestamp to a
/// single scheduled event.
pub struct XEQ<T: Cycled> {
    /// The scheduled events, ordered by strictly increasing timestamp.
    pub q: Vec<T>,
}

impl<T: Cycled> XEQ<T> {
    /// The queue invariant: one event per timestamp, in timestamp order.
    pub open spec fn wf(&self) -> bool {
        sorted_by_cycle(self.q@)
    }

    pub fn new() -> (r: Self)
        ensures
            r.q@ == Seq::<T>::empty(),
            r.wf(),
    {
        XEQ { q: Vec::new() }
    }

    pub fn is_empty(&self) -> (r: bool)
        ensures
            r == (self.q@.len() == 0),
    {
        self.q.len() == 0
    }

    /// Schedules `event` at its timestamp.  Fails with a [`Conflict`] if that
    /// timestamp is already occupied; the queue is then left unchanged.
    pub fn push(&mut self, event: T) -> (r: Result<(), Conflict>)
        requires
            old(self).wf(),
        ensures
            final(self).wf(),
            match r {
                Ok(()) => {
                    &&& !slot_occupied(old(self).q@, event.spec_cycle())
                    &&& final(self).q@ == insert_by_cycle(old(self).q@, event)
                    &&& final(self).q@.to_multiset() == old(self).q@.to_multiset().insert(event)
                    &&& final(self).q@.len() == old(self).q@.len() + 1
                    &&& forall|k: int|
                        0 <= k < final(self).q@.len() ==> old(self).q@.contains(
                            #[trigger] final(self).q@[k],
                        ) || final(self).q@[k] == event
                },
                Err(c) => {
                    &&& slot_occupied(old(self).q@, event.spec_cycle())
                    &&& *final(self) == *old(self)
                    &&& c.stamp == event.spec_cycle()
                    &&& c.rejected == event.spec_pusher()
                    &&& exists|i: int|
                        0 <= i < old(self).q@.len() && (#[trigger] old(self).q@[i]).spec_cycle() == event.spec_cycle() && c.occupied_by == old(self).q@[i].spec_pusher()
                },
            },
    {
        let c = event.cycle();
        let mut i: usize = 0;
        loop
            invariant
                self.wf(),
                self == old(self),
                i <= self.q@.len(),
                c == event.spec_cycle(),
                forall|k: int| 0 <= k < i ==> (#[trigger] self.q@[k].spec_cycle()) < c,
            ensures
                i <= self.q@.len(),
                i < self.q@.len() ==> c < self.q@[i as int].spec_cycle(),
            decreases self.q@.len() - i,
        {
            if i == self.q.len() {
                break ;
            }
            let qc = self.q[i].cycle();
            if qc == c {
                return Err(
                    Conflict {
                        stamp: c,
                        occupied_by: self.q[i].pusher(),
                        rejected: event.pusher(),
                    },
                );
            }
            if qc > c {
                break ;
            }
            i = i + 1;
        }
        proof {
            lemma_insert_at_scan_index(self.q@, event, i as int);
            lemma_insert_by_cycle_multiset(self.q@, event, i as int);
            assert(forall|k: int|
                0 <= k < self.q@.len() && k >= i ==> c < (#[trigger] self.q@[k].spec_cycle()))
                by {
                assert(forall|k: int|
                    i < k < self.q@.len() ==> self.q@[i as int].spec_cycle() < (
                    #[trigger] self.q@[k].spec_cycle()));
            }
        }
        let ghost pre = self.q@;
        self.q.insert(i, event);
        proof {
            assert(sorted_by_cycle(self.q@)) by {
                assert(forall|k: int| 0 <= k < i ==> self.q@[k] == pre[k]);
                assert(forall|k: int|
                    i < k < self.q@.len() ==> self.q@[k] == pre[k - 1] && c < (
                    #[trigger] pre[k - 1].spec_cycle()));
                assert(self.q@[i as int] == event);
            }
            assert(forall|k: int|
                0 <= k < self.q@.len() ==> pre.contains(#[trigger] self.q@[k]) || self.q@[k]
                    == event) by {
                assert(forall|k: int| 0 <= k < i ==> self.q@[k] == pre[k] && pre.contains(pre[k]));
                assert(forall|k: int|
                    i < k < self.q@.len() ==> self.q@[k] == pre[k - 1] && pre.contains(
                        pre[k - 1],
                    ));
            }
        }
        Ok(())
    }

    /// Removes and returns the earliest event if its timestamp is at most
    /// `current`; otherwise leaves the queue untouched.  Never looks past the
    /// first entry.
    pub fn pop(&mut self, current: usize) -> (r: Option<T>)
        requires
            old(self).wf(),
        ensures
            final(self).wf(),
            if old(self).q@.len() > 0 && old(self).q@[0].spec_cycle() <= current {
                r == Some(old(self).q@[0]) && final(self).q@ == old(self).q@.drop_first()
            } else {
                r == None::<T> && *final(self) == *old(self)
            },
    {
        if self.q.len() > 0 && self.q[0].cycle() <= current {
            let e = self.q.remove(0);
            proof {
                assert(self.q@ =~= old(self).q@.drop_first());
                assert(forall|p: int, q: int|
                    0 <= p < q < self.q@.len() ==> self.q@[p] == old(self).q@[p + 1]
                        && self.q@[q] == old(self).q@[q + 1]);
            }
            Some(e)
        } else {
            None
        }
    }
}

/// Relies on alloc's `format!` to render a timestamp's parts as
/// `Cycle @<cycle>.<sub>`, the sub-cycle offset zero-padded to two digits.
#[verifier::external_body]
fn format_cycle_parts(cycle: usize, sub: usize) -> String {
    format!("Cycle @{}.{:02}", cycle, sub)
}

/// Renders a raw timestamp for diagnostics.  One full cycle spans 100 raw
/// timestamps: the quotient is the cycle count, the remainder the sub-cycle
/// offset.
pub fn cyclize(stamp: usize) -> String {
    format_cycle_parts(stamp / 100, stamp % 100)
}

} // verus!
