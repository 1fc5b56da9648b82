//! Storage primitives scheduled through the event queue.
//!
//! An [`Array`] is a fixed-length sequence of addressable cells whose writes
//! are scheduled through one [`XEQ`] and land only when the array is ticked.
//! A [`FIFO`] is an unbounded queue of values with scheduled pushes and pops;
//! within one tick a due pop is applied before a due push, and a due pop
//! against an empty payload is a no-op.

use vstd::prelude::*;
use crate::queue::{sorted_by_cycle, Cycled, XEQ};
use std::collections::VecDeque;

verus! {

/// A scheduled write of `data` to cell `addr`, landing at timestamp `cycle`.
pub struct ArrayWrite<T: Default + Clone> {
    pub cycle: usize,
    pub addr: usize,
    pub data: T,
    /// The producer that scheduled the write (diagnostics only).
    pub pusher: &'static str,
}

impl<T: Default + Clone> ArrayWrite<T> {
    pub fn new(cycle: usize, addr: usize, data: T, pusher: &'static str) -> (r: Self)
        ensures
            r.cycle == cycle,
            r.addr == addr,
            r.data == data,
            r.pusher == pusher,
    {
        ArrayWrite { cycle, addr, data, pusher }
    }
}

impl<T: Default + Clone> Cycled for ArrayWrite<T> {
    open spec fn spec_cycle(&self) -> usize {
        self.cycle
    }

    open spec fn spec_pusher(&self) -> &'static str {
        self.pusher
    }

    fn cycle(&self) -> usize {
        self.cycle
    }

    fn pusher(&self) -> &'static str {
        self.pusher
    }
}

/// The payload after applying, in timestamp order, every write of `q` that is
/// due at time `t`.  `q` is expected to be in timestamp order, so the due
/// writes form a prefix.
pub open spec fn commit_through<T: Default + Clone>(
    p: Seq<T>,
    q: Seq<ArrayWrite<T>>,
    t: usize,
) -> Seq<T>
    decreases q.len(),
{
    if q.len() > 0 && q[0].cycle <= t {
        commit_through(p.update(q[0].addr as int, q[0].data), q.drop_first(), t)
    } else {
        p
    }
}

/// A cell that no due write targets keeps its value across a commit.
pub proof fn lemma_commit_through_untouched<T: Default + Clone>(
    p: Seq<T>,
    q: Seq<ArrayWrite<T>>,
    t: usize,
    a: int,
)
    requires
        0 <= a < p.len(),
        forall|j: int| 0 <= j < q.len() ==> (#[trigger] q[j].addr) < p.len(),
        forall|j: int| 0 <= j < q.len() ==> (#[trigger] q[j].addr) != a || q[j].cycle > t,
    ensures
        commit_through(p, q, t)[a] == p[a],
    decreases q.len(),
{
    if q.len() > 0 && q[0].cycle <= t {
        let p2 = p.update(q[0].addr as int, q[0].data);
        assert(forall|j: int|
            0 <= j < q.drop_first().len() ==> q.drop_first()[j] == q[j + 1]);
        lemma_commit_through_untouched(p2, q.drop_first(), t, a);
    }
}

/// The state of an array after committing through time `t` is independent of
/// the order in which its writes were scheduled: two schedules that placed the
/// same writes (at pairwise distinct timestamps, which the queue enforces)
/// commit to the same state.
pub proof fn lemma_commit_schedule_order_independent<T: Default + Clone>(
    p: Seq<T>,
    q1: Seq<ArrayWrite<T>>,
    q2: Seq<ArrayWrite<T>>,
    t: usize,
)
    requires
        sorted_by_cycle(q1),
        sorted_by_cycle(q2),
        q1.to_multiset() == q2.to_multiset(),
    ensures
        q1 == q2,
        commit_through(p, q1, t) == commit_through(p, q2, t),
{
    crate::queue::lemma_sorted_queue_unique(q1, q2);
}

/// Round trip: a write of value `q[i].data` to address `q[i].addr`, committed
/// through any time `t` at or after its timestamp with no other write to that
/// address due by `t`, is the value then read back at that address.
pub proof fn lemma_write_read_round_trip<T: Default + Clone>(
    p: Seq<T>,
    q: Seq<ArrayWrite<T>>,
    t: usize,
    i: int,
)
    requires
        sorted_by_cycle(q),
        0 <= i < q.len(),
        forall|j: int| 0 <= j < q.len() ==> (#[trigger] q[j].addr) < p.len(),
        q[i].cycle <= t,
        forall|j: int|
            0 <= j < q.len() && j != i ==> (#[trigger] q[j].addr) != q[i].addr || q[j].cycle > t,
    ensures
        commit_through(p, q, t)[q[i].addr as int] == q[i].data,
    decreases q.len(),
{
    let rest = q.drop_first();
    assert(forall|j: int| 0 <= j < rest.len() ==> rest[j] == q[j + 1]);
    if i == 0 {
        let p2 = p.update(q[0].addr as int, q[0].data);
        lemma_commit_through_untouched(p2, rest, t, q[0].addr as int);
    } else {
        assert(q[0].spec_cycle() < q[i].spec_cycle());
        let p2 = p.update(q[0].addr as int, q[0].data);
        assert(sorted_by_cycle(rest)) by {
            assert(forall|x: int, y: int|
                0 <= x < y < rest.len() ==> rest[x] == q[x + 1] && rest[y] == q[y + 1]);
        }
        lemma_write_read_round_trip(p2, rest, t, i - 1);
    }
}

/// How one [`Array::tick`] at time `now` relates the array after (`post`) to
/// the array before (`pre`): the earliest due write, if any, is removed from
/// the queue and applied to the payload.
pub open spec fn array_ticked<T: Default + Clone>(pre: Array<T>, post: Array<T>, now: usize) -> bool {
    &&& post.payload@.len() == pre.payload@.len()
    &&& if pre.write.q@.len() > 0 && pre.write.q@[0].cycle <= now {
        post.payload@ == pre.payload@.update(pre.write.q@[0].addr as int, pre.write.q@[0].data)
            && post.write.q@ == pre.write.q@.drop_first()
    } else {
        post.payload@ == pre.payload@ && post.write.q@ == pre.write.q@
    }
}

/// One tick preserves the committed-through-`t` state: committing through
/// time `t` by repeated ticks at `t` lands on exactly
/// [`commit_through`]`(payload, queue, t)` of the array they started from.
pub proof fn lemma_tick_preserves_commit_through<T: Default + Clone>(
    pre: Array<T>,
    post: Array<T>,
    t: usize,
)
    requires
        array_ticked(pre, post, t),
    ensures
        commit_through(pre.payload@, pre.write.q@, t) == commit_through(
            post.payload@,
            post.write.q@,
            t,
        ),
        post.write.q@.len() == 0 || !(post.write.q@[0].cycle <= t) ==> commit_through(
            pre.payload@,
            pre.write.q@,
            t,
        ) == post.payload@,
{
    if post.write.q@.len() == 0 || !(post.write.q@[0].cycle <= t) {
        assert(commit_through(post.payload@, post.write.q@, t) == post.payload@);
    }
}

/// An ordered, fixed-length sequence of addressable storage cells, mutated
/// only by committing writes scheduled through its event queue.
pub struct Array<T: Default + Clone> {
    pub payload: Vec<T>,
    pub write: XEQ<ArrayWrite<T>>,
}

impl<T: Default + Clone> Array<T> {
    /// The array invariant: the write queue is well formed and every scheduled
    /// write targets a cell inside the payload.
    pub open spec fn wf(&self) -> bool {
        &&& self.write.wf()
        &&& forall|i: int|
            0 <= i < self.write.q@.len() ==> (#[trigger] self.write.q@[i]).addr
                < self.payload@.len()
    }

    /// A fresh array of `n` default-valued cells and no scheduled writes.
    pub fn new(n: usize) -> (r: Self)
        ensures
            r.payload@.len() == n,
            r.write.q@ == Seq::<ArrayWrite<T>>::empty(),
            r.wf(),
    {
        let mut payload: Vec<T> = Vec::new();
        let mut i: usize = 0;
        while i < n
            invariant
                i <= n,
                payload@.len() == i,
            decreases n - i,
        {
            payload.push(T::default());
            i = i + 1;
        }
        Array { payload, write: XEQ::new() }
    }

    /// A fresh array over a caller-supplied payload and no scheduled writes.
    pub fn new_with_init(payload: Vec<T>) -> (r: Self)
        ensures
            r.payload@ == payload@,
            r.write.q@ == Seq::<ArrayWrite<T>>::empty(),
            r.wf(),
    {
        Array { payload, write: XEQ::new() }
    }

    /// Commits at most one due write: if the earliest scheduled write is due
    /// at `cycle`, it is removed from the queue and applied to the payload;
    /// otherwise nothing changes.
    pub fn tick(&mut self, cycle: usize)
        requires
            old(self).wf(),
        ensures
            final(self).wf(),
            array_ticked(*old(self), *final(self), cycle),
    {
        if let Some(event) = self.write.pop(cycle) {
            self.payload[event.addr] = event.data;
        }
        proof {
            assert(forall|j: int|
                0 <= j < self.write.q@.len() ==> (#[trigger] self.write.q@[j]).addr
                    < self.payload@.len()) by {
                if old(self).write.q@.len() > 0 && old(self).write.q@[0].cycle <= cycle {
                    assert(forall|j: int|
                        0 <= j < self.write.q@.len() ==> self.write.q@[j] == old(self).write.q@[j + 1]);
                }
            }
        }
    }
}

/// A scheduled push of `data` into a FIFO, landing at timestamp `cycle`.
pub struct FIFOPush<T> {
    pub cycle: usize,
    pub data: T,
    /// The producer that scheduled the push (diagnostics only).
    pub pusher: &'static str,
}

impl<T> FIFOPush<T> {
    pub fn new(cycle: usize, data: T, pusher: &'static str) -> (r: Self)
        ensures
            r.cycle == cycle,
            r.data == data,
            r.pusher == pusher,
    {
        FIFOPush { cycle, data, pusher }
    }
}

impl<T> Cycled for FIFOPush<T> {
    open spec fn spec_cycle(&self) -> usize {
        self.cycle
    }

    open spec fn spec_pusher(&self) -> &'static str {
        self.pusher
    }

    fn cycle(&self) -> usize {
        self.cycle
    }

    fn pusher(&self) -> &'static str {
        self.pusher
    }
}

/// A scheduled pop from a FIFO, landing at timestamp `cycle`.
pub struct FIFOPop {
    pub cycle: usize,
    /// The producer that scheduled the pop (diagnostics only).
    pub pusher: &'static str,
}

impl FIFOPop {
    pub fn new(cycle: usize, pusher: &'static str) -> (r: Self)
        ensures
            r.cycle == cycle,
            r.pusher == pusher,
    {
        FIFOPop { cycle, pusher }
    }
}

impl Cycled for FIFOPop {
    open spec fn spec_cycle(&self) -> usize {
        self.cycle
    }

    open spec fn spec_pusher(&self) -> &'static str {
        self.pusher
    }

    fn cycle(&self) -> usize {
        self.cycle
    }

    fn pusher(&self) -> &'static str {
        self.pusher
    }
}

/// True when the earliest pop event of `pops` is due at `now`.
pub open spec fn pop_due(pops: Seq<FIFOPop>, now: usize) -> bool {
    pops.len() > 0 && pops[0].cycle <= now
}

/// True when the earliest push event of `pushes` is due at `now`.
pub open spec fn push_due<T>(pushes: Seq<FIFOPush<T>>, now: usize) -> bool {
    pushes.len() > 0 && pushes[0].cycle <= now
}

/// The FIFO payload after one tick at time `now`: a due pop removes the front
/// element (a no-op when the payload is empty), and only then a due push
/// appends its value at the back.
pub open spec fn fifo_payload_after_tick<T>(
    p: Seq<T>,
    pops: Seq<FIFOPop>,
    pushes: Seq<FIFOPush<T>>,
    now: usize,
) -> Seq<T> {
    let after_pop = if pop_due(pops, now) && p.len() > 0 {
        p.drop_first()
    } else {
        p
    };
    if push_due(pushes, now) {
        after_pop.push(pushes[0].data)
    } else {
        after_pop
    }
}

/// A pop that comes due against a still-empty FIFO leaves the FIFO unchanged
/// (and, being a specification of [`FIFO::tick`], cannot fail).
pub proof fn lemma_fifo_pop_on_empty<T>(
    p: Seq<T>,
    pops: Seq<FIFOPop>,
    pushes: Seq<FIFOPush<T>>,
    now: usize,
)
    requires
        p.len() == 0,
        pop_due(pops, now),
        !push_due(pushes, now),
    ensures
        fifo_payload_after_tick(p, pops, pushes, now) == p,
{
}

/// A push and a pop due at the same time, against a FIFO holding exactly one
/// element: the old element is removed and the new one appended, in that
/// order, leaving exactly the pushed element.
pub proof fn lemma_fifo_simultaneous_push_pop<T>(
    p: Seq<T>,
    pops: Seq<FIFOPop>,
    pushes: Seq<FIFOPush<T>>,
    now: usize,
)
    requires
        p.len() == 1,
        pop_due(pops, now),
        push_due(pushes, now),
    ensures
        fifo_payload_after_tick(p, pops, pushes, now) =~= seq![pushes[0].data],
{
}

/// How one [`FIFO::tick`] at time `now` relates the FIFO after (`post`) to
/// the FIFO before (`pre`).
pub open spec fn fifo_ticked<T>(pre: FIFO<T>, post: FIFO<T>, now: usize) -> bool {
    &&& post.payload@ == fifo_payload_after_tick(pre.payload@, pre.pop.q@, pre.push.q@, now)
    &&& post.pop.q@ == if pop_due(pre.pop.q@, now) {
        pre.pop.q@.drop_first()
    } else {
        pre.pop.q@
    }
    &&& post.push.q@ == if push_due(pre.push.q@, now) {
        pre.push.q@.drop_first()
    } else {
        pre.push.q@
    }
}

/// An unbounded queue of values whose pushes and pops are scheduled through
/// two event queues and land only when the FIFO is ticked.
pub struct FIFO<T> {
    pub payload: VecDeque<T>,
    pub push: XEQ<FIFOPush<T>>,
    pub pop: XEQ<FIFOPop>,
}

impl<T> FIFO<T> {
    /// The FIFO invariant: both event queues are well formed.
    pub open spec fn wf(&self) -> bool {
        &&& self.push.wf()
        &&& self.pop.wf()
    }

    pub fn new() -> (r: Self)
        ensures
            r.payload@ == Seq::<T>::empty(),
            r.push.q@ == Seq::<FIFOPush<T>>::empty(),
            r.pop.q@ == Seq::<FIFOPop>::empty(),
            r.wf(),
    {
        FIFO { payload: VecDeque::new(), push: XEQ::new(), pop: XEQ::new() }
    }

    pub fn is_empty(&self) -> (r: bool)
        ensures
            r == (self.payload@.len() == 0),
    {
        self.payload.len() == 0
    }

    /// Peeks at the front element without removing it.
    pub fn front(&self) -> (r: Option<&T>)
        ensures
            match r {
                Some(x) => self.payload@.len() > 0 && *x == self.payload@[0],
                None => self.payload@.len() == 0,
            },
    {
        if self.payload.len() == 0 {
            None
        } else {
            Some(&self.payload[0])
        }
    }

    /// Commits at most one due pop and then at most one due push.  The pop is
    /// applied first, so a simultaneous push and pop do not let a value skip
    /// the line; a due pop against an empty payload does nothing.
    pub fn tick(&mut self, cycle: usize)
        requires
            old(self).wf(),
        ensures
            final(self).wf(),
            fifo_ticked(*old(self), *final(self), cycle),
    {
        if let Some(_due_pop) = self.pop.pop(cycle) {
            if self.payload.len() > 0 {
                let _front = self.payload.pop_front();
            }
        }
        if let Some(event) = self.push.pop(cycle) {
            self.payload.push_back(event.data);
        }
    }
}

} // verus!
