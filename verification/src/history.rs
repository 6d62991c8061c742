//! The bounded history of emitted snapshots: a ring of fixed capacity that
//! is allocated once and overwrites its oldest entry when full.

use vstd::prelude::*;
use crate::caret_monitor::CaretSnapshot;

verus! {

/// How many snapshots the history holds.
pub const RING_CAPACITY: usize = 128;

/// The newest `RING_CAPACITY` entries of `h`, oldest first.
pub open spec fn keep_latest(h: Seq<CaretSnapshot>) -> Seq<CaretSnapshot> {
    if h.len() <= RING_CAPACITY {
        h
    } else {
        h.subrange(h.len() - RING_CAPACITY, h.len() as int)
    }
}

/// The history after `snap` is recorded: `snap` is its newest entry, and the
/// oldest one is gone if the history was full.
pub open spec fn recorded(h: Seq<CaretSnapshot>, snap: CaretSnapshot) -> Seq<CaretSnapshot> {
    keep_latest(h.push(snap))
}

/// The history after each of `snaps` is recorded in turn.
pub open spec fn recorded_all(h: Seq<CaretSnapshot>, snaps: Seq<CaretSnapshot>) -> Seq<
    CaretSnapshot,
>
    decreases snaps.len(),
{
    if snaps.len() == 0 {
        h
    } else {
        recorded(recorded_all(h, snaps.drop_last()), snaps.last())
    }
}

/// Fixed-capacity circular store of snapshots. Its view is what a drain
/// would hand out: the buffered snapshots, oldest first.
#[derive(Debug)]
pub struct SnapshotRing {
    slots: Vec<CaretSnapshot>,
    head: usize,
    len: usize,
}

impl View for SnapshotRing {
    type V = Seq<CaretSnapshot>;

    closed spec fn view(&self) -> Seq<CaretSnapshot> {
        Seq::new(
            self.len as nat,
            |i: int| self.slots@[(self.head + RING_CAPACITY - self.len + i) % (RING_CAPACITY as int)],
        )
    }
}

impl SnapshotRing {
    #[verifier::type_invariant]
    spec fn wf(self) -> bool {
        &&& self.slots@.len() == RING_CAPACITY
        &&& self.head < RING_CAPACITY
        &&& self.len <= RING_CAPACITY
    }

    /// An empty history with all of its storage allocated.
    pub fn new() -> (r: Self)
        ensures
            r@ == Seq::<CaretSnapshot>::empty(),
    {
        let mut slots: Vec<CaretSnapshot> = Vec::with_capacity(RING_CAPACITY);
        slots.resize(RING_CAPACITY, CaretSnapshot::default());
        let r = SnapshotRing { slots, head: 0, len: 0 };
        assert(r@ =~= Seq::<CaretSnapshot>::empty());
        r
    }

    /// The number of buffered snapshots, never more than the capacity.
    pub fn len(&self) -> (n: usize)
        ensures
            n == self@.len(),
            n <= RING_CAPACITY,
    {
        proof {
            use_type_invariant(self);
        }
        self.len
    }

    /// Records `snap` as the newest entry, overwriting the oldest when full.
    pub fn push(&mut self, snap: CaretSnapshot)
        ensures
            final(self)@ == recorded(old(self)@, snap),
            final(self)@.len() <= RING_CAPACITY,
    {
        proof {
            use_type_invariant(&*self);
        }
        let at: usize = self.head;
        self.slots[at] = snap;
        self.head = (at + 1) % RING_CAPACITY;
        if self.len < RING_CAPACITY {
            self.len += 1;
        }
        assert(self@ =~= recorded(old(self)@, snap));
    }

    /// Hands out the buffered snapshots, oldest first, and empties the
    /// history. The write position stays where it is.
    pub fn drain(&mut self) -> (out: Vec<CaretSnapshot>)
        ensures
            out@ == old(self)@,
            final(self)@ == Seq::<CaretSnapshot>::empty(),
    {
        proof {
            use_type_invariant(&*self);
        }
        let mut out: Vec<CaretSnapshot> = Vec::new();
        let n: usize = self.len;
        let start: usize = (self.head + RING_CAPACITY - n) % RING_CAPACITY;
        let mut i: usize = 0;
        while i < n
            invariant
                i <= n,
                n == self.len,
                n <= RING_CAPACITY,
                self.head < RING_CAPACITY,
                self.slots@.len() == RING_CAPACITY,
                start == (self.head + RING_CAPACITY - n) % (RING_CAPACITY as int),
                *self == *old(self),
                out@ == self@.subrange(0, i as int),
            decreases n - i,
        {
            let idx: usize = (start + i) % RING_CAPACITY;
            out.push(self.slots[idx]);
            i += 1;
            assert(out@ =~= self@.subrange(0, i as int));
        }
        assert(out@ =~= old(self)@);
        self.len = 0;
        assert(self@ =~= Seq::<CaretSnapshot>::empty());
        out
    }
}

/// Recording never grows a history beyond the capacity.
pub proof fn lemma_recorded_bounded(h: Seq<CaretSnapshot>, snap: CaretSnapshot)
    ensures
        recorded(h, snap).len() <= RING_CAPACITY,
        recorded(h, snap).len() > 0,
        recorded(h, snap).last() == snap,
{
}

/// Recording a run of snapshots into a history within capacity leaves the
/// newest `RING_CAPACITY` of all of them, in the order they came.
pub proof fn lemma_recorded_all(h: Seq<CaretSnapshot>, snaps: Seq<CaretSnapshot>)
    requires
        h.len() <= RING_CAPACITY,
    ensures
        recorded_all(h, snaps) == keep_latest(h + snaps),
    decreases snaps.len(),
{
    if snaps.len() == 0 {
        assert(h + snaps =~= h);
    } else {
        lemma_recorded_all(h, snaps.drop_last());
        let before = h + snaps.drop_last();
        assert(before.push(snaps.last()) =~= h + snaps);
        assert(recorded(keep_latest(before), snaps.last()) =~= keep_latest(h + snaps));
    }
}

/// After one emission more than the capacity into an empty history, the
/// history holds exactly `RING_CAPACITY` entries and its oldest is the
/// second one emitted.
pub proof fn lemma_overflow_drops_first(snaps: Seq<CaretSnapshot>)
    requires
        snaps.len() == RING_CAPACITY + 1,
    ensures
        recorded_all(Seq::empty(), snaps).len() == RING_CAPACITY,
        recorded_all(Seq::empty(), snaps).first() == snaps[1],
        recorded_all(Seq::empty(), snaps) == snaps.subrange(1, snaps.len() as int),
{
    lemma_recorded_all(Seq::empty(), snaps);
    assert(Seq::<CaretSnapshot>::empty() + snaps =~= snaps);
}

} // verus!
