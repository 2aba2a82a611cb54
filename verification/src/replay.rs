//! Replay memory: a bounded, ordered history of recently served track ids.
//!
//! The selection engine consults it to keep a track from being served twice
//! in short succession, and records every id it hands out. Eviction is FIFO:
//! when the window is full, the oldest id leaves first.

use vstd::prelude::*;

verus! {

/// Number of recently served ids the replay window holds at most.
pub const REPLAY_CAPACITY: usize = 15;

/// What one `record` call does to the window's contents: the id goes on the
/// back, and when the window is full the oldest entry leaves first.
pub open spec fn spec_record(window: Seq<i32>, id: i32) -> Seq<i32> {
    if window.len() < REPLAY_CAPACITY {
        window.push(id)
    } else {
        window.drop_first().push(id)
    }
}

/// The window contents after a whole history of `record` calls, oldest call
/// first, starting from an empty window.
pub open spec fn spec_replay_after(ids: Seq<i32>) -> Seq<i32>
    decreases ids.len(),
{
    if ids.len() == 0 {
        Seq::empty()
    } else {
        spec_record(spec_replay_after(ids.drop_last()), ids.last())
    }
}

/// A bounded history of recently served track ids, oldest first. One
/// instance lives for the whole process; the caller serialises access to it
/// (a single lock around each consult-and-record pair).
pub struct ReplayWindow {
    ids: Vec<i32>,
}

impl View for ReplayWindow {
    type V = Seq<i32>;

    /// The ids currently held, oldest first.
    closed spec fn view(&self) -> Seq<i32> {
        self.ids@
    }
}

impl ReplayWindow {
    #[verifier::type_invariant]
    spec fn inv(self) -> bool {
        self.ids@.len() <= REPLAY_CAPACITY
    }

    /// A fresh, empty window.
    pub fn new() -> (w: ReplayWindow)
        ensures
            w@ == Seq::<i32>::empty(),
    {
        ReplayWindow { ids: Vec::new() }
    }

    /// How many ids the window currently holds (never more than the
    /// capacity).
    pub fn len(&self) -> (n: usize)
        ensures
            n == self@.len(),
            n <= REPLAY_CAPACITY,
    {
        proof {
            use_type_invariant(self);
        }
        self.ids.len()
    }

    /// Whether `id` was served recently enough to still be in the window.
    pub fn contains(&self, id: i32) -> (b: bool)
        ensures
            b == self@.contains(id),
    {
        let mut i: usize = 0;
        while i < self.ids.len()
            invariant
                i <= self.ids@.len(),
                forall|j: int| 0 <= j < i ==> self.ids@[j] != id,
            decreases self.ids@.len() - i,
        {
            if self.ids[i] == id {
                assert(self@[i as int] == id);
                return true;
            }
            i += 1;
        }
        false
    }

    /// Record a freshly served id, evicting the oldest entry if the window
    /// is at capacity.
    pub fn record(&mut self, id: i32)
        ensures
            final(self)@ == spec_record(old(self)@, id),
    {
        proof {
            use_type_invariant(&*self);
        }
        let mut ids: Vec<i32> = Vec::new();
        core::mem::swap(&mut self.ids, &mut ids);
        if ids.len() >= REPLAY_CAPACITY {
            ids.remove(0);
            assert(ids@ =~= old(self)@.drop_first());
        }
        ids.push(id);
        core::mem::swap(&mut self.ids, &mut ids);
    }
}

/// Replay-memory law: after any sequence of `record` calls on an initially
/// empty window, the window holds exactly the most recent
/// `min(REPLAY_CAPACITY, n)` recorded ids, in insertion order; every older
/// id has been evicted.
pub proof fn lemma_replay_history(ids: Seq<i32>)
    ensures
        spec_replay_after(ids) == ids.skip(
            if ids.len() <= REPLAY_CAPACITY {
                0
            } else {
                ids.len() - REPLAY_CAPACITY
            },
        ),
    decreases ids.len(),
{
    if ids.len() == 0 {
        assert(spec_replay_after(ids) =~= ids.skip(0));
    } else {
        let head = ids.drop_last();
        lemma_replay_history(head);
        if ids.len() <= REPLAY_CAPACITY {
            assert(spec_replay_after(ids) =~= ids.skip(0));
        } else {
            assert(spec_replay_after(ids) =~= ids.skip(ids.len() - REPLAY_CAPACITY));
        }
    }
}

/// Companion law: an id is reported as recently served exactly when it is
/// among the most recent `min(REPLAY_CAPACITY, n)` recorded ids.
pub proof fn lemma_replay_contains(ids: Seq<i32>, id: i32)
    ensures
        spec_replay_after(ids).contains(id) == ids.skip(
            if ids.len() <= REPLAY_CAPACITY {
                0
            } else {
                ids.len() - REPLAY_CAPACITY
            },
        ).contains(id),
{
    lemma_replay_history(ids);
}

} // verus!
