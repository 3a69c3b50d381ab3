//! The bounded history of ticks: a ring of slots that overwrites its oldest
//! record, read back in the order in which the records arrived.

use vstd::prelude::*;
use crate::record::{Lvl1Data, Tick};

verus! {

/// The slot that was written just before slot `i` of `capacity` slots.
pub open spec fn prev_slot(capacity: int, i: int) -> int {
    if i == 0 {
        capacity - 1
    } else {
        i - 1
    }
}

/// The slot that is written just after slot `i` of `capacity` slots.
pub open spec fn next_slot(capacity: int, i: int) -> int {
    if i + 1 == capacity {
        0
    } else {
        i + 1
    }
}

/// The slot reached from slot `i` by `k` single steps back.
pub open spec fn slot_back(capacity: int, i: int, k: nat) -> int
    decreases k,
{
    if k == 0 {
        i
    } else {
        prev_slot(capacity, slot_back(capacity, i, (k - 1) as nat))
    }
}

/// The slot that stands `offset` places after `cursor`, going round the end.
pub open spec fn wrap(capacity: int, cursor: int, offset: int) -> int {
    if cursor + offset < capacity {
        cursor + offset
    } else {
        cursor + offset - capacity
    }
}

/// The records of a ring from oldest to newest: the slot under the cursor is
/// the next to be overwritten, so it holds the oldest.
pub open spec fn chronological(slots: Seq<Tick>, cursor: int) -> Seq<Tick> {
    Seq::new(slots.len(), |j: int| slots[wrap(slots.len() as int, cursor, j)])
}

/// A window of records after one more has arrived: the oldest leaves, the
/// new one becomes the newest.
pub open spec fn slide(window: Seq<Tick>, record: Tick) -> Seq<Tick> {
    window.drop_first().push(record)
}

/// A window after the records of `arrivals` have arrived one by one.
pub open spec fn replay(window: Seq<Tick>, arrivals: Seq<Tick>) -> Seq<Tick>
    decreases arrivals.len(),
{
    if arrivals.len() == 0 {
        window
    } else {
        slide(replay(window, arrivals.drop_last()), arrivals.last())
    }
}

/// Each record of a window beside the one that came before it, newest first.
/// The oldest record has nothing before it and heads no pair.
pub open spec fn newest_first_pairs(window: Seq<Tick>) -> Seq<(Tick, Tick)> {
    Seq::new(
        (window.len() - 1) as nat,
        |k: int| (window[window.len() - 1 - k], window[window.len() - 2 - k]),
    )
}

/// What a list of borrowed pairs holds.
pub open spec fn pair_views(pairs: Seq<(&Lvl1Data, &Lvl1Data)>) -> Seq<(Tick, Tick)> {
    pairs.map_values(|p: (&Lvl1Data, &Lvl1Data)| (p.0@, p.1@))
}

/// A ring of a fixed number of records. It starts full of empty records,
/// and each insert overwrites the oldest one.
pub struct DataList {
    capacity: usize,
    insert_i: usize,
    data: Vec<Lvl1Data>,
}

impl View for DataList {
    type V = Seq<Tick>;

    /// The records from oldest to newest.
    open spec fn view(&self) -> Seq<Tick> {
        chronological(self.slots(), self.cursor())
    }
}

impl DataList {
    #[verifier::type_invariant]
    spec fn inv(&self) -> bool {
        &&& self.capacity > 0
        &&& self.data.len() == self.capacity
        &&& self.insert_i < self.capacity
    }

    /// The records slot by slot, as they lie in memory.
    pub closed spec fn slots(&self) -> Seq<Tick> {
        self.data@.map_values(|r: Lvl1Data| r@)
    }

    /// The slot that the next insert writes.
    pub closed spec fn cursor(&self) -> int {
        self.insert_i as int
    }

    /// The number of slots.
    pub open spec fn spec_capacity(&self) -> int {
        self.slots().len() as int
    }

    /// The slot that holds the newest record.
    pub open spec fn spec_current_index(&self) -> int {
        prev_slot(self.spec_capacity(), self.cursor())
    }

    /// What every ring satisfies: at least one slot, and a cursor on a slot.
    pub open spec fn well_formed(&self) -> bool {
        0 <= self.cursor() < self.spec_capacity()
    }

    /// A ring of `n` slots, each holding the empty record.
    pub fn new(n: usize) -> (ring: DataList)
        requires
            n > 0,
        ensures
            ring.well_formed(),
            ring.spec_capacity() == n,
            ring.cursor() == 0,
            ring.slots() == Seq::new(n as nat, |i: int| Tick::empty()),
            ring@ == Seq::new(n as nat, |i: int| Tick::empty()),
    {
        let mut data: Vec<Lvl1Data> = Vec::new();
        let mut filled: usize = 0;
        while filled < n
            invariant
                filled <= n,
                data.len() == filled,
                forall|i: int| 0 <= i < filled ==> (#[trigger] data[i])@ == Tick::empty(),
            decreases n - filled,
        {
            data.push(Lvl1Data::default());
            filled += 1;
        }
        let ring = DataList { capacity: n, insert_i: 0, data };
        assert(ring.slots() =~= Seq::new(n as nat, |i: int| Tick::empty()));
        assert(ring@ =~= Seq::new(n as nat, |i: int| Tick::empty()));
        ring
    }

    /// The number of slots.
    pub fn capacity(&self) -> (n: usize)
        ensures
            n == self.spec_capacity(),
            n > 0,
            self.well_formed(),
    {
        proof {
            use_type_invariant(self);
        }
        self.capacity
    }

    /// The slot that the next insert writes.
    pub fn insert_cursor(&self) -> (i: usize)
        ensures
            i == self.cursor(),
            self.well_formed(),
    {
        proof {
            use_type_invariant(self);
        }
        self.insert_i
    }

    /// The slot that holds the newest record: the one before the cursor.
    pub fn current_index(&self) -> (i: usize)
        ensures
            i == self.spec_current_index(),
            i < self.spec_capacity(),
            self.well_formed(),
            self.slots()[i as int] == self@.last(),
    {
        proof {
            use_type_invariant(self);
        }
        if self.insert_i == 0 {
            self.capacity - 1
        } else {
            self.insert_i - 1
        }
    }

    /// The slot that holds the record which arrived just before the one in
    /// slot `i`, going round from the first slot to the last.
    pub fn previous_index(&self, i: usize) -> (p: usize)
        requires
            i < self.spec_capacity(),
        ensures
            p == prev_slot(self.spec_capacity(), i as int),
            p < self.spec_capacity(),
            self.well_formed(),
    {
        proof {
            use_type_invariant(self);
        }
        if i == 0 {
            self.capacity - 1
        } else {
            i - 1
        }
    }

    /// Writes `record` into the slot under the cursor and moves the cursor
    /// on by one slot, round to the first after the last. The record that
    /// the slot held, the oldest, is gone.
    pub fn insert(&mut self, record: Lvl1Data)
        ensures
            final(self).well_formed(),
            final(self).spec_capacity() == old(self).spec_capacity(),
            final(self).slots() == old(self).slots().update(old(self).cursor(), record@),
            final(self).cursor() == next_slot(old(self).spec_capacity(), old(self).cursor()),
            final(self).spec_current_index() == old(self).cursor(),
            final(self)@ == slide(old(self)@, record@),
            final(self)@.last() == record@,
    {
        proof {
            use_type_invariant(&*self);
        }
        let ghost before = *self;
        let ghost arrived = record@;
        self.data[self.insert_i] = record;
        self.insert_i = if self.insert_i + 1 == self.capacity {
            0
        } else {
            self.insert_i + 1
        };
        proof {
            assert(self.slots() =~= before.slots().update(before.cursor(), arrived));
            assert(self@ =~= slide(before@, arrived));
        }
    }

    /// The record in slot `i`.
    pub fn slot(&self, i: usize) -> (record: &Lvl1Data)
        requires
            i < self.spec_capacity(),
        ensures
            record@ == self.slots()[i as int],
    {
        &self.data[i]
    }

    /// The newest record.
    pub fn current(&self) -> (record: &Lvl1Data)
        ensures
            record@ == self@.last(),
            record@ == self.slots()[self.spec_current_index()],
            self.well_formed(),
    {
        let i: usize = self.current_index();
        &self.data[i]
    }

    /// Each record beside the one that arrived just before it, newest first.
    /// A ring of `n` slots gives `n - 1` pairs; the ring is left as it was,
    /// and each call walks it anew.
    pub fn ordered_view(&self) -> (pairs: Vec<(&Lvl1Data, &Lvl1Data)>)
        ensures
            pair_views(pairs@) == newest_first_pairs(self@),
            pairs@.len() == self.spec_capacity() - 1,
            self.well_formed(),
    {
        proof {
            use_type_invariant(self);
        }
        let mut pairs: Vec<(&Lvl1Data, &Lvl1Data)> = Vec::new();
        let mut i: usize = self.current_index();
        let mut k: usize = 0;
        while k < self.capacity - 1
            invariant
                self.capacity > 0,
                self.data.len() == self.capacity,
                self.insert_i < self.capacity,
                k <= self.capacity - 1,
                pairs@.len() == k,
                i == wrap(self.capacity as int, self.insert_i as int, self.capacity - 1 - k),
                forall|j: int|
                    0 <= j < k ==> (#[trigger] pair_views(pairs@)[j]) == newest_first_pairs(
                        self@,
                    )[j],
            decreases self.capacity - 1 - k,
        {
            let prior: usize = self.previous_index(i);
            let ghost earlier = pairs@;
            pairs.push((&self.data[i], &self.data[prior]));
            proof {
                assert(pair_views(pairs@) =~= pair_views(earlier).push(
                    (self.data[i as int]@, self.data[prior as int]@),
                ));
            }
            i = prior;
            k += 1;
        }
        proof {
            assert(pair_views(pairs@) =~= newest_first_pairs(self@));
        }
        pairs
    }
}

} // verus!
