//! What holds of the ring after any run of inserts, and of the walk back
//! through its slots.

use vstd::prelude::*;
use vstd::arithmetic::div_mod::{
    lemma_fundamental_div_mod,
    lemma_fundamental_div_mod_converse_mod,
    lemma_mod_multiples_vanish,
};
use crate::record::Tick;
use crate::ring::{
    chronological,
    newest_first_pairs,
    prev_slot,
    replay,
    slide,
    slot_back,
    wrap,
};

verus! {

/// A window keeps its length however many records arrive, and place `j` of
/// it holds what stood `arrivals.len()` places later in the old window
/// followed by the arrivals: a record of the old window while that place is
/// within it, and an arrival after that.
pub proof fn lemma_replay_index(window: Seq<Tick>, arrivals: Seq<Tick>, j: int)
    requires
        window.len() > 0,
        0 <= j < window.len(),
    ensures
        replay(window, arrivals).len() == window.len(),
        replay(window, arrivals)[j] == if j + arrivals.len() < window.len() {
            window[j + arrivals.len()]
        } else {
            arrivals[j + arrivals.len() - window.len()]
        },
    decreases arrivals.len(),
{
    if arrivals.len() > 0 {
        let earlier = arrivals.drop_last();
        lemma_replay_index(window, earlier, j);
        if j + 1 < window.len() {
            lemma_replay_index(window, earlier, j + 1);
        }
    }
}

/// Once at least as many records have arrived as the ring has slots, the
/// ring holds exactly the last of them, oldest first, whatever it held
/// before; its pairs are one fewer than its slots and run from the newest
/// arrival back, each beside the arrival just before it.
pub proof fn lemma_full_replay_is_newest_first(window: Seq<Tick>, arrivals: Seq<Tick>)
    requires
        window.len() > 0,
        arrivals.len() >= window.len(),
    ensures
        replay(window, arrivals) == arrivals.subrange(
            arrivals.len() - window.len(),
            arrivals.len() as int,
        ),
        newest_first_pairs(replay(window, arrivals)).len() == window.len() - 1,
        forall|k: int|
            0 <= k < window.len() - 1 ==> #[trigger] newest_first_pairs(
                replay(window, arrivals),
            )[k] == (arrivals[arrivals.len() - 1 - k], arrivals[arrivals.len() - 2 - k]),
{
    let after = replay(window, arrivals);
    let tail = arrivals.subrange(arrivals.len() - window.len(), arrivals.len() as int);
    assert forall|j: int| 0 <= j < window.len() implies after[j] == tail[j] by {
        lemma_replay_index(window, arrivals, j);
    }
    lemma_replay_index(window, arrivals, 0);
    assert(after =~= tail);
}

/// The same arrivals, at least as many as there are slots, leave two rings
/// of the same size with the same records and the same pairs, whatever each
/// held at the start.
pub proof fn lemma_full_replay_forgets_start(
    first: Seq<Tick>,
    second: Seq<Tick>,
    arrivals: Seq<Tick>,
)
    requires
        first.len() > 0,
        first.len() == second.len(),
        arrivals.len() >= first.len(),
    ensures
        replay(first, arrivals) == replay(second, arrivals),
        newest_first_pairs(replay(first, arrivals)) == newest_first_pairs(
            replay(second, arrivals),
        ),
{
    lemma_full_replay_is_newest_first(first, arrivals);
    lemma_full_replay_is_newest_first(second, arrivals);
}

/// After any arrivals the newest record of the ring is the last arrival, and
/// each of the last arrivals, as many as the ring has slots, is in the ring:
/// arrival `i` of `n` stands `n - i` places from the end.
pub proof fn lemma_recent_records_are_kept(window: Seq<Tick>, arrivals: Seq<Tick>)
    requires
        window.len() > 0,
    ensures
        replay(window, arrivals).len() == window.len(),
        arrivals.len() > 0 ==> replay(window, arrivals).last() == arrivals.last(),
        forall|i: int|
            0 <= i < arrivals.len() && arrivals.len() - window.len() <= i ==> replay(
                window,
                arrivals,
            )[window.len() - arrivals.len() + i] == #[trigger] arrivals[i],
        forall|i: int|
            0 <= i < arrivals.len() && arrivals.len() - window.len() <= i ==> replay(
                window,
                arrivals,
            ).contains(#[trigger] arrivals[i]),
{
    let after = replay(window, arrivals);
    lemma_replay_index(window, arrivals, window.len() - 1);
    assert forall|i: int|
        0 <= i < arrivals.len() && arrivals.len() - window.len() <= i implies after[window.len()
        - arrivals.len() + i] == #[trigger] arrivals[i] && after.contains(arrivals[i]) by {
        lemma_replay_index(window, arrivals, window.len() - arrivals.len() + i);
    }
}

/// Once more records have arrived than the ring has slots, the first arrival
/// has been overwritten: unless one of the arrivals that the ring still
/// holds is equal to it, it is nowhere in the ring.
pub proof fn lemma_oldest_record_is_overwritten(window: Seq<Tick>, arrivals: Seq<Tick>)
    requires
        window.len() > 0,
        arrivals.len() > window.len(),
        forall|j: int|
            arrivals.len() - window.len() <= j < arrivals.len() ==> #[trigger] arrivals[j]
                != arrivals[0],
    ensures
        !replay(window, arrivals).contains(arrivals[0]),
{
    let after = replay(window, arrivals);
    lemma_replay_index(window, arrivals, 0);
    assert forall|j: int| 0 <= j < after.len() implies after[j] != arrivals[0] by {
        lemma_replay_index(window, arrivals, j);
    }
}

/// One step back is a subtraction modulo the number of slots.
pub proof fn lemma_prev_slot_is_modular(capacity: int, i: int)
    requires
        0 <= i < capacity,
    ensures
        0 <= prev_slot(capacity, i) < capacity,
        prev_slot(capacity, i) == (i - 1 + capacity) % capacity,
{
    let p = prev_slot(capacity, i);
    if i == 0 {
        assert(i - 1 + capacity == 0 * capacity + p);
        lemma_fundamental_div_mod_converse_mod(i - 1 + capacity, capacity, 0, p);
    } else {
        assert(i - 1 + capacity == 1 * capacity + p);
        lemma_fundamental_div_mod_converse_mod(i - 1 + capacity, capacity, 1, p);
    }
}

/// `k` steps back from slot `i` end on the slot `(i - k) mod capacity`,
/// which is also `(i - k + capacity * k) mod capacity`, a form that never
/// takes the remainder of a negative number.
pub proof fn lemma_slot_back_is_modular(capacity: int, i: int, k: nat)
    requires
        0 <= i < capacity,
    ensures
        0 <= slot_back(capacity, i, k) < capacity,
        slot_back(capacity, i, k) == (i - k) % capacity,
        slot_back(capacity, i, k) == (i - k + capacity * k) % capacity,
        i - k + capacity * k >= 0,
    decreases k,
{
    if k == 0 {
        assert(i == 0 * capacity + i);
        lemma_fundamental_div_mod_converse_mod(i, capacity, 0, i);
    } else {
        let before = slot_back(capacity, i, (k - 1) as nat);
        lemma_slot_back_is_modular(capacity, i, (k - 1) as nat);
        lemma_fundamental_div_mod(i - (k - 1), capacity);
        let q = (i - (k - 1)) / capacity;
        let here = prev_slot(capacity, before);
        if before == 0 {
            assert(i - k == (q - 1) * capacity + here) by (nonlinear_arith)
                requires
                    i - (k - 1) == capacity * q + before,
                    before == 0,
                    here == capacity - 1,
            ;
            lemma_fundamental_div_mod_converse_mod(i - k, capacity, q - 1, here);
        } else {
            assert(i - k == q * capacity + here) by (nonlinear_arith)
                requires
                    i - (k - 1) == capacity * q + before,
                    here == before - 1,
            ;
            lemma_fundamental_div_mod_converse_mod(i - k, capacity, q, here);
        }
    }
    lemma_mod_multiples_vanish(k as int, i - k, capacity);
    assert(capacity * k + (i - k) == i - k + capacity * k);
    assert(i - k + capacity * k >= 0) by (nonlinear_arith)
        requires
            0 <= i,
            capacity >= 1,
            k >= 0,
    ;
}

/// Fewer steps back than there are slots never go round twice: the walk
/// ends `k` slots lower, or, past the first slot, that far from the last.
pub proof fn lemma_slot_back_within_one_round(capacity: int, i: int, k: nat)
    requires
        0 <= i < capacity,
        k <= capacity,
    ensures
        slot_back(capacity, i, k) == if k <= i {
            i - k
        } else {
            i - k + capacity
        },
    decreases k,
{
    if k > 0 {
        lemma_slot_back_within_one_round(capacity, i, (k - 1) as nat);
    }
}

/// Whether a walk back from `start` ends on `slot` after fewer steps than
/// there are slots.
pub open spec fn reached_within_round(capacity: int, start: int, slot: int) -> bool {
    exists|k: nat| k < capacity && #[trigger] slot_back(capacity, start, k) == slot
}

/// A walk back from any slot, one step at a time, visits every slot exactly
/// once before it has made as many steps as there are slots: no two of
/// those steps end on the same slot, so none returns to the start, each
/// slot is reached, the first slot by exactly one step count, and the step
/// that completes the round ends on the start again.
pub proof fn lemma_walk_back_visits_each_slot_once(capacity: int, start: int)
    requires
        0 <= start < capacity,
    ensures
        forall|k: nat| k < capacity ==> 0 <= #[trigger] slot_back(capacity, start, k) < capacity,
        forall|a: nat, b: nat|
            a < b < capacity ==> #[trigger] slot_back(capacity, start, a) != #[trigger] slot_back(
                capacity,
                start,
                b,
            ),
        forall|k: nat| 0 < k < capacity ==> #[trigger] slot_back(capacity, start, k) != start,
        forall|slot: int|
            0 <= slot < capacity ==> #[trigger] reached_within_round(capacity, start, slot),
        forall|k: nat|
            k < capacity ==> (#[trigger] slot_back(capacity, start, k) == 0 <==> k == start),
        slot_back(capacity, start, capacity as nat) == start,
{
    assert forall|k: nat| k <= capacity implies #[trigger] slot_back(capacity, start, k) == if k
        <= start {
        start - k
    } else {
        start - k + capacity
    } by {
        lemma_slot_back_within_one_round(capacity, start, k);
    }
    assert forall|slot: int| 0 <= slot < capacity implies #[trigger] reached_within_round(
        capacity,
        start,
        slot,
    ) by {
        let k: nat = if slot <= start {
            (start - slot) as nat
        } else {
            (start - slot + capacity) as nat
        };
        assert(slot_back(capacity, start, k) == slot);
    }
}

/// The walk back from the newest slot meets the records from newest to
/// oldest: `k` steps back lies the record that arrived `k` records before
/// the newest.
pub proof fn lemma_walk_back_meets_older_records(slots: Seq<Tick>, cursor: int, k: nat)
    requires
        0 <= cursor < slots.len(),
        k < slots.len(),
    ensures
        0 <= slot_back(slots.len() as int, prev_slot(slots.len() as int, cursor), k) < slots.len(),
        slots[slot_back(slots.len() as int, prev_slot(slots.len() as int, cursor), k)]
            == chronological(slots, cursor)[slots.len() - 1 - k],
{
    let capacity = slots.len() as int;
    lemma_slot_back_within_one_round(capacity, prev_slot(capacity, cursor), k);
    assert(slot_back(capacity, prev_slot(capacity, cursor), k) == wrap(
        capacity,
        cursor,
        capacity - 1 - k,
    ));
}

/// Sliding a window by one record is replaying that one record.
pub proof fn lemma_slide_is_replay_of_one(window: Seq<Tick>, record: Tick)
    ensures
        replay(window, seq![record]) == slide(window, record),
{
    let one = seq![record];
    assert(one.drop_last() =~= Seq::<Tick>::empty());
    assert(replay(window, one.drop_last()) == window);
}

/// Replaying is one insert after another: a record that arrives after
/// `arrivals` slides the window that they left.
pub proof fn lemma_replay_push(window: Seq<Tick>, arrivals: Seq<Tick>, record: Tick)
    ensures
        replay(window, arrivals.push(record)) == slide(replay(window, arrivals), record),
{
    assert(arrivals.push(record).drop_last() =~= arrivals);
}

} // verus!
