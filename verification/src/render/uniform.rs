//! The pool of uniform slots that the draws of the frames in flight write to.
//!
//! A slot is free, or held by the frame that renders to one swapchain image. A
//! draw claims the first free slot and the pool grows where none is free, so a
//! slot that a frame in flight may still read is never handed out again before
//! that frame's slots are released.

use vstd::prelude::*;

verus! {

/// The first free slot at or after `start`, or the number of slots where there
/// is none.
pub open spec fn first_free_from(owners: Seq<Option<usize>>, start: int) -> int
    decreases owners.len() - start,
{
    if start < 0 || start >= owners.len() {
        owners.len() as int
    } else if owners[start] is None {
        start
    } else {
        first_free_from(owners, start + 1)
    }
}

/// The slot that the next claim gets: the first free one, or a new one at the
/// end.
pub open spec fn first_free(owners: Seq<Option<usize>>) -> int {
    first_free_from(owners, 0)
}

/// The slots after the frame of `image` has claimed one.
pub open spec fn claimed(owners: Seq<Option<usize>>, image: usize) -> Seq<Option<usize>> {
    let slot = first_free(owners);
    if slot < owners.len() {
        owners.update(slot, Some(image))
    } else {
        owners.push(Some(image))
    }
}

/// The slots after the frame of `image` has claimed `count` of them.
pub open spec fn claimed_many(owners: Seq<Option<usize>>, image: usize, count: nat) -> Seq<
    Option<usize>,
>
    decreases count,
{
    if count == 0 {
        owners
    } else {
        claimed(claimed_many(owners, image, (count - 1) as nat), image)
    }
}

/// The slot of the claim with number `index`, counted from zero, in a row of
/// claims by the frame of `image`.
pub open spec fn slot_of(owners: Seq<Option<usize>>, image: usize, index: nat) -> int {
    first_free(claimed_many(owners, image, index))
}

/// The slots after those of the frame of `image` have been set free.
pub open spec fn released(owners: Seq<Option<usize>>, image: usize) -> Seq<Option<usize>> {
    Seq::new(
        owners.len(),
        |slot: int|
            if owners[slot] == Some(image) {
                None
            } else {
                owners[slot]
            },
    )
}

/// The first free slot at or after `start` lies between `start` and the end,
/// every slot from `start` up to it is held, and it is free unless it is the
/// end.
pub proof fn lemma_first_free_from(owners: Seq<Option<usize>>, start: int)
    requires
        0 <= start <= owners.len(),
    ensures
        start <= first_free_from(owners, start) <= owners.len(),
        forall|slot: int| start <= slot < first_free_from(owners, start) ==> owners[slot] is Some,
        first_free_from(owners, start) < owners.len() ==> owners[first_free_from(
            owners,
            start,
        )] is None,
    decreases owners.len() - start,
{
    if start < owners.len() && owners[start] is Some {
        lemma_first_free_from(owners, start + 1);
    }
}

/// A claim keeps the number of slots or adds one, gives the claimed slot to the
/// frame and leaves every other slot as it was.
pub proof fn lemma_claimed(owners: Seq<Option<usize>>, image: usize)
    ensures
        0 <= first_free(owners) <= owners.len(),
        first_free(owners) < owners.len() ==> owners[first_free(owners)] is None,
        claimed(owners, image).len() == if first_free(owners) < owners.len() {
            owners.len()
        } else {
            owners.len() + 1
        },
        claimed(owners, image)[first_free(owners)] == Some(image),
        forall|slot: int|
            0 <= slot < owners.len() && slot != first_free(owners) ==> claimed(owners, image)[slot]
                == owners[slot],
        forall|slot: int| 0 <= slot < owners.len() && owners[slot] is Some ==> slot != first_free(owners),
{
    lemma_first_free_from(owners, 0);
}

/// A row of claims never shrinks the pool, leaves every slot that was held to
/// its holder, and gives every other slot that it changes or adds to the frame.
pub proof fn lemma_claimed_many(owners: Seq<Option<usize>>, image: usize, count: nat)
    ensures
        owners.len() <= claimed_many(owners, image, count).len() <= owners.len() + count,
        forall|slot: int|
            0 <= slot < owners.len() && owners[slot] is Some ==> claimed_many(owners, image, count)[slot]
                == owners[slot],
        forall|slot: int|
            0 <= slot < claimed_many(owners, image, count).len() ==> {
                ||| #[trigger] claimed_many(owners, image, count)[slot] == Some(image)
                ||| (slot < owners.len() && claimed_many(owners, image, count)[slot] == owners[slot])
            },
    decreases count,
{
    if count > 0 {
        let before = claimed_many(owners, image, (count - 1) as nat);
        lemma_claimed_many(owners, image, (count - 1) as nat);
        lemma_claimed(before, image);
        let after = claimed_many(owners, image, count);
        assert(after == claimed(before, image));
        assert forall|slot: int| 0 <= slot < after.len() implies {
            ||| #[trigger] after[slot] == Some(image)
            ||| (slot < owners.len() && after[slot] == owners[slot])
        } by {
            if slot != first_free(before) {
                assert(slot < before.len());
                assert(after[slot] == before[slot]);
            }
        }
    }
}

/// No slot is handed out while a frame holds it: the slot of every claim in a
/// row was free before the row began, or did not exist yet.
pub proof fn lemma_slot_was_free(owners: Seq<Option<usize>>, image: usize, index: nat)
    ensures
        0 <= slot_of(owners, image, index),
        slot_of(owners, image, index) < owners.len() ==> owners[slot_of(owners, image, index)] is None,
{
    let before = claimed_many(owners, image, index);
    lemma_claimed_many(owners, image, index);
    lemma_claimed(before, image);
}

/// After a claim, the slot that it got stays held through the claims that
/// follow.
proof fn lemma_slot_stays_held(owners: Seq<Option<usize>>, image: usize, index: nat, later: nat)
    requires
        index < later,
    ensures
        0 <= slot_of(owners, image, index) < claimed_many(owners, image, later).len(),
        claimed_many(owners, image, later)[slot_of(owners, image, index)] is Some,
    decreases later,
{
    let before = claimed_many(owners, image, (later - 1) as nat);
    let after = claimed_many(owners, image, later);
    let slot = slot_of(owners, image, index);
    assert(after == claimed(before, image));
    lemma_claimed(before, image);
    lemma_claimed(claimed_many(owners, image, index), image);
    if index + 1 < later {
        lemma_slot_stays_held(owners, image, index, (later - 1) as nat);
        assert(before[slot] is Some);
        assert(after[slot] == before[slot]);
    } else {
        assert(slot == first_free(before));
        assert(after[slot] == Some(image));
    }
}

/// Two claims in one row never get the same slot.
pub proof fn lemma_slots_distinct(owners: Seq<Option<usize>>, image: usize, first: nat, second: nat)
    requires
        first != second,
    ensures
        slot_of(owners, image, first) != slot_of(owners, image, second),
{
    if first < second {
        lemma_slot_stays_held(owners, image, first, second);
        lemma_claimed(claimed_many(owners, image, second), image);
    } else {
        lemma_slot_stays_held(owners, image, second, first);
        lemma_claimed(claimed_many(owners, image, first), image);
    }
}

/// After a release the frame holds no slot, and every slot of another frame is
/// as it was.
pub proof fn lemma_released(owners: Seq<Option<usize>>, image: usize)
    ensures
        released(owners, image).len() == owners.len(),
        forall|slot: int| 0 <= slot < owners.len() ==> released(owners, image)[slot] != Some(image),
        forall|slot: int|
            0 <= slot < owners.len() && owners[slot] != Some(image) ==> released(owners, image)[slot]
                == owners[slot],
{
}

/// The pool of uniform slots. It grows on demand and never shrinks.
pub struct UniformPool {
    /// For each slot, the swapchain image of the frame that holds it, if any.
    pub owners: Vec<Option<usize>>,
}

impl View for UniformPool {
    type V = Seq<Option<usize>>;

    open spec fn view(&self) -> Seq<Option<usize>> {
        self.owners@
    }
}

impl UniformPool {
    /// A pool without slots.
    pub fn new() -> (pool: UniformPool)
        ensures
            pool@ == Seq::<Option<usize>>::empty(),
    {
        UniformPool { owners: Vec::new() }
    }

    /// Claims the first free slot for the frame that renders to `image`, adding
    /// a slot where none is free, and returns its number.
    pub fn next(&mut self, image: usize) -> (slot: usize)
        ensures
            slot == first_free(old(self)@),
            final(self)@ == claimed(old(self)@, image),
    {
        let mut slot: usize = 0;
        while slot < self.owners.len() && self.owners[slot].is_some()
            invariant
                slot <= self.owners.len(),
                self.owners == old(self).owners,
                first_free(self@) == first_free_from(self@, slot as int),
            decreases self.owners.len() - slot,
        {
            slot = slot + 1;
        }
        if slot < self.owners.len() {
            self.owners.set(slot, Some(image));
        } else {
            self.owners.push(Some(image));
        }
        slot
    }

    /// Sets free every slot that the frame of `image` holds.
    pub fn release(&mut self, image: usize)
        ensures
            final(self)@ == released(old(self)@, image),
    {
        let mut slot: usize = 0;
        while slot < self.owners.len()
            invariant
                slot <= self.owners.len(),
                self.owners.len() == old(self).owners.len(),
                forall|k: int| 0 <= k < slot ==> self@[k] == released(old(self)@, image)[k],
                forall|k: int| slot <= k < self.owners.len() ==> self@[k] == old(self)@[k],
            decreases self.owners.len() - slot,
        {
            let held = match self.owners[slot] {
                Some(owner) => owner == image,
                None => false,
            };
            assert(held == (old(self)@[slot as int] == Some(image)));
            if held {
                self.owners.set(slot, None);
            }
            assert(self@[slot as int] == released(old(self)@, image)[slot as int]);
            slot = slot + 1;
        }
        assert(self@ =~= released(old(self)@, image));
    }
}

} // verus!
