//! The inventory engine: an ordered collection of items and the operation
//! that advances every item by one simulated day, in stored order, in place.

use vstd::prelude::*;

use crate::item::{can_tick, model_ticked, Item, ItemModel};

verus! {

/// Every item in the sequence is within the machine limits of a tick.
pub open spec fn all_can_tick(items: Seq<ItemModel>) -> bool {
    forall|i: int| 0 <= i < items.len() ==> can_tick(#[trigger] items[i])
}

/// One day of the whole inventory: every item advanced once, in order.
pub open spec fn all_ticked(items: Seq<ItemModel>) -> Seq<ItemModel> {
    items.map_values(|m: ItemModel| model_ticked(m))
}

/// `n` days of the whole inventory.
pub open spec fn all_ticked_n(items: Seq<ItemModel>, n: nat) -> Seq<ItemModel>
    decreases n,
{
    if n == 0 {
        items
    } else {
        all_ticked(all_ticked_n(items, (n - 1) as nat))
    }
}

/// The shop's inventory: the ordered items it was built from, never added
/// to or removed from afterwards, only mutated in place by ticks.
#[derive(Debug, PartialEq, Eq)]
pub struct GildedRose {
    pub items: Vec<Item>,
}

impl View for GildedRose {
    type V = Seq<ItemModel>;

    open spec fn view(&self) -> Seq<ItemModel> {
        self.items@.map_values(|it: Item| it@)
    }
}

impl GildedRose {
    /// Builds the inventory from the caller's items, kept in their order.
    pub fn new(items: Vec<Item>) -> (r: GildedRose)
        ensures
            r.items@ == items@,
    {
        GildedRose { items }
    }

    /// Advances simulated time by exactly one day: applies the matching
    /// category rule to every item, in stored order, exactly once each.
    pub fn tick(&mut self)
        requires
            all_can_tick(old(self)@),
        ensures
            final(self)@ == all_ticked(old(self)@),
    {
        let ghost orig: Seq<ItemModel> = self@;
        let mut i: usize = 0;
        while i < self.items.len()
            invariant
                i <= self.items@.len(),
                self.items@.len() == orig.len(),
                forall|j: int| 0 <= j < i ==> self.items@[j]@ == model_ticked(#[trigger] orig[j]),
                forall|j: int| i <= j < orig.len() ==> self.items@[j]@ == #[trigger] orig[j],
                all_can_tick(orig),
            decreases self.items@.len() - i,
        {
            proof {
                assert(self.items@[i as int]@ == orig[i as int]);
                assert(can_tick(orig[i as int]));
            }
            self.items[i].tick();
            i += 1;
        }
        proof {
            assert(self@ =~= all_ticked(orig));
        }
    }
}

/// Ticking is deterministic, with no hidden state: two inventories that hold
/// equal item states hold equal item states again after any same number of
/// days.
pub proof fn lemma_ticking_deterministic(a: Seq<ItemModel>, b: Seq<ItemModel>, n: nat)
    requires
        a == b,
    ensures
        all_ticked_n(a, n) == all_ticked_n(b, n),
{
}

} // verus!
