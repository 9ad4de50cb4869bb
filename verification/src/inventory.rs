//! What the user owns: items, and how many of each.

use vstd::prelude::*;
use crate::response::ShortItem;
use crate::stable::lemma_filter_empty;
use crate::text::{contains_text, is_infix, lowercase, to_lowercase};

verus! {

/// An item and how many of it the user owns.
#[derive(Clone, Debug, PartialEq)]
pub struct InventoryEntry {
    pub item: ShortItem,
    pub amount: u16,
}

/// Whether `a` and `b` are the same item: they agree in every field.
pub open spec fn same_item(a: ShortItem, b: ShortItem) -> bool {
    &&& a.url_name@ == b.url_name@
    &&& a.thumb@ == b.thumb@
    &&& a.id@ == b.id@
    &&& a.item_name@ == b.item_name@
}

/// Whether `a` and `b` are the same item.
pub fn is_same_item(a: &ShortItem, b: &ShortItem) -> (same: bool)
    ensures
        same == same_item(*a, *b),
{
    a.url_name == b.url_name && a.thumb == b.thumb && a.id == b.id && a.item_name == b.item_name
}

/// Whether no item stands twice in `entries`.
pub open spec fn no_item_twice(entries: Seq<InventoryEntry>) -> bool {
    forall|i: int, j: int|
        0 <= i < j < entries.len() ==> !same_item(
            (#[trigger] entries[i]).item,
            (#[trigger] entries[j]).item,
        )
}

/// The place of `item` in `entries`, or `None` where it is not there.
pub open spec fn place_of(entries: Seq<InventoryEntry>, item: ShortItem) -> Option<int> {
    if exists|i: int| 0 <= i < entries.len() && same_item((#[trigger] entries[i]).item, item) {
        Some(choose|i: int| 0 <= i < entries.len() && same_item((#[trigger] entries[i]).item, item))
    } else {
        None
    }
}

/// How many of `item` the entries hold: the amount of its entry, or nothing
/// where it has none.
pub open spec fn amount_in(entries: Seq<InventoryEntry>, item: ShortItem) -> nat {
    match place_of(entries, item) {
        Some(i) => entries[i].amount as nat,
        None => 0,
    }
}

/// The entries whose amount is not zero.
pub open spec fn in_stock() -> spec_fn(InventoryEntry) -> bool {
    |e: InventoryEntry| e.amount != 0
}

/// The inventory: for each item that was put in, how many there are. No
/// item has two entries.
#[derive(Debug, PartialEq)]
pub struct Inventory {
    entries: Vec<InventoryEntry>,
}

impl Clone for Inventory {
    fn clone(&self) -> (copy: Inventory)
        ensures
            copy@ == self@,
    {
        proof {
            use_type_invariant(self);
        }
        let mut entries: Vec<InventoryEntry> = Vec::new();
        let mut i: usize = 0;
        while i < self.entries.len()
            invariant
                i <= self.entries.len(),
                entries@ == self.entries@.take(i as int),
            decreases self.entries.len() - i,
        {
            proof {
                self.entries@.lemma_take_succ_push(i as int);
            }
            entries.push(
                InventoryEntry {
                    item: self.entries[i].item.clone(),
                    amount: self.entries[i].amount,
                },
            );
            i += 1;
        }
        proof {
            self.entries@.lemma_take_len();
        }
        Inventory { entries }
    }
}

impl View for Inventory {
    type V = Seq<InventoryEntry>;

    closed spec fn view(&self) -> Seq<InventoryEntry> {
        self.entries@
    }
}

impl Inventory {
    #[verifier::type_invariant]
    spec fn inv(self) -> bool {
        no_item_twice(self.entries@)
    }

    /// The empty inventory.
    pub fn new() -> (inventory: Inventory)
        ensures
            inventory@ == Seq::<InventoryEntry>::empty(),
    {
        Inventory { entries: Vec::new() }
    }

    /// The entries, in the order in which the items were first put in. No
    /// item has two of them.
    pub fn entries(&self) -> (entries: &Vec<InventoryEntry>)
        ensures
            entries@ == self@,
            no_item_twice(self@),
    {
        proof {
            use_type_invariant(self);
        }
        &self.entries
    }

    pub fn is_empty(&self) -> (empty: bool)
        ensures
            empty == (self@.len() == 0),
    {
        self.entries.len() == 0
    }

    /// The place of the entry of `item`, or `None` where it has none.
    pub fn find(&self, item: &ShortItem) -> (place: Option<usize>)
        ensures
            no_item_twice(self@),
            place is Some ==> place->Some_0 < self@.len() && same_item(
                self@[place->Some_0 as int].item,
                *item,
            ),
            place is None ==> forall|i: int|
                0 <= i < self@.len() ==> !same_item((#[trigger] self@[i]).item, *item),
            place is Some <==> place_of(self@, *item) is Some,
            place is Some ==> place->Some_0 as int == place_of(self@, *item)->Some_0,
    {
        proof {
            use_type_invariant(self);
        }
        let mut i: usize = 0;
        while i < self.entries.len()
            invariant
                i <= self.entries.len(),
                no_item_twice(self@),
                forall|j: int| 0 <= j < i ==> !same_item((#[trigger] self@[j]).item, *item),
            decreases self.entries.len() - i,
        {
            if is_same_item(&self.entries[i].item, item) {
                proof {
                    // The entry is the only one of the item.
                    let found = place_of(self@, *item)->Some_0;
                    assert(same_item(self@[i as int].item, *item));
                    assert(same_item(self@[found].item, *item));
                    if found < i {
                        assert(!same_item(self@[found].item, self@[i as int].item));
                    } else if found > i {
                        assert(!same_item(self@[i as int].item, self@[found].item));
                    }
                }
                return Some(i);
            }
            i += 1;
        }
        None
    }

    /// How many of `item` there are.
    pub fn amount_of(&self, item: &ShortItem) -> (amount: u16)
        ensures
            amount as nat == amount_in(self@, *item),
    {
        match self.find(item) {
            Some(place) => self.entries[place].amount,
            None => 0,
        }
    }

    /// Puts `amount` more of `item` into the inventory: on top of what is
    /// there of it, or as a new entry behind the others.
    pub fn insert_item(&mut self, item: ShortItem, amount: u16)
        requires
            amount_in(old(self)@, item) + amount <= u16::MAX,
        ensures
            match place_of(old(self)@, item) {
                Some(place) => final(self)@ == old(self)@.update(
                    place,
                    InventoryEntry {
                        item: old(self)@[place].item,
                        amount: (old(self)@[place].amount + amount) as u16,
                    },
                ),
                None => final(self)@ == old(self)@.push(InventoryEntry { item, amount }),
            },
    {
        let place = self.find(&item);
        let mut entries: Vec<InventoryEntry> = Vec::new();
        core::mem::swap(&mut self.entries, &mut entries);
        let ghost given = entries@;
        match place {
            Some(place) => {
                let entry = entries.remove(place);
                entries.insert(
                    place,
                    InventoryEntry { item: entry.item, amount: entry.amount + amount },
                );
                proof {
                    assert(entries@ =~= given.update(
                        place as int,
                        InventoryEntry {
                            item: given[place as int].item,
                            amount: (given[place as int].amount + amount) as u16,
                        },
                    ));
                    assert forall|i: int, j: int| 0 <= i < j < entries@.len() implies !same_item(
                        (#[trigger] entries@[i]).item,
                        (#[trigger] entries@[j]).item,
                    ) by {
                        assert(entries@[i].item == given[i].item);
                        assert(entries@[j].item == given[j].item);
                    }
                }
            },
            None => {
                entries.push(InventoryEntry { item, amount });
                proof {
                    assert forall|i: int, j: int| 0 <= i < j < entries@.len() implies !same_item(
                        (#[trigger] entries@[i]).item,
                        (#[trigger] entries@[j]).item,
                    ) by {
                        if j < given.len() {
                            assert(entries@[i] == given[i] && entries@[j] == given[j]);
                        } else {
                            assert(entries@[i] == given[i]);
                        }
                    }
                }
            },
        }
        core::mem::swap(&mut self.entries, &mut entries);
    }

    /// Sets the amount of the entry at `place` to `amount`. Returns `false`,
    /// and changes nothing, where there is no such entry.
    pub fn set_amount(&mut self, place: usize, amount: u16) -> (done: bool)
        ensures
            done == (place < old(self)@.len()),
            !done ==> final(self)@ == old(self)@,
            done ==> final(self)@ == old(self)@.update(
                place as int,
                InventoryEntry { item: old(self)@[place as int].item, amount },
            ),
    {
        proof {
            use_type_invariant(&*self);
        }
        if place >= self.entries.len() {
            return false;
        }
        let mut entries: Vec<InventoryEntry> = Vec::new();
        core::mem::swap(&mut self.entries, &mut entries);
        let ghost given = entries@;
        let entry = entries.remove(place);
        entries.insert(place, InventoryEntry { item: entry.item, amount });
        proof {
            assert(entries@ =~= given.update(
                place as int,
                InventoryEntry { item: given[place as int].item, amount },
            ));
            assert forall|i: int, j: int| 0 <= i < j < entries@.len() implies !same_item(
                (#[trigger] entries@[i]).item,
                (#[trigger] entries@[j]).item,
            ) by {
                assert(entries@[i].item == given[i].item);
                assert(entries@[j].item == given[j].item);
            }
        }
        core::mem::swap(&mut self.entries, &mut entries);
        true
    }

    /// Removes the entries of which nothing is left.
    pub fn cleanup(&mut self)
        ensures
            final(self)@ == old(self)@.filter(in_stock()),
    {
        proof {
            use_type_invariant(&*self);
        }
        let mut given: Vec<InventoryEntry> = Vec::new();
        core::mem::swap(&mut self.entries, &mut given);
        let mut kept: Vec<InventoryEntry> = Vec::new();
        let mut i: usize = 0;
        proof {
            lemma_filter_empty(in_stock());
            assert(given@.take(0) =~= Seq::<InventoryEntry>::empty());
        }
        while i < given.len()
            invariant
                i <= given.len(),
                kept@ == given@.take(i as int).filter(in_stock()),
            decreases given.len() - i,
        {
            proof {
                given@.lemma_take_succ_push(i as int);
                given@.take(i as int).lemma_filter_push(given@[i as int], in_stock());
            }
            if given[i].amount != 0 {
                kept.push(InventoryEntry { item: given[i].item.clone(), amount: given[i].amount });
            }
            i += 1;
        }
        proof {
            given@.lemma_take_len();
            lemma_filter_keeps_no_item_twice(given@);
        }
        core::mem::swap(&mut self.entries, &mut kept);
    }
}

/// Taking entries out does not bring an item in twice.
pub proof fn lemma_filter_keeps_no_item_twice(entries: Seq<InventoryEntry>)
    requires
        no_item_twice(entries),
    ensures
        no_item_twice(entries.filter(in_stock())),
    decreases entries.len(),
{
    if entries.len() == 0 {
        lemma_filter_empty(in_stock());
        assert(entries =~= Seq::<InventoryEntry>::empty());
    } else {
        let front = entries.drop_last();
        let last = entries.last();
        assert(entries =~= front.push(last));
        front.lemma_filter_push(last, in_stock());
        assert forall|i: int, j: int| 0 <= i < j < front.len() implies !same_item(
            (#[trigger] front[i]).item,
            (#[trigger] front[j]).item,
        ) by {
            assert(front[i] == entries[i] && front[j] == entries[j]);
        }
        lemma_filter_keeps_no_item_twice(front);
        let kept = front.filter(in_stock());
        if in_stock()(last) {
            let all = kept.push(last);
            assert forall|i: int, j: int| 0 <= i < j < all.len() implies !same_item(
                (#[trigger] all[i]).item,
                (#[trigger] all[j]).item,
            ) by {
                if j == kept.len() {
                    front.lemma_filter_contains_rev(in_stock(), kept[i]);
                    let k = choose|k: int| 0 <= k < front.len() && front[k] == kept[i];
                    assert(entries[k] == kept[i]);
                    assert(!same_item(entries[k].item, entries[entries.len() - 1].item));
                } else {
                    assert(all[i] == kept[i] && all[j] == kept[j]);
                }
            }
        }
    }
}

/// Whether the inventory window shows `item` to a user who searches for
/// `search`: `search` occurs in the name of the item put in lower case.
pub open spec fn shown_for(item: ShortItem, search: Seq<char>) -> bool {
    is_infix(search, lowercase(item.item_name@))
}

/// Whether `search` occurs in `lowered`, the name of an item in lower case.
pub fn name_matches(lowered: &str, search: &str) -> (shown: bool)
    ensures
        shown == is_infix(search@, lowered@),
{
    contains_text(lowered, search)
}

/// Whether a search for `search` finds `item`.
pub fn matches_search(item: &ShortItem, search: &str) -> (shown: bool)
    ensures
        shown == shown_for(*item, search@),
{
    let lowered = to_lowercase(item.item_name.as_str());
    name_matches(lowered.as_str(), search)
}

/// The places in `items` of the items that a search for `search` finds, in
/// ascending order.
pub open spec fn found_among(items: Seq<ShortItem>, search: Seq<char>, n: nat) -> Seq<usize>
    decreases n,
{
    if n == 0 {
        Seq::empty()
    } else {
        let before = found_among(items, search, (n - 1) as nat);
        if shown_for(items[n - 1], search) {
            before.push((n - 1) as usize)
        } else {
            before
        }
    }
}

/// The places in `items` of the items whose name, put in lower case, holds
/// `search`.
pub fn search_items(items: &Vec<ShortItem>, search: &str) -> (found: Vec<usize>)
    ensures
        found@ == found_among(items@, search@, items@.len()),
{
    let mut found: Vec<usize> = Vec::new();
    let mut i: usize = 0;
    while i < items.len()
        invariant
            i <= items.len(),
            found@ == found_among(items@, search@, i as nat),
        decreases items.len() - i,
    {
        if matches_search(&items[i], search) {
            found.push(i);
        }
        i += 1;
    }
    found
}

/// How many of the items found are listed: fifteen at most.
pub fn rows_shown(found: usize) -> (rows: usize)
    ensures
        rows == if found < 15 {
            found
        } else {
            15
        },
{
    if found < 15 {
        found
    } else {
        15
    }
}

} // verus!
