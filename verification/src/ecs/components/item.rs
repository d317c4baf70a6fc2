// Item components: ground items, the inventory and the equipment slots.

use vstd::prelude::*;
use crate::shared::ItemType;

verus! {

/// An item lying on the ground.
#[derive(Debug, Clone)]
pub struct ItemDrop {
    pub item_id: u32,
    pub item_index: u16,
    pub count: u32,
    /// Owner with pick-up protection
    pub owner_id: Option<u32>,
}

/// A ground item entity; `I` is the item record.
#[derive(Debug, Clone)]
pub struct GroundItem<I> {
    pub object_id: u32,
    pub item: I,
    /// Amount of gold when the item is gold
    pub gold_amount: u32,
}

/// The index of the first empty slot at or after `i`, or the length when there is none.
pub open spec fn first_empty_from<I>(items: Seq<Option<I>>, i: int) -> int
    decreases items.len() - i,
{
    if i >= items.len() || i < 0 {
        items.len() as int
    } else if items[i] is None {
        i
    } else {
        first_empty_from(items, i + 1)
    }
}

/// The index of the first empty slot, or the length when every slot is full.
pub open spec fn first_empty_slot<I>(items: Seq<Option<I>>) -> int {
    first_empty_from(items, 0)
}

/// The slot that `first_empty_from` finds, when inside the bag, is empty and
/// lies at or after `i`.
proof fn lemma_first_empty_from_is_empty<I>(items: Seq<Option<I>>, i: int)
    requires
        0 <= i,
        first_empty_from(items, i) < items.len(),
    ensures
        i <= first_empty_from(items, i),
        items[first_empty_from(items, i)] is None,
    decreases items.len() - i,
{
    if i < items.len() && items[i] is Some {
        lemma_first_empty_from_is_empty(items, i + 1);
    }
}

/// Taking the item out of the slot that adding it filled gives the item back
/// and leaves the bag as it was before the item was added.
pub proof fn lemma_remove_undoes_add<I>(items: Seq<Option<I>>, item: I)
    requires
        first_empty_slot(items) < items.len(),
    ensures
        ({
            let k = first_empty_slot(items);
            let added = items.update(k, Some(item));
            &&& 0 <= k < added.len()
            &&& added[k] == Some(item)
            &&& added.update(k, None) == items
        }),
{
    lemma_first_empty_from_is_empty(items, 0);
    let k = first_empty_slot(items);
    assert(items.update(k, Some(item)).update(k, None) =~= items);
}

/// The player's bag: slots that hold an item or nothing, and the gold.
#[derive(Debug, Clone)]
pub struct Inventory<I> {
    /// Slots; `None` is an empty slot
    pub items: Vec<Option<I>>,
    /// Number of slots (40 by default)
    pub capacity: usize,
    /// Gold carried
    pub gold: u32,
    /// Current weight
    pub current_weight: u16,
    /// Maximum weight
    pub max_weight: u16,
}

impl<I> Inventory<I> {
    pub fn new(capacity: usize) -> (inv: Self)
        ensures
            inv.items@.len() == capacity,
            forall|i: int| 0 <= i < capacity ==> #[trigger] inv.items@[i] is None,
            inv.capacity == capacity,
            inv.gold == 0,
            inv.current_weight == 0,
            inv.max_weight == 100,
    {
        let mut items: Vec<Option<I>> = Vec::new();
        let mut n: usize = 0;
        while n < capacity
            invariant
                n <= capacity,
                items@.len() == n,
                forall|i: int| 0 <= i < n ==> #[trigger] items@[i] is None,
            decreases capacity - n,
        {
            items.push(None);
            n = n + 1;
        }
        Inventory { items, capacity, gold: 0, current_weight: 0, max_weight: 100 }
    }

    /// Puts the item in the first empty slot; reports false when every slot is full.
    pub fn add_item(&mut self, item: I) -> (added: bool)
        ensures
            added == (first_empty_slot(old(self).items@) < old(self).items@.len()),
            added ==> final(self).items@ == old(self).items@.update(
                first_empty_slot(old(self).items@),
                Some(item),
            ),
            !added ==> final(self).items@ == old(self).items@,
            final(self).capacity == old(self).capacity,
            final(self).gold == old(self).gold,
            final(self).current_weight == old(self).current_weight,
            final(self).max_weight == old(self).max_weight,
    {
        let ghost old_items = self.items@;
        let mut i: usize = 0;
        while i < self.items.len()
            invariant
                i <= self.items@.len(),
                self.items@ == old_items,
                self.capacity == old(self).capacity,
                self.gold == old(self).gold,
                self.current_weight == old(self).current_weight,
                self.max_weight == old(self).max_weight,
                old_items == old(self).items@,
                first_empty_slot(old_items) == first_empty_from(old_items, i as int),
            decreases self.items@.len() - i,
        {
            if self.items[i].is_none() {
                self.items.set(i, Some(item));
                return true;
            }
            i = i + 1;
        }
        false
    }

    /// Takes the item out of a slot, leaving it empty.
    pub fn remove_item(&mut self, slot_index: usize) -> (r: Option<I>)
        ensures
            slot_index < old(self).items@.len() ==> r == old(self).items@[slot_index as int]
                && final(self).items@ == old(self).items@.update(slot_index as int, None),
            slot_index >= old(self).items@.len() ==> r is None
                && final(self).items@ == old(self).items@,
            final(self).capacity == old(self).capacity,
            final(self).gold == old(self).gold,
            final(self).current_weight == old(self).current_weight,
            final(self).max_weight == old(self).max_weight,
    {
        if slot_index < self.items.len() {
            let mut taken: Option<I> = None;
            std::mem::swap(&mut taken, &mut self.items[slot_index]);
            taken
        } else {
            None
        }
    }

    /// The item in a slot, if any.
    pub fn get_item(&self, slot_index: usize) -> (r: Option<&I>)
        ensures
            slot_index < self.items@.len() ==> r == match self.items@[slot_index as int] {
                Some(it) => Some(&it),
                None => None,
            },
            slot_index >= self.items@.len() ==> r is None,
    {
        if slot_index < self.items.len() {
            self.items[slot_index].as_ref()
        } else {
            None
        }
    }

    pub fn set_gold(&mut self, gold: u32)
        ensures
            final(self).gold == gold,
            final(self).items@ == old(self).items@,
            final(self).capacity == old(self).capacity,
            final(self).current_weight == old(self).current_weight,
            final(self).max_weight == old(self).max_weight,
    {
        self.gold = gold;
    }

    /// Adds gold, saturating at the largest amount.
    pub fn add_gold(&mut self, amount: u32)
        ensures
            final(self).gold == if old(self).gold + amount > u32::MAX {
                u32::MAX as int
            } else {
                old(self).gold + amount
            },
            final(self).items@ == old(self).items@,
            final(self).capacity == old(self).capacity,
            final(self).current_weight == old(self).current_weight,
            final(self).max_weight == old(self).max_weight,
    {
        self.gold = self.gold.saturating_add(amount);
    }

    /// Takes gold out when there is enough; reports whether it did.
    pub fn remove_gold(&mut self, amount: u32) -> (ok: bool)
        ensures
            ok == (old(self).gold >= amount),
            final(self).gold == if ok {
                old(self).gold - amount
            } else {
                old(self).gold as int
            },
            final(self).items@ == old(self).items@,
            final(self).capacity == old(self).capacity,
            final(self).current_weight == old(self).current_weight,
            final(self).max_weight == old(self).max_weight,
    {
        if self.gold >= amount {
            self.gold = self.gold - amount;
            true
        } else {
            false
        }
    }
}

impl<I> Default for Inventory<I> {
    fn default() -> (inv: Self)
        ensures
            inv.items@.len() == 40,
            forall|i: int| 0 <= i < 40 ==> #[trigger] inv.items@[i] is None,
            inv.capacity == 40,
            inv.gold == 0,
    {
        Self::new(40)
    }
}

/// The equipment slots of a character; `I` is the item record.
#[derive(Debug, Clone)]
pub struct Equipment<I> {
    pub weapon: Option<I>,
    pub armour: Option<I>,
    pub helmet: Option<I>,
    pub necklace: Option<I>,
    pub bracelet_l: Option<I>,
    pub bracelet_r: Option<I>,
    pub ring_l: Option<I>,
    pub ring_r: Option<I>,
    pub amulet: Option<I>,
    pub belt: Option<I>,
    pub boots: Option<I>,
    pub stone: Option<I>,
    pub torch: Option<I>,
    pub mount: Option<I>,
}

/// The slot that an item type goes to by default; bracelets and rings take the left one.
pub open spec fn slot_for_type(t: ItemType) -> Option<u8> {
    match t {
        ItemType::Weapon => Some(0u8),
        ItemType::Armour => Some(1u8),
        ItemType::Helmet => Some(2u8),
        ItemType::Necklace => Some(3u8),
        ItemType::Bracelet => Some(4u8),
        ItemType::Ring => Some(6u8),
        ItemType::Amulet => Some(8u8),
        ItemType::Belt => Some(9u8),
        ItemType::Boots => Some(10u8),
        ItemType::Stone => Some(11u8),
        ItemType::Torch => Some(12u8),
        ItemType::Mount => Some(13u8),
        _ => None,
    }
}

impl<I> Equipment<I> {
    /// The content of a slot; slots 0 to 13 exist.
    pub open spec fn slot(self, s: int) -> Option<I> {
        if s == 0 {
            self.weapon
        } else if s == 1 {
            self.armour
        } else if s == 2 {
            self.helmet
        } else if s == 3 {
            self.necklace
        } else if s == 4 {
            self.bracelet_l
        } else if s == 5 {
            self.bracelet_r
        } else if s == 6 {
            self.ring_l
        } else if s == 7 {
            self.ring_r
        } else if s == 8 {
            self.amulet
        } else if s == 9 {
            self.belt
        } else if s == 10 {
            self.boots
        } else if s == 11 {
            self.stone
        } else if s == 12 {
            self.torch
        } else if s == 13 {
            self.mount
        } else {
            None
        }
    }

    pub fn new() -> (e: Self)
        ensures
            forall|s: int| #[trigger] e.slot(s) is None,
    {
        Equipment {
            weapon: None,
            armour: None,
            helmet: None,
            necklace: None,
            bracelet_l: None,
            bracelet_r: None,
            ring_l: None,
            ring_r: None,
            amulet: None,
            belt: None,
            boots: None,
            stone: None,
            torch: None,
            mount: None,
        }
    }

    /// The default slot for an item type.
    pub fn get_slot_for_type(&self, item_type: ItemType) -> (r: Option<u8>)
        ensures
            r == slot_for_type(item_type),
    {
        match item_type {
            ItemType::Weapon => Some(0),
            ItemType::Armour => Some(1),
            ItemType::Helmet => Some(2),
            ItemType::Necklace => Some(3),
            ItemType::Bracelet => Some(4),
            ItemType::Ring => Some(6),
            ItemType::Amulet => Some(8),
            ItemType::Belt => Some(9),
            ItemType::Boots => Some(10),
            ItemType::Stone => Some(11),
            ItemType::Torch => Some(12),
            ItemType::Mount => Some(13),
            _ => None,
        }
    }

    fn slot_mut(&mut self, slot: u8) -> (r: &mut Option<I>)
        requires
            slot <= 13,
        ensures
            *r == old(self).slot(slot as int),
            forall|s: int| s != slot ==> #[trigger] final(self).slot(s) == old(self).slot(s),
            final(self).slot(slot as int) == *final(r),
    {
        match slot {
            0 => &mut self.weapon,
            1 => &mut self.armour,
            2 => &mut self.helmet,
            3 => &mut self.necklace,
            4 => &mut self.bracelet_l,
            5 => &mut self.bracelet_r,
            6 => &mut self.ring_l,
            7 => &mut self.ring_r,
            8 => &mut self.amulet,
            9 => &mut self.belt,
            10 => &mut self.boots,
            11 => &mut self.stone,
            12 => &mut self.torch,
            _ => &mut self.mount,
        }
    }

    /// Puts an item in a slot and hands back what was there; a slot past 13
    /// does not exist, and nothing changes.
    pub fn equip(&mut self, slot: u8, item: I) -> (prev: Option<I>)
        ensures
            slot <= 13 ==> prev == old(self).slot(slot as int) && final(self).slot(slot as int)
                == Some(item),
            slot > 13 ==> prev is None && *final(self) == *old(self),
            forall|s: int| s != slot ==> #[trigger] final(self).slot(s) == old(self).slot(s),
    {
        if slot > 13 {
            return None;
        }
        let r = self.slot_mut(slot);
        let prev = r.take();
        *r = Some(item);
        prev
    }

    /// Empties a slot and hands back what was there.
    pub fn unequip(&mut self, slot: u8) -> (prev: Option<I>)
        ensures
            prev == old(self).slot(slot as int),
            final(self).slot(slot as int) is None,
            slot > 13 ==> *final(self) == *old(self),
            forall|s: int| s != slot ==> #[trigger] final(self).slot(s) == old(self).slot(s),
    {
        if slot > 13 {
            return None;
        }
        let r = self.slot_mut(slot);
        r.take()
    }
}

impl<I> Default for Equipment<I> {
    fn default() -> (e: Self)
        ensures
            forall|s: int| #[trigger] e.slot(s) is None,
    {
        Self::new()
    }
}

/// Each wearable type goes to the slot that holds its own field: a weapon
/// to the weapon, armour to the armour, a helmet to the helmet, and so on,
/// the left one for bracelets and rings. No two types share a slot, and
/// every slot a type goes to exists.
pub proof fn lemma_type_slots_hold_their_fields<I>(e: Equipment<I>)
    ensures
        e.slot(slot_for_type(ItemType::Weapon)->0 as int) == e.weapon,
        e.slot(slot_for_type(ItemType::Armour)->0 as int) == e.armour,
        e.slot(slot_for_type(ItemType::Helmet)->0 as int) == e.helmet,
        e.slot(slot_for_type(ItemType::Necklace)->0 as int) == e.necklace,
        e.slot(slot_for_type(ItemType::Bracelet)->0 as int) == e.bracelet_l,
        e.slot(slot_for_type(ItemType::Ring)->0 as int) == e.ring_l,
        e.slot(slot_for_type(ItemType::Amulet)->0 as int) == e.amulet,
        e.slot(slot_for_type(ItemType::Belt)->0 as int) == e.belt,
        e.slot(slot_for_type(ItemType::Boots)->0 as int) == e.boots,
        e.slot(slot_for_type(ItemType::Stone)->0 as int) == e.stone,
        e.slot(slot_for_type(ItemType::Torch)->0 as int) == e.torch,
        e.slot(slot_for_type(ItemType::Mount)->0 as int) == e.mount,
        forall|t: ItemType| #[trigger] slot_for_type(t) matches Some(s) ==> s <= 13,
        forall|t: ItemType, u: ItemType|
            t != u && #[trigger] slot_for_type(t) is Some && #[trigger] slot_for_type(u) is Some
                ==> slot_for_type(t) != slot_for_type(u),
{
}

} // verus!
