//! The player's inventory and what its slots show.

use vstd::prelude::*;

verus! {

/// Number of slots that the inventory bar shows.
pub const SLOT_COUNT: usize = 3;

/// The kind of an item.
#[derive(Clone, Copy, Debug, PartialEq, Eq)]
pub enum InventoryItemType {
    Consumable,
    Equipment,
}

/// A thing that can be carried.
#[derive(Clone, Debug, PartialEq, Eq)]
pub struct Item {
    pub name: String,
    pub item_type: InventoryItemType,
}

/// An item that lies in the scene and can be picked up.
#[derive(Clone, Debug, PartialEq, Eq)]
pub struct ItemOnGround {
    pub item: Item,
}

/// What the player carries.
#[derive(Debug, PartialEq, Eq)]
pub struct Inventory {
    pub items: Vec<Item>,
    pub inventory_size: usize,
}

impl Default for Inventory {
    /// An inventory that holds nothing.
    fn default() -> (inventory: Inventory)
        ensures
            inventory.items@.len() == 0,
            inventory.inventory_size == 0,
    {
        Inventory { items: Vec::new(), inventory_size: 0 }
    }
}

impl Inventory {
    /// Puts an item behind those that are carried already.
    pub fn pick_up(&mut self, item: Item)
        ensures
            final(self).items@ == old(self).items@.push(item),
            final(self).inventory_size == old(self).inventory_size,
    {
        self.items.push(item);
    }

    /// The name that a slot of the inventory bar shows: that of the item at
    /// the slot's place, where there is one. A slot without an item keeps the
    /// text it has.
    pub fn slot_label(&self, slot: usize) -> (label: Option<&String>)
        ensures
            slot < self.items@.len() ==> label == Some(&self.items@[slot as int].name),
            slot >= self.items@.len() ==> label is None,
    {
        if slot < self.items.len() {
            Some(&self.items[slot].name)
        } else {
            None
        }
    }
}

/// The text of a slot that has never shown an item.
pub fn empty_slot_label() -> (label: &'static str)
    ensures
        label@ == "Nothing"@,
{
    "Nothing"
}

} // verus!
