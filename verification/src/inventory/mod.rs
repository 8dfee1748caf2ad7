//! What a character carries.

use vstd::prelude::*;
use crate::character::db::CharacterId;

pub mod item;

pub use item::{Item, ItemId};

verus! {

/// The items that one character carries.
#[derive(Debug)]
pub struct Inventory {
    pub character_id: CharacterId,
    pub items: Vec<Item>,
}

/// The mathematical value of an [`Inventory`].
pub struct InventoryView {
    pub character_id: CharacterId,
    pub items: Seq<Item>,
}

impl View for Inventory {
    type V = InventoryView;

    open spec fn view(&self) -> InventoryView {
        InventoryView { character_id: self.character_id, items: self.items@ }
    }
}

/// A copy of a list of items.
pub fn copy_items(items: &Vec<Item>) -> (copy: Vec<Item>)
    ensures
        copy@ == items@,
{
    let mut copy: Vec<Item> = Vec::new();
    let mut i: usize = 0;
    while i < items.len()
        invariant
            i <= items@.len(),
            copy@ == items@.take(i as int),
        decreases items@.len() - i,
    {
        copy.push(items[i]);
        i = i + 1;
        assert(copy@ =~= items@.take(i as int));
    }
    assert(items@.take(items@.len() as int) =~= items@);
    copy
}

impl Clone for Inventory {
    fn clone(&self) -> (copy: Self)
        ensures
            copy@ == self@,
    {
        Inventory { character_id: self.character_id, items: copy_items(&self.items) }
    }
}

impl Inventory {
    /// The empty inventory of `character_id`.
    pub fn new(character_id: CharacterId) -> (inventory: Self)
        ensures
            inventory@ == (InventoryView { character_id, items: Seq::<Item>::empty() }),
    {
        Inventory { character_id, items: Vec::new() }
    }
}

} // verus!
