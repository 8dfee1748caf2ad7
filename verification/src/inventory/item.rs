//! One kind of thing in an inventory.

use vstd::prelude::*;

verus! {

/// Whether an item counts as identified where nothing is said of it.
pub fn default_is_identified() -> (identified: bool)
    ensures
        identified,
{
    true
}

/// A stack of one kind of item in one slot of an inventory.
#[derive(Clone, Copy, Debug, PartialEq, Eq, Structural)]
pub struct Item {
    pub id: ItemId,
    pub slot: u16,
    pub amount: u16,
    pub identified: bool,
    pub equipped_slot: Option<u8>,
}

/// The number that a kind of item is known by.
#[derive(Clone, Copy, Debug, PartialEq, Eq, Structural)]
pub struct ItemId(pub u32);

} // verus!
