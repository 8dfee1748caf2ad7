//! The inventory store and its in-memory form.

use vstd::prelude::*;
use crate::character::db::CharacterId;
use crate::inventory::{Inventory, InventoryView};

verus! {

/// Why an operation of the inventory store failed.
#[derive(Debug, Clone, Copy, PartialEq, Eq, Structural)]
pub enum Error {
    NoSuchCharacter(CharacterId),
}

/// What an operation of the inventory store answers.
pub type DBResult<T> = Result<T, Error>;

/// A store of inventories, one for each character that has one.
pub trait InventoryDB {
    /// The inventories that the store holds, by character.
    spec fn inventories(&self) -> Map<CharacterId, InventoryView>;

    /// Files `inventory` under its character, in place of what was there.
    fn create(&mut self, inventory: Inventory) -> (r: DBResult<()>)
        ensures
            r is Ok,
            final(self).inventories() == old(self).inventories().insert(
                inventory.character_id,
                inventory@,
            ),
    ;

    /// The inventory of `character_id`, or `NoSuchCharacter`.
    fn get(&self, character_id: CharacterId) -> (r: DBResult<Inventory>)
        ensures
            self.inventories().contains_key(character_id) ==> (r matches Ok(inventory)
                && inventory@ == self.inventories()[character_id]),
            !self.inventories().contains_key(character_id) ==> r == Err::<Inventory, Error>(
                Error::NoSuchCharacter(character_id),
            ),
    ;

    /// Files `inventory` under its character, in place of what was there.
    fn update(&mut self, inventory: &Inventory) -> (r: DBResult<()>)
        ensures
            r is Ok,
            final(self).inventories() == old(self).inventories().insert(
                inventory.character_id,
                inventory@,
            ),
    ;
}

/// The inventories that a table holds, by character.
pub uninterp spec fn inventory_entries(table: dashmap::DashMap<CharacterId, Inventory>) -> Map<
    CharacterId,
    InventoryView,
>;

/// `DashMap::new`: a table made this way holds nothing.
#[verifier::external_body]
fn inventories_new() -> (table: dashmap::DashMap<CharacterId, Inventory>)
    ensures
        forall|id: CharacterId| !inventory_entries(table).contains_key(id),
{
    dashmap::DashMap::new()
}

/// `DashMap::insert`: the table holds `inventory` under `key`, in place of
/// what was there, and is otherwise as before.
#[verifier::external_body]
fn inventories_insert(
    table: &mut dashmap::DashMap<CharacterId, Inventory>,
    key: CharacterId,
    inventory: Inventory,
)
    ensures
        inventory_entries(*final(table)) == inventory_entries(*old(table)).insert(key, inventory@),
{
    table.insert(key, inventory);
}

/// `DashMap::get`, with a copy of the value made by [`Inventory::clone`]:
/// what the table holds under `key`, if anything.
#[verifier::external_body]
fn inventories_get(table: &dashmap::DashMap<CharacterId, Inventory>, key: CharacterId) -> (found:
    Option<Inventory>)
    ensures
        match found {
            Some(inventory) => inventory_entries(*table).contains_key(key) && inventory@
                == inventory_entries(*table)[key],
            None => !inventory_entries(*table).contains_key(key),
        },
{
    table.get(&key).map(|entry| entry.value().clone())
}

/// Inventories by character, in a concurrent map.
pub struct InMemoryInventoryDB {
    pub verbose: bool,
    pub db: dashmap::DashMap<CharacterId, Inventory>,
}

impl InMemoryInventoryDB {
    /// An empty store.
    pub fn new(verbose: bool) -> (store: Self)
        ensures
            store.inventories() == Map::<CharacterId, InventoryView>::empty(),
    {
        let store = InMemoryInventoryDB { verbose, db: inventories_new() };
        assert(store.inventories() =~= Map::<CharacterId, InventoryView>::empty());
        store
    }
}

impl InventoryDB for InMemoryInventoryDB {
    open spec fn inventories(&self) -> Map<CharacterId, InventoryView> {
        inventory_entries(self.db)
    }

    fn create(&mut self, inventory: Inventory) -> (r: DBResult<()>) {
        let key = inventory.character_id;
        inventories_insert(&mut self.db, key, inventory);
        Ok(())
    }

    fn get(&self, character_id: CharacterId) -> (r: DBResult<Inventory>) {
        match inventories_get(&self.db, character_id) {
            Some(inventory) => Ok(inventory),
            None => Err(Error::NoSuchCharacter(character_id)),
        }
    }

    fn update(&mut self, inventory: &Inventory) -> (r: DBResult<()>) {
        inventories_insert(&mut self.db, inventory.character_id, inventory.clone());
        Ok(())
    }
}

} // verus!
