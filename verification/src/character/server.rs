//! What the sessions of a character server share: the table of tickets,
//! the stores and the starting equipment.

use vstd::prelude::*;
use crate::character::db::CharacterDB;
use crate::config::character::StartingCharacterConfig;
use crate::databases::authentication::AuthenticationDB;
use crate::databases::inventory::InventoryDB;

verus! {

/// The state of a character server that its connections share.
pub struct CharacterServer<C: CharacterDB, I: InventoryDB> {
    pub authentication_db: AuthenticationDB,
    pub character_db: C,
    pub inventory_db: I,
    pub starting_characters: StartingCharacterConfig,
}

impl<C: CharacterDB, I: InventoryDB> CharacterServer<C, I> {
    /// The character store is valid.
    pub open spec fn valid(&self) -> bool {
        self.character_db.valid()
    }

    /// A server over the given table of tickets, stores and starting equipment.
    pub fn new(
        authentication_db: AuthenticationDB,
        character_db: C,
        inventory_db: I,
        starting_characters: StartingCharacterConfig,
    ) -> (server: Self)
        requires
            character_db.valid(),
        ensures
            server.valid(),
            server.authentication_db == authentication_db,
            server.character_db == character_db,
            server.inventory_db == inventory_db,
            server.starting_characters == starting_characters,
    {
        CharacterServer { authentication_db, character_db, inventory_db, starting_characters }
    }
}

} // verus!
