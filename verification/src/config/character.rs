//! Configuration of the character server.

use vstd::prelude::*;
use crate::character::attributes::Location;
use crate::config::ServerConfig;
use crate::inventory::Item;

verus! {

/// Everything that the character server is configured with.
#[derive(Debug)]
pub struct Config {
    pub char_server: ServerConfig,
    pub character_db: CharacterDBConfig,
    pub starting_characters: StartingCharacterConfig,
    pub maps: MapConfig,
}

/// What new characters start with, by the class they start in.
#[derive(Debug)]
pub struct StartingCharacterConfig {
    pub novice: StartingCharacter,
    pub doram: StartingCharacter,
}

/// What a new character of one class starts with.
#[derive(Debug)]
pub struct StartingCharacter {
    pub items: Vec<Item>,
    pub location: Location,
}

/// Where the table of map names is read from.
#[derive(Debug)]
pub struct MapConfig {
    pub names_file: String,
}

/// Which character store to use.
#[derive(Debug)]
pub enum CharacterDBConfig {
    InMemory { verbose: bool },
}

} // verus!
