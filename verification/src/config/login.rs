//! Configuration of the login server.

use vstd::prelude::*;

verus! {

/// Everything that the login server is configured with.
#[derive(Debug)]
pub struct Config {
    pub account_db: AccountDBConfig,
    pub login_server: LoginServerConfig,
    pub char_servers: Vec<CharacterServerConfig>,
}

/// Which account store to use.
#[derive(Debug)]
pub enum AccountDBConfig {
    InMemory { verbose: bool },
    SQL {  },
}

/// Where the login server listens.
#[derive(Debug)]
pub struct LoginServerConfig {
    pub address: String,
    pub port: u16,
}

/// One character server that the login server advertises.
#[derive(Debug)]
pub struct CharacterServerConfig {
    pub name: String,
    pub address: String,
    pub port: u16,
}

} // verus!
