//! What the servers are configured with.

use vstd::prelude::*;

pub mod character;
pub mod login;

verus! {

/// Where a server listens, and under what name.
#[derive(Debug)]
pub struct ServerConfig {
    pub name: String,
    pub address: String,
    pub port: u16,
}

} // verus!
