//! A character server as the login server sees it.

use vstd::prelude::*;

verus! {

/// Why a character server could not do what it was asked.
#[derive(Debug, Clone, Copy, PartialEq, Eq, Structural)]
pub enum ConnectError {
    /// The character server could not be reached.
    Failed,
}

/// What a login server may ask of a character server.
pub trait CharacterServer {
    /// Attaches the map server `name`, which is to be reached at the IPv4
    /// address `ip`.
    fn connect_map_server(&self, name: &str, ip: u32) -> Result<(), ConnectError>;

    fn ping(&self) -> Result<(), ConnectError>;
}

} // verus!
