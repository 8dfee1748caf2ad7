//! A map server as the character server sees it.

use vstd::prelude::*;
use crate::account::db::AccountId;

verus! {

/// Why a map server could not do what it was asked.
#[derive(Debug, Clone, Copy, PartialEq, Eq, Structural)]
pub enum MapServerError {
    /// The map server could not be reached.
    Failed,
}

/// What a character server may ask of a map server.
pub trait MapServer {
    fn character_selected(&self) -> Result<(), MapServerError>;

    fn change_server(&self) -> Result<(), MapServerError>;

    fn get_maps(&self) -> Result<Vec<u32>, MapServerError>;

    fn get_accounts(&self) -> Result<Vec<AccountId>, MapServerError>;

    fn send_player_count(&self) -> Result<(), MapServerError>;
}

} // verus!
