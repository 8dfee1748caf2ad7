//! Accounts and the account store interface.

pub mod db;
pub mod mmo_account;
