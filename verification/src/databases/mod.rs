//! The in-memory stores.

pub mod account;
pub mod authentication;
pub mod character;
pub mod inventory;
pub mod laws;
