//! Login and character-selection services of a Ragnarok Online server:
//! the framed wire codec, the in-memory stores, the login agent and the
//! per-connection sessions, with their behaviour stated as contracts.

pub mod account;
pub mod character;
pub mod character_server;
pub mod clock;
pub mod codec;
pub mod config;
pub mod databases;
pub mod error;
pub mod inventory;
pub mod login;
pub mod map;
pub mod map_server;
pub mod pincode;
pub mod random;
pub mod text;
pub mod utils;
