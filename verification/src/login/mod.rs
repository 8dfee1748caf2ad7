//! The login protocol: requests, responses and their codec.

pub mod agent;
pub mod codec;
pub mod credentials;
pub mod error;
pub mod laws;
pub mod request;
pub mod response;
pub mod server;
pub mod session;
