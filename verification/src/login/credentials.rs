//! What a client presents to log in.

use vstd::prelude::*;

verus! {

/// Width of a user name or clear-text password field.
pub const NAME_WIDTH: usize = 24;

/// Width of a hashed password.
pub const HASH_WIDTH: usize = 16;

/// The three ways in which a client may prove who it is.
#[allow(inconsistent_fields)]
#[derive(Debug)]
pub enum LoginCredentials {
    OTP { client_type: u8, account_name: String, password: Vec<u8> },
    Hashed { client_type: u8, username: [u8; NAME_WIDTH], password: [u8; HASH_WIDTH] },
    ClearText { client_type: u8, username: [u8; NAME_WIDTH], password: [u8; NAME_WIDTH] },
}

/// The mathematical value of [`LoginCredentials`].
#[allow(inconsistent_fields)]
pub enum CredentialsView {
    OTP { client_type: u8, account_name: Seq<char>, password: Seq<u8> },
    Hashed { client_type: u8, username: Seq<u8>, password: Seq<u8> },
    ClearText { client_type: u8, username: Seq<u8>, password: Seq<u8> },
}

impl View for LoginCredentials {
    type V = CredentialsView;

    open spec fn view(&self) -> CredentialsView {
        match self {
            LoginCredentials::OTP { client_type, account_name, password } => CredentialsView::OTP {
                client_type: *client_type,
                account_name: account_name@,
                password: password@,
            },
            LoginCredentials::Hashed { client_type, username, password } => CredentialsView::Hashed {
                client_type: *client_type,
                username: username@,
                password: password@,
            },
            LoginCredentials::ClearText {
                client_type,
                username,
                password,
            } => CredentialsView::ClearText {
                client_type: *client_type,
                username: username@,
                password: password@,
            },
        }
    }
}

} // verus!
