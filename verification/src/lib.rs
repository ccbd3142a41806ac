//! A minimal authentication gateway.
//!
//! One shared password, checked against a stored bcrypt hash, buys a signed
//! short-lived session token; the token later authorizes a proxied call to an
//! upstream chat-completion API that carries a server-held credential.
use vstd::prelude::*;

pub mod auth;
pub mod credential;
pub mod json;
pub mod proxy;
pub mod token;

verus! {

/// The read-only configuration triple, built once at startup and shared by
/// every request handler.
pub struct Config {
    /// Salted bcrypt hash of the one accepted password. Never sent to a client.
    pub reference_hash: String,
    /// Secret that both signs and verifies session tokens.
    pub signing_secret: Vec<u8>,
    /// Credential attached to every upstream call. Never sent to a client.
    pub api_key: String,
}

/// A plain HTTP reply: a status code and a body text.
pub struct HttpReply {
    pub status: u16,
    pub body: String,
}

} // verus!
