//! The client side of the SCRAM (Salted Challenge Response Authentication
//! Mechanism) handshake: message construction, parsing, key derivation,
//! proof computation and server-signature verification, driven step by step
//! by whatever transport the caller owns. Four states form a linear
//! pipeline; each is consumed by its one step, so no step can be skipped,
//! repeated or reordered.

pub mod error;
pub mod strutil;
pub mod parse;
pub mod nonce;
pub mod crypto;
pub mod client;
pub mod external;

pub use error::{Error, Field, Kind};
pub use client::{ClientFirst, ServerFirst, ClientFinal, ServerFinal};
pub use parse::parse_server_first;

use vstd::prelude::*;

verus! {

/// Length of the generated client nonce, in characters.
pub const NONCE_LENGTH: usize = 24;

} // verus!
