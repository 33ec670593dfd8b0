use vstd::prelude::*;

verus! {

/// The protocol field that a structural error refers to.
#[derive(Debug, Clone, Copy, PartialEq, Eq, Structural)]
pub enum Field {
    /// The `r=` nonce field of a server message.
    Nonce,
    /// The `s=` salt field of the first server message.
    Salt,
    /// The `i=` iteration-count field of the first server message.
    Iterations,
    /// The `v=` or `e=` field of the final server message.
    VerifyOrError,
}

/// The kind of a structural protocol error.
#[derive(Debug, Clone, Copy, PartialEq, Eq, Structural)]
pub enum Kind {
    /// A required field is missing or does not carry its tag.
    ExpectedField(Field),
    /// A field is present but its payload cannot be decoded.
    InvalidField(Field),
    /// The server nonce does not extend the client nonce.
    InvalidNonce,
}

/// Everything that can go wrong during a handshake.
///
/// Every error is fatal to the handshake: a caller that wants to retry must
/// start over with a fresh nonce.
#[derive(Debug, PartialEq, Eq)]
pub enum Error {
    /// The server message is structurally malformed.
    Protocol(Kind),
    /// The server demands a mandatory extension this client cannot honor.
    UnsupportedExtension,
    /// The server failed to prove knowledge of the shared key: its final
    /// proof does not match the retained server signature. Distinct from a
    /// credential failure — it points at a hostile or misconfigured server.
    InvalidServer,
    /// The server rejected the client's credentials, with the reason it gave.
    Authentication(String),
    /// No secure random source was available when the handshake was set up.
    Setup,
}

} // verus!
