use vstd::prelude::*;

verus! {

// ---------------------------------------------------------------------------
// Names for the results of the cryptographic collaborators.
//
// Each stands for the result of one outside function, as a function of its
// arguments alone. Nothing in this crate claims to know these values on given
// inputs; the contracts of the trusted wrappers below apply them, and the
// rest of the library is verified against those contracts.
// ---------------------------------------------------------------------------

/// The SHA-256 digest of `data`.
pub uninterp spec fn sha256_of(data: Seq<u8>) -> Seq<u8>;

/// The HMAC-SHA-256 tag over `data` under `key`.
pub uninterp spec fn hmac_sha256_of(key: Seq<u8>, data: Seq<u8>) -> Seq<u8>;

/// The 32-byte PBKDF2-HMAC-SHA-256 derivation from `secret` with `salt` and
/// `iterations` rounds.
pub uninterp spec fn pbkdf2_sha256_of(iterations: u32, salt: Seq<u8>, secret: Seq<u8>) -> Seq<u8>;

/// The standard padded base64 encoding of `data`.
pub uninterp spec fn base64_of(data: Seq<u8>) -> Seq<char>;

/// The standard padded base64 decoding of `text`: `None` where `text` is not
/// valid base64.
pub uninterp spec fn base64_decode_of(text: Seq<char>) -> Option<Seq<u8>>;

// ---------------------------------------------------------------------------
// Declared outside types.
// ---------------------------------------------------------------------------

/// `data_encoding::DecodeError` describes why a base64 decode failed.
#[verifier::external_type_specification]
#[verifier::external_body]
pub struct ExDecodeError(data_encoding::DecodeError);

// ---------------------------------------------------------------------------
// Trusted wrappers around the outside calls.
// ---------------------------------------------------------------------------

/// Relies on `ring::digest::digest` with `SHA256`: a digest of the data
/// alone, 32 bytes long.
#[verifier::external_body]
pub(crate) fn sha256(data: &[u8]) -> (r: Vec<u8>)
    ensures
        r@ == sha256_of(data@),
        r@.len() == 32,
{
    ring::digest::digest(&ring::digest::SHA256, data).as_ref().to_vec()
}

/// Relies on `ring::hmac::Key::new` and `ring::hmac::sign` with
/// `HMAC_SHA256`: a tag determined by the key and the data alone, 32 bytes
/// long.
#[verifier::external_body]
pub(crate) fn hmac_sha256(key: &[u8], data: &[u8]) -> (r: Vec<u8>)
    ensures
        r@ == hmac_sha256_of(key@, data@),
        r@.len() == 32,
{
    let key = ring::hmac::Key::new(ring::hmac::HMAC_SHA256, key);
    ring::hmac::sign(&key, data).as_ref().to_vec()
}

/// Relies on `ring::pbkdf2::derive` with `PBKDF2_HMAC_SHA256`: fills the
/// 32-byte output from the secret, the salt and the iteration count alone.
/// `derive` takes the iteration count as a `NonZeroU32`, so zero is ruled
/// out here.
#[verifier::external_body]
pub(crate) fn pbkdf2_sha256(iterations: u32, salt: &[u8], secret: &[u8]) -> (r: Vec<u8>)
    requires
        iterations >= 1,
    ensures
        r@ == pbkdf2_sha256_of(iterations, salt@, secret@),
        r@.len() == 32,
{
    let mut out = vec![0u8; 32];
    let iterations = core::num::NonZeroU32::new(iterations).unwrap();
    ring::pbkdf2::derive(ring::pbkdf2::PBKDF2_HMAC_SHA256, iterations, salt, secret, &mut out);
    out
}

/// Relies on `data_encoding::BASE64.encode`: the padded base64 encoding of
/// the input, which `BASE64.decode` decodes back to the input.
#[verifier::external_body]
pub(crate) fn base64_encode(data: &[u8]) -> (r: String)
    ensures
        r@ == base64_of(data@),
        base64_decode_of(r@) == Some(data@),
{
    data_encoding::BASE64.encode(data)
}

/// Relies on `data_encoding::BASE64.decode`: decodes valid padded base64 and
/// reports an error on any other input, from the input alone.
#[verifier::external_body]
pub(crate) fn base64_decode(text: &str) -> (r: Result<Vec<u8>, data_encoding::DecodeError>)
    ensures
        r matches Ok(v) ==> base64_decode_of(text@) == Some(v@),
        r matches Err(_) ==> base64_decode_of(text@) is None,
{
    data_encoding::BASE64.decode(text.as_bytes())
}

/// Relies on `rand::rngs::OsRng::try_fill_bytes`: fills the buffer with
/// bytes from the operating system's secure random source, or returns `None`
/// where that source is unavailable. Nothing is promised of the bytes
/// themselves.
#[verifier::external_body]
pub(crate) fn os_random_bytes(n: usize) -> (r: Option<Vec<u8>>)
    ensures
        r matches Some(v) ==> v@.len() == n,
{
    let mut buf = vec![0u8; n];
    match rand::RngCore::try_fill_bytes(&mut rand::rngs::OsRng, &mut buf) {
        Ok(()) => Some(buf),
        Err(_) => None,
    }
}

/// Relies on `String::push`: appends exactly the given character.
#[verifier::external_body]
pub(crate) fn push_char(s: &mut String, c: char)
    ensures
        final(s)@ == old(s)@.push(c),
{
    s.push(c)
}

} // verus!
