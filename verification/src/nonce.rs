use vstd::prelude::*;
use crate::NONCE_LENGTH;
use crate::error::Error;
use crate::external::{os_random_bytes, push_char};

verus! {

/// The nonce character one sample from the printable sampling range 33..=124
/// maps to: the sample is the character's code point, except that every
/// value above the comma's code point is moved up by one, so the comma
/// itself is never produced.
pub open spec fn nonce_char_of(b: u8) -> char {
    if b > 43 {
        ((b + 1) as u8) as char
    } else {
        b as char
    }
}

/// Whether a character may appear in a client nonce: printable, and never
/// the comma that separates protocol fields.
pub open spec fn is_nonce_char(c: char) -> bool {
    33 <= c as u32 && c as u32 <= 125 && c != ','
}

pub proof fn lemma_nonce_char_valid(b: u8)
    requires
        33 <= b <= 124,
    ensures
        is_nonce_char(nonce_char_of(b)),
{
}

/// Builds the nonce string from one sample per character; every sample must
/// lie in the printable sampling range.
pub(crate) fn nonce_from_bytes(bytes: &Vec<u8>) -> (r: String)
    requires
        forall|i: int| 0 <= i < bytes@.len() ==> 33 <= #[trigger] bytes@[i] <= 124,
    ensures
        r@.len() == bytes@.len(),
        forall|i: int| 0 <= i < bytes@.len() ==> r@[i] == nonce_char_of(bytes@[i]),
{
    let mut r = String::new();
    let mut i: usize = 0;
    while i < bytes.len()
        invariant
            i <= bytes@.len(),
            r@.len() == i,
            forall|j: int| 0 <= j < bytes@.len() ==> 33 <= #[trigger] bytes@[j] <= 124,
            forall|j: int| 0 <= j < i ==> r@[j] == nonce_char_of(bytes@[j]),
        decreases bytes@.len() - i,
    {
        let b = bytes[i];
        let c: char = if b > 43 {
            (b + 1) as char
        } else {
            b as char
        };
        push_char(&mut r, c);
        i += 1;
    }
    r
}

/// Draws a fresh client nonce from the operating system's secure random
/// source: a fixed number of printable characters, never containing the
/// field separator. Each raw byte is folded into the printable sampling
/// range before the comma-skipping remap.
pub(crate) fn generate_nonce() -> (r: Result<String, Error>)
    ensures
        r matches Ok(s) ==> s@.len() == NONCE_LENGTH && (forall|i: int|
            0 <= i < s@.len() ==> is_nonce_char(#[trigger] s@[i])),
        r matches Err(e) ==> e == Error::Setup,
{
    match os_random_bytes(NONCE_LENGTH) {
        Some(bytes) => {
            let mut samples: Vec<u8> = Vec::new();
            let mut i: usize = 0;
            while i < bytes.len()
                invariant
                    i <= bytes@.len(),
                    samples@.len() == i,
                    forall|j: int| 0 <= j < i ==> 33 <= #[trigger] samples@[j] <= 124,
                decreases bytes@.len() - i,
            {
                let s: u8 = 33 + (bytes[i] % 92);
                samples.push(s);
                i += 1;
            }
            let s = nonce_from_bytes(&samples);
            proof {
                assert forall|i: int| 0 <= i < s@.len() implies is_nonce_char(
                    #[trigger] s@[i],
                ) by {
                    lemma_nonce_char_valid(samples@[i]);
                }
            }
            Ok(s)
        },
        None => Err(Error::Setup),
    }
}

} // verus!
