use vstd::prelude::*;
use crate::external::{hmac_sha256_of, pbkdf2_sha256_of, sha256_of};

verus! {

/// Byte-wise XOR of two equally long byte strings.
pub open spec fn xor_bytes(a: Seq<u8>, b: Seq<u8>) -> Seq<u8> {
    Seq::new(a.len(), |i: int| a[i] ^ b[i])
}

pub(crate) fn xor_vec(a: &Vec<u8>, b: &Vec<u8>) -> (r: Vec<u8>)
    requires
        a@.len() == b@.len(),
    ensures
        r@ == xor_bytes(a@, b@),
{
    let mut r: Vec<u8> = Vec::new();
    let mut i: usize = 0;
    while i < a.len()
        invariant
            i <= a@.len(),
            a@.len() == b@.len(),
            r@.len() == i,
            forall|j: int| 0 <= j < i ==> r@[j] == (a@[j] ^ b@[j]),
        decreases a@.len() - i,
    {
        let x = a[i] ^ b[i];
        r.push(x);
        i += 1;
    }
    assert(r@ =~= xor_bytes(a@, b@));
    r
}

proof fn lemma_or_zero(x: u8, y: u8)
    ensures
        (x | y) == 0 <==> (x == 0 && y == 0),
{
    assert((x | y) == 0 <==> (x == 0 && y == 0)) by (bit_vector);
}

proof fn lemma_xor_zero(x: u8, y: u8)
    ensures
        (x ^ y) == 0 <==> x == y,
{
    assert((x ^ y) == 0 <==> x == y) by (bit_vector);
}

/// Compares two byte strings without a data-dependent early exit: every
/// byte pair is folded into an accumulator, so the running time does not
/// reveal where the first mismatch sits. The proof comparisons at the end
/// are security-sensitive, so they go through this and never through `==`.
pub(crate) fn constant_time_eq(a: &Vec<u8>, b: &Vec<u8>) -> (r: bool)
    ensures
        r == (a@ == b@),
{
    if a.len() != b.len() {
        proof {
            assert(a@ != b@);
        }
        return false;
    }
    let mut diff: u8 = 0;
    let mut i: usize = 0;
    while i < a.len()
        invariant
            i <= a@.len(),
            a@.len() == b@.len(),
            (diff == 0) <==> (forall|j: int| 0 <= j < i ==> a@[j] == b@[j]),
        decreases a@.len() - i,
    {
        let x = a[i] ^ b[i];
        proof {
            lemma_or_zero(diff, a@[i as int] ^ b@[i as int]);
            lemma_xor_zero(a@[i as int], b@[i as int]);
        }
        diff = diff | x;
        i += 1;
    }
    if diff == 0 {
        proof {
            assert(a@ =~= b@);
        }
        true
    } else {
        proof {
            if a@ == b@ {
                assert(forall|j: int| 0 <= j < a@.len() ==> a@[j] == b@[j]);
            }
        }
        false
    }
}

/// The bytes of the key-derivation label `"Client Key"`.
pub open spec fn spec_client_key_label() -> Seq<u8> {
    seq![
        'C' as u8,
        'l' as u8,
        'i' as u8,
        'e' as u8,
        'n' as u8,
        't' as u8,
        ' ' as u8,
        'K' as u8,
        'e' as u8,
        'y' as u8,
    ]
}

/// The bytes of the key-derivation label `"Server Key"`.
pub open spec fn spec_server_key_label() -> Seq<u8> {
    seq![
        'S' as u8,
        'e' as u8,
        'r' as u8,
        'v' as u8,
        'e' as u8,
        'r' as u8,
        ' ' as u8,
        'K' as u8,
        'e' as u8,
        'y' as u8,
    ]
}

pub(crate) fn client_key_label() -> (r: Vec<u8>)
    ensures
        r@ == spec_client_key_label(),
{
    let r = vec![
        'C' as u8,
        'l' as u8,
        'i' as u8,
        'e' as u8,
        'n' as u8,
        't' as u8,
        ' ' as u8,
        'K' as u8,
        'e' as u8,
        'y' as u8,
    ];
    assert(r@ =~= spec_client_key_label());
    r
}

pub(crate) fn server_key_label() -> (r: Vec<u8>)
    ensures
        r@ == spec_server_key_label(),
{
    let r = vec![
        'S' as u8,
        'e' as u8,
        'r' as u8,
        'v' as u8,
        'e' as u8,
        'r' as u8,
        ' ' as u8,
        'K' as u8,
        'e' as u8,
        'y' as u8,
    ];
    assert(r@ =~= spec_server_key_label());
    r
}

/// SaltedPassword: the PBKDF2-HMAC-SHA-256 derivation from the password
/// with the server-supplied salt and iteration count.
pub open spec fn spec_salted_password(password: Seq<u8>, salt: Seq<u8>, iterations: u16) -> Seq<u8> {
    pbkdf2_sha256_of(iterations as u32, salt, password)
}

/// ClientKey: HMAC(SaltedPassword, "Client Key").
pub open spec fn spec_client_key(salted_password: Seq<u8>) -> Seq<u8> {
    hmac_sha256_of(salted_password, spec_client_key_label())
}

/// ServerKey: HMAC(SaltedPassword, "Server Key").
pub open spec fn spec_server_key(salted_password: Seq<u8>) -> Seq<u8> {
    hmac_sha256_of(salted_password, spec_server_key_label())
}

/// StoredKey: SHA-256(ClientKey).
pub open spec fn spec_stored_key(client_key: Seq<u8>) -> Seq<u8> {
    sha256_of(client_key)
}

/// ClientSignature / ServerSignature: HMAC of the auth-message bytes under
/// StoredKey / ServerKey.
pub open spec fn spec_signature(key: Seq<u8>, auth_message: Seq<u8>) -> Seq<u8> {
    hmac_sha256_of(key, auth_message)
}

/// ClientProof: ClientKey XOR ClientSignature, byte for byte.
pub open spec fn spec_client_proof(client_key: Seq<u8>, client_signature: Seq<u8>) -> Seq<u8> {
    xor_bytes(client_key, client_signature)
}

/// The auth-message: the three transcript fragments, joined by commas, that
/// every signature of the handshake authenticates.
pub open spec fn spec_auth_message(
    client_first_bare: Seq<char>,
    server_first: Seq<char>,
    client_final_without_proof: Seq<char>,
) -> Seq<char> {
    client_first_bare + ","@ + server_first + ","@ + client_final_without_proof
}

/// Law: the auth-message pins the first server message down. Two transcripts
/// that differ anywhere inside equally long first server messages — a nonce
/// byte flipped in transit, say — have different auth-messages, whatever the
/// final fragments turned into; so the signatures of the exchange are
/// computed over genuinely different inputs.
pub proof fn lemma_auth_message_sensitive(
    client_first_bare: Seq<char>,
    server_first1: Seq<char>,
    server_first2: Seq<char>,
    client_final1: Seq<char>,
    client_final2: Seq<char>,
)
    requires
        server_first1.len() == server_first2.len(),
        server_first1 != server_first2,
    ensures
        spec_auth_message(client_first_bare, server_first1, client_final1)
            != spec_auth_message(client_first_bare, server_first2, client_final2),
{
    let m1 = spec_auth_message(client_first_bare, server_first1, client_final1);
    let m2 = spec_auth_message(client_first_bare, server_first2, client_final2);
    assert(!(server_first1 =~= server_first2));
    let i = choose|i: int| 0 <= i < server_first1.len() && server_first1[i] != server_first2[i];
    let k = client_first_bare.len() + ","@.len() + i;
    assert(m1[k] == server_first1[i]);
    assert(m2[k] == server_first2[i]);
    assert(m1[k] != m2[k]);
}

} // verus!
