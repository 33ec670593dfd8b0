use vstd::prelude::*;
use vstd::utf8::encode_utf8;
use crate::NONCE_LENGTH;
use crate::crypto::{
    constant_time_eq, client_key_label, server_key_label, spec_auth_message, spec_client_key,
    spec_client_proof, spec_salted_password, spec_server_key, spec_signature, spec_stored_key,
    xor_vec,
};
use crate::error::{Error, Field, Kind};
use crate::external::{
    base64_decode, base64_decode_of, base64_encode, base64_of, hmac_sha256, pbkdf2_sha256,
    push_char, sha256,
};
use crate::nonce::{generate_nonce, is_nonce_char, nonce_char_of, nonce_from_bytes};
use crate::parse::{parse_server_first, spec_parse_server_first};

verus! {

// ---------------------------------------------------------------------------
// Message assembly.
// ---------------------------------------------------------------------------

/// The gs2 header: channel binding is not attempted (`n`), plus the optional
/// authorization identity.
pub open spec fn spec_gs2_header(authzid: Option<Seq<char>>) -> Seq<char> {
    match authzid {
        Some(z) => "n,a="@ + z + ","@,
        None => "n,,"@,
    }
}

/// The reversible escaping of the authentication identity: every `,` becomes
/// `=2C` and every `=` becomes `=3D`.
pub open spec fn spec_escaped(s: Seq<char>) -> Seq<char>
    decreases s.len(),
{
    if s.len() == 0 {
        Seq::empty()
    } else {
        let head = if s[0] == ',' {
            "=2C"@
        } else if s[0] == '=' {
            "=3D"@
        } else {
            seq![s[0]]
        };
        head + spec_escaped(s.drop_first())
    }
}

pub proof fn lemma_escaped_concat(a: Seq<char>, b: Seq<char>)
    ensures
        spec_escaped(a + b) == spec_escaped(a) + spec_escaped(b),
    decreases a.len(),
{
    if a.len() == 0 {
        assert(a + b =~= b);
        assert(spec_escaped(a) + spec_escaped(b) =~= spec_escaped(b));
    } else {
        assert((a + b).drop_first() =~= a.drop_first() + b);
        lemma_escaped_concat(a.drop_first(), b);
        assert(spec_escaped(a + b) =~= spec_escaped(a) + spec_escaped(b));
    }
}

pub(crate) fn escape_authcid(s: &str) -> (r: String)
    ensures
        r@ == spec_escaped(s@),
{
    let len = s.unicode_len();
    let mut r = String::new();
    let mut i: usize = 0;
    while i < len
        invariant
            i <= len,
            len == s@.len(),
            r@ == spec_escaped(s@.take(i as int)),
        decreases len - i,
    {
        let c = s.get_char(i);
        proof {
            lemma_escaped_concat(s@.take(i as int), seq![s@[i as int]]);
            assert(s@.take(i as int + 1) =~= s@.take(i as int) + seq![s@[i as int]]);
            assert(seq![s@[i as int]].drop_first() =~= Seq::<char>::empty());
            assert(spec_escaped(Seq::<char>::empty()) =~= Seq::<char>::empty());
            assert(spec_escaped(seq![s@[i as int]]) =~= (if s@[i as int] == ',' {
                "=2C"@
            } else if s@[i as int] == '=' {
                "=3D"@
            } else {
                seq![s@[i as int]]
            }));
        }
        if c == ',' {
            r.append("=2C");
        } else if c == '=' {
            r.append("=3D");
        } else {
            push_char(&mut r, c);
            assert(r@ =~= spec_escaped(s@.take(i as int)) + seq![s@[i as int]]);
        }
        assert(r@ == spec_escaped(s@.take(i as int + 1)));
        i += 1;
    }
    assert(s@.take(len as int) =~= s@);
    r
}

/// `client-first-message-bare`: the escaped identity and the client nonce.
pub open spec fn spec_client_first_bare(authcid: Seq<char>, nonce: Seq<char>) -> Seq<char> {
    "n="@ + spec_escaped(authcid) + ",r="@ + nonce
}

/// `client-final-message-without-proof`: the base64 of the gs2 header's
/// bytes and the server nonce.
pub open spec fn spec_client_final_without_proof(
    gs2header: Seq<char>,
    server_nonce: Seq<char>,
) -> Seq<char> {
    "c="@ + base64_of(encode_utf8(gs2header)) + ",r="@ + server_nonce
}

/// The full final client message for a given transcript: the fragment
/// without proof, then the base64 of the client proof derived from the
/// password with the server's salt and iteration count.
pub open spec fn spec_client_final_message(
    gs2header: Seq<char>,
    password: Seq<u8>,
    client_first_bare: Seq<char>,
    server_first: Seq<char>,
    server_nonce: Seq<char>,
    salt: Seq<u8>,
    iterations: u16,
) -> Seq<char> {
    let cfwp = spec_client_final_without_proof(gs2header, server_nonce);
    let am = encode_utf8(spec_auth_message(client_first_bare, server_first, cfwp));
    let ck = spec_client_key(spec_salted_password(password, salt, iterations));
    cfwp + ",p="@ + base64_of(spec_client_proof(ck, spec_signature(spec_stored_key(ck), am)))
}

/// The server signature this client expects for a given transcript: the
/// HMAC of the auth-message under ServerKey.
pub open spec fn spec_expected_server_signature(
    gs2header: Seq<char>,
    password: Seq<u8>,
    client_first_bare: Seq<char>,
    server_first: Seq<char>,
    server_nonce: Seq<char>,
    salt: Seq<u8>,
    iterations: u16,
) -> Seq<u8> {
    let cfwp = spec_client_final_without_proof(gs2header, server_nonce);
    let am = encode_utf8(spec_auth_message(client_first_bare, server_first, cfwp));
    spec_signature(spec_server_key(spec_salted_password(password, salt, iterations)), am)
}

pub(crate) fn make_gs2_header(authzid: Option<&str>) -> (r: String)
    ensures
        r@ == spec_gs2_header(authzid.deep_view()),
{
    match authzid {
        Some(z) => String::from_str("n,a=").concat(z).concat(","),
        None => String::from_str("n,,"),
    }
}

// ---------------------------------------------------------------------------
// The four states of the handshake. Each is consumed by its one step, so a
// step can neither be skipped nor replayed.
// ---------------------------------------------------------------------------

/// Ghost image of `ClientFirst`.
pub struct ClientFirstV {
    pub gs2header: Seq<char>,
    pub password: Seq<u8>,
    pub authcid: Seq<char>,
    pub nonce: Seq<char>,
}

/// The initial state of the mechanism: the entry point of a handshake.
#[derive(Debug)]
pub struct ClientFirst {
    gs2header: String,
    password: Vec<u8>,
    authcid: String,
    nonce: String,
}

impl View for ClientFirst {
    type V = ClientFirstV;

    closed spec fn view(&self) -> ClientFirstV {
        ClientFirstV {
            gs2header: self.gs2header@,
            password: self.password@,
            authcid: self.authcid@,
            nonce: self.nonce@,
        }
    }
}

/// Ghost image of `ServerFirst`.
pub struct ServerFirstV {
    pub gs2header: Seq<char>,
    pub password: Seq<u8>,
    pub client_nonce: Seq<char>,
    pub client_first_bare: Seq<char>,
}

/// The second state, reached once the first client message is out: it waits
/// for the first server message.
#[derive(Debug)]
pub struct ServerFirst {
    gs2header: String,
    password: Vec<u8>,
    client_nonce: String,
    client_first_bare: String,
}

impl View for ServerFirst {
    type V = ServerFirstV;

    closed spec fn view(&self) -> ServerFirstV {
        ServerFirstV {
            gs2header: self.gs2header@,
            password: self.password@,
            client_nonce: self.client_nonce@,
            client_first_bare: self.client_first_bare@,
        }
    }
}

/// Ghost image of `ClientFinal`.
pub struct ClientFinalV {
    pub client_final: Seq<char>,
    pub server_signature: Seq<u8>,
}

/// The third state: the final client message is computed and waits to be
/// sent; only the expected server signature is retained beyond it.
#[derive(Debug)]
pub struct ClientFinal {
    client_final: String,
    server_signature: Vec<u8>,
}

impl View for ClientFinal {
    type V = ClientFinalV;

    closed spec fn view(&self) -> ClientFinalV {
        ClientFinalV {
            client_final: self.client_final@,
            server_signature: self.server_signature@,
        }
    }
}

/// Ghost image of `ServerFinal`.
pub struct ServerFinalV {
    pub server_signature: Seq<u8>,
}

/// The terminal state: it waits for the final server message and yields the
/// verdict of the handshake.
#[derive(Debug)]
pub struct ServerFinal {
    server_signature: Vec<u8>,
}

impl View for ServerFinal {
    type V = ServerFinalV;

    closed spec fn view(&self) -> ServerFinalV {
        ServerFinalV { server_signature: self.server_signature@ }
    }
}

impl ClientFirst {
    /// Sets up a handshake for the given credentials, drawing the client
    /// nonce from the operating system's secure random source.
    ///
    /// `authzid` is the optional identity to authorize as; where it is
    /// absent the authenticated identity is used. Fails with `Error::Setup`
    /// exactly where the secure random source is unavailable; the nonce of a
    /// constructed state has the fixed length and never holds the field
    /// separator.
    pub fn new(authcid: &str, password: &str, authzid: Option<&str>) -> (r: Result<
        ClientFirst,
        Error,
    >)
        ensures
            r matches Ok(c) ==> c@.gs2header == spec_gs2_header(authzid.deep_view())
                && c@.password == encode_utf8(password@) && c@.authcid == authcid@
                && c@.nonce.len() == NONCE_LENGTH && (forall|i: int|
                0 <= i < c@.nonce.len() ==> is_nonce_char(#[trigger] c@.nonce[i])),
            r matches Err(e) ==> e == Error::Setup,
    {
        let nonce = match generate_nonce() {
            Ok(n) => n,
            Err(e) => {
                return Err(e);
            },
        };
        Ok(
            ClientFirst {
                gs2header: make_gs2_header(authzid),
                password: password.as_bytes_vec(),
                authcid: authcid.to_owned(),
                nonce,
            },
        )
    }

    /// Sets up a handshake from random samples a caller's own secure
    /// generator drew: one sample per nonce character, each drawn from the
    /// printable sampling range 33..=124.
    pub fn with_rng(authcid: &str, password: &str, authzid: Option<&str>, random: Vec<u8>) -> (r:
        ClientFirst)
        requires
            random@.len() == NONCE_LENGTH,
            forall|i: int| 0 <= i < random@.len() ==> 33 <= #[trigger] random@[i] <= 124,
        ensures
            r@.gs2header == spec_gs2_header(authzid.deep_view()),
            r@.password == encode_utf8(password@),
            r@.authcid == authcid@,
            r@.nonce.len() == NONCE_LENGTH,
            forall|i: int| 0 <= i < r@.nonce.len() ==> r@.nonce[i] == nonce_char_of(random@[i]),
            forall|i: int| 0 <= i < r@.nonce.len() ==> is_nonce_char(#[trigger] r@.nonce[i]),
    {
        let nonce = nonce_from_bytes(&random);
        proof {
            assert forall|i: int| 0 <= i < nonce@.len() implies is_nonce_char(
                #[trigger] nonce@[i],
            ) by {
                crate::nonce::lemma_nonce_char_valid(random@[i]);
            }
        }
        ClientFirst {
            gs2header: make_gs2_header(authzid),
            password: password.as_bytes_vec(),
            authcid: authcid.to_owned(),
            nonce,
        }
    }

    /// Emits the first client message and moves to the next state.
    pub fn client_first(self) -> (r: (ServerFirst, String))
        ensures
            r.1@ == self@.gs2header + spec_client_first_bare(self@.authcid, self@.nonce),
            r.0@.gs2header == self@.gs2header,
            r.0@.password == self@.password,
            r.0@.client_nonce == self@.nonce,
            r.0@.client_first_bare == spec_client_first_bare(self@.authcid, self@.nonce),
    {
        let escaped = escape_authcid(self.authcid.as_str());
        let bare = String::from_str("n=").concat(escaped.as_str()).concat(",r=").concat(
            self.nonce.as_str(),
        );
        let message = self.gs2header.clone().concat(bare.as_str());
        let next = ServerFirst {
            gs2header: self.gs2header,
            password: self.password,
            client_nonce: self.nonce,
            client_first_bare: bare,
        };
        (next, message)
    }
}

/// Whether the server nonce extends the client nonce: the client's nonce is
/// a strict prefix of it. Anything else points at injection or replay.
pub open spec fn spec_nonce_extends(server_nonce: Seq<char>, client_nonce: Seq<char>) -> bool {
    client_nonce.is_prefix_of(server_nonce) && client_nonce.len() < server_nonce.len()
}

impl ServerFirst {
    /// Processes the first server message: parses it, refuses a nonce that
    /// does not strictly extend the client's, derives the proof, and moves
    /// to the next state carrying the final client message and the expected
    /// server signature.
    pub fn handle_server_first(self, server_first: &str) -> (r: Result<ClientFinal, Error>)
        ensures
            spec_parse_server_first(server_first@) matches Err(e) ==> r matches Err(e2) && e2
                == e,
            spec_parse_server_first(server_first@) matches Ok(t) ==> ({
                if !spec_nonce_extends(t.0, self@.client_nonce) {
                    r == Err::<ClientFinal, Error>(Error::Protocol(Kind::InvalidNonce))
                } else {
                    r matches Ok(cf) && cf@.client_final == spec_client_final_message(
                        self@.gs2header,
                        self@.password,
                        self@.client_first_bare,
                        server_first@,
                        t.0,
                        t.1,
                        t.2,
                    ) && cf@.server_signature == spec_expected_server_signature(
                        self@.gs2header,
                        self@.password,
                        self@.client_first_bare,
                        server_first@,
                        t.0,
                        t.1,
                        t.2,
                    )
                }
            }),
    {
        let (server_nonce, salt, iterations) = match parse_server_first(server_first) {
            Ok(t) => t,
            Err(e) => {
                return Err(e);
            },
        };
        if !crate::strutil::has_prefix(server_nonce.as_str(), self.client_nonce.as_str())
            || server_nonce.as_str().unicode_len() <= self.client_nonce.as_str().unicode_len() {
            return Err(Error::Protocol(Kind::InvalidNonce));
        }
        let gs2_b64 = base64_encode(self.gs2header.as_str().as_bytes());
        let cfwp = String::from_str("c=").concat(gs2_b64.as_str()).concat(",r=").concat(
            server_nonce.as_str(),
        );
        let auth = self.client_first_bare.concat(",").concat(server_first).concat(",").concat(
            cfwp.as_str(),
        );
        let salted = pbkdf2_sha256(iterations as u32, salt.as_slice(), self.password.as_slice());
        let client_key = hmac_sha256(salted.as_slice(), client_key_label().as_slice());
        let server_key = hmac_sha256(salted.as_slice(), server_key_label().as_slice());
        let stored_key = sha256(client_key.as_slice());
        let client_signature = hmac_sha256(stored_key.as_slice(), auth.as_str().as_bytes());
        let server_signature = hmac_sha256(server_key.as_slice(), auth.as_str().as_bytes());
        let client_proof = xor_vec(&client_key, &client_signature);
        let client_final = cfwp.concat(",p=").concat(
            base64_encode(client_proof.as_slice()).as_str(),
        );
        Ok(ClientFinal { client_final, server_signature })
    }
}

impl ClientFinal {
    /// Emits the final client message and moves to the terminal state. A
    /// pass-through: it keeps the one-message-per-step shape of the
    /// pipeline.
    pub fn client_final(self) -> (r: (ServerFinal, String))
        ensures
            r.1@ == self@.client_final,
            r.0@.server_signature == self@.server_signature,
    {
        let next = ServerFinal { server_signature: self.server_signature };
        (next, self.client_final)
    }
}

/// The verdict the terminal state reaches on a final server message.
pub enum Verdict {
    /// The server proved knowledge of the shared key.
    Accepted,
    /// The message was malformed, or the server's proof did not match.
    Failed(Error),
    /// The server rejected the client's credentials for this reason.
    Rejected(Seq<char>),
}

/// How the terminal state judges a final server message against the
/// retained server signature.
pub open spec fn spec_server_final_verdict(server_signature: Seq<u8>, sf: Seq<char>) -> Verdict {
    if sf.len() < 2 {
        Verdict::Failed(Error::Protocol(Kind::ExpectedField(Field::VerifyOrError)))
    } else if sf[0] == 'v' && sf[1] == '=' {
        match base64_decode_of(sf.skip(2)) {
            None => Verdict::Failed(Error::Protocol(Kind::InvalidField(Field::VerifyOrError))),
            Some(v) => if v == server_signature {
                Verdict::Accepted
            } else {
                Verdict::Failed(Error::InvalidServer)
            },
        }
    } else if sf[0] == 'e' && sf[1] == '=' {
        Verdict::Rejected(sf.skip(2))
    } else {
        Verdict::Failed(Error::Protocol(Kind::ExpectedField(Field::VerifyOrError)))
    }
}

impl ServerFinal {
    /// Processes the final server message: a `v=` proof is decoded and held
    /// against the retained server signature, an `e=` reason is surfaced as
    /// an authentication failure, and anything else is a protocol error.
    pub fn handle_server_final(self, server_final: &str) -> (r: Result<(), Error>)
        ensures
            spec_server_final_verdict(self@.server_signature, server_final@) == Verdict::Accepted
                ==> r is Ok,
            spec_server_final_verdict(self@.server_signature, server_final@) matches Verdict::Failed(
                e,
            ) ==> r matches Err(e2) && e2 == e,
            spec_server_final_verdict(self@.server_signature, server_final@) matches Verdict::Rejected(
                m,
            ) ==> r matches Err(e) && e matches Error::Authentication(s) && s@ == m,
    {
        let len = server_final.unicode_len();
        if len < 2 {
            return Err(Error::Protocol(Kind::ExpectedField(Field::VerifyOrError)));
        }
        let c0 = server_final.get_char(0);
        let c1 = server_final.get_char(1);
        if c0 == 'v' && c1 == '=' {
            let rest = server_final.substring_char(2, len);
            proof {
                assert(rest@ =~= server_final@.skip(2));
            }
            match base64_decode(rest) {
                Err(_) => Err(Error::Protocol(Kind::InvalidField(Field::VerifyOrError))),
                Ok(v) => {
                    if constant_time_eq(&v, &self.server_signature) {
                        Ok(())
                    } else {
                        Err(Error::InvalidServer)
                    }
                },
            }
        } else if c0 == 'e' && c1 == '=' {
            let reason = server_final.substring_char(2, len).to_owned();
            proof {
                assert(reason@ =~= server_final@.skip(2));
            }
            Err(Error::Authentication(reason))
        } else {
            Err(Error::Protocol(Kind::ExpectedField(Field::VerifyOrError)))
        }
    }
}

/// Law: a server that closes with `v=` followed by a base64 encoding of
/// exactly the retained server signature is accepted.
pub proof fn lemma_genuine_server_accepted(server_signature: Seq<u8>, encoded: Seq<char>)
    requires
        base64_decode_of(encoded) == Some(server_signature),
    ensures
        spec_server_final_verdict(server_signature, "v="@ + encoded) == Verdict::Accepted,
{
    reveal_strlit("v=");
    let sf = "v="@ + encoded;
    assert(sf.skip(2) =~= encoded);
}

/// Law: a server whose `v=` field decodes to anything but the retained
/// server signature is refused as failing to authenticate itself.
pub proof fn lemma_forged_server_rejected(
    server_signature: Seq<u8>,
    encoded: Seq<char>,
    v: Seq<u8>,
)
    requires
        base64_decode_of(encoded) == Some(v),
        v != server_signature,
    ensures
        spec_server_final_verdict(server_signature, "v="@ + encoded) == Verdict::Failed(
            Error::InvalidServer,
        ),
{
    reveal_strlit("v=");
    let sf = "v="@ + encoded;
    assert(sf.skip(2) =~= encoded);
}

} // verus!
