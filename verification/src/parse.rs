use vstd::prelude::*;
use crate::error::{Error, Field, Kind};
use crate::external::{base64_decode, base64_decode_of};
use crate::strutil::{field_end, find_field_end, parse_iterations, spec_parse_iterations};

verus! {

/// What parsing a first server message yields: the server nonce, the decoded
/// salt, and the iteration count — or the first error of the grammar
/// `r=<nonce>,s=<base64-salt>,i=<iterations>`, where a leading `m=` field
/// (a mandatory extension) is rejected outright.
pub open spec fn spec_parse_server_first(s: Seq<char>) -> Result<(Seq<char>, Seq<u8>, u16), Error> {
    if s.len() < 2 {
        Err(Error::Protocol(Kind::ExpectedField(Field::Nonce)))
    } else {
        let e1 = field_end(s, 0);
        if e1 >= 2 && s[0] == 'm' && s[1] == '=' {
            Err(Error::UnsupportedExtension)
        } else if !(e1 >= 2 && s[0] == 'r' && s[1] == '=') {
            Err(Error::Protocol(Kind::ExpectedField(Field::Nonce)))
        } else {
            let nonce = s.subrange(2, e1);
            if e1 == s.len() {
                Err(Error::Protocol(Kind::ExpectedField(Field::Salt)))
            } else {
                let e2 = field_end(s, e1 + 1);
                if !(e2 >= e1 + 3 && s[e1 + 1] == 's' && s[e1 + 2] == '=') {
                    Err(Error::Protocol(Kind::ExpectedField(Field::Salt)))
                } else {
                    match base64_decode_of(s.subrange(e1 + 3, e2)) {
                        None => Err(Error::Protocol(Kind::InvalidField(Field::Salt))),
                        Some(salt) => {
                            if e2 == s.len() {
                                Err(Error::Protocol(Kind::ExpectedField(Field::Iterations)))
                            } else {
                                let e3 = field_end(s, e2 + 1);
                                if !(e3 >= e2 + 3 && s[e2 + 1] == 'i' && s[e2 + 2] == '=') {
                                    Err(Error::Protocol(Kind::ExpectedField(Field::Iterations)))
                                } else {
                                    match spec_parse_iterations(s.subrange(e2 + 3, e3)) {
                                        None => Err(
                                            Error::Protocol(Kind::InvalidField(Field::Iterations)),
                                        ),
                                        Some(it) => Ok((nonce, salt, it)),
                                    }
                                }
                            }
                        }
                    }
                }
            }
        }
    }
}

/// Parses a first server message into its (nonce, salt, iterations) triple.
pub fn parse_server_first(data: &str) -> (r: Result<(String, Vec<u8>, u16), Error>)
    ensures
        spec_parse_server_first(data@) matches Err(e) ==> r matches Err(e2) && e2 == e,
        spec_parse_server_first(data@) matches Ok(t) ==> r matches Ok(u) && u.0@ == t.0
            && u.1@ == t.1 && u.2 == t.2,
{
    let len = data.unicode_len();
    if len < 2 {
        return Err(Error::Protocol(Kind::ExpectedField(Field::Nonce)));
    }
    let e1 = find_field_end(data, 0);
    let c0 = data.get_char(0);
    let c1 = data.get_char(1);
    if e1 >= 2 && c0 == 'm' && c1 == '=' {
        return Err(Error::UnsupportedExtension);
    }
    if !(e1 >= 2 && c0 == 'r' && c1 == '=') {
        return Err(Error::Protocol(Kind::ExpectedField(Field::Nonce)));
    }
    let nonce = data.substring_char(2, e1).to_owned();
    if e1 == len {
        return Err(Error::Protocol(Kind::ExpectedField(Field::Salt)));
    }
    let salt_start = e1 + 1;
    let e2 = find_field_end(data, salt_start);
    if !(e2 - salt_start >= 2 && data.get_char(salt_start) == 's'
        && data.get_char(salt_start + 1) == '=') {
        return Err(Error::Protocol(Kind::ExpectedField(Field::Salt)));
    }
    let salt_str = data.substring_char(salt_start + 2, e2);
    let salt = match base64_decode(salt_str) {
        Ok(v) => v,
        Err(_) => {
            return Err(Error::Protocol(Kind::InvalidField(Field::Salt)));
        },
    };
    if e2 == len {
        return Err(Error::Protocol(Kind::ExpectedField(Field::Iterations)));
    }
    let it_start = e2 + 1;
    let e3 = find_field_end(data, it_start);
    if !(e3 - it_start >= 2 && data.get_char(it_start) == 'i'
        && data.get_char(it_start + 1) == '=') {
        return Err(Error::Protocol(Kind::ExpectedField(Field::Iterations)));
    }
    let it_str = data.substring_char(it_start + 2, e3);
    let iterations = match parse_iterations(it_str) {
        Some(it) => it,
        None => {
            return Err(Error::Protocol(Kind::InvalidField(Field::Iterations)));
        },
    };
    Ok((nonce, salt, iterations))
}

/// Law: parsing is a pure function of the message. Re-parsing the identical
/// first server message yields the identical (nonce, salt, iterations)
/// triple — or the identical error.
pub proof fn lemma_parse_idempotent(s1: Seq<char>, s2: Seq<char>)
    requires
        s1 == s2,
    ensures
        spec_parse_server_first(s1) == spec_parse_server_first(s2),
{
}

} // verus!
