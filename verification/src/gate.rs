//! The request guard in front of protected endpoints.
//!
//! Before a protected handler runs, the guard checks the request's credential:
//! the bearer scheme is stripped, what remains must verify as a self-issued
//! token, and the token must assert the one subject this emulator knows.

use vstd::prelude::*;

use crate::auth;
use crate::error::Error;

verus! {

/// Does a header value carry a bearer credential? The scheme prefix is the
/// exact text that a bearer authorization header starts with.
pub open spec fn is_bearer(h: Seq<char>) -> bool {
    h.len() >= 7 && h.subrange(0, 7) == "Bearer "@
}

/// The credential after the scheme prefix of a bearer header value.
pub open spec fn bearer_token(h: Seq<char>) -> Seq<char> {
    h.subrange(7, h.len() as int)
}

/// Admission predicate over the header text `h`, the signing key and the
/// instant `now`: a bearer credential must be present, decode with the key,
/// be unexpired, and assert the recognized subject.
pub open spec fn gate_admits(h: Seq<char>, key: Seq<char>, now: int) -> bool {
    is_bearer(h) && (match auth::hs256_decoded(bearer_token(h), key) {
        Ok(c) => now < c.1 && c.0 == auth::RECOGNIZED_SUBJECT as int,
        Err(_) => false,
    })
}

/// Extract the bearer credential from an authorization header value.
pub fn extract_bearer<'a>(header: &'a str) -> (r: Option<&'a str>)
    ensures
        (match r {
            Some(token) => is_bearer(header@) && token@ == bearer_token(header@),
            None => !is_bearer(header@),
        }),
{
    proof {
        reveal_strlit("Bearer ");
    }
    let len = header.unicode_len();
    if len < 7 {
        return None;
    }
    let scheme = "Bearer ";
    let mut i: usize = 0;
    while i < 7
        invariant
            0 <= i <= 7,
            header@.len() >= 7,
            scheme@ == "Bearer "@,
            "Bearer "@.len() == 7,
            forall|j: int| 0 <= j < i ==> header@[j] == "Bearer "@[j],
        decreases 7 - i,
    {
        if header.get_char(i) != scheme.get_char(i) {
            proof {
                assert(header@.subrange(0, 7)[i as int] == header@[i as int]);
            }
            return None;
        }
        i += 1;
    }
    proof {
        assert(header@.subrange(0, 7) =~= "Bearer "@);
    }
    Some(header.substring_char(7, len))
}

/// The admission decision for a protected request, from the authorization
/// header value (if the request carried one), the signing key, and the current
/// instant. The request is admitted exactly when [`gate_admits`] holds; every
/// rejection names its reason: no bearer credential, a malformed or foreign
/// token, an expired token, or a wrong subject.
pub fn auth_gate(header: Option<&str>, key: &str, now: i64) -> (r: Result<(), Error>)
    ensures
        (r is Ok <==> (header matches Some(h) && gate_admits(h@, key@, now as int))),
        (match r {
            Ok(_) => true,
            Err(e) => match header {
                None => e == Error::MissingAuthHeader,
                Some(h) => if !is_bearer(h@) {
                    e == Error::MissingAuthHeader
                } else {
                    match auth::hs256_decoded(bearer_token(h@), key@) {
                        Ok(c) => if now < c.1 {
                            c.0 != auth::RECOGNIZED_SUBJECT as int && e == Error::WrongCredentials
                        } else {
                            e == Error::TokenExpired
                        },
                        Err(decode_err) => e == decode_err,
                    }
                },
            },
        }),
{
    let h = match header {
        Some(h) => h,
        None => return Err(Error::MissingAuthHeader),
    };
    let token = match extract_bearer(h) {
        Some(token) => token,
        None => return Err(Error::MissingAuthHeader),
    };
    let claims = match auth::verify(token, key, now) {
        Ok(claims) => claims,
        Err(e) => return Err(e),
    };
    if claims.sub != auth::RECOGNIZED_SUBJECT {
        return Err(Error::WrongCredentials);
    }
    Ok(())
}

} // verus!
