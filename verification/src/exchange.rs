//! The assertion-for-token exchange endpoint.
//!
//! The endpoint takes a URL-encoded body; each pair whose key is `assertion`
//! carries a third-party-signed credential that must verify against the
//! configured RSA public key. When every such assertion verifies — in
//! particular when none is present at all, a deliberate laxity kept from the
//! design — a bearer token for the recognized subject is minted and returned
//! in an envelope; otherwise the exchange fails and no token is issued.

use vstd::prelude::*;

use crate::auth;
use crate::error::Error;
use crate::form;

verus! {

/// The response envelope of a successful exchange. `expires_in` carries the
/// absolute expiry instant in seconds since the epoch, not a duration — a
/// quirk of the emulated API that is kept as it stands.
#[derive(Debug)]
pub struct TokenPayload {
    pub access_token: String,
    pub token_type: String,
    pub expires_in: i64,
}

/// Does some pair of the body carry the `assertion` key?
pub open spec fn has_assertion(s: Seq<char>) -> bool {
    exists|i: int|
        0 <= i < form::form_pairs(s).len() && form::form_pairs(s)[i].0 == "assertion"@
}

/// Exchange an assertion-carrying body for a bearer token envelope, at instant
/// `now`, issuing under the signing `key` and checking assertions against the
/// RSA `public_key_pem`. A failure is always the assertion-signature error,
/// and can only arise when the body carries an assertion; a body without one
/// is exchanged unconditionally, and one with an assertion fails whenever the
/// configured key is not a parseable RSA public key.
pub fn token_exchange(body: &str, public_key_pem: &str, now: i64, key: &str) -> (r: Result<
    TokenPayload,
    Error,
>)
    requires
        form::well_formed_body(body@),
        now + auth::VALIDITY_SECONDS <= i64::MAX,
    ensures
        (match r {
            Ok(env) => env.access_token@ == auth::hs256_token_of(
                auth::RECOGNIZED_SUBJECT as int,
                now + auth::VALIDITY_SECONDS,
                now as int,
                key@,
            ) && auth::decodes_to(
                env.access_token@,
                key@,
                auth::RECOGNIZED_SUBJECT as int,
                (now + auth::VALIDITY_SECONDS) as int,
                now as int,
            ) && env.token_type@ == "Bearer"@ && env.expires_in == now + auth::VALIDITY_SECONDS
                && env.expires_in > now,
            Err(e) => e == Error::SignatureInvalid && has_assertion(body@),
        }),
        !has_assertion(body@) ==> r is Ok,
        has_assertion(body@) && !auth::rsa_pem_parses(public_key_pem@) ==> r is Err,
{
    let pairs = form::parse_form(body);
    let assertion_key: String = "assertion".to_owned();
    let mut idx: usize = 0;
    while idx < pairs.len()
        invariant
            0 <= idx <= pairs@.len(),
            assertion_key@ == "assertion"@,
            pairs@.len() == form::form_pairs(body@).len(),
            forall|i: int|
                0 <= i < pairs@.len() ==> pairs@[i].0@ == form::form_pairs(body@)[i].0
                    && pairs@[i].1@ == form::form_pairs(body@)[i].1,
            !auth::rsa_pem_parses(public_key_pem@) ==> forall|i: int|
                0 <= i < idx ==> form::form_pairs(body@)[i].0 != "assertion"@,
        decreases pairs@.len() - idx,
    {
        let pair = &pairs[idx];
        if pair.0 == assertion_key {
            match auth::verify_assertion(pair.1.as_str(), public_key_pem) {
                Some(_) => {},
                None => {
                    proof {
                        assert(form::form_pairs(body@)[idx as int].0 == "assertion"@);
                    }
                    return Err(Error::SignatureInvalid);
                },
            }
        }
        idx += 1;
    }
    let access_token = auth::sign(auth::RECOGNIZED_SUBJECT, now, key);
    Ok(
        TokenPayload {
            access_token,
            token_type: "Bearer".to_owned(),
            expires_in: now + auth::VALIDITY_SECONDS,
        },
    )
}

} // verus!
