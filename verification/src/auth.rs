//! Issuing and verifying self-issued bearer tokens, and verifying inbound
//! third-party assertions.
//!
//! A bearer token is an opaque signed string: its claims carry a subject
//! identity, an issue instant and an expiry one validity window later. The
//! cryptographic work is done by jsonwebtoken behind trusted wrappers; what a
//! signed token decodes back to is named by uninterpreted spec functions, and
//! everything else is proved from those names.

use vstd::prelude::*;

use jsonwebtoken::errors::ErrorKind;
use jsonwebtoken::{decode, encode, Algorithm, DecodingKey, EncodingKey, Header, Validation};
use serde_json::Value;

use crate::error::Error;

verus! {

/// Seconds in the validity window of a self-issued token (24 hours).
pub const VALIDITY_SECONDS: i64 = 86400;

/// The single subject identity this emulator recognizes.
pub const RECOGNIZED_SUBJECT: usize = 1;

/// Claims decoded from an inbound third-party assertion. The exchange handler
/// only checks that an assertion decodes to this shape; the payload itself is
/// then discarded, and none of these fields is matched against a policy.
#[derive(Debug)]
pub struct AuthClaims {
    iss: String,
    scope: String,
    aud: String,
    exp: usize,
    iat: usize,
}

/// The payload of a self-issued bearer token.
#[derive(Clone, Copy, Debug, PartialEq, Eq, Structural)]
pub struct Claims {
    pub sub: usize,
    pub exp: i64,
    pub iat: i64,
}

impl Claims {
    /// Claims for a token issued to `id` at instant `now`: the expiry lies one
    /// validity window after the issue instant.
    pub fn new(id: usize, now: i64) -> (claims: Claims)
        requires
            now + VALIDITY_SECONDS <= i64::MAX,
        ensures
            claims.sub == id,
            claims.iat == now,
            claims.exp == now + VALIDITY_SECONDS,
    {
        Claims { sub: id, iat: now, exp: now + VALIDITY_SECONDS }
    }
}

/// The token that HS256 signing produces for the given claims under a key.
pub uninterp spec fn hs256_token_of(sub: int, exp: int, iat: int, key: Seq<char>) -> Seq<char>;

/// What HS256 decoding makes of a token under a key: the subject, expiry and
/// issue instants when the token is well formed and its signature matches the
/// key, and otherwise the error that classifies the failure.
pub uninterp spec fn hs256_decoded(token: Seq<char>, key: Seq<char>) -> Result<(int, int, int), Error>;

/// Does decoding `token` under `key` recover exactly these claims?
pub open spec fn decodes_to(token: Seq<char>, key: Seq<char>, sub: int, exp: int, iat: int) -> bool {
    hs256_decoded(token, key) == Ok::<(int, int, int), Error>((sub, exp, iat))
}

/// Does decoding `token` under `key` fail with exactly this error?
pub open spec fn decode_fails_with(token: Seq<char>, key: Seq<char>, e: Error) -> bool {
    hs256_decoded(token, key) == Err::<(int, int, int), Error>(e)
}

/// Does a PEM text parse as an RSA public key?
pub uninterp spec fn rsa_pem_parses(pem: Seq<char>) -> bool;

/// Index of the last `.` in `s`, or -1 when none occurs.
pub open spec fn last_dot(s: Seq<char>) -> int
    decreases s.len(),
{
    if s.len() == 0 {
        -1
    } else if s[s.len() - 1] == '.' {
        s.len() - 1
    } else {
        last_dot(s.drop_last())
    }
}

/// Does `t` keep `u` up to and including its last `.` but not equal `u`?
/// For a signed token, whose signature is the text after the last dot, this
/// says that `t` is the token with its signature segment altered in any way —
/// rewritten, shortened, lengthened, or given further dots.
pub open spec fn signature_tampered(t: Seq<char>, u: Seq<char>) -> bool {
    &&& last_dot(u) >= 0
    &&& t.len() >= last_dot(u) + 1
    &&& t.subrange(0, last_dot(u) + 1) == u.subrange(0, last_dot(u) + 1)
    &&& t != u
}

/// Characters of the unpadded base64url alphabet.
pub open spec fn is_base64url_char(c: char) -> bool {
    ('A' <= c && c <= 'Z') || ('a' <= c && c <= 'z') || ('0' <= c && c <= '9') || c == '-' || c
        == '_'
}

/// The shape of an encoded token: three non-empty base64url segments joined
/// by two dots.
pub open spec fn jwt_shaped(t: Seq<char>) -> bool {
    exists|i: int, j: int|
        #![trigger t[i], t[j]]
        {
            &&& 1 <= i
            &&& i + 2 <= j
            &&& j + 2 <= t.len()
            &&& t[i] == '.'
            &&& t[j] == '.'
            &&& forall|k: int|
                0 <= k < t.len() && k != i && k != j ==> is_base64url_char(#[trigger] t[k])
        }
}

/// Relies on jsonwebtoken::encode with the default (HS256) header and a
/// symmetric secret: the token is a deterministic function of the claims and
/// the key, and jsonwebtoken::decode under the same key recovers exactly the
/// claims that were signed. Encoding a map of three integer claims with an
/// in-memory symmetric key cannot fail. The token is three non-empty
/// base64url segments joined by two dots, the signature last; decoding splits
/// at the last dot and accepts, for the text before it, exactly one signature
/// string — so any change that keeps the token through its last dot but not
/// beyond makes decoding fail.
#[verifier::external_body]
fn encode_hs256(sub: usize, exp: i64, iat: i64, key: &str) -> (token: String)
    ensures
        token@ == hs256_token_of(sub as int, exp as int, iat as int, key@),
        decodes_to(token@, key@, sub as int, exp as int, iat as int),
        jwt_shaped(token@),
        last_dot(token@) >= 0,
        forall|t: Seq<char>| #[trigger]
            signature_tampered(t, token@) ==> hs256_decoded(t, key@) is Err,
{
    let mut claims = serde_json::Map::new();
    claims.insert("sub".to_owned(), Value::from(sub as u64));
    claims.insert("exp".to_owned(), Value::from(exp));
    claims.insert("iat".to_owned(), Value::from(iat));
    encode(&Header::default(), &Value::Object(claims), &EncodingKey::from_secret(key.as_bytes()))
        .unwrap()
}

/// Relies on jsonwebtoken::decode with HS256 and a symmetric secret, with the
/// expiry check and the stock claim-presence checks disabled, so that the
/// outcome is a deterministic function of the token and the key alone (the
/// stock presence check would also refuse a negative expiry, which this
/// library's own field extraction reads back exactly). A signature that does
/// not match the key is reported apart from every other failure; the claims
/// of a verified token are read back as the subject, expiry and issue
/// instants, and a payload without all three is refused.
#[verifier::external_body]
fn decode_hs256(token: &str, key: &str) -> (r: Result<Claims, Error>)
    ensures
        (match r {
            Ok(claims) => decodes_to(
                token@,
                key@,
                claims.sub as int,
                claims.exp as int,
                claims.iat as int,
            ),
            Err(e) => decode_fails_with(token@, key@, e) && (e == Error::TokenSignatureMismatch
                || e == Error::TokenMalformed),
        }),
{
    let mut v = Validation::new(Algorithm::HS256);
    v.validate_exp = false;
    v.required_spec_claims = Default::default();
    let c = decode::<Value>(token, &DecodingKey::from_secret(key.as_bytes()), &v)
        .map_err(|e| match e.kind() {
            ErrorKind::InvalidSignature => Error::TokenSignatureMismatch,
            _ => Error::TokenMalformed,
        })?
        .claims;
    let fields = (c.get("sub").and_then(Value::as_u64), c.get("exp").and_then(Value::as_i64));
    match (fields, c.get("iat").and_then(Value::as_i64)) {
        ((Some(sub), Some(exp)), Some(iat)) => Ok(Claims { sub: sub as usize, exp, iat }),
        _ => Err(Error::TokenMalformed),
    }
}

/// Relies on jsonwebtoken::DecodingKey::from_rsa_pem — whether a PEM text
/// parses is a deterministic function of the text, and a text that does not
/// parse verifies nothing — and on jsonwebtoken::decode with RS256 under its
/// stock validation, which checks the assertion's expiry against the wall
/// clock: that outcome depends on the clock, so nothing more is assumed of it
/// than that an outcome comes back. The field extraction mirrors
/// deserializing the payload into `AuthClaims`: an assertion whose payload
/// lacks the shape fails.
#[verifier::external_body]
pub(crate) fn verify_assertion(assertion: &str, public_key_pem: &str) -> (r: Option<AuthClaims>)
    ensures
        !rsa_pem_parses(public_key_pem@) ==> r is None,
{
    let key = DecodingKey::from_rsa_pem(public_key_pem.as_bytes()).ok()?;
    let c = decode::<Value>(assertion, &key, &Validation::new(Algorithm::RS256)).ok()?.claims;
    Some(AuthClaims {
        iss: c.get("iss")?.as_str()?.to_owned(),
        scope: c.get("scope")?.as_str()?.to_owned(),
        aud: c.get("aud")?.as_str()?.to_owned(),
        exp: usize::try_from(c.get("exp")?.as_u64()?).ok()?,
        iat: usize::try_from(c.get("iat")?.as_u64()?).ok()?,
    })
}

/// Mint a bearer token for subject `id` at instant `now`, signed with `key`.
pub fn sign(id: usize, now: i64, key: &str) -> (token: String)
    requires
        now + VALIDITY_SECONDS <= i64::MAX,
    ensures
        token@ == hs256_token_of(id as int, now + VALIDITY_SECONDS, now as int, key@),
        decodes_to(token@, key@, id as int, now + VALIDITY_SECONDS, now as int),
        jwt_shaped(token@),
        last_dot(token@) >= 0,
        forall|t: Seq<char>| #[trigger]
            signature_tampered(t, token@) ==> hs256_decoded(t, key@) is Err,
{
    let claims = Claims::new(id, now);
    encode_hs256(claims.sub, claims.exp, claims.iat, key)
}

/// Decode and validate a bearer token at instant `now`: the signature must
/// match `key`, and the expiry must lie strictly after `now` (no leeway).
pub fn verify(token: &str, key: &str, now: i64) -> (r: Result<Claims, Error>)
    ensures
        (match hs256_decoded(token@, key@) {
            Ok(c) => if now < c.1 {
                r matches Ok(claims) && claims.sub as int == c.0 && claims.exp as int == c.1
                    && claims.iat as int == c.2
            } else {
                r == Err::<Claims, Error>(Error::TokenExpired)
            },
            Err(e) => r == Err::<Claims, Error>(e) && (e == Error::TokenMalformed || e
                == Error::TokenSignatureMismatch),
        }),
{
    let claims = match decode_hs256(token, key) {
        Ok(claims) => claims,
        Err(e) => return Err(e),
    };
    if now >= claims.exp {
        return Err(Error::TokenExpired);
    }
    Ok(claims)
}

/// A token issued to `id` verifies back to the same claims at any instant
/// before its expiry: the round trip returns the subject it was issued to.
pub fn issued_token_verifies(id: usize, issue_now: i64, verify_now: i64, key: &str) -> (claims:
    Claims)
    requires
        issue_now + VALIDITY_SECONDS <= i64::MAX,
        verify_now < issue_now + VALIDITY_SECONDS,
    ensures
        claims.sub == id,
        claims.iat == issue_now,
        claims.exp == issue_now + VALIDITY_SECONDS,
{
    let token = sign(id, issue_now, key);
    match verify(token.as_str(), key, verify_now) {
        Ok(claims) => claims,
        Err(_) => vstd::pervasive::unreached(),
    }
}

/// A token verified at or after its expiry instant fails with the
/// expiry-classified error, never with anything else.
pub fn expired_token_is_rejected(id: usize, issue_now: i64, verify_now: i64, key: &str) -> (r:
    Result<Claims, Error>)
    requires
        issue_now + VALIDITY_SECONDS <= i64::MAX,
        verify_now >= issue_now + VALIDITY_SECONDS,
    ensures
        r == Err::<Claims, Error>(Error::TokenExpired),
{
    let token = sign(id, issue_now, key);
    verify(token.as_str(), key, verify_now)
}

/// A position holding a dot with none after it is the last dot.
proof fn lemma_last_dot_charac(s: Seq<char>, i: int)
    requires
        0 <= i < s.len(),
        s[i] == '.',
        forall|k: int| i < k < s.len() ==> s[k] != '.',
    ensures
        last_dot(s) == i,
    decreases s.len(),
{
    if i == s.len() - 1 {
    } else {
        assert(s.drop_last()[i] == s[i]);
        assert forall|k: int| i < k < s.drop_last().len() implies s.drop_last()[k] != '.' by {
            assert(s.drop_last()[k] == s[k]);
        }
        lemma_last_dot_charac(s.drop_last(), i);
    }
}

/// A text without a dot has no last dot.
proof fn lemma_last_dot_none(s: Seq<char>)
    requires
        forall|k: int| 0 <= k < s.len() ==> s[k] != '.',
    ensures
        last_dot(s) == -1,
    decreases s.len(),
{
    if s.len() == 0 {
    } else {
        assert forall|k: int| 0 <= k < s.drop_last().len() implies s.drop_last()[k] != '.' by {
            assert(s.drop_last()[k] == s[k]);
        }
        lemma_last_dot_none(s.drop_last());
    }
}

/// The position of the last `.` of `s`, when one occurs.
fn find_last_dot(s: &str) -> (r: Option<usize>)
    ensures
        (match r {
            Some(i) => last_dot(s@) == i as int,
            None => last_dot(s@) == -1,
        }),
{
    let len = s.unicode_len();
    let mut j: usize = 0;
    let mut ld: usize = 0;
    let mut found = false;
    while j < len
        invariant
            0 <= j <= len,
            len == s@.len(),
            found ==> (ld < j && s@[ld as int] == '.' && (forall|k: int|
                ld < k < j ==> s@[k] != '.')),
            !found ==> (forall|k: int| 0 <= k < j ==> s@[k] != '.'),
        decreases len - j,
    {
        if s.get_char(j) == '.' {
            ld = j;
            found = true;
        }
        j += 1;
    }
    if found {
        proof {
            lemma_last_dot_charac(s@, ld as int);
        }
        Some(ld)
    } else {
        proof {
            lemma_last_dot_none(s@);
        }
        None
    }
}

/// Replacing any one character of an issued token's signature segment — the
/// text after its last dot — always makes verification fail, at any instant:
/// a tampered token is never silently accepted. Positions outside the
/// signature segment are declined.
pub fn tampered_signature_never_verifies(id: usize, now: i64, at: i64, key: &str, pos: usize) -> (r:
    Option<Result<Claims, Error>>)
    requires
        now + VALIDITY_SECONDS <= i64::MAX,
    ensures
        (match r {
            Some(v) => v is Err,
            None => true,
        }),
        ({
            let tok = hs256_token_of(id as int, now + VALIDITY_SECONDS, now as int, key@);
            last_dot(tok) < pos < tok.len() ==> r is Some
        }),
{
    let token = sign(id, now, key);
    let len = token.as_str().unicode_len();
    let ld = match find_last_dot(token.as_str()) {
        Some(i) => i,
        None => vstd::pervasive::unreached(),
    };
    if pos >= len || pos <= ld {
        return None;
    }
    let orig = token.as_str().get_char(pos);
    let rep: &str = if orig == 'A' {
        "B"
    } else {
        "A"
    };
    let pre = token.as_str().substring_char(0, pos);
    let suf = token.as_str().substring_char(pos + 1, len);
    let tampered = pre.to_owned().concat(rep).concat(suf);
    proof {
        reveal_strlit("A");
        reveal_strlit("B");
        assert(tampered@.len() == token@.len());
        assert(tampered@[pos as int] == rep@[0]);
        assert(tampered@[pos as int] != token@[pos as int]);
        assert(tampered@.subrange(0, ld + 1) =~= token@.subrange(0, ld + 1));
        assert(tampered@ != token@);
        assert(signature_tampered(tampered@, token@));
    }
    Some(verify(tampered.as_str(), key, at))
}

/// Tokens issued to the same subject at two different instants are two
/// different strings: the signed claims differ, so the tokens must.
pub fn distinct_instants_distinct_tokens(id: usize, now1: i64, now2: i64, key: &str) -> (tokens: (
    String,
    String,
))
    requires
        now1 + VALIDITY_SECONDS <= i64::MAX,
        now2 + VALIDITY_SECONDS <= i64::MAX,
        now1 != now2,
    ensures
        tokens.0@ != tokens.1@,
{
    let t1 = sign(id, now1, key);
    let t2 = sign(id, now2, key);
    proof {
        if t1@ == t2@ {
            assert(hs256_decoded(t1@, key@) == hs256_decoded(t2@, key@));
            assert(false);
        }
    }
    (t1, t2)
}

} // verus!
