use vstd::prelude::*;

verus! {

/// The failure taxonomy of the authentication core. Every failure surfaces at
/// the request boundary as a structured message with an HTTP status; only
/// `WrongCredentials` maps to the unauthorized status, every other member to
/// the generic internal-error status.
#[derive(Clone, Copy, Debug, PartialEq, Eq, Structural)]
pub enum Error {
    /// An inbound assertion failed RS256 verification.
    SignatureInvalid,
    /// A bearer token is not decodable as a signed token of the expected shape.
    TokenMalformed,
    /// A bearer token decoded, but its signature does not match the signing key.
    TokenSignatureMismatch,
    /// A bearer token is valid but its expiry instant has passed.
    TokenExpired,
    /// The authorization header is absent or does not carry a bearer credential.
    MissingAuthHeader,
    /// A token verified, but asserts a subject other than the recognized one.
    WrongCredentials,
}

/// The HTTP status code a failure maps to.
pub fn status_of(err: &Error) -> (status: u16)
    ensures
        status == (if err is WrongCredentials {
            401u16
        } else {
            500u16
        }),
{
    match err {
        Error::WrongCredentials => 401,
        _ => 500,
    }
}

/// The message carried in the JSON error body for a failure.
pub fn message_of(err: &Error) -> (msg: String)
    ensures
        (match err {
            Error::SignatureInvalid => msg@ == "invalid assertion signature"@,
            Error::TokenMalformed => msg@ == "malformed token"@,
            Error::TokenSignatureMismatch => msg@ == "token signature mismatch"@,
            Error::TokenExpired => msg@ == "token expired"@,
            Error::MissingAuthHeader => msg@ == "missing or malformed authorization header"@,
            Error::WrongCredentials => msg@ == "wrong credentials"@,
        }),
{
    match err {
        Error::SignatureInvalid => "invalid assertion signature".to_owned(),
        Error::TokenMalformed => "malformed token".to_owned(),
        Error::TokenSignatureMismatch => "token signature mismatch".to_owned(),
        Error::TokenExpired => "token expired".to_owned(),
        Error::MissingAuthHeader => "missing or malformed authorization header".to_owned(),
        Error::WrongCredentials => "wrong credentials".to_owned(),
    }
}

} // verus!
