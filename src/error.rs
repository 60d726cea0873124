//! Error kinds of the library and how they surface to a client.
use vstd::prelude::*;

verus! {

/// Why a bearer token was not accepted.
#[derive(Clone, Copy, Debug, PartialEq, Eq, Structural)]
pub enum AuthError {
    /// The token header cannot be parsed or names no key.
    MalformedToken,
    /// The key the token names is not in the cached key set.
    UnknownKey,
    /// The key declares no algorithm, or one outside the asymmetric allow-list.
    UnsupportedAlgorithm,
    /// Signature, expiry, audience or issuer check failed (not said which).
    TokenRejected,
}

/// Every failure a request can end in.
#[derive(Clone, Copy, Debug, PartialEq, Eq, Structural)]
pub enum Error {
    /// No usable bearer token was presented.
    Unauthorized,
    /// The caller may not perform the action.
    Forbidden,
    /// The bearer token did not verify.
    Jwt(AuthError),
    /// The project does not exist.
    NotFound,
    /// An asset is referenced that is neither in temporary nor in saved storage.
    AssetMissing,
    /// The object store or the document store failed.
    Store,
}

pub open spec fn status_of(e: Error) -> u16 {
    match e {
        Error::Unauthorized => 401,
        Error::Jwt(_) => 401,
        Error::Forbidden => 403,
        Error::NotFound => 404,
        Error::AssetMissing => 400,
        Error::Store => 500,
    }
}

impl Error {
    /// The HTTP status a client sees for this error.
    pub fn status_code(&self) -> (r: u16)
        ensures
            r == status_of(*self),
    {
        match self {
            Error::Unauthorized => 401,
            Error::Jwt(_) => 401,
            Error::Forbidden => 403,
            Error::NotFound => 404,
            Error::AssetMissing => 400,
            Error::Store => 500,
        }
    }

    /// Whether the response carries a re-authentication challenge.
    pub fn needs_challenge(&self) -> (r: bool)
        ensures
            r == (status_of(*self) == 401),
    {
        match self {
            Error::Unauthorized => true,
            Error::Jwt(_) => true,
            _ => false,
        }
    }
}

} // verus!
