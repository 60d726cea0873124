//! Verification of bearer tokens against the cached key set.
use vstd::prelude::*;

use crate::error::{AuthError, Error};
use crate::keyset::{first_with_kid, KeyAlg, KeyMaterial, KeySetCache, SigningKey};
use crate::model::Claims;

verus! {

/// The validation settings of `jsonwebtoken`, passed through unread.
#[verifier::external_type_specification]
#[verifier::external_body]
pub struct ExValidation(jsonwebtoken::Validation);

/// The asymmetric signature algorithms a token may be checked with.
#[derive(Clone, Copy, Debug, PartialEq, Eq, Structural)]
pub enum SigAlg {
    Rs256,
    Rs384,
    Rs512,
    Es256,
    Es384,
}

/// What the checks after the signature look at.
pub struct ClaimsView {
    pub aud: Seq<char>,
    pub exp: u64,
    pub iss: Seq<char>,
    pub email: Seq<char>,
}

impl View for Claims {
    type V = ClaimsView;

    open spec fn view(&self) -> ClaimsView {
        ClaimsView { aud: self.aud@, exp: self.exp, iss: self.iss@, email: self.email@ }
    }
}

/// The `kid` of a token's header; none when the header does not parse or
/// names no key.
pub uninterp spec fn token_kid(token: Seq<char>) -> Option<Seq<char>>;

/// The claims of a token whose signature verifies under the RSA key `(n, e)`
/// with `alg`; none when it does not, or the claims lack a field.
pub uninterp spec fn rsa_claims(token: Seq<char>, n: Seq<char>, e: Seq<char>, alg: SigAlg) -> Option<ClaimsView>;

/// The claims of a token whose signature verifies under the elliptic-curve key
/// `(x, y)` with `alg`; none when it does not, or the claims lack a field.
pub uninterp spec fn ec_claims(token: Seq<char>, x: Seq<char>, y: Seq<char>, alg: SigAlg) -> Option<ClaimsView>;

pub open spec fn claims_opt_view(c: Option<Claims>) -> Option<ClaimsView> {
    match c {
        Some(c) => Some(c@),
        None => None,
    }
}

/// Relies on `jsonwebtoken::decode_header`: the header is read without
/// checking the signature, and its `kid` handed back.
#[verifier::external_body]
fn header_kid(token: &str) -> (r: Option<String>)
    ensures
        match r {
            Some(k) => token_kid(token@) == Some(k@),
            None => token_kid(token@) is None,
        },
{
    match jsonwebtoken::decode_header(token) {
        Ok(h) => h.kid,
        Err(_) => None,
    }
}

/// Relies on `jsonwebtoken::Validation::new`: the signature is checked with
/// `alg` and no other algorithm. The crate's own expiry and audience checks
/// and its required claims are switched off (no issuer is set), since
/// `check_claims` makes those checks itself.
#[verifier::external_body]
fn signature_only(alg: SigAlg) -> jsonwebtoken::Validation {
    let mut v = jsonwebtoken::Validation::new(match alg {
        SigAlg::Rs256 => jsonwebtoken::Algorithm::RS256,
        SigAlg::Rs384 => jsonwebtoken::Algorithm::RS384,
        SigAlg::Rs512 => jsonwebtoken::Algorithm::RS512,
        SigAlg::Es256 => jsonwebtoken::Algorithm::ES256,
        SigAlg::Es384 => jsonwebtoken::Algorithm::ES384,
    });
    v.validate_exp = false;
    v.validate_aud = false;
    v.required_spec_claims.clear();
    v
}

/// Relies on `jsonwebtoken::DecodingKey::from_rsa_components` and
/// `jsonwebtoken::decode` (with the checks of `signature_only`): the claims of
/// a token whose signature verifies under the RSA key `(n, e)` with `alg`,
/// read as `serde_json::Value` and taken apart into the string fields `aud`,
/// `iss`, `email` and the integer `exp`. No clock is read, so the result is a
/// function of the arguments alone.
#[verifier::external_body]
fn rsa_decode(token: &str, n: &str, e: &str, alg: SigAlg) -> (r: Option<Claims>)
    ensures
        claims_opt_view(r) == rsa_claims(token@, n@, e@, alg),
{
    let key = jsonwebtoken::DecodingKey::from_rsa_components(n, e).ok()?;
    let c: serde_json::Value = jsonwebtoken::decode(token, &key, &signature_only(alg)).ok()?.claims;
    Some(Claims {
        aud: c["aud"].as_str()?.to_string(),
        exp: c["exp"].as_u64()?,
        iss: c["iss"].as_str()?.to_string(),
        email: c["email"].as_str()?.to_string(),
    })
}

/// Relies on `jsonwebtoken::DecodingKey::from_ec_components` and
/// `jsonwebtoken::decode` (with the checks of `signature_only`): the claims of
/// a token whose signature verifies under the elliptic-curve key `(x, y)` with
/// `alg`, read as `serde_json::Value` and taken apart into the string fields
/// `aud`, `iss`, `email` and the integer `exp`. No clock is read, so the
/// result is a function of the arguments alone.
#[verifier::external_body]
fn ec_decode(token: &str, x: &str, y: &str, alg: SigAlg) -> (r: Option<Claims>)
    ensures
        claims_opt_view(r) == ec_claims(token@, x@, y@, alg),
{
    let key = jsonwebtoken::DecodingKey::from_ec_components(x, y).ok()?;
    let c: serde_json::Value = jsonwebtoken::decode(token, &key, &signature_only(alg)).ok()?.claims;
    Some(Claims {
        aud: c["aud"].as_str()?.to_string(),
        exp: c["exp"].as_u64()?,
        iss: c["iss"].as_str()?.to_string(),
        email: c["email"].as_str()?.to_string(),
    })
}

/// The allow-list: RSA and ECDSA algorithms; symmetric and other ones are
/// refused.
pub open spec fn allowed_alg(k: KeyAlg) -> Option<SigAlg> {
    match k {
        KeyAlg::Rs256 => Some(SigAlg::Rs256),
        KeyAlg::Rs384 => Some(SigAlg::Rs384),
        KeyAlg::Rs512 => Some(SigAlg::Rs512),
        KeyAlg::Es256 => Some(SigAlg::Es256),
        KeyAlg::Es384 => Some(SigAlg::Es384),
        _ => None,
    }
}

pub open spec fn is_rsa(a: SigAlg) -> bool {
    a == SigAlg::Rs256 || a == SigAlg::Rs384 || a == SigAlg::Rs512
}

/// The algorithm a key is used with: the one the key itself declares, when it
/// is on the allow-list and fits the key's material.
pub open spec fn key_sig_alg(key: SigningKey) -> Option<SigAlg> {
    match key.alg {
        None => None,
        Some(k) => match allowed_alg(k) {
            None => None,
            Some(a) => match key.material {
                KeyMaterial::Rsa { .. } => if is_rsa(a) { Some(a) } else { None },
                KeyMaterial::Ec { .. } => if is_rsa(a) { None } else { Some(a) },
                KeyMaterial::Other => None,
            },
        },
    }
}

/// The claims a token carries when its signature verifies under `key`.
pub open spec fn signed_claims(token: Seq<char>, key: SigningKey, alg: SigAlg) -> Option<ClaimsView> {
    match key.material {
        KeyMaterial::Rsa { n, e } => rsa_claims(token, n@, e@, alg),
        KeyMaterial::Ec { x, y } => ec_claims(token, x@, y@, alg),
        KeyMaterial::Other => None,
    }
}

/// The checks made on verified claims: not expired at `now`, issued for
/// `audience` by `issuer`.
pub open spec fn claims_valid(c: ClaimsView, audience: Seq<char>, issuer: Seq<char>, now: u64) -> bool {
    now < c.exp && c.aud == audience && c.iss == issuer
}

/// The outcome of verifying `token` against `keys`.
pub open spec fn verdict(
    token: Seq<char>,
    keys: Seq<SigningKey>,
    audience: Seq<char>,
    issuer: Seq<char>,
    now: u64,
) -> Result<ClaimsView, AuthError> {
    match token_kid(token) {
        None => Err(AuthError::MalformedToken),
        Some(kid) => match first_with_kid(keys, kid) {
            None => Err(AuthError::UnknownKey),
            Some(i) => match key_sig_alg(keys[i]) {
                None => Err(AuthError::UnsupportedAlgorithm),
                Some(alg) => match signed_claims(token, keys[i], alg) {
                    None => Err(AuthError::TokenRejected),
                    Some(c) => if claims_valid(c, audience, issuer, now) {
                        Ok(c)
                    } else {
                        Err(AuthError::TokenRejected)
                    },
                },
            },
        },
    }
}

/// Maps a key's declared algorithm onto the allow-list.
pub fn key_algorithm_to_algorithm(k: KeyAlg) -> (r: Option<SigAlg>)
    ensures
        r == allowed_alg(k),
{
    match k {
        KeyAlg::Rs256 => Some(SigAlg::Rs256),
        KeyAlg::Rs384 => Some(SigAlg::Rs384),
        KeyAlg::Rs512 => Some(SigAlg::Rs512),
        KeyAlg::Es256 => Some(SigAlg::Es256),
        KeyAlg::Es384 => Some(SigAlg::Es384),
        _ => None,
    }
}

/// The algorithm `key` is to be used with, taken from the key alone.
pub fn key_algorithm(key: &SigningKey) -> (r: Option<SigAlg>)
    ensures
        r == key_sig_alg(*key),
{
    let a = match key.alg {
        Some(k) => match key_algorithm_to_algorithm(k) {
            Some(a) => a,
            None => return None,
        },
        None => return None,
    };
    let rsa = match a {
        SigAlg::Rs256 | SigAlg::Rs384 | SigAlg::Rs512 => true,
        _ => false,
    };
    match key.material {
        KeyMaterial::Rsa { .. } => if rsa { Some(a) } else { None },
        KeyMaterial::Ec { .. } => if rsa { None } else { Some(a) },
        KeyMaterial::Other => None,
    }
}

/// The checks that follow a verified signature: the claims are accepted when
/// they have not expired at `now` and name `audience` and `issuer`.
pub fn check_claims(claims: Claims, audience: &String, issuer: &String, now: u64) -> (r: Result<
    Claims,
    AuthError,
>)
    ensures
        match r {
            Ok(c) => c == claims && claims_valid(claims@, audience@, issuer@, now),
            Err(e) => e == AuthError::TokenRejected && !claims_valid(claims@, audience@, issuer@, now),
        },
{
    if now < claims.exp && claims.aud == *audience && claims.iss == *issuer {
        Ok(claims)
    } else {
        Err(AuthError::TokenRejected)
    }
}

/// Verifies a bearer token: finds the key its header names, checks the
/// signature with the algorithm that key declares, then the expiry, audience
/// and issuer.
pub fn verify(token: &str, keys: &KeySetCache, audience: &String, issuer: &String, now: u64) -> (r:
    Result<Claims, AuthError>)
    ensures
        match r {
            Ok(c) => verdict(token@, keys.keys(), audience@, issuer@, now) == Ok::<ClaimsView, AuthError>(c@),
            Err(e) => verdict(token@, keys.keys(), audience@, issuer@, now) == Err::<ClaimsView, AuthError>(e),
        },
{
    let kid = match header_kid(token) {
        Some(k) => k,
        None => return Err(AuthError::MalformedToken),
    };
    let key = match keys.find(&kid) {
        Some(k) => k,
        None => return Err(AuthError::UnknownKey),
    };
    let alg = match key_algorithm(key) {
        Some(a) => a,
        None => return Err(AuthError::UnsupportedAlgorithm),
    };
    let claims = match &key.material {
        KeyMaterial::Rsa { n, e } => rsa_decode(token, n.as_str(), e.as_str(), alg),
        KeyMaterial::Ec { x, y } => ec_decode(token, x.as_str(), y.as_str(), alg),
        KeyMaterial::Other => None,
    };
    match claims {
        Some(c) => check_claims(c, audience, issuer, now),
        None => Err(AuthError::TokenRejected),
    }
}

/// Identifies the caller of a request from its bearer token, if it carries
/// one: no token is `Unauthorized`, a token that does not verify is `Jwt`
/// with the reason.
pub fn authenticate(
    bearer: Option<&str>,
    keys: &KeySetCache,
    audience: &String,
    issuer: &String,
    now: u64,
) -> (r: Result<Claims, Error>)
    ensures
        match bearer {
            None => r == Err::<Claims, Error>(Error::Unauthorized),
            Some(t) => match r {
                Ok(c) => verdict(t@, keys.keys(), audience@, issuer@, now) == Ok::<ClaimsView, AuthError>(c@),
                Err(e) => e is Jwt && verdict(t@, keys.keys(), audience@, issuer@, now) == Err::<
                    ClaimsView,
                    AuthError,
                >(e->Jwt_0),
            },
        },
{
    match bearer {
        None => Err(Error::Unauthorized),
        Some(t) => match verify(t, keys, audience, issuer, now) {
            Ok(c) => Ok(c),
            Err(e) => Err(Error::Jwt(e)),
        },
    }
}

/// A token naming a key that is not in the cached set is refused as coming
/// from an unknown key, whatever else it holds.
pub proof fn lemma_unknown_key_refused(
    token: Seq<char>,
    keys: Seq<SigningKey>,
    audience: Seq<char>,
    issuer: Seq<char>,
    now: u64,
)
    requires
        token_kid(token) matches Some(kid) && first_with_kid(keys, kid) is None,
    ensures
        verdict(token, keys, audience, issuer, now) == Err::<ClaimsView, AuthError>(AuthError::UnknownKey),
{
}

/// No token is accepted whose expiry is not after the time of verification,
/// however good its signature.
pub proof fn lemma_expired_refused(
    token: Seq<char>,
    keys: Seq<SigningKey>,
    audience: Seq<char>,
    issuer: Seq<char>,
    now: u64,
)
    ensures
        verdict(token, keys, audience, issuer, now) matches Ok(c) ==> now < c.exp,
{
}

/// No token is accepted whose audience or issuer is not the configured one,
/// however good its signature.
pub proof fn lemma_foreign_audience_or_issuer_refused(
    token: Seq<char>,
    keys: Seq<SigningKey>,
    audience: Seq<char>,
    issuer: Seq<char>,
    now: u64,
)
    ensures
        verdict(token, keys, audience, issuer, now) matches Ok(c) ==> c.aud == audience && c.iss == issuer,
{
}

} // verus!
