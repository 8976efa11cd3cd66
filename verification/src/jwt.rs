//! Trusted boundary to the JWT crate: declarations of its types and thin
//! wrappers around the calls the validation pipeline makes. Everything else in
//! this crate is verified against the contracts stated here.

use vstd::prelude::*;

use crate::alg::Alg;

verus! {

#[verifier::external_type_specification]
#[verifier::external_body]
pub struct ExDecodingKey(jsonwebtoken::DecodingKey);

#[verifier::external_type_specification]
#[verifier::external_body]
pub struct ExValidation(jsonwebtoken::Validation);

#[verifier::external_type_specification]
#[verifier::external_body]
pub struct ExAlgorithm(jsonwebtoken::Algorithm);

#[verifier::external_type_specification]
#[verifier::external_body]
pub struct ExJwtError(jsonwebtoken::errors::Error);

#[verifier::external_type_specification]
#[verifier::external_body]
pub struct ExJsonValue(serde_json::Value);

/// Whether RSA verification-key material can be built from these two
/// base64url-encoded components; it depends on the two strings alone.
pub uninterp spec fn rsa_components_ok(n: Seq<char>, e: Seq<char>) -> bool;

/// What decoding a compact token's header yields: `None` when the header is
/// malformed, otherwise the header's optional key identifier. It depends on
/// the token string alone (the header segment is decoded, the signature is
/// not looked at).
pub uninterp spec fn header_key_id(token: Seq<char>) -> Option<Option<Seq<char>>>;

/// The view of an optional string.
pub open spec fn opt_str_view(o: Option<String>) -> Option<Seq<char>> {
    match o {
        Some(s) => Some(s@),
        None => None,
    }
}

/// Relies on `jsonwebtoken::DecodingKey::from_rsa_components`: it builds RSA
/// verification-key material from base64url-encoded modulus and exponent
/// strings, and succeeds exactly when both components decode — an outcome
/// that depends on the two strings alone, named by `rsa_components_ok`.
#[verifier::external_body]
pub(crate) fn rsa_decoding_key(n: &String, e: &String) -> (r: Result<
    jsonwebtoken::DecodingKey,
    jsonwebtoken::errors::Error,
>)
    ensures
        r is Ok <==> rsa_components_ok(n@, e@),
{
    jsonwebtoken::DecodingKey::from_rsa_components(n.as_str(), e.as_str())
}

/// Relies on `jsonwebtoken::Algorithm`: translates this crate's algorithm
/// identifier into the identifier of the same name in the outside crate.
#[verifier::external_body]
pub(crate) fn to_jwt_algorithm(alg: Alg) -> jsonwebtoken::Algorithm {
    match alg {
        Alg::HS256 => jsonwebtoken::Algorithm::HS256,
        Alg::HS384 => jsonwebtoken::Algorithm::HS384,
        Alg::HS512 => jsonwebtoken::Algorithm::HS512,
        Alg::ES256 => jsonwebtoken::Algorithm::ES256,
        Alg::ES384 => jsonwebtoken::Algorithm::ES384,
        Alg::RS256 => jsonwebtoken::Algorithm::RS256,
        Alg::RS384 => jsonwebtoken::Algorithm::RS384,
        Alg::RS512 => jsonwebtoken::Algorithm::RS512,
        Alg::PS256 => jsonwebtoken::Algorithm::PS256,
        Alg::PS384 => jsonwebtoken::Algorithm::PS384,
        Alg::PS512 => jsonwebtoken::Algorithm::PS512,
        Alg::EdDSA => jsonwebtoken::Algorithm::EdDSA,
    }
}

/// Relies on `jsonwebtoken::Validation::new` and `Validation::set_audience`:
/// the returned policy accepts only the given signature algorithm, requires
/// and checks the `exp` claim (with the outside crate's default leeway), and
/// requires the token's `aud` claim to match the given audience.
#[verifier::external_body]
pub(crate) fn validation_with_audience(
    alg: jsonwebtoken::Algorithm,
    audience: &String,
) -> jsonwebtoken::Validation {
    let mut validation = jsonwebtoken::Validation::new(alg);
    validation.set_audience(&[audience.as_str()]);
    validation
}

/// Relies on `jsonwebtoken::Validation::new`: the returned policy accepts
/// only the given signature algorithm and requires and checks the `exp`
/// claim (with the outside crate's default leeway); it leaves the `aud`
/// claim unchecked, for deployments that disable audience checking.
#[verifier::external_body]
pub(crate) fn validation_without_audience(
    alg: jsonwebtoken::Algorithm,
) -> jsonwebtoken::Validation {
    jsonwebtoken::Validation::new(alg)
}

/// Relies on `jsonwebtoken::decode_header`: it splits the compact token,
/// base64url-decodes the first segment and parses it as a JSON header,
/// without touching the signature. The outcome, and the key identifier the
/// header carries, depend on the token string alone; `header_key_id` names
/// them.
#[verifier::external_body]
pub(crate) fn decode_header_kid(token: &str) -> (r: Result<
    Option<String>,
    jsonwebtoken::errors::Error,
>)
    ensures
        r is Ok <==> header_key_id(token@) is Some,
        r matches Ok(kid) ==> Some(opt_str_view(kid)) == header_key_id(token@),
{
    jsonwebtoken::decode_header(token).map(|h| h.kid)
}

/// Relies on `jsonwebtoken::decode`: it verifies the token's signature
/// against the key under the policy's algorithm, checks the claims the
/// policy demands (`exp` against the current clock, `aud` when the policy
/// carries one), and deserializes the payload. The outcome depends on the
/// clock, so nothing is promised of it; callers state what holds of every
/// outcome.
#[verifier::external_body]
pub(crate) fn decode_verified(
    token: &str,
    key: &jsonwebtoken::DecodingKey,
    validation: &jsonwebtoken::Validation,
) -> Result<serde_json::Value, jsonwebtoken::errors::Error> {
    jsonwebtoken::decode::<serde_json::Value>(token, key, validation).map(|data| data.claims)
}

} // verus!
