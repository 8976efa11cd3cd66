//! A claims shape for handlers that want a validated token but read nothing
//! from it, and the rejection type such handlers map token errors into.

use vstd::prelude::*;

use crate::token::TokenError;

verus! {

/// The claims to parse from received tokens when no field is needed: a token
/// must still validate, but carries nothing the handler reads.
pub struct DefaultClaims {}

/// The rejection a handler reports when claims cannot be parsed and validated
/// from a request: either no token was supplied, or the one supplied did not
/// pass validation.
pub enum TokenClaimsError {
    Missing,
    Invalid,
}

impl vstd::std_specs::convert::FromSpecImpl<TokenError> for TokenClaimsError {
    open spec fn obeys_from_spec() -> bool {
        true
    }

    open spec fn from_spec(error: TokenError) -> TokenClaimsError {
        match error {
            TokenError::Missing => TokenClaimsError::Missing,
            _ => TokenClaimsError::Invalid,
        }
    }
}

impl From<TokenError> for TokenClaimsError {
    /// A missing token is reported as missing; every other token failure —
    /// malformed header, unknown key, failed validation — is reported as
    /// invalid, without leaking which check failed.
    fn from(error: TokenError) -> (r: TokenClaimsError) {
        match error {
            TokenError::Missing => TokenClaimsError::Missing,
            _ => TokenClaimsError::Invalid,
        }
    }
}

} // verus!
