//! A claims shape for endpoints that only verify the audience claim and need
//! nothing else from the token.

use vstd::prelude::*;

use crate::token::TokenError;

verus! {

/// Use this when only verifying the audience claim, and the endpoint does not
/// need anything from the token.
pub struct EmptyClaims {}

/// The rejection an endpoint using `EmptyClaims` reports when the token is
/// missing or does not validate.
pub enum TokenClaimsError {
    Missing,
    Invalid,
}

impl vstd::std_specs::convert::FromSpecImpl<TokenError> for TokenClaimsError {
    open spec fn obeys_from_spec() -> bool {
        true
    }

    open spec fn from_spec(error: TokenError) -> TokenClaimsError {
        match error {
            TokenError::Missing => TokenClaimsError::Missing,
            _ => TokenClaimsError::Invalid,
        }
    }
}

impl From<TokenError> for TokenClaimsError {
    /// A missing token is reported as missing; every other token failure is
    /// reported as invalid.
    fn from(error: TokenError) -> (r: TokenClaimsError) {
        match error {
            TokenError::Missing => TokenClaimsError::Missing,
            _ => TokenClaimsError::Invalid,
        }
    }
}

} // verus!
