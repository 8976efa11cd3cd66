//! A bearer token as received from a caller, and the errors a validation
//! attempt can report.

use vstd::prelude::*;

verus! {

/// A JWT provided as a bearer token, held as an opaque string until it has
/// been validated against a key index.
pub struct Token {
    value: String,
}

impl View for Token {
    type V = Seq<char>;

    closed spec fn view(&self) -> Seq<char> {
        self.value@
    }
}

impl Token {
    /// Wrap a raw bearer string.
    pub fn new(value: String) -> (r: Token)
        ensures
            r@ == value@,
    {
        Token { value }
    }

    /// Get the token's value.
    pub fn value(&self) -> (r: &str)
        ensures
            r@ == self@,
    {
        self.value.as_str()
    }

    /// A rendering of the token that never exposes the bearer string, for use
    /// anywhere the token would otherwise be printed.
    pub fn redacted(&self) -> (r: String)
        ensures
            r@ == "Token(\"********\")"@,
    {
        let r = "Token(\"********\")".to_owned();
        r
    }
}

/// An error with a JWT.
#[derive(Debug)]
pub enum TokenError {
    /// The token is either malformed or did not pass validation.
    Invalid(jsonwebtoken::errors::Error),
    /// The token header could not be decoded because it was malformed.
    InvalidHeader(jsonwebtoken::errors::Error),
    /// No bearer token was supplied with the request.
    Missing,
    /// The token's header does not contain the `kid` attribute used to
    /// identify which decoding key should be used.
    MissingKeyId,
    /// The token's `kid` attribute specifies a key that is unknown.
    UnknownKeyId(String),
}

} // verus!
