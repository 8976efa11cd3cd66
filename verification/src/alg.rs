//! Signature algorithm identifiers and parsing of their textual labels.

use vstd::prelude::*;

verus! {

/// A JSON-Web-Signature algorithm identifier, as it appears in a key entry's
/// `alg` field or in a discovery document's list of supported algorithms.
#[derive(Clone, Copy, Debug, PartialEq, Eq, Structural)]
pub enum Alg {
    HS256,
    HS384,
    HS512,
    ES256,
    ES384,
    RS256,
    RS384,
    RS512,
    PS256,
    PS384,
    PS512,
    EdDSA,
}

/// The algorithm named by a textual label, if the label is one of the
/// recognised algorithm names.
pub open spec fn alg_of_label(s: Seq<char>) -> Option<Alg> {
    if s == "HS256"@ {
        Some(Alg::HS256)
    } else if s == "HS384"@ {
        Some(Alg::HS384)
    } else if s == "HS512"@ {
        Some(Alg::HS512)
    } else if s == "ES256"@ {
        Some(Alg::ES256)
    } else if s == "ES384"@ {
        Some(Alg::ES384)
    } else if s == "RS256"@ {
        Some(Alg::RS256)
    } else if s == "RS384"@ {
        Some(Alg::RS384)
    } else if s == "RS512"@ {
        Some(Alg::RS512)
    } else if s == "PS256"@ {
        Some(Alg::PS256)
    } else if s == "PS384"@ {
        Some(Alg::PS384)
    } else if s == "PS512"@ {
        Some(Alg::PS512)
    } else if s == "EdDSA"@ {
        Some(Alg::EdDSA)
    } else {
        None
    }
}

impl Alg {
    /// Parse a textual algorithm label.
    pub fn from_label(label: &String) -> (r: Option<Alg>)
        ensures
            r == alg_of_label(label@),
    {
        if label.eq(&"HS256".to_owned()) {
            Some(Alg::HS256)
        } else if label.eq(&"HS384".to_owned()) {
            Some(Alg::HS384)
        } else if label.eq(&"HS512".to_owned()) {
            Some(Alg::HS512)
        } else if label.eq(&"ES256".to_owned()) {
            Some(Alg::ES256)
        } else if label.eq(&"ES384".to_owned()) {
            Some(Alg::ES384)
        } else if label.eq(&"RS256".to_owned()) {
            Some(Alg::RS256)
        } else if label.eq(&"RS384".to_owned()) {
            Some(Alg::RS384)
        } else if label.eq(&"RS512".to_owned()) {
            Some(Alg::RS512)
        } else if label.eq(&"PS256".to_owned()) {
            Some(Alg::PS256)
        } else if label.eq(&"PS384".to_owned()) {
            Some(Alg::PS384)
        } else if label.eq(&"PS512".to_owned()) {
            Some(Alg::PS512)
        } else if label.eq(&"EdDSA".to_owned()) {
            Some(Alg::EdDSA)
        } else {
            None
        }
    }
}

} // verus!
