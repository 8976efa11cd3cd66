//! The part of an OpenID-Connect discovery document this crate reads, and the
//! resolution of the key-set location and algorithm hint from it.

use vstd::prelude::*;

use crate::alg::alg_of_label;
use crate::alg::Alg;
use crate::jwks::JwksError;

verus! {

/// What a discovery document contributes: where the key set lives, and an
/// optional list of supported signing algorithms, of which only the first
/// entry is used as a hint.
pub struct OidcConfig {
    /// The URL the key set is fetched from.
    pub jwks_uri: String,
    /// Supported signing algorithms, in the authority's order.
    pub id_token_signing_alg_values_supported: Option<Vec<String>>,
}

/// The hint a supported-algorithms list resolves to: the first entry parsed
/// as an algorithm; no hint when the list is absent or empty; the offending
/// label when the first entry is not a recognised algorithm name.
pub open spec fn spec_algorithm_hint(algs: Option<Vec<String>>) -> Result<Option<Alg>, Seq<char>> {
    match algs {
        None => Ok(None),
        Some(v) => if v@.len() == 0 {
            Ok(None)
        } else {
            match alg_of_label(v@[0]@) {
                Some(a) => Ok(Some(a)),
                None => Err(v@[0]@),
            }
        },
    }
}

impl OidcConfig {
    /// The default-algorithm hint the document supplies: the first entry of
    /// the supported-algorithms list, when the list is present and non-empty.
    /// A first entry that is not a recognised algorithm label is an error.
    pub fn algorithm_hint(&self) -> (r: Result<Option<Alg>, JwksError>)
        ensures
            match spec_algorithm_hint(self.id_token_signing_alg_values_supported) {
                Ok(h) => r == Ok::<Option<Alg>, JwksError>(h),
                Err(label) => r matches Err(JwksError::InvalidAlgorithm(s)) && s@ == label,
            },
    {
        match &self.id_token_signing_alg_values_supported {
            None => Ok(None),
            Some(algs) => {
                if algs.len() == 0 {
                    Ok(None)
                } else {
                    match Alg::from_label(&algs[0]) {
                        Some(a) => Ok(Some(a)),
                        None => Err(JwksError::InvalidAlgorithm(algs[0].clone())),
                    }
                }
            },
        }
    }
}

/// Where the key set lives and which hint applies, given the outcome of
/// reading the authority location as a discovery document: the document's
/// endpoint and hint when one parsed, the location itself — taken directly as
/// the key-set endpoint, with no hint — when none did.
pub fn resolve_authority(location: &String, discovery: Option<OidcConfig>) -> (r: Result<
    (String, Option<Alg>),
    JwksError,
>)
    ensures
        match discovery {
            None => r matches Ok(p) && p.0@ == location@ && p.1 is None,
            Some(cfg) => match spec_algorithm_hint(cfg.id_token_signing_alg_values_supported) {
                Ok(h) => r matches Ok(p) && p.0@ == cfg.jwks_uri@ && p.1 == h,
                Err(label) => r matches Err(JwksError::InvalidAlgorithm(s)) && s@ == label,
            },
        },
{
    match discovery {
        None => Ok((location.clone(), None)),
        Some(cfg) => match cfg.algorithm_hint() {
            Ok(hint) => Ok((cfg.jwks_uri, hint)),
            Err(e) => Err(e),
        },
    }
}

} // verus!
