//! A key index stamped with the time of the fetch that produced it.

use vstd::prelude::*;

use crate::alg::Alg;
use crate::jwks::build_map;
use crate::jwks::jwks_err_matches;
use crate::jwks::JwkEntry;
use crate::jwks::JwkView;
use crate::jwks::Jwks;
use crate::jwks::JwksError;

verus! {

/// A key index together with the moment (seconds on the caller's clock) it
/// was fetched. Immutable: a refresh produces a new store that replaces the
/// old one whole.
pub struct KeyStore {
    /// When the fetch that produced these keys completed; absent only for a
    /// default store that has never been populated.
    pub last_updated: Option<u64>,
    /// The keys, indexed by identifier.
    pub keys: Jwks,
}

impl KeyStore {
    /// Assemble a store from the entries of a fetched key set, stamped with
    /// the fetch time. A key entry that declares no algorithm of its own and
    /// gets none from the discovery hint falls back to RS256. A failure on
    /// any entry fails the whole store: no partial key set is produced.
    pub fn new(entries: Vec<JwkEntry>, audience: &String, alg: Option<Alg>, now: u64) -> (r:
        Result<KeyStore, JwksError>)
        ensures
            build_map(entries@, audience@, alg, Some(Alg::RS256)) matches Ok(m) ==> r matches Ok(
                ks,
            ) && ks.keys@ == m && ks.last_updated == Some(now),
            build_map(entries@, audience@, alg, Some(Alg::RS256)) matches Err(f) ==> r matches Err(
                e,
            ) && jwks_err_matches(e, f),
    {
        match Jwks::from_entries(entries, audience, alg, Some(Alg::RS256)) {
            Ok(keys) => Ok(KeyStore { last_updated: Some(now), keys }),
            Err(e) => Err(e),
        }
    }
}

impl Default for KeyStore {
    /// A store that has never been populated: no keys, no fetch time.
    fn default() -> (r: KeyStore)
        ensures
            r.last_updated is None,
            r.keys@ == Map::<Seq<char>, JwkView>::empty(),
    {
        KeyStore { last_updated: None, keys: Jwks::empty() }
    }
}

} // verus!
