//! The key manager: configuration, the refresh decision, atomic replacement
//! of the cached key index, and validation against the current index.
//!
//! The manager itself performs no network call: the caller fetches the
//! authority's key set and hands the parsed entries (and the clock) in. The
//! decision of *when* a refresh is due, what a refresh does to the cached
//! index, and how a token fares against it are all here, as verified code.

use vstd::prelude::*;

use crate::alg::Alg;
use crate::jwks::build_map;
use crate::jwks::jwks_err_matches;
use crate::jwks::DecodedToken;
use crate::jwks::JwkEntry;
use crate::jwks::JwkView;
use crate::jwks::Jwks;
use crate::jwks::JwksError;
use crate::jwt::header_key_id;
use crate::key_store::KeyStore;
use crate::token::TokenError;

verus! {

/// Everything about a key manager that is a plain value.
pub ghost struct KeyManagerView {
    pub authority: Seq<char>,
    pub audience: Seq<char>,
    pub minimal_update_interval: Option<u64>,
    pub last_updated: Option<u64>,
    pub index: Map<Seq<char>, JwkView>,
}

/// Owns a refreshable key index together with the configuration captured at
/// construction. Validation reads the index; a refresh replaces it whole, so
/// a reader never observes a partially updated key set.
pub struct KeyManager {
    authority: String,
    audience: String,
    minimal_update_interval: Option<u64>,
    key_store: KeyStore,
}

impl View for KeyManager {
    type V = KeyManagerView;

    closed spec fn view(&self) -> KeyManagerView {
        KeyManagerView {
            authority: self.authority@,
            audience: self.audience@,
            minimal_update_interval: self.minimal_update_interval,
            last_updated: self.key_store.last_updated,
            index: self.key_store.keys@,
        }
    }
}

impl KeyManager {
    /// Start configuring a key manager.
    pub fn builder(authority: String, audience: String) -> (r: KeyManagerBuilder)
        ensures
            r.authority@ == authority@,
            r.audience@ == audience@,
            r.minimal_update_interval is None,
    {
        KeyManagerBuilder::new(authority, audience)
    }

    /// The location the key set is fetched from.
    pub fn authority(&self) -> (r: &String)
        ensures
            r@ == self@.authority,
    {
        &self.authority
    }

    /// The audience tokens must be intended for; empty when audience checking
    /// is disabled.
    pub fn audience(&self) -> (r: &String)
        ensures
            r@ == self@.audience,
    {
        &self.audience
    }

    /// The currently cached key store.
    pub fn key_store(&self) -> (r: &KeyStore)
        ensures
            r.last_updated == self@.last_updated,
            r.keys@ == self@.index,
    {
        &self.key_store
    }

    /// Whether a refresh is due at the given moment: only when a minimal
    /// update interval is configured, the store has been populated, and at
    /// least that interval has passed since. Cheap on purpose — no network
    /// call is involved in deciding.
    pub fn needs_update(&self, now: u64) -> (r: bool)
        ensures
            r == match (self@.minimal_update_interval, self@.last_updated) {
                (Some(interval), Some(last)) => last + interval <= now,
                _ => false,
            },
    {
        match (self.minimal_update_interval, self.key_store.last_updated) {
            (Some(interval), Some(last)) => last <= now && now - last >= interval,
            _ => false,
        }
    }

    /// Replace the cached key store with one built from freshly fetched
    /// entries, stamped with the fetch time. The swap is whole: on success
    /// the new index replaces the old one entirely; on failure the cached
    /// store is left untouched, so a malformed fetch never degrades the
    /// trusted key set.
    pub fn update(&mut self, entries: Vec<JwkEntry>, hint: Option<Alg>, now: u64) -> (r: Result<
        (),
        JwksError,
    >)
        ensures
            final(self)@.authority == old(self)@.authority,
            final(self)@.audience == old(self)@.audience,
            final(self)@.minimal_update_interval == old(self)@.minimal_update_interval,
            match build_map(entries@, old(self)@.audience, hint, Some(Alg::RS256)) {
                Ok(m) => r is Ok && final(self)@.index == m && final(self)@.last_updated == Some(
                    now,
                ),
                Err(f) => r matches Err(e) && jwks_err_matches(e, f) && final(self)@ == old(
                    self,
                )@,
            },
    {
        match KeyStore::new(entries, &self.audience, hint, now) {
            Ok(store) => {
                self.key_store = store;
                Ok(())
            },
            Err(e) => Err(e),
        }
    }

    /// Validate a token against the currently cached index. Pure in the
    /// manager: nothing is mutated, so validations may run concurrently
    /// against the same index snapshot.
    pub fn validate_claims(&self, token: &str) -> (r: Result<DecodedToken, TokenError>)
        ensures
            header_key_id(token@) is None ==> r matches Err(TokenError::InvalidHeader(_)),
            header_key_id(token@) matches Some(None) ==> r matches Err(TokenError::MissingKeyId),
            match header_key_id(token@) {
                Some(Some(kid)) => if !self@.index.contains_key(kid) {
                    r matches Err(TokenError::UnknownKeyId(u)) && u@ == kid
                } else {
                    match r {
                        Ok(d) => d.key_id@ == kid && d.algorithm == self@.index[kid].algorithm,
                        Err(e) => e matches TokenError::Invalid(_),
                    }
                },
                _ => true,
            },
    {
        self.key_store.keys.validate_claims(token)
    }
}

/// Plain configuration for a key manager, validated at construction.
pub struct KeyManagerBuilder {
    /// The location the key set is fetched from: either a key-set endpoint or
    /// an OpenID-Connect discovery endpoint.
    pub authority: String,
    /// To be checked against the `aud` claim; empty disables the check.
    pub audience: String,
    /// Do not refresh more often than this many seconds; absent means the
    /// cache is fetch-once and only explicit refreshes update it.
    pub minimal_update_interval: Option<u64>,
}

impl KeyManagerBuilder {
    /// Create a new builder for a manager that fetches its keys from
    /// `authority` and checks tokens against `audience`.
    pub fn new(authority: String, audience: String) -> (r: KeyManagerBuilder)
        ensures
            r.authority@ == authority@,
            r.audience@ == audience@,
            r.minimal_update_interval is None,
    {
        KeyManagerBuilder { authority, audience, minimal_update_interval: None }
    }

    /// Do not update more often than `interval` seconds.
    pub fn minimal_update_interval(self, interval: u64) -> (r: KeyManagerBuilder)
        ensures
            r.authority@ == self.authority@,
            r.audience@ == self.audience@,
            r.minimal_update_interval == Some(interval),
    {
        KeyManagerBuilder {
            authority: self.authority,
            audience: self.audience,
            minimal_update_interval: Some(interval),
        }
    }

    /// Assemble the manager from the entries of the initial fetch, stamped
    /// with the fetch time. Fails whole if the entries do not build: a
    /// manager either starts with a usable key set or does not start.
    pub fn build(self, entries: Vec<JwkEntry>, hint: Option<Alg>, now: u64) -> (r: Result<
        KeyManager,
        JwksError,
    >)
        ensures
            match build_map(entries@, self.audience@, hint, Some(Alg::RS256)) {
                Ok(m) => r matches Ok(km) && km@.authority == self.authority@ && km@.audience
                    == self.audience@ && km@.minimal_update_interval
                    == self.minimal_update_interval && km@.index == m && km@.last_updated == Some(
                    now,
                ),
                Err(f) => r matches Err(e) && jwks_err_matches(e, f),
            },
    {
        match KeyStore::new(entries, &self.audience, hint, now) {
            Ok(store) => Ok(
                KeyManager {
                    authority: self.authority,
                    audience: self.audience,
                    minimal_update_interval: self.minimal_update_interval,
                    key_store: store,
                },
            ),
            Err(e) => Err(e),
        }
    }
}

/// Law: refreshing twice against an unchanged authority is idempotent in the
/// keys — two stores built from the same entries, hint and audience hold the
/// same key sets, whatever their fetch timestamps.
pub proof fn lemma_update_idempotent(
    first: KeyStore,
    second: KeyStore,
    entries: Seq<JwkEntry>,
    audience: Seq<char>,
    hint: Option<Alg>,
)
    requires
        Ok::<Map<Seq<char>, JwkView>, crate::jwks::BuildFailure>(first.keys@) == build_map(
            entries,
            audience,
            hint,
            Some(Alg::RS256),
        ),
        Ok::<Map<Seq<char>, JwkView>, crate::jwks::BuildFailure>(second.keys@) == build_map(
            entries,
            audience,
            hint,
            Some(Alg::RS256),
        ),
    ensures
        first.keys@ == second.keys@,
{
}

} // verus!
