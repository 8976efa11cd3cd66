//! Validation of JSON Web Tokens against a set of published verification keys.
//!
//! A remote authority publishes its public keys as a JSON Web Key Set; this
//! crate indexes those keys by identifier, decides when the cached set must be
//! refreshed, and validates inbound tokens (signature, expiry, audience)
//! against the current index. Network fetching and request-framework glue are
//! the caller's responsibility; the types here work on plain values.

mod alg;
pub mod default_claims;
pub mod empty_claims;
mod jwks;
mod jwt;
mod key_manager;
mod key_store;
mod oidc;
mod token;

pub use alg::alg_of_label;
pub use alg::Alg;
pub use default_claims::DefaultClaims;
pub use empty_claims::EmptyClaims;
pub use jwks::build_map;
pub use jwks::entry_outcome;
pub use jwks::jwks_err_matches;
pub use jwks::lemma_build_complete;
pub use jwks::lemma_build_missing_key_id;
pub use jwks::lemma_build_non_rsa;
pub use jwks::resolved_alg;
pub use jwks::BuildFailure;
pub use jwks::DecodedToken;
pub use jwks::Jwk;
pub use jwks::JwkEntry;
pub use jwks::JwkError;
pub use jwks::JwkParams;
pub use jwks::JwkView;
pub use jwks::Jwks;
pub use jwks::JwksError;
pub use jwt::header_key_id;
pub use jwt::opt_str_view;
pub use jwt::rsa_components_ok;
pub use key_manager::lemma_update_idempotent;
pub use key_manager::KeyManager;
pub use key_manager::KeyManagerBuilder;
pub use key_manager::KeyManagerView;
pub use key_store::KeyStore;
pub use oidc::resolve_authority;
pub use oidc::spec_algorithm_hint;
pub use oidc::OidcConfig;
pub use token::Token;
pub use token::TokenError;
