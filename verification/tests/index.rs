//! Building a key index from key-set entries: acceptance, the fail-closed
//! policy, algorithm resolution, and the discovery hint.

use axum_jwks::Alg;
use axum_jwks::JwkEntry;
use axum_jwks::JwkError;
use axum_jwks::JwkParams;
use axum_jwks::Jwks;
use axum_jwks::JwksError;
use axum_jwks::KeyStore;
use axum_jwks::OidcConfig;
use axum_jwks::TokenError;

const TEST_RSA_N: &str = "tI81xcN-xy2m7MYSC9UTH8AV5Ll-Q3InJU2gLSYYNkJhOqe8G8bTqyA381imMzMRD21eaofM03ZETJEkzTZUwY2R3VC8GId059NkD9kcp0T3GkXnOYrT60nTXybS5dVT7ti_Jlo3YQt3JEXCkWT4mRhhlZMp3R73xcxQlXEi4hdj8F-PXz6Vcd9b-WHga2XpvrkGPTOIWVuYd7bd4SV0_zwfX6zOO2uNqSzyRtHErdaAZ9GCHuBABGbgtmg7rKVpAsJBgnX7Z3M5G6VxqaBggu210ZDFZixoBZxVr49VNjLVTeK56zefEH0_d03BksoqYW-XbXoV2pJEZk2tq9vjSQ";

const TEST_RSA_E: &str = "AQAB";

fn rsa_entry(kid: Option<&str>, alg: Option<Alg>) -> JwkEntry {
    JwkEntry {
        key_id: kid.map(|k| k.to_owned()),
        algorithm: alg,
        params: JwkParams::Rsa {
            n: TEST_RSA_N.to_owned(),
            e: TEST_RSA_E.to_owned(),
        },
    }
}

#[test]
fn builds_index_from_valid_entries() {
    let entries = vec![
        rsa_entry(Some("k1"), Some(Alg::RS256)),
        rsa_entry(Some("k2"), Some(Alg::RS384)),
    ];
    let jwks = Jwks::from_entries(entries, &"aud1".to_owned(), None, None)
        .expect("two valid entries should build");

    let k1 = jwks.get(&"k1".to_owned()).expect("k1 should be indexed");
    assert_eq!(k1.algorithm, Alg::RS256);
    assert_eq!(k1.audience, "aud1");
    assert_eq!(k1.modulus, TEST_RSA_N);
    assert_eq!(k1.exponent, TEST_RSA_E);

    let k2 = jwks.get(&"k2".to_owned()).expect("k2 should be indexed");
    assert_eq!(k2.algorithm, Alg::RS384);

    assert!(jwks.get(&"k3".to_owned()).is_none());
}

#[test]
fn missing_key_id_fails_whole_build() {
    let entries = vec![
        rsa_entry(Some("k1"), Some(Alg::RS256)),
        rsa_entry(None, Some(Alg::RS256)),
    ];
    let err = match Jwks::from_entries(entries, &"aud1".to_owned(), None, None) {
        Err(e) => e,
        Ok(_) => panic!("an entry without a key identifier should fail the build"),
    };
    assert!(matches!(err, JwksError::KeyError(JwkError::MissingKeyId)));
}

#[test]
fn non_rsa_family_fails_naming_the_key() {
    let entries = vec![
        rsa_entry(Some("k1"), Some(Alg::RS256)),
        JwkEntry {
            key_id: Some("k2".to_owned()),
            algorithm: None,
            params: JwkParams::Other {
                family: "EC".to_owned(),
            },
        },
    ];
    let err = match Jwks::from_entries(entries, &"aud1".to_owned(), None, None) {
        Err(e) => e,
        Ok(_) => panic!("a non-RSA entry should fail the build"),
    };
    match err {
        JwksError::KeyError(JwkError::UnexpectedAlgorithm { key_id, algorithm }) => {
            assert_eq!(key_id, "k2");
            assert_eq!(algorithm, "EC");
        }
        other => panic!("expected UnexpectedAlgorithm, got {:?}", other),
    }
}

#[test]
fn bad_rsa_components_fail_naming_the_key() {
    let entries = vec![JwkEntry {
        key_id: Some("k1".to_owned()),
        algorithm: Some(Alg::RS256),
        params: JwkParams::Rsa {
            n: "!!! not base64url !!!".to_owned(),
            e: TEST_RSA_E.to_owned(),
        },
    }];
    let err = match Jwks::from_entries(entries, &"aud1".to_owned(), None, None) {
        Err(e) => e,
        Ok(_) => panic!("unusable key components should fail the build"),
    };
    match err {
        JwksError::KeyError(JwkError::DecodingError { key_id, .. }) => {
            assert_eq!(key_id, "k1");
        }
        other => panic!("expected DecodingError, got {:?}", other),
    }
}

#[test]
fn missing_algorithm_fails_when_nothing_resolves() {
    let entries = vec![rsa_entry(Some("k1"), None)];
    let err = match Jwks::from_entries(entries, &"aud1".to_owned(), None, None) {
        Err(e) => e,
        Ok(_) => panic!("no algorithm from any source should fail the build"),
    };
    match err {
        JwksError::KeyError(JwkError::MissingAlgorithm { key_id }) => {
            assert_eq!(key_id, "k1");
        }
        other => panic!("expected MissingAlgorithm, got {:?}", other),
    }
}

#[test]
fn entry_algorithm_wins_over_hint() {
    let entries = vec![rsa_entry(Some("k1"), Some(Alg::RS512))];
    let jwks = Jwks::from_entries(entries, &"aud1".to_owned(), Some(Alg::RS256), None)
        .expect("entry with its own algorithm should build");
    let k1 = jwks.get(&"k1".to_owned()).expect("k1 should be indexed");
    assert_eq!(k1.algorithm, Alg::RS512);
}

#[test]
fn discovery_hint_fills_missing_entry_algorithm() {
    let entries = vec![rsa_entry(Some("k1"), None)];
    let jwks = Jwks::from_entries(entries, &"aud1".to_owned(), Some(Alg::RS256), None)
        .expect("the hint should supply the algorithm");
    let k1 = jwks.get(&"k1".to_owned()).expect("k1 should be indexed");
    assert_eq!(k1.algorithm, Alg::RS256);
}

#[test]
fn key_store_falls_back_to_rs256() {
    let entries = vec![rsa_entry(Some("k1"), None)];
    let store = KeyStore::new(entries, &"aud1".to_owned(), None, 1234)
        .expect("the store default should supply the algorithm");
    assert_eq!(store.last_updated, Some(1234));
    let k1 = store.keys.get(&"k1".to_owned()).expect("k1 should be indexed");
    assert_eq!(k1.algorithm, Alg::RS256);
}

#[test]
fn default_key_store_is_unpopulated() {
    let store = KeyStore::default();
    assert_eq!(store.last_updated, None);
    assert!(store.keys.get(&"k1".to_owned()).is_none());
}

#[test]
fn oidc_hint_takes_first_supported_algorithm() {
    let config = OidcConfig {
        jwks_uri: "https://issuer/jwks".to_owned(),
        id_token_signing_alg_values_supported: Some(vec![
            "RS256".to_owned(),
            "RS384".to_owned(),
        ]),
    };
    assert_eq!(config.algorithm_hint().expect("should parse"), Some(Alg::RS256));
}

#[test]
fn oidc_hint_absent_or_empty_means_none() {
    let config = OidcConfig {
        jwks_uri: "https://issuer/jwks".to_owned(),
        id_token_signing_alg_values_supported: None,
    };
    assert_eq!(config.algorithm_hint().expect("should parse"), None);

    let config = OidcConfig {
        jwks_uri: "https://issuer/jwks".to_owned(),
        id_token_signing_alg_values_supported: Some(vec![]),
    };
    assert_eq!(config.algorithm_hint().expect("should parse"), None);
}

#[test]
fn oidc_hint_rejects_unknown_label() {
    let config = OidcConfig {
        jwks_uri: "https://issuer/jwks".to_owned(),
        id_token_signing_alg_values_supported: Some(vec!["XX999".to_owned()]),
    };
    let err = config.algorithm_hint().expect_err("unknown label should be rejected");
    match err {
        JwksError::InvalidAlgorithm(label) => assert_eq!(label, "XX999"),
        other => panic!("expected InvalidAlgorithm, got {:?}", other),
    }
}

#[test]
fn resolve_authority_prefers_the_discovery_document() {
    let config = OidcConfig {
        jwks_uri: "https://issuer/jwks".to_owned(),
        id_token_signing_alg_values_supported: Some(vec!["RS256".to_owned()]),
    };
    let (url, hint) = axum_jwks::resolve_authority(
        &"https://issuer/.well-known/openid-configuration".to_owned(),
        Some(config),
    )
    .expect("a parsed document should resolve");
    assert_eq!(url, "https://issuer/jwks");
    assert_eq!(hint, Some(Alg::RS256));
}

#[test]
fn resolve_authority_falls_back_to_the_location() {
    let (url, hint) = axum_jwks::resolve_authority(&"https://issuer/jwks".to_owned(), None)
        .expect("no document means the location is the endpoint");
    assert_eq!(url, "https://issuer/jwks");
    assert_eq!(hint, None);
}

#[test]
fn alg_from_label_parses_every_known_label() {
    let labels = [
        ("HS256", Alg::HS256),
        ("HS384", Alg::HS384),
        ("HS512", Alg::HS512),
        ("ES256", Alg::ES256),
        ("ES384", Alg::ES384),
        ("RS256", Alg::RS256),
        ("RS384", Alg::RS384),
        ("RS512", Alg::RS512),
        ("PS256", Alg::PS256),
        ("PS384", Alg::PS384),
        ("PS512", Alg::PS512),
        ("EdDSA", Alg::EdDSA),
    ];
    for (label, expected) in labels {
        assert_eq!(Alg::from_label(&label.to_owned()), Some(expected));
    }
    assert_eq!(Alg::from_label(&"rs256".to_owned()), None);
    assert_eq!(Alg::from_label(&"".to_owned()), None);
}

#[test]
fn token_error_folds_into_claims_rejection() {
    assert!(matches!(
        axum_jwks::default_claims::TokenClaimsError::from(TokenError::Missing),
        axum_jwks::default_claims::TokenClaimsError::Missing
    ));
    assert!(matches!(
        axum_jwks::default_claims::TokenClaimsError::from(TokenError::MissingKeyId),
        axum_jwks::default_claims::TokenClaimsError::Invalid
    ));
    assert!(matches!(
        axum_jwks::default_claims::TokenClaimsError::from(TokenError::UnknownKeyId(
            "k1".to_owned()
        )),
        axum_jwks::default_claims::TokenClaimsError::Invalid
    ));
}

#[test]
fn token_error_folds_into_empty_claims_rejection() {
    assert!(matches!(
        axum_jwks::empty_claims::TokenClaimsError::from(TokenError::Missing),
        axum_jwks::empty_claims::TokenClaimsError::Missing
    ));
    assert!(matches!(
        axum_jwks::empty_claims::TokenClaimsError::from(TokenError::MissingKeyId),
        axum_jwks::empty_claims::TokenClaimsError::Invalid
    ));
}
