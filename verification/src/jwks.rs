//! The key index: building it from the entries of a published key set, and
//! validating tokens against it.

use vstd::prelude::*;

use crate::alg::Alg;
use crate::jwt;
use crate::jwt::header_key_id;
use crate::jwt::rsa_components_ok;
use crate::token::TokenError;

verus! {

/// The key material of one entry of a published key set, by algorithm family.
/// Only the RSA family is supported; any other family is kept by name so that
/// rejecting it can report what was found.
pub enum JwkParams {
    /// An RSA public key, as base64url-encoded modulus and exponent.
    Rsa { n: String, e: String },
    /// A key of any other family, named for the error that rejects it.
    Other { family: String },
}

/// One entry of a published key set, as plain values: an optional key
/// identifier, an optional algorithm of the key's own, and the key material.
pub struct JwkEntry {
    pub key_id: Option<String>,
    pub algorithm: Option<Alg>,
    pub params: JwkParams,
}

/// A verification key plus the validation policy to apply when using it.
/// Immutable after construction.
pub struct Jwk {
    /// Key material handed to the signature check.
    pub decoding: jsonwebtoken::DecodingKey,
    /// The validation policy applied by the signature check.
    pub validation: jsonwebtoken::Validation,
    /// The algorithm resolved for this key at build time.
    pub algorithm: Alg,
    /// The audience tokens validated with this key must carry; empty when
    /// audience checking is disabled.
    pub audience: String,
    /// The base64url-encoded RSA modulus the key material was built from.
    pub modulus: String,
    /// The base64url-encoded RSA exponent the key material was built from.
    pub exponent: String,
}

/// The mathematical content of a key record: everything about it that is a
/// plain value.
pub ghost struct JwkView {
    pub algorithm: Alg,
    pub audience: Seq<char>,
    pub modulus: Seq<char>,
    pub exponent: Seq<char>,
}

impl View for Jwk {
    type V = JwkView;

    open spec fn view(&self) -> JwkView {
        JwkView {
            algorithm: self.algorithm,
            audience: self.audience@,
            modulus: self.modulus@,
            exponent: self.exponent@,
        }
    }
}

/// An error with a specific key from a key set.
#[derive(Debug)]
pub enum JwkError {
    /// The decoding key could not be constructed from the RSA components the
    /// entry supplied.
    DecodingError { key_id: String, error: jsonwebtoken::errors::Error },
    /// No algorithm could be resolved for the key from any source.
    MissingAlgorithm { key_id: String },
    /// The key entry has no key identifier.
    MissingKeyId,
    /// The key uses a non-RSA algorithm family.
    UnexpectedAlgorithm { key_id: String, algorithm: String },
}

/// An error with the overall key set.
#[derive(Debug)]
pub enum JwksError {
    /// The request to the authority or to the key-set endpoint failed; the
    /// message describes the failure.
    FetchError(String),
    /// An error with an individual key caused the processing of the whole key
    /// set to fail: no partial key set is ever produced.
    KeyError(JwkError),
    /// A discovery document named an algorithm label that cannot be parsed.
    InvalidAlgorithm(String),
}

/// Why building an index from a sequence of entries fails, as plain values.
pub ghost enum BuildFailure {
    MissingKeyId,
    KeyDecoding { key_id: Seq<char> },
    MissingAlgorithm { key_id: Seq<char> },
    UnexpectedAlgorithm { key_id: Seq<char>, family: Seq<char> },
}

/// Whether an exec-level error reports the given failure.
pub open spec fn jwks_err_matches(e: JwksError, f: BuildFailure) -> bool {
    match f {
        BuildFailure::MissingKeyId => e matches JwksError::KeyError(JwkError::MissingKeyId),
        BuildFailure::KeyDecoding { key_id } => e matches JwksError::KeyError(
            JwkError::DecodingError { key_id: k, .. },
        ) && k@ == key_id,
        BuildFailure::MissingAlgorithm { key_id } => e matches JwksError::KeyError(
            JwkError::MissingAlgorithm { key_id: k },
        ) && k@ == key_id,
        BuildFailure::UnexpectedAlgorithm { key_id, family } => e matches JwksError::KeyError(
            JwkError::UnexpectedAlgorithm { key_id: k, algorithm: a },
        ) && k@ == key_id && a@ == family,
    }
}

/// The algorithm that applies to a key entry: the entry's own algorithm if it
/// declares one, otherwise the discovery hint, otherwise the configured
/// default.
pub open spec fn resolved_alg(
    entry_alg: Option<Alg>,
    hint: Option<Alg>,
    default_alg: Option<Alg>,
) -> Option<Alg> {
    if entry_alg is Some {
        entry_alg
    } else if hint is Some {
        hint
    } else {
        default_alg
    }
}

/// What one key entry contributes to the index: its identifier and record, or
/// the failure that aborts the whole build.
pub open spec fn entry_outcome(
    entry: JwkEntry,
    audience: Seq<char>,
    hint: Option<Alg>,
    default_alg: Option<Alg>,
) -> Result<(Seq<char>, JwkView), BuildFailure> {
    match entry.key_id {
        None => Err(BuildFailure::MissingKeyId),
        Some(kid) => match entry.params {
            JwkParams::Other { family } => Err(
                BuildFailure::UnexpectedAlgorithm { key_id: kid@, family: family@ },
            ),
            JwkParams::Rsa { n, e } => if !rsa_components_ok(n@, e@) {
                Err(BuildFailure::KeyDecoding { key_id: kid@ })
            } else {
                match resolved_alg(entry.algorithm, hint, default_alg) {
                    None => Err(BuildFailure::MissingAlgorithm { key_id: kid@ }),
                    Some(a) => Ok(
                        (
                            kid@,
                            JwkView { algorithm: a, audience, modulus: n@, exponent: e@ },
                        ),
                    ),
                }
            },
        },
    }
}

/// The index built from a sequence of key entries: the mapping from key
/// identifier to record, or the first failure in entry order. A failure on
/// any single entry aborts the whole build. A repeated identifier keeps the
/// later entry's record.
pub open spec fn build_map(
    entries: Seq<JwkEntry>,
    audience: Seq<char>,
    hint: Option<Alg>,
    default_alg: Option<Alg>,
) -> Result<Map<Seq<char>, JwkView>, BuildFailure>
    decreases entries.len(),
{
    if entries.len() == 0 {
        Ok(Map::empty())
    } else {
        match build_map(entries.drop_last(), audience, hint, default_alg) {
            Err(f) => Err(f),
            Ok(m) => match entry_outcome(entries.last(), audience, hint, default_alg) {
                Err(f) => Err(f),
                Ok(rec) => Ok(m.insert(rec.0, rec.1)),
            },
        }
    }
}

/// The mapping held by a key-record list: a later pair with the same
/// identifier supersedes an earlier one.
pub open spec fn kv_map(s: Seq<(String, Jwk)>) -> Map<Seq<char>, JwkView>
    decreases s.len(),
{
    if s.len() == 0 {
        Map::empty()
    } else {
        kv_map(s.drop_last()).insert(s.last().0@, s.last().1@)
    }
}

/// A key in the mapping is a key of some pair in the list.
proof fn lemma_kv_map_contains(s: Seq<(String, Jwk)>, k: Seq<char>)
    ensures
        kv_map(s).contains_key(k) <==> exists|i: int| 0 <= i < s.len() && s[i].0@ == k,
    decreases s.len(),
{
    if s.len() > 0 {
        lemma_kv_map_contains(s.drop_last(), k);
        if s.last().0@ == k {
            assert(s[s.len() - 1].0@ == k);
        } else {
            if kv_map(s).contains_key(k) {
                let i = choose|i: int|
                    0 <= i < s.drop_last().len() && s.drop_last()[i].0@ == k;
                assert(s[i].0@ == k);
            }
            if exists|i: int| 0 <= i < s.len() && s[i].0@ == k {
                let i = choose|i: int| 0 <= i < s.len() && s[i].0@ == k;
                assert(s.drop_last()[i].0@ == k);
            }
        }
    }
}

/// The record mapped to an identifier is the one of the last pair that
/// carries it.
proof fn lemma_kv_map_get(s: Seq<(String, Jwk)>, i: int, k: Seq<char>)
    requires
        0 <= i < s.len(),
        s[i].0@ == k,
        forall|j: int| i < j < s.len() ==> s[j].0@ != k,
    ensures
        kv_map(s).contains_key(k),
        kv_map(s)[k] == s[i].1@,
    decreases s.len(),
{
    if i + 1 < s.len() {
        lemma_kv_map_get(s.drop_last(), i, k);
    }
}

/// An immutable mapping from key identifier to key record, built atomically
/// from the entries of one fetched key set.
pub struct Jwks {
    keys: Vec<(String, Jwk)>,
}

impl View for Jwks {
    type V = Map<Seq<char>, JwkView>;

    closed spec fn view(&self) -> Map<Seq<char>, JwkView> {
        kv_map(self.keys@)
    }
}

impl Jwks {
    /// An index with no keys.
    pub fn empty() -> (r: Jwks)
        ensures
            r@ == Map::<Seq<char>, JwkView>::empty(),
    {
        Jwks { keys: Vec::new() }
    }

    /// Build an index from the entries of a fetched key set. Each entry must
    /// carry a key identifier and an RSA key whose components decode, and must
    /// resolve an algorithm from its own declaration, the discovery hint or
    /// the configured default; the first entry that does not aborts the whole
    /// build, so a malformed key set never reduces the trusted keys silently.
    pub fn from_entries(
        entries: Vec<JwkEntry>,
        audience: &String,
        hint: Option<Alg>,
        default_alg: Option<Alg>,
    ) -> (r: Result<Jwks, JwksError>)
        ensures
            build_map(entries@, audience@, hint, default_alg) matches Ok(m) ==> r matches Ok(jwks)
                && jwks@ == m,
            build_map(entries@, audience@, hint, default_alg) matches Err(f) ==> r matches Err(e)
                && jwks_err_matches(e, f),
    {
        let ghost all = entries@;
        let mut keys: Vec<(String, Jwk)> = Vec::new();
        let mut i: usize = 0;
        while i < entries.len()
            invariant
                0 <= i <= entries@.len(),
                entries@ == all,
                build_map(all.take(i as int), audience@, hint, default_alg) == Ok::<
                    Map<Seq<char>, JwkView>,
                    BuildFailure,
                >(kv_map(keys@)),
            decreases entries@.len() - i,
        {
            let ghost prefix = all.take(i as int);
            let ghost prefix1 = all.take(i as int + 1);
            proof {
                assert(prefix1.drop_last() =~= prefix);
                assert(prefix1.last() == all[i as int]);
            }
            let entry = &entries[i];
            let kid: String = match &entry.key_id {
                None => {
                    proof {
                        lemma_build_err_extends(all, i as int + 1, audience@, hint, default_alg);
                    }
                    return Err(JwksError::KeyError(JwkError::MissingKeyId));
                },
                Some(kid) => kid.clone(),
            };
            match &entry.params {
                JwkParams::Other { family } => {
                    proof {
                        lemma_build_err_extends(all, i as int + 1, audience@, hint, default_alg);
                    }
                    return Err(
                        JwksError::KeyError(
                            JwkError::UnexpectedAlgorithm { key_id: kid, algorithm: family.clone() },
                        ),
                    );
                },
                JwkParams::Rsa { n, e } => {
                    let decoding = match jwt::rsa_decoding_key(n, e) {
                        Ok(k) => k,
                        Err(error) => {
                            proof {
                                lemma_build_err_extends(
                                    all,
                                    i as int + 1,
                                    audience@,
                                    hint,
                                    default_alg,
                                );
                            }
                            return Err(
                                JwksError::KeyError(JwkError::DecodingError { key_id: kid, error }),
                            );
                        },
                    };
                    let alg: Alg = match (entry.algorithm, hint, default_alg) {
                        (Some(a), _, _) => a,
                        (None, Some(a), _) => a,
                        (None, None, Some(a)) => a,
                        (None, None, None) => {
                            proof {
                                lemma_build_err_extends(
                                    all,
                                    i as int + 1,
                                    audience@,
                                    hint,
                                    default_alg,
                                );
                            }
                            return Err(
                                JwksError::KeyError(JwkError::MissingAlgorithm { key_id: kid }),
                            );
                        },
                    };
                    let validation = if audience.as_str().is_empty() {
                        jwt::validation_without_audience(jwt::to_jwt_algorithm(alg))
                    } else {
                        jwt::validation_with_audience(jwt::to_jwt_algorithm(alg), audience)
                    };
                    let jwk = Jwk {
                        decoding,
                        validation,
                        algorithm: alg,
                        audience: audience.clone(),
                        modulus: n.clone(),
                        exponent: e.clone(),
                    };
                    let ghost prev = keys@;
                    keys.push((kid, jwk));
                    proof {
                        assert(keys@.drop_last() =~= prev);
                        assert(kv_map(keys@) == kv_map(prev).insert(
                            keys@.last().0@,
                            keys@.last().1@,
                        ));
                    }
                },
            }
            i += 1;
        }
        proof {
            assert(all.take(all.len() as int) =~= all);
        }
        Ok(Jwks { keys })
    }

    /// Look up the record for a key identifier.
    pub fn get<'a>(&'a self, key_id: &String) -> (r: Option<&'a Jwk>)
        ensures
            r is Some <==> self@.contains_key(key_id@),
            r matches Some(jwk) ==> jwk@ == self@[key_id@],
    {
        let mut i: usize = self.keys.len();
        while i > 0
            invariant
                0 <= i <= self.keys@.len(),
                forall|j: int| i <= j < self.keys@.len() ==> self.keys@[j].0@ != key_id@,
            decreases i,
        {
            i = i - 1;
            if self.keys[i].0.eq(key_id) {
                proof {
                    lemma_kv_map_get(self.keys@, i as int, key_id@);
                }
                return Some(&self.keys[i].1);
            }
        }
        proof {
            lemma_kv_map_contains(self.keys@, key_id@);
        }
        None
    }
}

/// The outcome of a successful validation: the claims carried by the token's
/// payload, plus the validated header metadata — which key signed it and
/// under which algorithm it was verified.
#[derive(Debug)]
pub struct DecodedToken {
    /// The key identifier the token's header named.
    pub key_id: String,
    /// The algorithm of the key record the token was verified with.
    pub algorithm: Alg,
    /// The token's payload, deserialized.
    pub claims: serde_json::Value,
}

impl Jwks {
    /// Validate a token against this index: decode its header, select the key
    /// the header names, verify the signature and the standard claims with
    /// that key's policy, and deserialize the payload. Pure in the index: no
    /// state is mutated, so any number of validations may run against the
    /// same index concurrently.
    pub fn validate_claims(&self, token: &str) -> (r: Result<DecodedToken, TokenError>)
        ensures
            header_key_id(token@) is None ==> r matches Err(TokenError::InvalidHeader(_)),
            header_key_id(token@) matches Some(None) ==> r matches Err(TokenError::MissingKeyId),
            match header_key_id(token@) {
                Some(Some(kid)) => if !self@.contains_key(kid) {
                    r matches Err(TokenError::UnknownKeyId(u)) && u@ == kid
                } else {
                    match r {
                        Ok(d) => d.key_id@ == kid && d.algorithm == self@[kid].algorithm,
                        Err(e) => e matches TokenError::Invalid(_),
                    }
                },
                _ => true,
            },
    {
        let kid_opt: Option<String> = match jwt::decode_header_kid(token) {
            Err(error) => {
                return Err(TokenError::InvalidHeader(error));
            },
            Ok(kid_opt) => kid_opt,
        };
        let kid: String = match kid_opt {
            None => {
                return Err(TokenError::MissingKeyId);
            },
            Some(kid) => kid,
        };
        let key: &Jwk = match self.get(&kid) {
            None => {
                return Err(TokenError::UnknownKeyId(kid));
            },
            Some(key) => key,
        };
        match jwt::decode_verified(token, &key.decoding, &key.validation) {
            Ok(claims) => Ok(DecodedToken { key_id: kid, algorithm: key.algorithm, claims }),
            Err(error) => Err(TokenError::Invalid(error)),
        }
    }
}

/// An error of the build at a given prefix persists in the whole build: once
/// an entry has failed, no later entry changes the outcome.
proof fn lemma_build_err_extends(
    entries: Seq<JwkEntry>,
    n: int,
    audience: Seq<char>,
    hint: Option<Alg>,
    default_alg: Option<Alg>,
)
    requires
        0 <= n <= entries.len(),
        build_map(entries.take(n), audience, hint, default_alg) is Err,
    ensures
        build_map(entries, audience, hint, default_alg) == build_map(
            entries.take(n),
            audience,
            hint,
            default_alg,
        ),
    decreases entries.len() - n,
{
    if n < entries.len() {
        assert(entries.take(n + 1).drop_last() =~= entries.take(n));
        lemma_build_err_extends(entries, n + 1, audience, hint, default_alg);
    } else {
        assert(entries.take(n) =~= entries);
    }
}

/// A prefix in which every entry is accepted builds successfully.
proof fn lemma_build_ok_prefix(
    entries: Seq<JwkEntry>,
    audience: Seq<char>,
    hint: Option<Alg>,
    default_alg: Option<Alg>,
    n: int,
)
    requires
        0 <= n <= entries.len(),
        forall|j: int| 0 <= j < n ==> (#[trigger] entry_outcome(
            entries[j],
            audience,
            hint,
            default_alg,
        )) is Ok,
    ensures
        build_map(entries.take(n), audience, hint, default_alg) is Ok,
    decreases n,
{
    if n > 0 {
        assert(entries.take(n).drop_last() =~= entries.take(n - 1));
        assert(entries.take(n).last() == entries[n - 1]);
        lemma_build_ok_prefix(entries, audience, hint, default_alg, n - 1);
    }
}

/// Law: for a key set in which every entry is accepted — it carries a key
/// identifier, an RSA key whose components decode, and an algorithm that
/// resolves from the entry itself, the discovery hint or the configured
/// default — and the identifiers are pairwise distinct, building the index
/// succeeds, yields exactly one record per entry, and maps each entry's
/// identifier to that entry's resolved record.
pub proof fn lemma_build_complete(
    entries: Seq<JwkEntry>,
    audience: Seq<char>,
    hint: Option<Alg>,
    default_alg: Option<Alg>,
)
    requires
        forall|i: int| 0 <= i < entries.len() ==> (#[trigger] entry_outcome(
            entries[i],
            audience,
            hint,
            default_alg,
        )) is Ok,
        forall|i: int, j: int|
            #![trigger entries[i], entries[j]]
            0 <= i < j < entries.len() ==> entries[i].key_id->0@ != entries[j].key_id->0@,
    ensures
        build_map(entries, audience, hint, default_alg) is Ok,
        build_map(entries, audience, hint, default_alg)->Ok_0.dom().finite(),
        build_map(entries, audience, hint, default_alg)->Ok_0.len() == entries.len(),
        forall|k: Seq<char>|
            build_map(entries, audience, hint, default_alg)->Ok_0.contains_key(k) ==> exists|i: int|
                0 <= i < entries.len() && (#[trigger] entries[i]).key_id->0@ == k,
        forall|i: int|
            0 <= i < entries.len() ==> {
                let rec = (#[trigger] entry_outcome(entries[i], audience, hint, default_alg))->Ok_0;
                build_map(entries, audience, hint, default_alg)->Ok_0.contains_key(rec.0)
                    && build_map(entries, audience, hint, default_alg)->Ok_0[rec.0] == rec.1
            },
    decreases entries.len(),
{
    broadcast use vstd::set::group_set_axioms, vstd::map::group_map_axioms;

    if entries.len() == 0 {
        assert(Map::<Seq<char>, JwkView>::empty().dom() =~= Set::<Seq<char>>::empty());
    } else {
        let prefix = entries.drop_last();
        assert forall|i: int| 0 <= i < prefix.len() implies prefix[i] == entries[i] by {}
        lemma_build_complete(prefix, audience, hint, default_alg);
        let m_prev = build_map(prefix, audience, hint, default_alg)->Ok_0;
        let last = entries.last();
        let rec = entry_outcome(last, audience, hint, default_alg)->Ok_0;
        assert(entry_outcome(entries[entries.len() - 1], audience, hint, default_alg) is Ok);
        if m_prev.contains_key(rec.0) {
            let i = choose|i: int| 0 <= i < prefix.len() && prefix[i].key_id->0@ == rec.0;
            assert(entries[i].key_id->0@ == entries[entries.len() - 1].key_id->0@);
            assert(false);
        }
        let m = m_prev.insert(rec.0, rec.1);
        assert(m.dom() =~= m_prev.dom().insert(rec.0));
        assert(m.dom().len() == m_prev.dom().len() + 1);
    }
}

/// Law: a key set in which some entry lacks a key identifier, every entry
/// before it being accepted, fails to build with the missing-identifier
/// failure — and produces no index at all, not even a partial one.
pub proof fn lemma_build_missing_key_id(
    entries: Seq<JwkEntry>,
    audience: Seq<char>,
    hint: Option<Alg>,
    default_alg: Option<Alg>,
    i: int,
)
    requires
        0 <= i < entries.len(),
        entries[i].key_id is None,
        forall|j: int| 0 <= j < i ==> (#[trigger] entry_outcome(
            entries[j],
            audience,
            hint,
            default_alg,
        )) is Ok,
    ensures
        build_map(entries, audience, hint, default_alg) == Err::<
            Map<Seq<char>, JwkView>,
            BuildFailure,
        >(BuildFailure::MissingKeyId),
{
    lemma_build_ok_prefix(entries, audience, hint, default_alg, i);
    assert(entries.take(i + 1).drop_last() =~= entries.take(i));
    assert(entries.take(i + 1).last() == entries[i]);
    lemma_build_err_extends(entries, i + 1, audience, hint, default_alg);
}

/// Law: a key set in which some entry uses a non-RSA key family, every entry
/// before it being accepted, fails to build with the unexpected-algorithm
/// failure naming that entry's key identifier — and produces no index at all.
pub proof fn lemma_build_non_rsa(
    entries: Seq<JwkEntry>,
    audience: Seq<char>,
    hint: Option<Alg>,
    default_alg: Option<Alg>,
    i: int,
)
    requires
        0 <= i < entries.len(),
        entries[i].key_id is Some,
        entries[i].params is Other,
        forall|j: int| 0 <= j < i ==> (#[trigger] entry_outcome(
            entries[j],
            audience,
            hint,
            default_alg,
        )) is Ok,
    ensures
        build_map(entries, audience, hint, default_alg) == Err::<
            Map<Seq<char>, JwkView>,
            BuildFailure,
        >(
            BuildFailure::UnexpectedAlgorithm {
                key_id: entries[i].key_id->0@,
                family: entries[i].params->family@,
            },
        ),
{
    lemma_build_ok_prefix(entries, audience, hint, default_alg, i);
    assert(entries.take(i + 1).drop_last() =~= entries.take(i));
    assert(entries.take(i + 1).last() == entries[i]);
    lemma_build_err_extends(entries, i + 1, audience, hint, default_alg);
}

} // verus!
