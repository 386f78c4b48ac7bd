//! The calls into the `jsonwebtoken` crate, each behind a contract that is
//! taken on trust.

use vstd::prelude::*;
use std::collections::HashMap;
use std::str::FromStr;
use jsonwebtoken::errors::ErrorKind;
use jsonwebtoken::jwk::AlgorithmParameters;
use jsonwebtoken::jwk::JwkSet;
use jsonwebtoken::Algorithm;
use jsonwebtoken::DecodingKey;
use jsonwebtoken::Validation;
use crate::auth::jwt_token_validator::TokenHeader;
use crate::auth::jwt_token_validator::TokenHeaderView;
use crate::auth::jwt_token_validator::ValidationPolicy;
use crate::auth::jwt_token_validator::VerificationPlan;
use crate::auth::jwt_token_validator::Verdict;
use crate::auth::key_set::Key;
use crate::auth::key_set::KeyParameters;
use crate::auth::key_set::KeyView;

verus! {

/// `jsonwebtoken::jwk::JwkSet`: a published set of keys, in the order in which
/// it lists them.
#[verifier::external_type_specification]
#[verifier::external_body]
pub struct ExJwkSet(jsonwebtoken::jwk::JwkSet);

/// `jsonwebtoken::DecodingKey`: a key ready to verify signatures. Nothing is
/// claimed of what it holds.
#[verifier::external_type_specification]
#[verifier::external_body]
pub struct ExDecodingKey(jsonwebtoken::DecodingKey);

/// `jsonwebtoken::Algorithm`: the signature algorithms that the crate knows.
#[verifier::external_type_specification]
pub struct ExAlgorithm(jsonwebtoken::Algorithm);

/// The keys that a `JwkSet` lists, in its order: of each its id, its algorithm
/// family with the RSA parameters, and the name of its declared algorithm.
pub uninterp spec fn jwk_set_keys(set: JwkSet) -> Seq<KeyView>;

/// What `serde_json::from_slice::<JwkSet>` makes of a body: the keys of the set
/// it reads, or `None` where it refuses the body.
pub uninterp spec fn parsed_jwk_set(body: Seq<u8>) -> Option<Seq<KeyView>>;

/// What `jsonwebtoken::decode_header` makes of a token: the key id and the
/// algorithm that its header declares, or `None` where it refuses the token.
pub uninterp spec fn decoded_header(token: Seq<char>) -> Option<TokenHeaderView>;

/// What `jsonwebtoken::DecodingKey::from_rsa_components` makes of a modulus
/// and an exponent: the key that it builds where it decodes both as base64url
/// text without padding, or `None` where it refuses one of them.
pub uninterp spec fn rsa_key_of(modulus: Seq<char>, exponent: Seq<char>) -> Option<DecodingKey>;

/// Whether `jsonwebtoken::decode` finds nothing wrong with a token but,
/// perhaps, its time of expiry: the token has three segments that decode, its
/// header declares `algorithm`, its signature is that of `key` under
/// `algorithm`, it carries each of the claims in `required`, its issuer is one
/// of `issuers`, and one of its audiences is one of `audience`. The clock has
/// no part in any of this.
pub uninterp spec fn passes_apart_from_expiry(
    token: Seq<char>,
    key: DecodingKey,
    algorithm: Algorithm,
    issuers: Seq<Seq<char>>,
    audience: Seq<Seq<char>>,
    required: Seq<Seq<char>>,
) -> bool;

/// The algorithm that goes by `name`, as `Algorithm::from_str` reads it.
pub open spec fn algorithm_named(name: Seq<char>) -> Option<Algorithm> {
    if name == "HS256"@ {
        Some(Algorithm::HS256)
    } else if name == "HS384"@ {
        Some(Algorithm::HS384)
    } else if name == "HS512"@ {
        Some(Algorithm::HS512)
    } else if name == "ES256"@ {
        Some(Algorithm::ES256)
    } else if name == "ES384"@ {
        Some(Algorithm::ES384)
    } else if name == "RS256"@ {
        Some(Algorithm::RS256)
    } else if name == "RS384"@ {
        Some(Algorithm::RS384)
    } else if name == "RS512"@ {
        Some(Algorithm::RS512)
    } else if name == "PS256"@ {
        Some(Algorithm::PS256)
    } else if name == "PS384"@ {
        Some(Algorithm::PS384)
    } else if name == "PS512"@ {
        Some(Algorithm::PS512)
    } else if name == "EdDSA"@ {
        Some(Algorithm::EdDSA)
    } else {
        None
    }
}

/// The name of an algorithm, as a token header or a key declares it.
pub open spec fn algorithm_name(algorithm: Algorithm) -> Seq<char> {
    match algorithm {
        Algorithm::HS256 => "HS256"@,
        Algorithm::HS384 => "HS384"@,
        Algorithm::HS512 => "HS512"@,
        Algorithm::ES256 => "ES256"@,
        Algorithm::ES384 => "ES384"@,
        Algorithm::RS256 => "RS256"@,
        Algorithm::RS384 => "RS384"@,
        Algorithm::RS512 => "RS512"@,
        Algorithm::PS256 => "PS256"@,
        Algorithm::PS384 => "PS384"@,
        Algorithm::PS512 => "PS512"@,
        Algorithm::EdDSA => "EdDSA"@,
    }
}

/// `serde_json::from_slice::<JwkSet>`: reads a set of keys from the JSON text
/// of a response body. On refusal the error's text comes back.
#[verifier::external_body]
pub(crate) fn parse_jwk_set(body: &[u8]) -> (parsed: Result<JwkSet, String>)
    ensures
        match parsed {
            Ok(set) => parsed_jwk_set(body@) == Some(jwk_set_keys(set)),
            Err(_) => parsed_jwk_set(body@) is None,
        },
{
    serde_json::from_slice::<JwkSet>(body).map_err(|error| error.to_string())
}

/// The length of the public field `keys` of a `JwkSet`.
#[verifier::external_body]
pub(crate) fn jwk_count(set: &JwkSet) -> (count: usize)
    ensures
        count == jwk_set_keys(*set).len(),
{
    set.keys.len()
}

/// Reads the key at `index` of the public field `keys` of a `JwkSet`: the key
/// id, the RSA modulus and exponent where the key is an RSA key, else its
/// family alone, and the declared algorithm by the name that its `Display`
/// prints.
#[verifier::external_body]
pub(crate) fn jwk_entry(set: &JwkSet, index: usize) -> (key: Key)
    requires
        index < jwk_set_keys(*set).len(),
    ensures
        key@ == jwk_set_keys(*set)[index as int],
{
    let jwk = &set.keys[index];
    let parameters = match &jwk.algorithm {
        AlgorithmParameters::RSA(rsa) => KeyParameters::Rsa {
            modulus: rsa.n.clone(),
            exponent: rsa.e.clone(),
        },
        AlgorithmParameters::EllipticCurve(_) => KeyParameters::EllipticCurve,
        AlgorithmParameters::OctetKeyPair(_) => KeyParameters::OctetKeyPair,
        AlgorithmParameters::OctetKey(_) => KeyParameters::OctetKey,
    };
    let key_algorithm = jwk.common.key_algorithm.map(|algorithm| algorithm.to_string());
    Key { key_id: jwk.common.key_id.clone(), parameters, key_algorithm }
}

/// `jsonwebtoken::decode_header`: decodes the first segment of a token without
/// verifying anything. The declared algorithm comes back by its name. On
/// refusal the error's text comes back.
#[verifier::external_body]
pub(crate) fn decode_token_header(token: &str) -> (header: Result<TokenHeader, String>)
    ensures
        match header {
            Ok(decoded) => decoded_header(token@) == Some(decoded@),
            Err(_) => decoded_header(token@) is None,
        },
{
    match jsonwebtoken::decode_header(token) {
        Ok(header) => Ok(
            TokenHeader { key_id: header.kid, declared_alg: Some(format!("{:?}", header.alg)) },
        ),
        Err(error) => Err(error.to_string()),
    }
}

/// `jsonwebtoken::DecodingKey::from_rsa_components`: builds the key that
/// verifies RSA signatures from a modulus and an exponent in base64url. The
/// key is made of the two texts and of nothing else. On refusal the error's
/// text comes back.
#[verifier::external_body]
pub(crate) fn rsa_decoding_key(modulus: &str, exponent: &str) -> (key: Result<DecodingKey, String>)
    ensures
        match key {
            Ok(built) => rsa_key_of(modulus@, exponent@) == Some(built),
            Err(_) => rsa_key_of(modulus@, exponent@) is None,
        },
{
    DecodingKey::from_rsa_components(modulus, exponent).map_err(|error| error.to_string())
}

/// `Algorithm::from_str`: the algorithm that goes by `name`, one of twelve
/// names. For any other name the error's text comes back.
#[verifier::external_body]
pub(crate) fn algorithm_by_name(name: &str) -> (algorithm: Result<Algorithm, String>)
    ensures
        match algorithm {
            Ok(found) => algorithm_named(name@) == Some(found),
            Err(_) => algorithm_named(name@) is None,
        },
{
    Algorithm::from_str(name).map_err(|error| error.to_string())
}

/// `jsonwebtoken::decode` under a `Validation` made by `Validation::new` for
/// the algorithm of the plan, with the policy's expiry check, required claims,
/// issuers and audience: verifies the signature of `token` with the key of the
/// plan and checks its claims, the expiry against the clock. The answer
/// depends on the time of the call. Two things hold of every answer. A token
/// is verified only where its header declares the algorithm of the plan, since
/// `decode` refuses any other with `InvalidAlgorithm`. And a token is verified
/// only where signature, required claims, issuer and audience pass: `decode`
/// answers `Ok` after all of its checks, of which only the comparison of the
/// expiry reads the clock. On a machine whose clock reads a time before 1970
/// `decode` panics.
#[verifier::external_body]
pub(crate) fn verify_token(
    token: &str,
    plan: &VerificationPlan,
    policy: &ValidationPolicy,
) -> (verdict: Verdict)
    ensures
        verdict is Verified ==> (decoded_header(token@) matches Some(header)
            && header.declared_alg == Some(algorithm_name(plan.algorithm))),
        verdict is Verified ==> passes_apart_from_expiry(
            token@,
            plan.key,
            plan.algorithm,
            policy.issuers(),
            policy.audience(),
            policy.required_claims(),
        ),
{
    let mut validation = Validation::new(plan.algorithm);
    validation.validate_exp = policy.require_expiry_check;
    validation.set_required_spec_claims(policy.required_claims.as_slice());
    validation.set_issuer(policy.issuers.as_slice());
    validation.set_audience(policy.audience.as_slice());
    match jsonwebtoken::decode::<HashMap<String, serde_json::Value>>(token, &plan.key, &validation) {
        Ok(data) => Verdict::Verified(data),
        Err(error) => match error.kind() {
            ErrorKind::ExpiredSignature => Verdict::Expired(error.to_string()),
            _ => Verdict::Rejected(error.to_string()),
        },
    }
}

} // verus!
