//! The validator of JSON Web Tokens signed with the RSA keys of a key set.

use vstd::prelude::*;
use std::collections::HashMap;
use std::sync::Arc;
use jsonwebtoken::jwk::JwkSet;
use jsonwebtoken::Algorithm;
use jsonwebtoken::DecodingKey;
use jsonwebtoken::TokenData;
use crate::auth::error_kind::law_kinds_are_distinct;
use crate::auth::error_kind::INVALID_TOKEN;
use crate::auth::error_kind::JWKS_RETRIEVAL_FAILURE;
use crate::auth::error_kind::MALFORMED_TOKEN;
use crate::auth::jwt::algorithm_by_name;
use crate::auth::jwt::algorithm_name;
use crate::auth::jwt::algorithm_named;
use crate::auth::jwt::decode_token_header;
use crate::auth::jwt::decoded_header;
use crate::auth::jwt::jwk_count;
use crate::auth::jwt::jwk_entry;
use crate::auth::jwt::jwk_set_keys;
use crate::auth::jwt::parse_jwk_set;
use crate::auth::jwt::parsed_jwk_set;
use crate::auth::jwt::passes_apart_from_expiry;
use crate::auth::jwt::rsa_key_of;
use crate::auth::jwt::rsa_decoding_key;
use crate::auth::jwt::verify_token;
use crate::auth::jwt_token::JwtToken;
use crate::auth::key_set::key_table;
use crate::auth::key_set::key_views;
use crate::auth::key_set::Key;
use crate::auth::key_set::KeyParameters;
use crate::auth::key_set::KeyParametersView;
use crate::auth::key_set::KeySet;
use crate::auth::key_set::KeyView;
use crate::auth::token_validator::failure_of;
use crate::auth::token_validator::TokenValidator;
use crate::error::Error;
use crate::error::ErrorView;
use crate::text::decimal;
use crate::text::decimal_text;
use crate::text::joined;

verus! {

pub const HEADER_UNDECODABLE: &'static str = "failed to decode token's header: ";

pub const KEY_ID_MISSING: &'static str = "'kid' is missing from header";

pub const KEY_ID_UNKNOWN: &'static str = "could not find 'kid' within 'jwk_set'";

pub const FAMILY_UNSUPPORTED: &'static str = "got an unexpected algorithm for the 'jwk': ";

pub const KEY_UNDECODABLE: &'static str = "failed to get decoding key: ";

pub const KEY_ALGORITHM_MISSING: &'static str = "'jwk' is missing the 'key_algorithm'";

pub const KEY_ALGORITHM_UNKNOWN: &'static str = "failed to get algorithm for 'key_algorithm': ";

pub const VALIDATION_FAILED: &'static str = "failed to validate token: ";

pub const NO_RESPONSE: &'static str = "invalid response obtained getting the 'JwkSet'";

pub const NOT_A_KEY_SET: &'static str = "response cannot be deserialized as a 'JwkSet'";

pub const STATUS_REFUSED: &'static str = ": status ";

/// The first segment of a token, decoded and not yet trusted.
#[derive(Debug, Clone)]
pub struct TokenHeader {
    /// The id of the key that the token says it was signed with.
    pub key_id: Option<String>,
    /// The algorithm that the token says it was signed with, by name.
    pub declared_alg: Option<String>,
}

/// A [`TokenHeader`] as contracts see it.
pub struct TokenHeaderView {
    pub key_id: Option<Seq<char>>,
    pub declared_alg: Option<Seq<char>>,
}

impl View for TokenHeader {
    type V = TokenHeaderView;

    open spec fn view(&self) -> TokenHeaderView {
        TokenHeaderView {
            key_id: match self.key_id {
                Some(id) => Some(id@),
                None => None,
            },
            declared_alg: match self.declared_alg {
                Some(name) => Some(name@),
                None => None,
            },
        }
    }
}

/// The claims that every token must carry: its time of expiry, its issuer and
/// its audience.
pub open spec fn required_claims() -> Seq<Seq<char>> {
    seq!["exp"@, "iss"@, "aud"@]
}

/// Whom a token must come from and be meant for. A token must name its
/// issuer, its audience and its time of expiry, and the expiry is always
/// checked.
#[derive(Debug)]
pub struct ValidationPolicy {
    pub(crate) issuers: Vec<String>,
    pub(crate) audience: Vec<String>,
    pub(crate) required_claims: Vec<String>,
    pub(crate) require_expiry_check: bool,
}

impl ValidationPolicy {
    #[verifier::type_invariant]
    spec fn fixed_parts(&self) -> bool {
        self.require_expiry_check && self.required_claims.deep_view() == required_claims()
    }

    /// The issuers that the policy accepts.
    pub closed spec fn issuers(&self) -> Seq<Seq<char>> {
        self.issuers.deep_view()
    }

    /// The audiences of which a token must name one.
    pub closed spec fn audience(&self) -> Seq<Seq<char>> {
        self.audience.deep_view()
    }

    /// The claims that the policy asks every token to carry.
    pub closed spec fn required_claims(&self) -> Seq<Seq<char>> {
        self.required_claims.deep_view()
    }

    /// The policy that accepts the given issuers and audiences.
    pub fn new(issuers: Vec<String>, audience: Vec<String>) -> (policy: ValidationPolicy)
        ensures
            policy.issuers() == issuers.deep_view(),
            policy.audience() == audience.deep_view(),
            policy.required_claims() == required_claims(),
    {
        let mut required: Vec<String> = Vec::new();
        required.push("exp".to_owned());
        required.push("iss".to_owned());
        required.push("aud".to_owned());
        assert(required.deep_view() =~= required_claims());
        ValidationPolicy {
            issuers,
            audience,
            required_claims: required,
            require_expiry_check: true,
        }
    }

    /// Whether the expiry of a token is checked: always.
    pub fn require_expiry_check(&self) -> (required: bool)
        ensures
            required,
    {
        proof {
            use_type_invariant(self);
        }
        self.require_expiry_check
    }
}

/// What the check of signature and claims answered.
#[derive(Debug)]
pub enum Verdict {
    /// The signature is the key's and the claims hold: the decoded token.
    Verified(TokenData<HashMap<String, serde_json::Value>>),
    /// The token has expired.
    Expired(String),
    /// The signature or a claim was refused for another reason.
    Rejected(String),
}

/// Why a token, or the key it names, is structurally wrong.
pub enum Defect {
    /// The header segment is absent or does not decode.
    UndecodableHeader,
    /// The header names no key.
    MissingKeyId,
    /// The header names a key that the key set does not hold.
    UnknownKeyId,
    /// The key is of a family other than RSA.
    UnsupportedFamily(KeyParametersView),
    /// Modulus or exponent of the key do not decode.
    UndecodableKey,
    /// The key declares no algorithm.
    MissingKeyAlgorithm,
    /// The key declares an algorithm that is no signature algorithm.
    UnknownKeyAlgorithm,
}

/// The name of an algorithm family.
pub open spec fn family_name(parameters: KeyParametersView) -> Seq<char> {
    match parameters {
        KeyParametersView::Rsa { .. } => "RSA"@,
        KeyParametersView::EllipticCurve => "EllipticCurve"@,
        KeyParametersView::OctetKeyPair => "OctetKeyPair"@,
        KeyParametersView::OctetKey => "OctetKey"@,
    }
}

/// Whether `message` reports `defect`. Where the `jsonwebtoken` crate found the
/// defect, its own words follow the library's.
pub open spec fn reports(defect: Defect, message: Seq<char>) -> bool {
    match defect {
        Defect::UndecodableHeader => HEADER_UNDECODABLE@.is_prefix_of(message),
        Defect::MissingKeyId => message == KEY_ID_MISSING@,
        Defect::UnknownKeyId => message == KEY_ID_UNKNOWN@,
        Defect::UnsupportedFamily(parameters) => message == FAMILY_UNSUPPORTED@ + family_name(
            parameters,
        ),
        Defect::UndecodableKey => KEY_UNDECODABLE@.is_prefix_of(message),
        Defect::MissingKeyAlgorithm => message == KEY_ALGORITHM_MISSING@,
        Defect::UnknownKeyAlgorithm => KEY_ALGORITHM_UNKNOWN@.is_prefix_of(message),
    }
}

/// Whether `error` is the failure `malformed_token` that reports `defect`.
pub open spec fn is_malformed(error: ErrorView, defect: Defect) -> bool {
    error.kind == MALFORMED_TOKEN@ && reports(defect, error.message)
}

/// What stands between a decoded header and a key of `keys`, if anything.
pub open spec fn selection_defect(
    keys: Map<Seq<char>, KeyView>,
    header: Option<TokenHeaderView>,
) -> Option<Defect> {
    match header {
        None => Some(Defect::UndecodableHeader),
        Some(decoded) => match decoded.key_id {
            None => Some(Defect::MissingKeyId),
            Some(id) => if keys.contains_key(id) {
                None
            } else {
                Some(Defect::UnknownKeyId)
            },
        },
    }
}

/// What keeps a key from verifying a signature, if anything.
pub open spec fn key_defect(key: KeyView) -> Option<Defect> {
    match key.parameters {
        KeyParametersView::Rsa { modulus, exponent } => if rsa_key_of(modulus, exponent) is None {
            Some(Defect::UndecodableKey)
        } else {
            match key.key_algorithm {
                None => Some(Defect::MissingKeyAlgorithm),
                Some(name) => if algorithm_named(name) is None {
                    Some(Defect::UnknownKeyAlgorithm)
                } else {
                    None
                },
            }
        },
        _ => Some(Defect::UnsupportedFamily(key.parameters)),
    }
}

/// The defect of a token with the given decoded header under the key set
/// `keys`, if it has one: a defect of the header, else one of the key that the
/// header names.
pub open spec fn token_defect(
    keys: Map<Seq<char>, KeyView>,
    header: Option<TokenHeaderView>,
) -> Option<Defect> {
    match selection_defect(keys, header) {
        Some(defect) => Some(defect),
        None => key_defect(keys[header->0.key_id->0]),
    }
}

/// What a decoded header, or the refusal to decode one, looks like in contracts.
pub open spec fn header_view(header: Result<TokenHeader, String>) -> Option<TokenHeaderView> {
    match header {
        Ok(decoded) => Some(decoded@),
        Err(_) => None,
    }
}

/// The algorithm under which the signature of a token with the given decoded
/// header is checked: the one that the key declares which the header names.
/// There is none where the token has a defect.
pub open spec fn planned_algorithm(
    keys: Map<Seq<char>, KeyView>,
    header: Option<TokenHeaderView>,
) -> Option<Algorithm> {
    if token_defect(keys, header) is None {
        algorithm_named(keys[header->0.key_id->0].key_algorithm->0)
    } else {
        None
    }
}

/// The key with which the signature of a token with the given decoded header
/// is checked: the one built from the modulus and the exponent of the key that
/// the header names. There is none where the token has a defect.
pub open spec fn planned_key(
    keys: Map<Seq<char>, KeyView>,
    header: Option<TokenHeaderView>,
) -> Option<DecodingKey> {
    if token_defect(keys, header) is None {
        match keys[header->0.key_id->0].parameters {
            KeyParametersView::Rsa { modulus, exponent } => rsa_key_of(modulus, exponent),
            _ => None,
        }
    } else {
        None
    }
}

/// What the check of a signature works with. The validator makes a plan only
/// for a token without defect, and checks no signature without a plan.
pub struct VerificationPlan {
    /// The key that verifies the signature.
    pub key: DecodingKey,
    /// The algorithm under which the signature is checked.
    pub algorithm: Algorithm,
}

/// The RSA modulus and exponent of a key, or the failure that reports its
/// family as unsupported.
pub fn rsa_components(key: &Key) -> (components: Result<(&str, &str), Error>)
    ensures
        match key@.parameters {
            KeyParametersView::Rsa { modulus, exponent } => components matches Ok(pair) && pair.0@
                == modulus && pair.1@ == exponent,
            _ => components matches Err(error) && is_malformed(
                error@,
                Defect::UnsupportedFamily(key@.parameters),
            ),
        },
{
    match &key.parameters {
        KeyParameters::Rsa { modulus, exponent } => Ok((modulus.as_str(), exponent.as_str())),
        KeyParameters::EllipticCurve => Err(
            Error::with_detail(MALFORMED_TOKEN, FAMILY_UNSUPPORTED, "EllipticCurve"),
        ),
        KeyParameters::OctetKeyPair => Err(
            Error::with_detail(MALFORMED_TOKEN, FAMILY_UNSUPPORTED, "OctetKeyPair"),
        ),
        KeyParameters::OctetKey => Err(
            Error::with_detail(MALFORMED_TOKEN, FAMILY_UNSUPPORTED, "OctetKey"),
        ),
    }
}

/// The signature algorithm that a key declares. It is read from the key alone:
/// what a token's header declares has no part in it.
pub fn declared_algorithm(key: &Key) -> (algorithm: Result<Algorithm, Error>)
    ensures
        match key@.key_algorithm {
            None => algorithm matches Err(error) && is_malformed(
                error@,
                Defect::MissingKeyAlgorithm,
            ),
            Some(name) => match algorithm_named(name) {
                Some(found) => algorithm == Ok::<Algorithm, Error>(found),
                None => algorithm matches Err(error) && is_malformed(
                    error@,
                    Defect::UnknownKeyAlgorithm,
                ),
            },
        },
{
    match &key.key_algorithm {
        None => Err(Error::new(MALFORMED_TOKEN, KEY_ALGORITHM_MISSING)),
        Some(name) => match algorithm_by_name(name.as_str()) {
            Ok(found) => Ok(found),
            Err(detail) => {
                let error = Error::with_detail(
                    MALFORMED_TOKEN,
                    KEY_ALGORITHM_UNKNOWN,
                    detail.as_str(),
                );
                assert(KEY_ALGORITHM_UNKNOWN@.is_prefix_of(error@.message));
                Err(error)
            },
        },
    }
}

/// What a verdict on signature and claims makes of a validation: the token
/// where it was verified, else the failure `invalid_token` with the verdict's
/// words. An expired token is never accepted.
pub fn conclude(verdict: Verdict) -> (result: Result<Arc<JwtToken>, Error>)
    ensures
        match verdict {
            Verdict::Verified(data) => result matches Ok(token) && token.data() == data,
            Verdict::Expired(detail) => result matches Err(error) && error@.kind == INVALID_TOKEN@
                && error@.message == VALIDATION_FAILED@ + detail@,
            Verdict::Rejected(detail) => result matches Err(error) && error@.kind == INVALID_TOKEN@
                && error@.message == VALIDATION_FAILED@ + detail@,
        },
{
    match verdict {
        Verdict::Verified(data) => Ok(Arc::new(JwtToken::new(data))),
        Verdict::Expired(detail) => Err(
            Error::with_detail(INVALID_TOKEN, VALIDATION_FAILED, detail.as_str()),
        ),
        Verdict::Rejected(detail) => Err(
            Error::with_detail(INVALID_TOKEN, VALIDATION_FAILED, detail.as_str()),
        ),
    }
}

/// The keys that a `JwkSet` lists, in its order.
fn keys_of(set: &JwkSet) -> (keys: Vec<Key>)
    ensures
        key_views(keys@) == jwk_set_keys(*set),
{
    let count = jwk_count(set);
    let mut keys: Vec<Key> = Vec::new();
    let mut i: usize = 0;
    while i < count
        invariant
            i <= count,
            count == jwk_set_keys(*set).len(),
            key_views(keys@) == jwk_set_keys(*set).take(i as int),
        decreases count - i,
    {
        let key = jwk_entry(set, i);
        let ghost before = keys@;
        let ghost listed = key@;
        keys.push(key);
        i += 1;
        assert(key_views(keys@) =~= jwk_set_keys(*set).take(i as int)) by {
            assert(keys@ == before.push(keys@.last()));
            assert(key_views(keys@) =~= key_views(before).push(listed));
        }
    }
    assert(jwk_set_keys(*set).take(count as int) =~= jwk_set_keys(*set));
    keys
}

/// Validates tokens that were signed with an RSA key of a key set which was
/// fetched once and is never changed.
pub struct JwtTokenValidator {
    key_set: KeySet,
    policy: ValidationPolicy,
}

impl JwtTokenValidator {
    /// The keys that the validator trusts, by key id.
    pub closed spec fn keys(&self) -> Map<Seq<char>, KeyView> {
        self.key_set@
    }

    /// The issuers that the validator accepts.
    pub closed spec fn issuers(&self) -> Seq<Seq<char>> {
        self.policy.issuers()
    }

    /// The audiences of which a token must name one.
    pub closed spec fn audience(&self) -> Seq<Seq<char>> {
        self.policy.audience()
    }

    /// The validator that trusts the keys of `jwk_set` and accepts tokens of
    /// the given issuers for the given audiences. Of several keys with one id
    /// it trusts the first.
    pub fn new(jwk_set: JwkSet, issuers: Vec<String>, audience: Vec<String>) -> (validator:
        JwtTokenValidator)
        ensures
            validator.keys() == key_table(jwk_set_keys(jwk_set)),
            validator.issuers() == issuers.deep_view(),
            validator.audience() == audience.deep_view(),
    {
        let keys = keys_of(&jwk_set);
        JwtTokenValidator {
            key_set: KeySet::from_keys(keys),
            policy: ValidationPolicy::new(issuers, audience),
        }
    }

    /// The key that a decoded header names, or the failure that reports why
    /// there is none: the header did not decode, it names no key, or it names
    /// a key that the validator does not hold. An unknown key id never leads
    /// to another key.
    pub fn select_key(&self, header: Result<TokenHeader, String>) -> (selected: Result<&Key, Error>)
        ensures
            match selection_defect(self.keys(), header_view(header)) {
                Some(defect) => selected matches Err(error) && is_malformed(error@, defect),
                None => selected matches Ok(key) && key@ == self.keys()[header->Ok_0@.key_id->0],
            },
            header matches Err(detail) ==> selected matches Err(error) && error@.message
                == HEADER_UNDECODABLE@ + detail@,
    {
        match header {
            Err(detail) => {
                let error = Error::with_detail(
                    MALFORMED_TOKEN,
                    HEADER_UNDECODABLE,
                    detail.as_str(),
                );
                assert(HEADER_UNDECODABLE@.is_prefix_of(error@.message));
                Err(error)
            },
            Ok(decoded) => match decoded.key_id {
                None => Err(Error::new(MALFORMED_TOKEN, KEY_ID_MISSING)),
                Some(id) => match self.key_set.find(id.as_str()) {
                    None => Err(Error::new(MALFORMED_TOKEN, KEY_ID_UNKNOWN)),
                    Some(key) => Ok(key),
                },
            },
        }
    }

    /// The key and the algorithm with which the signature of a token is to be
    /// checked, given its decoded header; or the failure `malformed_token`
    /// that reports the defect of the token. Header and key are examined in
    /// this order: the header decodes, it names a key, the validator holds
    /// that key, the key is an RSA key, its modulus and exponent decode, it
    /// declares an algorithm, and that algorithm is a signature algorithm.
    /// The algorithm is the key's: what the header declares has no part in it.
    pub fn verification_plan(&self, header: Result<TokenHeader, String>) -> (plan: Result<
        VerificationPlan,
        Error,
    >)
        ensures
            match token_defect(self.keys(), header_view(header)) {
                Some(defect) => plan matches Err(error) && is_malformed(error@, defect),
                None => plan matches Ok(ready) && Some(ready.algorithm) == planned_algorithm(
                    self.keys(),
                    header_view(header),
                ) && Some(ready.key) == planned_key(self.keys(), header_view(header)),
            },
    {
        let key = self.select_key(header)?;
        let (modulus, exponent) = rsa_components(key)?;
        let decoding_key = match rsa_decoding_key(modulus, exponent) {
            Ok(decoding_key) => decoding_key,
            Err(detail) => {
                let error = Error::with_detail(MALFORMED_TOKEN, KEY_UNDECODABLE, detail.as_str());
                assert(KEY_UNDECODABLE@.is_prefix_of(error@.message));
                return Err(error);
            },
        };
        let algorithm = declared_algorithm(key)?;
        Ok(VerificationPlan { key: decoding_key, algorithm })
    }
}

impl TokenValidator for JwtTokenValidator {
    type Validated = JwtToken;

    /// A token with a defect fails as `malformed_token`, with the report of
    /// the defect. Any other token is accepted or fails as `invalid_token`,
    /// as the check of signature and claims answers.
    open spec fn allows(&self, token: Seq<char>, failure: Option<ErrorView>) -> bool {
        match token_defect(self.keys(), decoded_header(token)) {
            Some(defect) => failure matches Some(error) && is_malformed(error, defect),
            None => failure matches Some(error) ==> error.kind == INVALID_TOKEN@
                && VALIDATION_FAILED@.is_prefix_of(error.message),
        }
    }

    /// Decodes the header of `token`, finds the key that it names, and checks
    /// signature and claims with that key under the algorithm that the key
    /// declares, for the issuers and audiences of the validator. A token is
    /// accepted only where its header declares that same algorithm, and only
    /// where its signature is that of the key which its header names and its
    /// claims are those that the validator asks for; whether it has expired
    /// is read from the clock.
    fn validate(&self, token: &str) -> (result: Result<Arc<JwtToken>, Error>)
        ensures
            result is Ok ==> (decoded_header(token@) matches Some(header) && header.key_id matches Some(
                id,
            ) && self.keys().contains_key(id) && header.declared_alg == self.keys()[id].key_algorithm),
            result is Ok ==> (planned_key(self.keys(), decoded_header(token@)) matches Some(key)
                && planned_algorithm(self.keys(), decoded_header(token@)) matches Some(algorithm)
                && passes_apart_from_expiry(
                token@,
                key,
                algorithm,
                self.issuers(),
                self.audience(),
                required_claims(),
            )),
    {
        let header = decode_token_header(token);
        let plan = self.verification_plan(header)?;
        proof {
            use_type_invariant(&self.policy);
            lemma_name_of_named(self.keys()[decoded_header(token@)->0.key_id->0].key_algorithm->0);
        }
        let verdict = verify_token(token, &plan, &self.policy);
        let result = conclude(verdict);
        proof {
            if result is Err {
                assert(VALIDATION_FAILED@.is_prefix_of(result->Err_0@.message));
            }
        }
        result
    }
}

/// An algorithm found by a name goes by that name.
pub proof fn lemma_name_of_named(name: Seq<char>)
    requires
        algorithm_named(name) is Some,
    ensures
        algorithm_name(algorithm_named(name)->0) == name,
{
}

/// What became of the request for a key set.
#[derive(Debug, Clone)]
pub enum JwksResponse {
    /// No response arrived: the transport's words.
    Unreachable(String),
    /// A response arrived and its body could not be read: the transport's
    /// words.
    Unreadable(String),
    /// A response arrived: its status and its body.
    Answered { status: u16, body: Vec<u8> },
}

/// Whether a status tells of success: it lies from 200 to 299.
pub open spec fn is_success(status: u16) -> bool {
    200 <= status <= 299
}

/// The key set that the response to a request for one holds. Any failure is a
/// `jwks_retrieval_failure`: no response, a response whose status does not
/// tell of success, a body that could not be read, or a body that is no key
/// set. No key set is produced then.
pub fn try_get_jwks(response: JwksResponse) -> (fetched: Result<JwkSet, Error>)
    ensures
        match response {
            JwksResponse::Unreachable(detail) => fetched matches Err(error) && error@.kind
                == JWKS_RETRIEVAL_FAILURE@ && error@.message == NO_RESPONSE@ + detail@,
            JwksResponse::Unreadable(detail) => fetched matches Err(error) && error@.kind
                == JWKS_RETRIEVAL_FAILURE@ && error@.message == NOT_A_KEY_SET@ + detail@,
            JwksResponse::Answered { status, body } => if !is_success(status) {
                fetched matches Err(error) && error@.kind == JWKS_RETRIEVAL_FAILURE@
                    && error@.message == NO_RESPONSE@ + (STATUS_REFUSED@ + decimal_text(
                    status as nat,
                ))
            } else {
                match parsed_jwk_set(body@) {
                    Some(keys) => fetched matches Ok(set) && jwk_set_keys(set) == keys,
                    None => fetched matches Err(error) && error@.kind == JWKS_RETRIEVAL_FAILURE@
                        && NOT_A_KEY_SET@.is_prefix_of(error@.message),
                }
            },
        },
{
    match response {
        JwksResponse::Unreachable(detail) => Err(
            Error::with_detail(JWKS_RETRIEVAL_FAILURE, NO_RESPONSE, detail.as_str()),
        ),
        JwksResponse::Unreadable(detail) => Err(
            Error::with_detail(JWKS_RETRIEVAL_FAILURE, NOT_A_KEY_SET, detail.as_str()),
        ),
        JwksResponse::Answered { status, body } => {
            if status < 200 || status > 299 {
                let detail = joined(STATUS_REFUSED, decimal(status).as_str());
                return Err(
                    Error::with_detail(JWKS_RETRIEVAL_FAILURE, NO_RESPONSE, detail.as_str()),
                );
            }
            match parse_jwk_set(body.as_slice()) {
                Ok(set) => Ok(set),
                Err(detail) => {
                    let error = Error::with_detail(
                        JWKS_RETRIEVAL_FAILURE,
                        NOT_A_KEY_SET,
                        detail.as_str(),
                    );
                    assert(NOT_A_KEY_SET@.is_prefix_of(error@.message));
                    Err(error)
                },
            }
        },
    }
}

/// A token whose header names a key that the validator does not hold fails as
/// `malformed_token`.
pub proof fn law_unknown_key_is_malformed(
    validator: JwtTokenValidator,
    token: Seq<char>,
    failure: Option<ErrorView>,
)
    requires
        validator.allows(token, failure),
        decoded_header(token) matches Some(header) && header.key_id matches Some(id)
            && !validator.keys().contains_key(id),
    ensures
        failure matches Some(error) && error.kind == MALFORMED_TOKEN@ && error.message
            == KEY_ID_UNKNOWN@,
{
}

/// A token that names a key of a family other than RSA fails as
/// `malformed_token`, whatever its signature.
pub proof fn law_unsupported_family_is_malformed(
    validator: JwtTokenValidator,
    token: Seq<char>,
    failure: Option<ErrorView>,
)
    requires
        validator.allows(token, failure),
        decoded_header(token) matches Some(header) && header.key_id matches Some(id)
            && validator.keys().contains_key(id) && !(validator.keys()[id].parameters is Rsa),
    ensures
        failure matches Some(error) && error.kind == MALFORMED_TOKEN@ && error.message
            == FAMILY_UNSUPPORTED@ + family_name(
            validator.keys()[decoded_header(token)->0.key_id->0].parameters,
        ),
{
}

/// The algorithm under which a signature is checked is the one that the key
/// declares, never the one that the header of the token declares: two headers
/// that name the same key have the same defect or none, and lead to the same
/// key and the same algorithm, whatever algorithm each of them declares.
pub proof fn law_algorithm_is_the_keys(
    keys: Map<Seq<char>, KeyView>,
    first: TokenHeaderView,
    second: TokenHeaderView,
)
    requires
        first.key_id == second.key_id,
    ensures
        token_defect(keys, Some(first)) == token_defect(keys, Some(second)),
        planned_key(keys, Some(first)) == planned_key(keys, Some(second)),
        planned_algorithm(keys, Some(first)) == planned_algorithm(keys, Some(second)),
        planned_algorithm(keys, Some(first)) matches Some(algorithm) ==> keys[first.key_id->0].key_algorithm
            == Some(algorithm_name(algorithm)),
{
    if token_defect(keys, Some(first)) is None {
        lemma_name_of_named(keys[first.key_id->0].key_algorithm->0);
    }
}

/// Two validations of one token by one validator agree on whether the token is
/// malformed, and report the same defect where it is. A token without defect
/// is accepted or fails as `invalid_token`, each time as signature, claims and
/// the clock decide.
pub proof fn law_validation_repeats(
    validator: JwtTokenValidator,
    token: Seq<char>,
    first: Option<ErrorView>,
    second: Option<ErrorView>,
)
    requires
        validator.allows(token, first),
        validator.allows(token, second),
    ensures
        (first matches Some(error) && error.kind == MALFORMED_TOKEN@) <==> (second matches Some(
            error,
        ) && error.kind == MALFORMED_TOKEN@),
        match token_defect(validator.keys(), decoded_header(token)) {
            Some(defect) => first matches Some(error) && is_malformed(error, defect) && (
            second matches Some(error) && is_malformed(error, defect)),
            None => (first matches Some(error) ==> error.kind == INVALID_TOKEN@) && (
            second matches Some(error) ==> error.kind == INVALID_TOKEN@),
        },
{
    law_kinds_are_distinct();
}

} // verus!
