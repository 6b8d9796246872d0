//! Token validation against a cached set of signing keys.
//!
//! Validation is a sequence of decisions that the caller drives: it fetches
//! the key set when asked to, and decodes the claims of a token whose
//! signature has been verified. At most one fetch is asked for per token.

use crate::auth::helpers::{create_http_client, ClientSettings, TimeUnit};
use crate::encoding::{base64_url_decode, base64_url_decoded};
use crate::text::{
    clone_list, from_chars, list_view, opt_view, push_all, push_str_chars, slice_chars, split,
    split_chars, str_eq, to_chars, views,
};
use vstd::prelude::*;
use vstd::string::*;

verus! {

broadcast use crate::text::group_list_view;

/// Why a token is refused.
#[derive(Debug, Clone, Copy, PartialEq, Eq, Structural)]
pub enum ValidationError {
    /// The token does not have the shape of a token, or its header or
    /// payload cannot be decoded.
    Malformed,
    /// The header names no key.
    MissingKeyId,
    /// The key set holds no key of that id, even after a refresh.
    UnknownKeyId,
    /// The signature does not verify under the named key.
    SignatureInvalid,
    /// The token has expired.
    Expired,
    /// The token was issued by someone else.
    IssuerMismatch,
    /// The token was issued for someone else.
    AudienceMismatch,
    /// The key set could not be fetched or read.
    Internal,
}

/// The realm roles of a token.
#[derive(Debug, Clone)]
pub struct RealmAccess {
    /// Role names.
    pub roles: Vec<String>,
}

/// The claims of a validated token.
#[derive(Debug, Clone)]
pub struct Claims {
    /// Subject identifier.
    pub sub: String,
    /// Expiry, in seconds since the epoch.
    pub exp: usize,
    /// Display name.
    pub preferred_username: Option<String>,
    /// Email address.
    pub email: Option<String>,
    /// Issuer.
    pub iss: Option<String>,
    /// Audiences.
    pub aud: Vec<String>,
    /// Realm roles.
    pub realm_access: Option<RealmAccess>,
}

impl Claims {
    /// The role names of the token; none where it carries no realm roles.
    pub open spec fn spec_roles(&self) -> Seq<Seq<char>> {
        match self.realm_access {
            Some(access) => list_view(access.roles@),
            None => Seq::empty(),
        }
    }

    /// All realm roles of the token.
    pub fn roles(&self) -> (roles: Vec<String>)
        ensures
            list_view(roles@) == self.spec_roles(),
    {
        match &self.realm_access {
            Some(access) => clone_list(&access.roles),
            None => {
                let roles: Vec<String> = Vec::new();
                assert(list_view(roles@) =~= Seq::<Seq<char>>::empty());
                roles
            },
        }
    }

    /// Whether the token carries realm roles at all, even an empty list.
    pub fn has_realm_access(&self) -> (r: bool)
        ensures
            r == self.realm_access is Some,
    {
        self.realm_access.is_some()
    }
}

/// One entry of the provider's key set: an RSA public key under its id.
#[derive(Debug, Clone)]
pub struct Jwk {
    /// Key id.
    pub kid: String,
    /// Modulus, base64.
    pub n: String,
    /// Exponent, base64.
    pub e: String,
}

/// The key set as fetched at one moment. It is replaced as a whole.
#[derive(Debug, Clone)]
pub struct JwksCache {
    /// The keys, in the order of the key set.
    pub keys: Vec<Jwk>,
    /// When the set was fetched, in seconds of a monotonic clock.
    pub fetched_at: u64,
}

// ---------------------------------------------------------------------------
// What the token library computes
// ---------------------------------------------------------------------------

/// What is read of the header of a token.
#[derive(Debug, Clone)]
pub struct TokenHeader {
    /// Name of the signing algorithm.
    pub alg: String,
    /// Id of the signing key, where the header names one.
    pub kid: Option<String>,
}

/// The algorithm name and the key id in the header of `token`, or `None`
/// where the header cannot be decoded.
pub uninterp spec fn token_header(token: Seq<char>) -> Option<(Seq<char>, Option<Seq<char>>)>;

/// The key id in the header of `token`: `None` where the header cannot be
/// decoded, `Some(None)` where it names no key.
pub open spec fn token_header_kid(token: Seq<char>) -> Option<Option<Seq<char>>> {
    match token_header(token) {
        Some(header) => Some(header.1),
        None => None,
    }
}

/// Reads the header of a token. Calls `jsonwebtoken::decode_header`, which
/// wants three parts separated by `.` and a first part that is base64 of a
/// JSON header, and hands back the header's `kid` and the name of its `alg`
/// as the `Debug` impl of `Algorithm` writes it.
#[verifier::external_body]
pub(crate) fn read_header(token: &str) -> (r: Option<TokenHeader>)
    ensures
        match r {
            Some(header) => token_header(token@) == Some((header.alg@, opt_view(header.kid))),
            None => token_header(token@) is None,
        },
{
    match jsonwebtoken::decode_header(token) {
        Ok(header) => Some(TokenHeader { alg: format!("{:?}", header.alg), kid: header.kid }),
        Err(_) => None,
    }
}

/// Whether modulus and exponent are base64 that decodes.
pub uninterp spec fn rsa_components_decode(n: Seq<char>, e: Seq<char>) -> bool;

/// Checks the components of an RSA key. Calls
/// `DecodingKey::from_rsa_components` of `jsonwebtoken`, which decodes both
/// from URL-safe base64 without padding and fails if either does not decode.
#[verifier::external_body]
pub(crate) fn rsa_key_decodes(n: &str, e: &str) -> (ok: bool)
    ensures
        ok == rsa_components_decode(n@, e@),
{
    jsonwebtoken::DecodingKey::from_rsa_components(n, e).is_ok()
}

/// Whether `signature` is the RS256 signature of `message` under the RSA
/// key with modulus `n` and exponent `e`.
pub uninterp spec fn rs256_signature_verifies(
    n: Seq<char>,
    e: Seq<char>,
    message: Seq<char>,
    signature: Seq<char>,
) -> bool;

/// Verifies an RS256 signature. Builds the key with
/// `DecodingKey::from_rsa_components` and calls `jsonwebtoken::crypto::verify`
/// with `Algorithm::RS256`; a key or signature that does not decode counts
/// as a signature that does not verify.
#[verifier::external_body]
pub(crate) fn verify_rs256(n: &str, e: &str, message: &str, signature: &str) -> (ok: bool)
    ensures
        ok == rs256_signature_verifies(n@, e@, message@, signature@),
{
    match jsonwebtoken::DecodingKey::from_rsa_components(n, e) {
        Ok(key) => jsonwebtoken::crypto::verify(
            signature,
            message.as_bytes(),
            &key,
            jsonwebtoken::Algorithm::RS256,
        ).unwrap_or(false),
        Err(_) => false,
    }
}

/// The MD5 digest of a text, in lower-case hexadecimal.
pub uninterp spec fn md5_hex(text: Seq<char>) -> Seq<char>;

/// Hashes a text. Calls `md5::compute` on the bytes of the text and writes
/// the digest in lower-case hexadecimal, as its `LowerHex` impl does.
#[verifier::external_body]
pub(crate) fn md5_of(text: &str) -> (r: String)
    ensures
        r@ == md5_hex(text@),
{
    format!("{:x}", md5::compute(text))
}

/// What is kept on record about a refused token. The token itself is not
/// among it.
#[derive(Debug, Clone)]
pub struct RejectionRecord {
    /// Why the token was refused.
    pub error: ValidationError,
    /// Digest of the token.
    pub token_hash: String,
    /// Length of the token in bytes.
    pub token_len: usize,
    /// The header of the token, where it can be read.
    pub header: Option<TokenHeader>,
}

/// Draws up the record of a refused token.
pub fn rejection_record(token: &str, error: ValidationError) -> (record: RejectionRecord)
    ensures
        record.error == error,
        record.token_hash@ == md5_hex(token@),
        record.token_len == token.len(),
        match record.header {
            Some(header) => token_header(token@) == Some((header.alg@, opt_view(header.kid))),
            None => token_header(token@) is None,
        },
{
    RejectionRecord {
        error,
        token_hash: md5_of(token),
        token_len: token.len(),
        header: read_header(token),
    }
}

// ---------------------------------------------------------------------------
// The key cache
// ---------------------------------------------------------------------------

/// Index of the key that `kid` names: the last entry of that id, as a later
/// entry of a key set replaces an earlier one of the same id.
pub open spec fn key_index(keys: Seq<Jwk>, kid: Seq<char>) -> Option<int>
    decreases keys.len(),
{
    if keys.len() == 0 {
        None
    } else if keys.last().kid@ == kid {
        Some(keys.len() - 1)
    } else {
        key_index(keys.drop_last(), kid)
    }
}

/// `key_index` finds the last entry of the id, and finds one if there is any.
pub proof fn lemma_key_index(keys: Seq<Jwk>, kid: Seq<char>)
    ensures
        match key_index(keys, kid) {
            Some(i) => 0 <= i < keys.len() && keys[i].kid@ == kid && forall|j: int|
                i < j < keys.len() ==> keys[j].kid@ != kid,
            None => forall|j: int| 0 <= j < keys.len() ==> keys[j].kid@ != kid,
        },
    decreases keys.len(),
{
    if keys.len() > 0 && keys.last().kid@ != kid {
        let front = keys.drop_last();
        lemma_key_index(front, kid);
        match key_index(front, kid) {
            Some(i) => {
                assert(front[i] == keys[i]);
                assert forall|j: int| i < j < keys.len() implies keys[j].kid@ != kid by {
                    if j < front.len() {
                        assert(front[j] == keys[j]);
                    }
                }
            },
            None => {
                assert forall|j: int| 0 <= j < keys.len() implies keys[j].kid@ != kid by {
                    if j < front.len() {
                        assert(front[j] == keys[j]);
                    }
                }
            },
        }
    }
}

/// Whether a key set fetched at `fetched_at` is younger than `ttl` at `now`.
pub open spec fn is_fresh(fetched_at: u64, ttl: u64, now: u64) -> bool {
    (if now >= fetched_at {
        now - fetched_at
    } else {
        0
    }) < ttl
}

/// Whether every key of a set has components that decode.
pub open spec fn keys_decode(keys: Seq<Jwk>) -> bool {
    forall|i: int| 0 <= i < keys.len() ==> rsa_components_decode(
        (#[trigger] keys[i]).n@,
        keys[i].e@,
    )
}

/// Whether the cache holds no key of this id.
pub open spec fn key_is_absent(cache: Option<JwksCache>, kid: Seq<char>) -> bool {
    match cache {
        Some(snapshot) => key_index(snapshot.keys@, kid) is None,
        None => true,
    }
}

/// What to do about the key that a token names.
#[derive(Debug, Clone, Copy, PartialEq, Eq, Structural)]
pub enum KeyStep {
    /// Verify with the key at this index of the cached set.
    Use(usize),
    /// Fetch the key set, then ask again.
    Refresh,
    /// Give up: the key is unknown.
    Unknown,
}

/// The decision on a key. Before a refresh, a missing or outdated key set
/// and a key set without the key all ask for a refresh. After the one
/// refresh, the key set is used as it is, and a key it does not hold is
/// unknown.
pub open spec fn key_step(
    cache: Option<JwksCache>,
    ttl: u64,
    kid: Seq<char>,
    now: u64,
    refreshed: bool,
) -> KeyStep {
    match cache {
        Some(snapshot) if refreshed || is_fresh(snapshot.fetched_at, ttl, now) => match key_index(
            snapshot.keys@,
            kid,
        ) {
            Some(i) => KeyStep::Use(i as usize),
            None => if refreshed {
                KeyStep::Unknown
            } else {
                KeyStep::Refresh
            },
        },
        _ => if refreshed {
            KeyStep::Unknown
        } else {
            KeyStep::Refresh
        },
    }
}

// ---------------------------------------------------------------------------
// Validation
// ---------------------------------------------------------------------------

/// What validation asks for next.
#[derive(Debug)]
pub enum ValidationStep {
    /// Fetch the key set, hand it to `refresh_jwks`, and validate again.
    FetchKeys,
    /// The signature verifies. Decode these bytes, the JSON payload of the
    /// token, into claims and hand them to `finish_validation`.
    DecodeClaims { payload: Vec<u8> },
    /// The token is refused.
    Rejected(ValidationError),
}

/// A validation step as plain values.
pub ghost enum ValidationStepView {
    FetchKeys,
    DecodeClaims { payload: Seq<u8> },
    Rejected(ValidationError),
}

impl View for ValidationStep {
    type V = ValidationStepView;

    open spec fn view(&self) -> ValidationStepView {
        match *self {
            ValidationStep::FetchKeys => ValidationStepView::FetchKeys,
            ValidationStep::DecodeClaims { payload } => ValidationStepView::DecodeClaims {
                payload: payload@,
            },
            ValidationStep::Rejected(e) => ValidationStepView::Rejected(e),
        }
    }
}

/// The signed part of a three-part token: header and payload with the `.`
/// between them.
pub open spec fn signed_message(parts: Seq<Seq<char>>) -> Seq<char> {
    parts[0] + seq!['.'] + parts[1]
}

/// What becomes of a token once its signature has been looked at: with a
/// signature that verifies, the payload is decoded from base64.
pub open spec fn payload_step(verifies: bool, encoded_payload: Seq<char>) -> ValidationStepView {
    if !verifies {
        ValidationStepView::Rejected(ValidationError::SignatureInvalid)
    } else {
        match base64_url_decoded(encoded_payload) {
            Some(payload) => ValidationStepView::DecodeClaims { payload },
            None => ValidationStepView::Rejected(ValidationError::Malformed),
        }
    }
}

/// What becomes of a token once its key is at hand: the token must have
/// three parts, its signature must verify under the key, and its payload
/// must be base64.
pub open spec fn verified_payload(token: Seq<char>, key: Jwk) -> ValidationStepView {
    let parts = split(token, '.');
    if parts.len() != 3 {
        ValidationStepView::Rejected(ValidationError::Malformed)
    } else {
        payload_step(
            rs256_signature_verifies(key.n@, key.e@, signed_message(parts), parts[2]),
            parts[1],
        )
    }
}

/// The next step in validating `token` against a key cache.
pub open spec fn validation_step(
    cache: Option<JwksCache>,
    ttl: u64,
    token: Seq<char>,
    now: u64,
    refreshed: bool,
) -> ValidationStepView {
    match token_header_kid(token) {
        None => ValidationStepView::Rejected(ValidationError::Malformed),
        Some(None) => ValidationStepView::Rejected(ValidationError::MissingKeyId),
        Some(Some(kid)) => match key_step(cache, ttl, kid, now, refreshed) {
            KeyStep::Refresh => ValidationStepView::FetchKeys,
            KeyStep::Unknown => ValidationStepView::Rejected(ValidationError::UnknownKeyId),
            KeyStep::Use(i) => verified_payload(token, cache->0.keys@[i as int]),
        },
    }
}

/// The verdict on the claims of a token whose signature verifies: the token
/// must not have expired, must come from the expected issuer, and must be
/// meant for the expected audience. Expiry is strict: no clock skew is
/// tolerated.
pub open spec fn claims_verdict(
    claims: Claims,
    expected_issuer: Seq<char>,
    expected_audience: Seq<char>,
    now: u64,
) -> Result<Claims, ValidationError> {
    if claims.exp < now {
        Err(ValidationError::Expired)
    } else if opt_view(claims.iss) != Some(expected_issuer) {
        Err(ValidationError::IssuerMismatch)
    } else if !list_view(claims.aud@).contains(expected_audience) {
        Err(ValidationError::AudienceMismatch)
    } else {
        Ok(claims)
    }
}

/// The verdict once the payload of a verified token has been decoded:
/// a payload that holds no claims makes the token malformed.
pub open spec fn decoded_verdict(
    decoded: Option<Claims>,
    expected_issuer: Seq<char>,
    expected_audience: Seq<char>,
    now: u64,
) -> Result<Claims, ValidationError> {
    match decoded {
        Some(claims) => claims_verdict(claims, expected_issuer, expected_audience, now),
        None => Err(ValidationError::Malformed),
    }
}

/// `url` without the slashes at its end.
pub open spec fn without_trailing_slashes(url: Seq<char>) -> Seq<char>
    decreases url.len(),
{
    if url.len() > 0 && url.last() == '/' {
        without_trailing_slashes(url.drop_last())
    } else {
        url
    }
}

/// Removes the slashes at the end of `url`.
pub fn trim_trailing_slashes(url: &str) -> (r: String)
    ensures
        r@ == without_trailing_slashes(url@),
{
    let chars = to_chars(url);
    let mut end: usize = chars.len();
    proof {
        assert(chars@.take(end as int) == chars@);
    }
    while end > 0 && chars[end - 1] == '/'
        invariant
            end <= chars.len(),
            without_trailing_slashes(chars@) == without_trailing_slashes(chars@.take(end as int)),
        decreases end,
    {
        proof {
            assert(chars@.take(end as int).drop_last() == chars@.take(end - 1));
        }
        end -= 1;
    }
    let kept = slice_chars(&chars, 0, end);
    proof {
        assert(kept@ == chars@.take(end as int));
    }
    from_chars(&kept)
}

/// Validates tokens against the provider's signing keys.
pub struct JwtValidator {
    keycloak_internal_url: String,
    realm: String,
    expected_issuer: String,
    expected_audience: String,
    client: ClientSettings,
    cache_ttl_secs: u64,
    jwks_cache: Option<JwksCache>,
}

impl JwtValidator {
    /// The issuer that tokens must name.
    pub closed spec fn issuer(&self) -> Seq<char> {
        self.expected_issuer@
    }

    /// The audience that tokens must name.
    pub closed spec fn audience(&self) -> Seq<char> {
        self.expected_audience@
    }

    /// Where the key set is fetched from.
    pub closed spec fn certs_endpoint(&self) -> Seq<char> {
        self.keycloak_internal_url@ + "/realms/"@ + self.realm@
            + "/protocol/openid-connect/certs"@
    }

    /// How the client that fetches the key set is set up.
    pub closed spec fn client(&self) -> ClientSettings {
        self.client
    }

    /// Lifetime of a fetched key set, in seconds.
    pub closed spec fn ttl(&self) -> u64 {
        self.cache_ttl_secs
    }

    /// The cached key set.
    pub closed spec fn cache(&self) -> Option<JwksCache> {
        self.jwks_cache
    }

    /// A validator with an empty key cache. Slashes at the end of the two
    /// URLs are dropped; the expected issuer is the realm under the public
    /// URL.
    pub fn new(
        keycloak_internal_url: String,
        keycloak_public_url: String,
        realm: String,
        expected_audience: String,
        connect_timeout_secs: u64,
        request_timeout_secs: u64,
        jwks_cache_ttl_secs: u64,
    ) -> (v: JwtValidator)
        ensures
            v.client() == (ClientSettings {
                follow_redirects: false,
                unit: TimeUnit::Seconds,
                connect_timeout: connect_timeout_secs,
                request_timeout: request_timeout_secs,
            }),
            v.issuer() == without_trailing_slashes(keycloak_public_url@) + "/realms/"@ + realm@,
            v.audience() == expected_audience@,
            v.certs_endpoint() == without_trailing_slashes(keycloak_internal_url@) + "/realms/"@
                + realm@ + "/protocol/openid-connect/certs"@,
            v.ttl() == jwks_cache_ttl_secs,
            v.cache() is None,
    {
        let internal = trim_trailing_slashes(keycloak_internal_url.as_str());
        let public = trim_trailing_slashes(keycloak_public_url.as_str());
        let mut issuer = to_chars(public.as_str());
        push_str_chars(&mut issuer, "/realms/");
        push_str_chars(&mut issuer, realm.as_str());
        JwtValidator {
            keycloak_internal_url: internal,
            realm,
            expected_issuer: from_chars(&issuer),
            expected_audience,
            client: create_http_client(connect_timeout_secs, request_timeout_secs),
            cache_ttl_secs: jwks_cache_ttl_secs,
            jwks_cache: None,
        }
    }

    /// How to set up the client that fetches the key set.
    pub fn client_settings(&self) -> (settings: ClientSettings)
        ensures
            settings == self.client(),
    {
        self.client
    }

    /// The URL of the provider's key set.
    pub fn certs_url(&self) -> (url: String)
        ensures
            url@ == self.certs_endpoint(),
    {
        let mut out = to_chars(self.keycloak_internal_url.as_str());
        push_str_chars(&mut out, "/realms/");
        push_str_chars(&mut out, self.realm.as_str());
        push_str_chars(&mut out, "/protocol/openid-connect/certs");
        from_chars(&out)
    }

    /// Whether a key set has been fetched.
    pub fn is_jwks_cached(&self) -> (cached: bool)
        ensures
            cached == self.cache() is Some,
    {
        self.jwks_cache.is_some()
    }

    /// Takes in the outcome of fetching the key set at `now`: `None` where
    /// the fetch failed or its answer could not be read. A key set all of
    /// whose keys decode replaces the cached one as a whole; otherwise the
    /// cache stays as it is and the error is `Internal`.
    pub fn refresh_jwks(&mut self, fetched: Option<Vec<Jwk>>, now: u64) -> (r: Result<
        (),
        ValidationError,
    >)
        ensures
            final(self).issuer() == old(self).issuer(),
            final(self).audience() == old(self).audience(),
            final(self).certs_endpoint() == old(self).certs_endpoint(),
            final(self).client() == old(self).client(),
            final(self).ttl() == old(self).ttl(),
            match fetched {
                Some(keys) if keys_decode(keys@) => r is Ok && final(self).cache() == Some(
                    JwksCache { keys, fetched_at: now },
                ),
                _ => {
                    &&& r == Err::<(), ValidationError>(ValidationError::Internal)
                    &&& final(self).cache() == old(self).cache()
                },
            },
    {
        let keys = match fetched {
            Some(keys) => keys,
            None => {
                return Err(ValidationError::Internal);
            },
        };
        let ghost before = *self;
        let mut i: usize = 0;
        while i < keys.len()
            invariant
                i <= keys.len(),
                fetched == Some(keys),
                *self == before,
                forall|j: int|
                    0 <= j < i ==> rsa_components_decode((#[trigger] keys@[j]).n@, keys@[j].e@),
            decreases keys.len() - i,
        {
            if !rsa_key_decodes(keys[i].n.as_str(), keys[i].e.as_str()) {
                return Err(ValidationError::Internal);
            }
            i += 1;
        }
        self.jwks_cache = Some(JwksCache { keys, fetched_at: now });
        Ok(())
    }

    /// Decides what to do about the key named `kid`. `now` is the reading
    /// of the monotonic clock that `refresh_jwks` is given; `refreshed` says
    /// whether the key set has been fetched for the token at hand.
    pub fn get_cached_key(&self, kid: &str, now: u64, refreshed: bool) -> (step: KeyStep)
        ensures
            step == key_step(self.cache(), self.ttl(), kid@, now, refreshed),
            step matches KeyStep::Use(i) ==> self.cache() is Some && i < self.cache()->0.keys@.len(),
    {
        let miss = if refreshed {
            KeyStep::Unknown
        } else {
            KeyStep::Refresh
        };
        let snapshot = match &self.jwks_cache {
            Some(s) => s,
            None => {
                return miss;
            },
        };
        if !refreshed {
            let elapsed = if now >= snapshot.fetched_at {
                now - snapshot.fetched_at
            } else {
                0
            };
            if elapsed >= self.cache_ttl_secs {
                return miss;
            }
        }
        let mut i: usize = snapshot.keys.len();
        proof {
            assert(snapshot.keys@.take(i as int) == snapshot.keys@);
        }
        while i > 0
            invariant
                i <= snapshot.keys.len(),
                self.jwks_cache == Some(*snapshot),
                refreshed || is_fresh(snapshot.fetched_at, self.cache_ttl_secs, now),
                miss == if refreshed {
                    KeyStep::Unknown
                } else {
                    KeyStep::Refresh
                },
                key_index(snapshot.keys@, kid@) == key_index(snapshot.keys@.take(i as int), kid@),
            decreases i,
        {
            proof {
                assert(snapshot.keys@.take(i as int).drop_last() == snapshot.keys@.take(i - 1));
                assert(snapshot.keys@.take(i as int).last() == snapshot.keys@[i - 1]);
            }
            if str_eq(snapshot.keys[i - 1].kid.as_str(), kid) {
                return KeyStep::Use(i - 1);
            }
            i -= 1;
        }
        miss
    }

    /// Takes validation of `token` as far as it goes without outside work:
    /// reads the key id, finds the key, verifies the signature and decodes
    /// the payload.
    pub fn validate_async(&self, token: &str, now: u64, refreshed: bool) -> (step: ValidationStep)
        ensures
            step@ == validation_step(self.cache(), self.ttl(), token@, now, refreshed),
    {
        let kid = match read_header(token) {
            None => {
                return ValidationStep::Rejected(ValidationError::Malformed);
            },
            Some(header) => match header.kid {
                Some(kid) => kid,
                None => {
                    return ValidationStep::Rejected(ValidationError::MissingKeyId);
                },
            },
        };
        match self.get_cached_key(kid.as_str(), now, refreshed) {
            KeyStep::Refresh => ValidationStep::FetchKeys,
            KeyStep::Unknown => ValidationStep::Rejected(ValidationError::UnknownKeyId),
            KeyStep::Use(i) => match &self.jwks_cache {
                Some(snapshot) => verify_with_key(token, &snapshot.keys[i]),
                None => ValidationStep::Rejected(ValidationError::Internal),
            },
        }
    }

    /// Ends validation with what was decoded from the payload that
    /// `validate_async` handed out: `None` where the payload holds no
    /// claims. `now` is the current time in seconds since the epoch.
    pub fn finish_validation(&self, decoded: Option<Claims>, now: u64) -> (r: Result<
        Claims,
        ValidationError,
    >)
        ensures
            r == decoded_verdict(decoded, self.issuer(), self.audience(), now),
    {
        match decoded {
            Some(claims) => self.check_claims(claims, now),
            None => Err(ValidationError::Malformed),
        }
    }

    /// Checks the claims that were decoded from a verified payload. `now`
    /// is the current time in seconds since the epoch.
    pub fn check_claims(&self, claims: Claims, now: u64) -> (r: Result<Claims, ValidationError>)
        ensures
            r == claims_verdict(claims, self.issuer(), self.audience(), now),
    {
        if (claims.exp as u64) < now {
            return Err(ValidationError::Expired);
        }
        let issuer_ok = match &claims.iss {
            Some(iss) => str_eq(iss.as_str(), self.expected_issuer.as_str()),
            None => false,
        };
        if !issuer_ok {
            return Err(ValidationError::IssuerMismatch);
        }
        let mut i: usize = 0;
        let mut found = false;
        while i < claims.aud.len() && !found
            invariant
                i <= claims.aud.len(),
                found ==> list_view(claims.aud@).contains(self.expected_audience@),
                !found ==> forall|j: int|
                    0 <= j < i ==> list_view(claims.aud@)[j] != self.expected_audience@,
            decreases claims.aud.len() - i,
        {
            if str_eq(claims.aud[i].as_str(), self.expected_audience.as_str()) {
                assert(list_view(claims.aud@)[i as int] == self.expected_audience@);
                found = true;
            }
            i += 1;
        }
        if !found {
            return Err(ValidationError::AudienceMismatch);
        }
        Ok(claims)
    }
}

/// Verifies the signature of `token` under `key` and decodes its payload.
pub fn verify_with_key(token: &str, key: &Jwk) -> (step: ValidationStep)
    ensures
        step@ == verified_payload(token@, *key),
        step !is FetchKeys,
{
    let chars = to_chars(token);
    let parts = split_chars(&chars, '.');
    if parts.len() != 3 {
        return ValidationStep::Rejected(ValidationError::Malformed);
    }
    proof {
        assert(views(parts@)[0] == parts@[0]@);
        assert(views(parts@)[1] == parts@[1]@);
        assert(views(parts@)[2] == parts@[2]@);
    }
    let mut message: Vec<char> = Vec::new();
    push_all(&mut message, &parts[0]);
    message.push('.');
    push_all(&mut message, &parts[1]);
    proof {
        assert(message@ =~= signed_message(views(parts@)));
    }
    let message = from_chars(&message);
    let signature = from_chars(&parts[2]);
    let verifies = verify_rs256(
        key.n.as_str(),
        key.e.as_str(),
        message.as_str(),
        signature.as_str(),
    );
    let encoded = from_chars(&parts[1]);
    accept_signature(verifies, encoded.as_str())
}

/// Goes on with a token whose signature has been looked at: refuses it
/// where the signature does not verify, and decodes its payload otherwise.
pub fn accept_signature(verifies: bool, encoded_payload: &str) -> (step: ValidationStep)
    ensures
        step@ == payload_step(verifies, encoded_payload@),
        step !is FetchKeys,
{
    if !verifies {
        return ValidationStep::Rejected(ValidationError::SignatureInvalid);
    }
    match base64_url_decode(encoded_payload) {
        Some(payload) => ValidationStep::DecodeClaims { payload },
        None => ValidationStep::Rejected(ValidationError::Malformed),
    }
}

// ---------------------------------------------------------------------------
// What validation guarantees
// ---------------------------------------------------------------------------

/// A key set is asked for at most once per token: once it has been
/// refreshed, validation never asks again, and it is only then that a key
/// can be found unknown. Before a refresh, a key that the cache does not
/// hold always asks for one.
pub proof fn lemma_one_refresh_per_token(
    cache: Option<JwksCache>,
    ttl: u64,
    token: Seq<char>,
    kid: Seq<char>,
    now: u64,
    refreshed: bool,
)
    ensures
        refreshed ==> validation_step(cache, ttl, token, now, refreshed) !is FetchKeys,
        validation_step(cache, ttl, token, now, refreshed) == ValidationStepView::Rejected(
            ValidationError::UnknownKeyId,
        ) ==> refreshed,
        token_header_kid(token) == Some(Some(kid)) && key_is_absent(cache, kid) ==> validation_step(
            cache,
            ttl,
            token,
            now,
            refreshed,
        ) == if refreshed {
            ValidationStepView::Rejected(ValidationError::UnknownKeyId)
        } else {
            ValidationStepView::FetchKeys
        },
{
}

/// A token signed by a cached key passes: with a fresh cache that holds the
/// key the token names, a signature that verifies and a payload that
/// decodes, validation hands out the payload; and claims that have not
/// expired and name the expected issuer and audience are accepted as they
/// are.
pub proof fn lemma_valid_token_is_accepted(
    cache: JwksCache,
    ttl: u64,
    token: Seq<char>,
    kid: Seq<char>,
    payload: Seq<u8>,
    claims: Claims,
    issuer: Seq<char>,
    audience: Seq<char>,
    mono_now: u64,
    now: u64,
    refreshed: bool,
)
    requires
        token_header_kid(token) == Some(Some(kid)),
        is_fresh(cache.fetched_at, ttl, mono_now),
        key_index(cache.keys@, kid) is Some,
        split(token, '.').len() == 3,
        rs256_signature_verifies(
            cache.keys@[key_index(cache.keys@, kid)->0].n@,
            cache.keys@[key_index(cache.keys@, kid)->0].e@,
            signed_message(split(token, '.')),
            split(token, '.')[2],
        ),
        base64_url_decoded(split(token, '.')[1]) == Some(payload),
        claims.exp >= now,
        opt_view(claims.iss) == Some(issuer),
        list_view(claims.aud@).contains(audience),
    ensures
        validation_step(Some(cache), ttl, token, mono_now, refreshed)
            == (ValidationStepView::DecodeClaims { payload }),
        claims_verdict(claims, issuer, audience, now) == Ok::<Claims, ValidationError>(claims),
{
    lemma_key_index(cache.keys@, kid);
    assert(cache.keys@.len() == cache.keys.len());
}

/// A token whose expiry lies in the past is refused as expired, whatever
/// its issuer and audience.
pub proof fn lemma_expired_token_is_rejected(
    claims: Claims,
    issuer: Seq<char>,
    audience: Seq<char>,
    now: u64,
)
    requires
        claims.exp < now,
    ensures
        claims_verdict(claims, issuer, audience, now) == Err::<Claims, ValidationError>(
            ValidationError::Expired,
        ),
{
}

} // verus!
