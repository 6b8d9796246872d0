//! Pieces of the logout flow: redirect targets, the staleness check on the
//! identity token, reachability probes and the walk over dependent services.

use crate::encoding::{base64_url_decode, base64_url_decoded, url_encode, url_encoded};
use crate::services::descriptor::{AuthType, Descriptor, Service};
use crate::text::{from_chars, opt_view, push_str_chars, split, split_chars, to_chars, views};
use vstd::prelude::*;
use vstd::string::*;

verus! {

// ---------------------------------------------------------------------------
// Staleness of an identity token
// ---------------------------------------------------------------------------

/// Seconds of clock skew tolerated before a token counts as stale.
pub const STALENESS_TOLERANCE_SECS: i64 = 5;

/// Name of the expiry claim.
pub const EXPIRY_CLAIM: &'static str = "exp";

/// The integer that the JSON text `payload` holds under `key` at its top
/// level, as `serde_json` reads it.
pub uninterp spec fn json_i64_member(payload: Seq<u8>, key: Seq<char>) -> Option<i64>;

/// Reads an integer member of a JSON object. Parses `payload` with
/// `serde_json::from_slice` into a `Value`, looks `key` up with `Value::get`
/// and reads the result with `Value::as_i64`. The answer is `None` where the
/// text is no JSON, is no object, lacks the key, or holds under it anything
/// but an integer that fits `i64`.
#[verifier::external_body]
pub(crate) fn read_json_i64(payload: &[u8], key: &str) -> (r: Option<i64>)
    ensures
        r == json_i64_member(payload@, key@),
{
    match serde_json::from_slice::<serde_json::Value>(payload) {
        Ok(value) => value.get(key).and_then(serde_json::Value::as_i64),
        Err(_) => None,
    }
}

/// Whether an expiry claim is missing or lies more than the tolerance in the
/// past.
pub open spec fn expiry_is_stale(exp: Option<i64>, now: int) -> bool {
    match exp {
        Some(e) => e < now - STALENESS_TOLERANCE_SECS,
        None => true,
    }
}

/// Whether `token` counts as expired at `now` (seconds since the epoch). A
/// token that does not have three parts, whose payload is not base64, or
/// whose payload holds no integer `exp`, counts as expired. The signature is
/// not looked at: this is a staleness check, no trust decision.
pub open spec fn jwt_is_expired(token: Seq<char>, now: int) -> bool {
    let parts = split(token, '.');
    if parts.len() != 3 {
        true
    } else {
        match base64_url_decoded(parts[1]) {
            Some(payload) => expiry_is_stale(json_i64_member(payload, EXPIRY_CLAIM@), now),
            None => true,
        }
    }
}

/// Decides staleness from a decoded expiry claim.
pub fn is_expiry_stale(exp: Option<i64>, now: i64) -> (stale: bool)
    ensures
        stale == expiry_is_stale(exp, now as int),
{
    match exp {
        Some(e) => (e as i128) < (now as i128) - (STALENESS_TOLERANCE_SECS as i128),
        None => true,
    }
}

/// Checks whether a token is expired or malformed, without verifying its
/// signature. `now` is the current time in seconds since the epoch.
pub fn is_jwt_expired(token: &str, now: i64) -> (expired: bool)
    ensures
        expired == jwt_is_expired(token@, now as int),
{
    let chars = to_chars(token);
    let parts = split_chars(&chars, '.');
    if parts.len() != 3 {
        return true;
    }
    assert(views(parts@)[1] == parts@[1]@);
    let encoded = from_chars(&parts[1]);
    match base64_url_decode(encoded.as_str()) {
        Some(payload) => {
            let exp = read_json_i64(payload.as_slice(), EXPIRY_CLAIM);
            is_expiry_stale(exp, now)
        },
        None => true,
    }
}

// ---------------------------------------------------------------------------
// Outbound HTTP
// ---------------------------------------------------------------------------

/// The unit that the timeouts of a client are given in.
#[derive(Debug, Clone, Copy, PartialEq, Eq, Structural)]
pub enum TimeUnit {
    /// Seconds.
    Seconds,
    /// Milliseconds.
    Milliseconds,
}

/// How an outbound HTTP client is set up. Every client of the gateway has
/// a connect timeout and a timeout for the whole request, and follows no
/// redirects.
#[derive(Debug, Clone, Copy, PartialEq, Eq, Structural)]
pub struct ClientSettings {
    /// Whether the client follows redirects by itself.
    pub follow_redirects: bool,
    /// Unit of the two timeouts.
    pub unit: TimeUnit,
    /// Time allowed for connecting.
    pub connect_timeout: u64,
    /// Time allowed for the whole request.
    pub request_timeout: u64,
}

/// The settings of the client that talks to the identity provider.
pub fn create_http_client(connect_timeout_secs: u64, request_timeout_secs: u64) -> (settings:
    ClientSettings)
    ensures
        settings == (ClientSettings {
            follow_redirects: false,
            unit: TimeUnit::Seconds,
            connect_timeout: connect_timeout_secs,
            request_timeout: request_timeout_secs,
        }),
{
    ClientSettings {
        follow_redirects: false,
        unit: TimeUnit::Seconds,
        connect_timeout: connect_timeout_secs,
        request_timeout: request_timeout_secs,
    }
}

/// The settings of the client that probes dependent services. Its timeouts
/// are short, as the user waits while services are probed.
pub fn build_probe_client(connect_timeout_ms: u64, request_timeout_ms: u64) -> (settings:
    ClientSettings)
    ensures
        settings == (ClientSettings {
            follow_redirects: false,
            unit: TimeUnit::Milliseconds,
            connect_timeout: connect_timeout_ms,
            request_timeout: request_timeout_ms,
        }),
{
    ClientSettings {
        follow_redirects: false,
        unit: TimeUnit::Milliseconds,
        connect_timeout: connect_timeout_ms,
        request_timeout: request_timeout_ms,
    }
}

// ---------------------------------------------------------------------------
// Redirect targets
// ---------------------------------------------------------------------------

/// Where a dependent service sends the browser back to: the logout endpoint
/// with the id of the service just signed out of.
pub open spec fn logout_continue_url(portal_public_url: Seq<char>, service_id: Seq<char>) -> Seq<
    char,
> {
    portal_public_url + "/auth/logout?serviceId="@ + service_id
}

/// The sign-out endpoint of a proxied service, with the way back as `rd`.
pub open spec fn sign_out_url(service_url: Seq<char>, rd_url: Seq<char>) -> Seq<char> {
    service_url + "/oauth2/sign_out?rd="@ + url_encoded(rd_url)
}

/// Where the provider sends the browser once its session has ended.
pub open spec fn logout_complete_url(portal_public_url: Seq<char>) -> Seq<char> {
    portal_public_url + "/auth/logout/complete"@
}

/// The provider's end-session endpoint.
pub open spec fn end_session_endpoint(keycloak_callback_url: Seq<char>, realm: Seq<char>) -> Seq<
    char,
> {
    keycloak_callback_url + "/realms/"@ + realm + "/protocol/openid-connect/logout"@
}

/// The end-session URL. It carries the identity token as `id_token_hint`
/// when there is one that is not stale, and the client id otherwise.
pub open spec fn keycloak_logout_url(
    keycloak_callback_url: Seq<char>,
    realm: Seq<char>,
    portal_public_url: Seq<char>,
    client_id: Seq<char>,
    id_token: Option<Seq<char>>,
    now: int,
) -> Seq<char> {
    let endpoint = end_session_endpoint(keycloak_callback_url, realm);
    let back = "&post_logout_redirect_uri="@ + url_encoded(logout_complete_url(portal_public_url));
    match id_token {
        Some(t) if !jwt_is_expired(t, now) => endpoint + "?id_token_hint="@ + url_encoded(t) + back,
        _ => endpoint + "?client_id="@ + url_encoded(client_id) + back,
    }
}

/// Builds the URL at which the cascade continues after `next_service_id`.
pub fn build_portal_logout_continue_url(portal_public_url: &str, next_service_id: &str) -> (url:
    String)
    ensures
        url@ == logout_continue_url(portal_public_url@, next_service_id@),
{
    let mut out = to_chars(portal_public_url);
    push_str_chars(&mut out, "/auth/logout?serviceId=");
    push_str_chars(&mut out, next_service_id);
    from_chars(&out)
}

/// Builds the sign-out URL of a proxied service.
pub fn build_oauth2_proxy_sign_out_url(service_url: &str, rd_url: &str) -> (url: String)
    ensures
        url@ == sign_out_url(service_url@, rd_url@),
{
    let encoded = url_encode(rd_url);
    let mut out = to_chars(service_url);
    push_str_chars(&mut out, "/oauth2/sign_out?rd=");
    push_str_chars(&mut out, encoded.as_str());
    from_chars(&out)
}

/// Builds the provider's end-session URL. `now` is the current time in
/// seconds since the epoch.
pub fn build_keycloak_logout_url(
    keycloak_callback_url: &str,
    keycloak_realm: &str,
    portal_public_url: &str,
    client_id: &str,
    id_token: Option<&str>,
    now: i64,
) -> (url: String)
    ensures
        url@ == keycloak_logout_url(
            keycloak_callback_url@,
            keycloak_realm@,
            portal_public_url@,
            client_id@,
            match id_token {
                Some(t) => Some(t@),
                None => None,
            },
            now as int,
        ),
{
    let mut complete = to_chars(portal_public_url);
    push_str_chars(&mut complete, "/auth/logout/complete");
    let complete_url = from_chars(&complete);
    let back = url_encode(complete_url.as_str());

    let mut out = to_chars(keycloak_callback_url);
    push_str_chars(&mut out, "/realms/");
    push_str_chars(&mut out, keycloak_realm);
    push_str_chars(&mut out, "/protocol/openid-connect/logout");
    let ghost endpoint = out@;
    let hint: Option<&str> = match id_token {
        Some(t) => if is_jwt_expired(t, now) {
            None
        } else {
            Some(t)
        },
        None => None,
    };
    match hint {
        Some(t) => {
            let encoded = url_encode(t);
            push_str_chars(&mut out, "?id_token_hint=");
            push_str_chars(&mut out, encoded.as_str());
        },
        None => {
            let encoded = url_encode(client_id);
            push_str_chars(&mut out, "?client_id=");
            push_str_chars(&mut out, encoded.as_str());
        },
    }
    let ghost chosen = out@;
    push_str_chars(&mut out, "&post_logout_redirect_uri=");
    push_str_chars(&mut out, back.as_str());
    proof {
        assert(chosen + "&post_logout_redirect_uri="@ + back@ == chosen + (
        "&post_logout_redirect_uri="@ + back@));
    }
    from_chars(&out)
}

/// A stale or missing identity token never reaches the end-session URL: the
/// URL is then the one built from the client id alone.
pub proof fn lemma_stale_token_falls_back(
    keycloak_callback_url: Seq<char>,
    realm: Seq<char>,
    portal_public_url: Seq<char>,
    client_id: Seq<char>,
    id_token: Seq<char>,
    now: int,
)
    requires
        jwt_is_expired(id_token, now),
    ensures
        keycloak_logout_url(
            keycloak_callback_url,
            realm,
            portal_public_url,
            client_id,
            Some(id_token),
            now,
        ) == keycloak_logout_url(
            keycloak_callback_url,
            realm,
            portal_public_url,
            client_id,
            None,
            now,
        ),
{
}

/// A token whose payload decodes and whose `exp` lies more than the
/// tolerance before `now` is stale.
pub proof fn lemma_past_expiry_is_stale(token: Seq<char>, payload: Seq<u8>, exp: i64, now: int)
    requires
        split(token, '.').len() == 3,
        base64_url_decoded(split(token, '.')[1]) == Some(payload),
        json_i64_member(payload, EXPIRY_CLAIM@) == Some(exp),
        exp < now - STALENESS_TOLERANCE_SECS,
    ensures
        jwt_is_expired(token, now),
{
}

// ---------------------------------------------------------------------------
// Service URLs
// ---------------------------------------------------------------------------

/// What the `url` crate makes of a text: `None` where it is no absolute URL,
/// else the host of the URL, which some URLs lack.
pub uninterp spec fn parsed_url_host(url: Seq<char>) -> Option<Option<Seq<char>>>;

/// Parses a URL and reads its host. Calls `Url::parse` of the `url` crate
/// and, on the parsed URL, `Url::host_str`, which gives the host without the
/// port.
#[verifier::external_body]
pub(crate) fn parse_url_host(url: &str) -> (r: Option<Option<String>>)
    ensures
        match r {
            Some(host) => parsed_url_host(url@) == Some(opt_view(host)),
            None => parsed_url_host(url@) is None,
        },
{
    match url::Url::parse(url) {
        Ok(parsed) => Some(parsed.host_str().map(str::to_owned)),
        Err(_) => None,
    }
}

/// The host of a service URL, where the URL parses and has one.
pub open spec fn service_host(url: Seq<char>) -> Option<Seq<char>> {
    match parsed_url_host(url) {
        Some(Some(host)) => Some(host),
        _ => None,
    }
}

/// Whether a text is an absolute URL.
pub open spec fn is_absolute_url(url: Seq<char>) -> bool {
    parsed_url_host(url) is Some
}

/// What probing needs of a service URL.
#[derive(Debug, Clone, PartialEq)]
pub struct ParsedServiceUrl {
    /// Host without port, for the `Host` header.
    pub host: String,
}

/// Parses a service URL and keeps its host.
pub fn parse_service_url(service_url: &str) -> (r: Option<ParsedServiceUrl>)
    ensures
        match r {
            Some(p) => service_host(service_url@) == Some(p.host@),
            None => service_host(service_url@) is None,
        },
{
    match parse_url_host(service_url) {
        Some(Some(host)) => Some(ParsedServiceUrl { host }),
        _ => None,
    }
}

/// Whether `url` is an absolute URL.
pub fn is_url(url: &str) -> (ok: bool)
    ensures
        ok == is_absolute_url(url@),
{
    parse_url_host(url).is_some()
}

// ---------------------------------------------------------------------------
// Proxied services
// ---------------------------------------------------------------------------

/// A dependent service that takes part in the logout cascade.
#[derive(Debug, Clone)]
pub struct Oauth2ProxyService {
    /// Stable identifier.
    pub id: String,
    /// Browser-visible URL.
    pub url: String,
}

/// A cascade participant as plain text.
pub ghost struct Oauth2ProxyServiceView {
    pub id: Seq<char>,
    pub url: Seq<char>,
}

impl View for Oauth2ProxyService {
    type V = Oauth2ProxyServiceView;

    open spec fn view(&self) -> Oauth2ProxyServiceView {
        Oauth2ProxyServiceView { id: self.id@, url: self.url@ }
    }
}

/// The views of a list of participants.
pub open spec fn proxy_views(services: Seq<Oauth2ProxyService>) -> Seq<Oauth2ProxyServiceView> {
    services.map_values(|s: Oauth2ProxyService| s@)
}

/// The ids of a list of participants.
pub open spec fn proxy_ids(services: Seq<Oauth2ProxyService>) -> Seq<Seq<char>> {
    services.map_values(|s: Oauth2ProxyService| s.id@)
}

/// Whether a service sits behind the reverse proxy.
pub open spec fn is_proxied() -> spec_fn(Service) -> bool {
    |s: Service| s.auth_type == AuthType::Oauth2Proxy
}

/// A service as a cascade participant.
pub open spec fn as_participant() -> spec_fn(Service) -> Oauth2ProxyServiceView {
    |s: Service| Oauth2ProxyServiceView { id: s.id@, url: s.url@ }
}

/// The services that take part in the logout cascade: those behind the
/// reverse proxy, in the descriptor's order.
pub fn list_oauth2_proxy_services(descriptor: &Descriptor) -> (list: Vec<Oauth2ProxyService>)
    ensures
        proxy_views(list@) == descriptor.services@.filter(is_proxied()).map_values(
            as_participant(),
        ),
{
    let mut list: Vec<Oauth2ProxyService> = Vec::new();
    let ghost all = descriptor.services@;
    let mut i: usize = 0;
    proof {
        reveal(Seq::filter);
        assert(all.take(0).filter(is_proxied()) =~= Seq::<Service>::empty());
        assert(proxy_views(list@) =~= all.take(0).filter(is_proxied()).map_values(
            as_participant(),
        ));
    }
    while i < descriptor.services.len()
        invariant
            i <= descriptor.services.len(),
            all == descriptor.services@,
            proxy_views(list@) == all.take(i as int).filter(is_proxied()).map_values(
                as_participant(),
            ),
        decreases descriptor.services.len() - i,
    {
        let s = &descriptor.services[i];
        proof {
            assert(all.take(i + 1) == all.take(i as int).push(*s));
            all.take(i as int).lemma_filter_push(*s, is_proxied());
        }
        if matches!(s.auth_type, AuthType::Oauth2Proxy) {
            let item = Oauth2ProxyService { id: s.id.clone(), url: s.url.clone() };
            proof {
                let kept = all.take(i as int).filter(is_proxied());
                assert(proxy_views(list@.push(item)) =~= proxy_views(list@).push(item@));
                assert(kept.push(*s).map_values(as_participant()) =~= kept.map_values(
                    as_participant(),
                ).push(as_participant()(*s)));
            }
            list.push(item);
        }
        i += 1;
    }
    proof {
        assert(all.take(descriptor.services.len() as int) == all);
    }
    list
}

} // verus!
