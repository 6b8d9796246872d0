//! Decisions of the login, callback and logout endpoints. Sending requests
//! and replies is left to the caller; what is decided here is which reply
//! to send and which request to make next.

use crate::auth::cascade::{
    cascade_start_index, find_next_reachable_service, next_step, start_index, FindReachableResult,
    FindStep, FindStepView,
};
use crate::auth::cookies::{
    clear_cookie, clear_cookie_value, cookie_in_headers, extract_cookie, header_value,
    is_header_value, set_cookie, set_cookie_value, ACCESS_TOKEN_COOKIE, AUTH_PATH,
    ID_TOKEN_COOKIE, OAUTH_STATE_COOKIE, OAUTH_STATE_MAX_AGE, SESSION_PATH,
};
use crate::auth::helpers::{
    as_participant, build_keycloak_logout_url, build_oauth2_proxy_sign_out_url,
    build_portal_logout_continue_url, is_absolute_url, is_proxied, is_url, keycloak_logout_url,
    list_oauth2_proxy_services, logout_continue_url, proxy_ids, proxy_views, sign_out_url,
    Oauth2ProxyService, Oauth2ProxyServiceView,
};
use crate::auth::reply::{
    error_message, redirect_to, ErrorBody, ErrorBodyView, HttpReply, HttpReplyView,
    STATUS_BAD_REQUEST, STATUS_INTERNAL_ERROR, STATUS_SEE_OTHER, STATUS_UNAUTHORIZED,
};
use crate::config::Config;
use crate::services::descriptor::Descriptor;
use crate::text::{
    clone_opt, from_chars, lemma_list_view_push, list_view, opt_view, push_str_chars, str_eq,
    to_chars,
};
use vstd::prelude::*;
use vstd::string::*;

verus! {

broadcast use crate::text::group_list_view;

/// Lifetime of the session cookies where the provider names none, in seconds.
pub const DEFAULT_EXPIRES_IN: u64 = 3600;

/// Where a completed login lands.
pub const DASHBOARD_PATH: &'static str = "/dashboard";

/// Where a completed logout lands.
pub const LANDING_PATH: &'static str = "/";

/// Error sent when the callback carries no `state`.
pub const MSG_MISSING_STATE: &'static str = "Missing state parameter";

/// Error sent when the request carries no CSRF cookie.
pub const MSG_MISSING_STATE_COOKIE: &'static str = "CSRF validation failed: missing state cookie";

/// Error sent when `state` and the CSRF cookie differ.
pub const MSG_STATE_MISMATCH: &'static str = "CSRF validation failed: state mismatch";

/// Error sent when the callback carries no `code`.
pub const MSG_MISSING_CODE: &'static str = "Missing authorization code";

/// Error sent when an OAuth endpoint of the configuration is no URL.
pub const MSG_OAUTH_CONFIG: &'static str = "OAuth configuration error";

/// Error sent when the provider refuses the authorization code.
pub const MSG_EXCHANGE_FAILED: &'static str = "Token exchange failed";

/// Error sent when a cookie cannot be written as a header.
pub const MSG_HEADER_ERROR: &'static str = "Internal error setting response headers";

/// What the token endpoint returned beside the standard fields.
#[derive(Debug, Clone)]
pub struct OidcTokenFields {
    /// The identity token, if the provider sent one.
    pub id_token: Option<String>,
}

/// Query parameters of the callback endpoint.
pub struct CallbackParams {
    /// Authorization code.
    pub code: Option<String>,
    /// CSRF state, as sent to the provider at login.
    pub state: Option<String>,
    /// Error reported by the provider.
    pub error: Option<String>,
    /// Description of that error.
    pub error_description: Option<String>,
}

/// Query parameters of the logout endpoint.
#[derive(Debug)]
pub struct LogoutQuery {
    /// Id of the dependent service just signed out of.
    pub service_id: Option<String>,
}

/// The tokens obtained for an authorization code.
#[derive(Debug, Clone)]
pub struct TokenGrant {
    /// The access token.
    pub access_token: String,
    /// Lifetime of the access token in seconds, if the provider named one.
    pub expires_in: Option<u64>,
    /// Fields beyond the standard ones.
    pub extra_fields: OidcTokenFields,
}

// ---------------------------------------------------------------------------
// OAuth endpoints
// ---------------------------------------------------------------------------

/// The provider's authorization endpoint, as the browser reaches it.
pub open spec fn authorize_endpoint(config: Config) -> Seq<char> {
    config.keycloak_callback_url@ + "/realms/"@ + config.keycloak_realm@
        + "/protocol/openid-connect/auth"@
}

/// The provider's token endpoint, as the gateway reaches it.
pub open spec fn token_endpoint(config: Config) -> Seq<char> {
    config.keycloak_url@ + "/realms/"@ + config.keycloak_realm@ + "/protocol/openid-connect/token"@
}

/// Whether the three URLs of the OAuth client are absolute URLs.
pub open spec fn oauth_endpoints_valid(config: Config) -> bool {
    &&& is_absolute_url(authorize_endpoint(config))
    &&& is_absolute_url(token_endpoint(config))
    &&& is_absolute_url(config.redirect_uri@)
}

/// Builds the authorization endpoint.
pub fn authorize_endpoint_of(config: &Config) -> (url: String)
    ensures
        url@ == authorize_endpoint(*config),
{
    let mut out = to_chars(config.keycloak_callback_url.as_str());
    push_str_chars(&mut out, "/realms/");
    push_str_chars(&mut out, config.keycloak_realm.as_str());
    push_str_chars(&mut out, "/protocol/openid-connect/auth");
    from_chars(&out)
}

/// Builds the token endpoint.
pub fn token_endpoint_of(config: &Config) -> (url: String)
    ensures
        url@ == token_endpoint(*config),
{
    let mut out = to_chars(config.keycloak_url.as_str());
    push_str_chars(&mut out, "/realms/");
    push_str_chars(&mut out, config.keycloak_realm.as_str());
    push_str_chars(&mut out, "/protocol/openid-connect/token");
    from_chars(&out)
}

/// Checks the three URLs of the OAuth client.
pub fn oauth_endpoints_ok(config: &Config) -> (ok: bool)
    ensures
        ok == oauth_endpoints_valid(*config),
{
    let auth = authorize_endpoint_of(config);
    let token = token_endpoint_of(config);
    is_url(auth.as_str()) && is_url(token.as_str()) && is_url(config.redirect_uri.as_str())
}

// ---------------------------------------------------------------------------
// Login
// ---------------------------------------------------------------------------

/// Characters of URL-safe base64.
pub open spec fn is_base64_url_char(c: char) -> bool {
    ||| ('A' <= c && c <= 'Z')
    ||| ('a' <= c && c <= 'z')
    ||| ('0' <= c && c <= '9')
    ||| c == '-'
    ||| c == '_'
}

/// What a fresh CSRF state looks like: 22 characters of URL-safe base64,
/// which is 16 bytes without padding.
pub open spec fn is_csrf_state(state: Seq<char>) -> bool {
    &&& state.len() == 22
    &&& forall|i: int| 0 <= i < state.len() ==> is_base64_url_char(#[trigger] state[i])
}

/// Draws a fresh CSRF state. Calls `CsrfToken::new_random` of the `oauth2`
/// crate, which draws 16 random bytes and encodes them as URL-safe base64
/// without padding. Which characters come out differs from call to call.
#[verifier::external_body]
pub(crate) fn new_csrf_state() -> (state: String)
    ensures
        is_csrf_state(state@),
{
    oauth2::CsrfToken::new_random().secret().clone()
}

/// The URL that `oauth2` builds for an authorization-code request with the
/// given endpoint, client, redirect URI, scopes and CSRF state; `None`
/// where the endpoint or the redirect URI is no URL.
pub uninterp spec fn authorization_url(
    auth_endpoint: Seq<char>,
    client_id: Seq<char>,
    redirect_uri: Seq<char>,
    scopes: Seq<Seq<char>>,
    state: Seq<char>,
) -> Option<Seq<char>>;

/// Builds the authorization URL. Sets up an `oauth2` client with
/// `AuthUrl::new`, `RedirectUrl::new` and `ClientId::new`, and asks it for
/// `authorize_url(..).add_scopes(..).url()` with the given state.
#[verifier::external_body]
pub(crate) fn authorize_url(
    auth_endpoint: &str,
    client_id: &str,
    redirect_uri: &str,
    scopes: &Vec<String>,
    state: &str,
) -> (r: Option<String>)
    ensures
        opt_view(r) == authorization_url(
            auth_endpoint@,
            client_id@,
            redirect_uri@,
            list_view(scopes@),
            state@,
        ),
{
    let auth = oauth2::AuthUrl::new(auth_endpoint.to_string()).ok()?;
    let redirect = oauth2::RedirectUrl::new(redirect_uri.to_string()).ok()?;
    let client = oauth2::basic::BasicClient::new(oauth2::ClientId::new(client_id.to_string()))
        .set_auth_uri(auth)
        .set_redirect_uri(redirect);
    let state = oauth2::CsrfToken::new(state.to_string());
    let request = client.authorize_url(move || state);
    let scopes = scopes.iter().map(|s| oauth2::Scope::new(s.clone()));
    Some(request.add_scopes(scopes).url().0.to_string())
}

/// The scopes asked for at login: identity, profile and email.
pub open spec fn login_scopes() -> Seq<Seq<char>> {
    seq!["openid"@, "profile"@, "email"@]
}

/// The cookie that keeps the CSRF state for ten minutes.
pub open spec fn state_cookie(config: Config, state: Seq<char>) -> Seq<char> {
    set_cookie_value(
        OAUTH_STATE_COOKIE@,
        state,
        AUTH_PATH@,
        OAUTH_STATE_MAX_AGE as nat,
        opt_view(config.cookie_domain),
        config.environment,
    )
}

/// The reply to a login request, given the authorization URL that was built
/// for `state` and whether the OAuth endpoints are URLs.
pub open spec fn login_reply(
    config: Config,
    state: Seq<char>,
    target: Option<Seq<char>>,
    endpoints_ok: bool,
) -> HttpReplyView {
    match target {
        Some(url) if endpoints_ok => if is_header_value(state_cookie(config, state)) {
            redirect_to(url, seq![state_cookie(config, state)])
        } else {
            error_message(STATUS_INTERNAL_ERROR, MSG_HEADER_ERROR@)
        },
        _ => error_message(STATUS_INTERNAL_ERROR, MSG_OAUTH_CONFIG@),
    }
}

/// The reply to a login request that uses `state` as CSRF state.
pub open spec fn login_outcome(config: Config, state: Seq<char>) -> HttpReplyView {
    login_reply(
        config,
        state,
        authorization_url(
            authorize_endpoint(config),
            config.client_id@,
            config.redirect_uri@,
            login_scopes(),
            state,
        ),
        oauth_endpoints_valid(config),
    )
}

/// Builds the reply to a login request from the authorization URL.
pub fn login_redirect(config: &Config, state: &str, target: Option<String>, endpoints_ok: bool) -> (reply:
    HttpReply)
    ensures
        reply@ == login_reply(*config, state@, opt_view(target), endpoints_ok),
{
    match target {
        Some(url) => {
            if !endpoints_ok {
                return HttpReply::error(STATUS_INTERNAL_ERROR, MSG_OAUTH_CONFIG);
            }
            let cookie = set_cookie(
                config,
                OAUTH_STATE_COOKIE,
                state,
                AUTH_PATH,
                OAUTH_STATE_MAX_AGE,
            );
            if !header_value(cookie.as_str()) {
                return HttpReply::error(STATUS_INTERNAL_ERROR, MSG_HEADER_ERROR);
            }
            let mut cookies: Vec<String> = Vec::new();
            proof {
                lemma_list_view_push(cookies@, cookie);
                assert(list_view(cookies@).push(cookie@) =~= seq![cookie@]);
            }
            cookies.push(cookie);
            HttpReply::redirect(url, cookies)
        },
        None => HttpReply::error(STATUS_INTERNAL_ERROR, MSG_OAUTH_CONFIG),
    }
}

/// Appends a scope to a list of scopes.
fn push_scope(scopes: &mut Vec<String>, scope: &str)
    ensures
        list_view(final(scopes)@) == list_view(old(scopes)@).push(scope@),
{
    let owned = scope.to_owned();
    proof {
        lemma_list_view_push(scopes@, owned);
    }
    scopes.push(owned);
}

/// Starts a login with a given CSRF state: a redirect to the provider that
/// sets the state cookie.
pub fn login_with_state(config: &Config, state: &str) -> (reply: HttpReply)
    ensures
        reply@ == login_outcome(*config, state@),
{
    let endpoints_ok = oauth_endpoints_ok(config);
    let mut scopes: Vec<String> = Vec::new();
    push_scope(&mut scopes, "openid");
    push_scope(&mut scopes, "profile");
    push_scope(&mut scopes, "email");
    assert(list_view(scopes@) =~= login_scopes());
    let auth = authorize_endpoint_of(config);
    let target = authorize_url(
        auth.as_str(),
        config.client_id.as_str(),
        config.redirect_uri.as_str(),
        &scopes,
        state,
    );
    login_redirect(config, state, target, endpoints_ok)
}

/// Starts a login with a fresh CSRF state.
pub fn login_handler(config: &Config) -> (reply: HttpReply)
    ensures
        exists|state: Seq<char>| is_csrf_state(state) && reply@ == login_outcome(*config, state),
{
    let state = new_csrf_state();
    let reply = login_with_state(config, state.as_str());
    assert(is_csrf_state(state@) && reply@ == login_outcome(*config, state@));
    reply
}

// ---------------------------------------------------------------------------
// Callback
// ---------------------------------------------------------------------------

/// What the callback endpoint does next.
#[derive(Debug)]
pub enum CallbackStep {
    /// Send this reply; no token is asked for.
    Reply(HttpReply),
    /// Exchange this authorization code for tokens.
    Exchange { code: String },
}

/// A callback step as plain values.
pub ghost enum CallbackStepView {
    Reply(HttpReplyView),
    Exchange { code: Seq<char> },
}

impl View for CallbackStep {
    type V = CallbackStepView;

    open spec fn view(&self) -> CallbackStepView {
        match *self {
            CallbackStep::Reply(reply) => CallbackStepView::Reply(reply@),
            CallbackStep::Exchange { code } => CallbackStepView::Exchange { code: code@ },
        }
    }
}

/// The reply that hands on what the provider reported.
pub open spec fn provider_error(error: Seq<char>, description: Option<Seq<char>>) -> HttpReplyView {
    HttpReplyView {
        status: STATUS_BAD_REQUEST,
        location: None,
        set_cookies: Seq::empty(),
        body: Some(ErrorBodyView::Provider { error, error_description: description }),
    }
}

/// What the callback endpoint does with a request. In this order: an error
/// reported by the provider is handed on; a request without `state`, without
/// the CSRF cookie, or with a cookie that differs from `state` is refused; a
/// request without `code` is refused; a configuration whose OAuth endpoints
/// are no URLs is an internal error; otherwise the code is exchanged.
pub open spec fn callback_decision(
    params: CallbackParams,
    stored_state: Option<Seq<char>>,
    endpoints_ok: bool,
) -> CallbackStepView {
    if params.error is Some {
        CallbackStepView::Reply(
            provider_error(params.error->0@, opt_view(params.error_description)),
        )
    } else if params.state is None {
        CallbackStepView::Reply(error_message(STATUS_BAD_REQUEST, MSG_MISSING_STATE@))
    } else if stored_state is None {
        CallbackStepView::Reply(error_message(STATUS_UNAUTHORIZED, MSG_MISSING_STATE_COOKIE@))
    } else if stored_state->0 != params.state->0@ {
        CallbackStepView::Reply(error_message(STATUS_UNAUTHORIZED, MSG_STATE_MISMATCH@))
    } else if params.code is None {
        CallbackStepView::Reply(error_message(STATUS_BAD_REQUEST, MSG_MISSING_CODE@))
    } else if !endpoints_ok {
        CallbackStepView::Reply(error_message(STATUS_INTERNAL_ERROR, MSG_OAUTH_CONFIG@))
    } else {
        CallbackStepView::Exchange { code: params.code->0@ }
    }
}

/// Whether a reply refuses a request for want of a matching CSRF state.
pub open spec fn is_csrf_failure(reply: HttpReplyView) -> bool {
    ||| reply == error_message(STATUS_BAD_REQUEST, MSG_MISSING_STATE@)
    ||| reply == error_message(STATUS_UNAUTHORIZED, MSG_MISSING_STATE_COOKIE@)
    ||| reply == error_message(STATUS_UNAUTHORIZED, MSG_STATE_MISMATCH@)
}

/// Decides on a callback request from the value of the CSRF cookie and the
/// state of the configuration.
pub fn decide_callback(params: &CallbackParams, stored_state: Option<&str>, endpoints_ok: bool) -> (step:
    CallbackStep)
    ensures
        step@ == callback_decision(
            *params,
            match stored_state {
                Some(s) => Some(s@),
                None => None,
            },
            endpoints_ok,
        ),
{
    if let Some(error) = &params.error {
        let reply = HttpReply {
            status: STATUS_BAD_REQUEST,
            location: None,
            set_cookies: Vec::new(),
            body: Some(
                ErrorBody::Provider {
                    error: error.clone(),
                    error_description: clone_opt(&params.error_description),
                },
            ),
        };
        assert(list_view(reply.set_cookies@) =~= Seq::<Seq<char>>::empty());
        return CallbackStep::Reply(reply);
    }
    let state = match &params.state {
        Some(s) => s,
        None => {
            return CallbackStep::Reply(HttpReply::error(STATUS_BAD_REQUEST, MSG_MISSING_STATE));
        },
    };
    let stored = match stored_state {
        Some(s) => s,
        None => {
            return CallbackStep::Reply(
                HttpReply::error(STATUS_UNAUTHORIZED, MSG_MISSING_STATE_COOKIE),
            );
        },
    };
    if !str_eq(state.as_str(), stored) {
        return CallbackStep::Reply(HttpReply::error(STATUS_UNAUTHORIZED, MSG_STATE_MISMATCH));
    }
    let code = match &params.code {
        Some(c) => c,
        None => {
            return CallbackStep::Reply(HttpReply::error(STATUS_BAD_REQUEST, MSG_MISSING_CODE));
        },
    };
    if !endpoints_ok {
        return CallbackStep::Reply(HttpReply::error(STATUS_INTERNAL_ERROR, MSG_OAUTH_CONFIG));
    }
    CallbackStep::Exchange { code: code.clone() }
}

/// Handles a callback request up to the token exchange: reads the CSRF
/// cookie from the request's `Cookie` headers and decides.
pub fn callback_handler(params: &CallbackParams, config: &Config, cookie_headers: &Vec<String>) -> (step:
    CallbackStep)
    ensures
        step@ == callback_decision(
            *params,
            cookie_in_headers(list_view(cookie_headers@), OAUTH_STATE_COOKIE@),
            oauth_endpoints_valid(*config),
        ),
{
    let stored = extract_cookie(cookie_headers, OAUTH_STATE_COOKIE);
    let endpoints_ok = oauth_endpoints_ok(config);
    match &stored {
        Some(s) => decide_callback(params, Some(s.as_str()), endpoints_ok),
        None => decide_callback(params, None, endpoints_ok),
    }
}

/// The code is exchanged only when the callback carries a `state` equal to
/// the CSRF cookie and the provider reported no error. Where the provider
/// reported no error, a missing `state`, a missing cookie, or a cookie that
/// differs from `state` is answered with a CSRF failure.
pub proof fn lemma_csrf_guards_exchange(
    params: CallbackParams,
    stored_state: Option<Seq<char>>,
    endpoints_ok: bool,
)
    ensures
        callback_decision(params, stored_state, endpoints_ok) is Exchange ==> {
            &&& params.error is None
            &&& params.state is Some
            &&& stored_state == Some(params.state->0@)
            &&& params.code is Some
        },
        params.state is None || stored_state != opt_view(params.state) ==> callback_decision(
            params,
            stored_state,
            endpoints_ok,
        ) is Reply,
        params.error is None && (params.state is None || stored_state != opt_view(params.state))
            ==> is_csrf_failure(callback_decision(params, stored_state, endpoints_ok)->Reply_0),
{
}

/// The cookies that establish a session: the access token, the identity
/// token where one was granted, and the removal of the CSRF cookie. Token
/// cookies live as long as the access token.
pub open spec fn session_cookies(config: Config, grant: TokenGrant) -> Seq<Seq<char>> {
    let max_age = match grant.expires_in {
        Some(secs) => secs as nat,
        None => DEFAULT_EXPIRES_IN as nat,
    };
    let access = set_cookie_value(
        ACCESS_TOKEN_COOKIE@,
        grant.access_token@,
        SESSION_PATH@,
        max_age,
        opt_view(config.cookie_domain),
        config.environment,
    );
    let clear = clear_cookie_value(
        OAUTH_STATE_COOKIE@,
        AUTH_PATH@,
        opt_view(config.cookie_domain),
        config.environment,
    );
    match grant.extra_fields.id_token {
        Some(id_token) => seq![
            access,
            set_cookie_value(
                ID_TOKEN_COOKIE@,
                id_token@,
                SESSION_PATH@,
                max_age,
                opt_view(config.cookie_domain),
                config.environment,
            ),
            clear,
        ],
        None => seq![access, clear],
    }
}

/// Whether every cookie of a list can be sent as a header value.
pub open spec fn all_header_values(cookies: Seq<Seq<char>>) -> bool {
    forall|i: int| 0 <= i < cookies.len() ==> is_header_value(#[trigger] cookies[i])
}

/// The reply once the token exchange is over: without tokens the request is
/// unauthorized; with tokens the browser is sent to the dashboard with the
/// session cookies, unless one of them cannot be written as a header.
pub open spec fn callback_reply(config: Config, grant: Option<TokenGrant>) -> HttpReplyView {
    match grant {
        None => error_message(STATUS_UNAUTHORIZED, MSG_EXCHANGE_FAILED@),
        Some(g) => if all_header_values(session_cookies(config, g)) {
            redirect_to(DASHBOARD_PATH@, session_cookies(config, g))
        } else {
            error_message(STATUS_INTERNAL_ERROR, MSG_HEADER_ERROR@)
        },
    }
}

/// Finishes a callback request with the outcome of the token exchange:
/// `None` where the provider refused the code.
pub fn callback_session(config: &Config, grant: Option<&TokenGrant>) -> (reply: HttpReply)
    ensures
        reply@ == callback_reply(
            *config,
            match grant {
                Some(g) => Some(*g),
                None => None,
            },
        ),
{
    let grant = match grant {
        Some(g) => g,
        None => {
            return HttpReply::error(STATUS_UNAUTHORIZED, MSG_EXCHANGE_FAILED);
        },
    };
    let ghost expected = session_cookies(*config, *grant);
    let max_age = match grant.expires_in {
        Some(secs) => secs,
        None => DEFAULT_EXPIRES_IN,
    };
    let mut cookies: Vec<String> = Vec::new();
    let access = set_cookie(
        config,
        ACCESS_TOKEN_COOKIE,
        grant.access_token.as_str(),
        SESSION_PATH,
        max_age,
    );
    if !header_value(access.as_str()) {
        assert(!is_header_value(expected[0]));
        return HttpReply::error(STATUS_INTERNAL_ERROR, MSG_HEADER_ERROR);
    }
    proof {
        lemma_list_view_push(cookies@, access);
    }
    cookies.push(access);
    if let Some(id_token) = &grant.extra_fields.id_token {
        let id_cookie = set_cookie(
            config,
            ID_TOKEN_COOKIE,
            id_token.as_str(),
            SESSION_PATH,
            max_age,
        );
        if !header_value(id_cookie.as_str()) {
            assert(!is_header_value(expected[1]));
            return HttpReply::error(STATUS_INTERNAL_ERROR, MSG_HEADER_ERROR);
        }
        proof {
            lemma_list_view_push(cookies@, id_cookie);
        }
        cookies.push(id_cookie);
    }
    let clear = clear_cookie(config, OAUTH_STATE_COOKIE, AUTH_PATH);
    if !header_value(clear.as_str()) {
        assert(!is_header_value(expected[expected.len() - 1]));
        return HttpReply::error(STATUS_INTERNAL_ERROR, MSG_HEADER_ERROR);
    }
    proof {
        lemma_list_view_push(cookies@, clear);
    }
    cookies.push(clear);
    assert(list_view(cookies@) =~= expected);
    let target = DASHBOARD_PATH.to_owned();
    HttpReply::redirect(target, cookies)
}

// ---------------------------------------------------------------------------
// Logout
// ---------------------------------------------------------------------------

/// Whether the services are left unprobed: in production nothing is probed
/// unless an internal proxy is configured to probe through.
pub open spec fn probes_skipped(config: Config, service_count: int) -> bool {
    config.is_production() && config.traefik_internal_url is None && service_count > 0
}

/// What a logout request starts from.
#[derive(Debug)]
pub struct LogoutStart {
    /// The services that take part in the cascade, in order.
    pub services: Vec<Oauth2ProxyService>,
    /// Index of the first service to consider.
    pub start_index: usize,
    /// Whether the services are left unprobed.
    pub skip_probes: bool,
    /// The identity token of the request, if it carries one.
    pub id_token: Option<String>,
}

/// Reads a logout request: which services take part, where the walk over
/// them starts, whether they may be probed, and the identity token.
pub fn logout_handler(
    config: &Config,
    descriptor: &Descriptor,
    query: &LogoutQuery,
    cookie_headers: &Vec<String>,
) -> (start: LogoutStart)
    ensures
        proxy_views(start.services@) == descriptor.services@.filter(is_proxied()).map_values(
            as_participant(),
        ),
        start.start_index == start_index(proxy_ids(start.services@), opt_view(query.service_id)),
        start.start_index <= start.services@.len(),
        start.skip_probes == probes_skipped(*config, start.services@.len() as int),
        opt_view(start.id_token) == cookie_in_headers(
            list_view(cookie_headers@),
            ID_TOKEN_COOKIE@,
        ),
{
    let services = list_oauth2_proxy_services(descriptor);
    let id_token = extract_cookie(cookie_headers, ID_TOKEN_COOKIE);
    let start_index = match &query.service_id {
        Some(id) => cascade_start_index(services.as_slice(), Some(id.as_str())),
        None => cascade_start_index(services.as_slice(), None),
    };
    let skip_probes = config.is_production() && config.traefik_internal_url.is_none()
        && services.len() > 0;
    LogoutStart { services, start_index, skip_probes, id_token }
}

/// The first step of the walk over the services of a logout request.
pub open spec fn first_step(start: LogoutStart) -> FindStepView {
    if start.skip_probes {
        FindStepView::Done(None)
    } else {
        next_step(start.services@.len() as int, start.start_index as int, None)
    }
}

/// Takes the first step of the walk: nothing is probed where probes are
/// skipped.
pub fn logout_first_step<'a>(start: &'a LogoutStart) -> (step: FindStep<'a>)
    ensures
        match step {
            FindStep::Probe { index, service } => {
                &&& first_step(*start) == FindStepView::Probe(index as int)
                &&& index < start.services@.len()
                &&& *service == start.services@[index as int]
            },
            FindStep::Done(result) => result.service is None && first_step(*start)
                == FindStepView::Done(None),
        },
{
    if start.skip_probes {
        FindStep::Done(FindReachableResult { service: None })
    } else {
        find_next_reachable_service(start.services.as_slice(), start.start_index, None)
    }
}

/// A cookie if it can be written as a header, nothing otherwise.
pub open spec fn if_header_value(cookie: Seq<char>) -> Seq<Seq<char>> {
    if is_header_value(cookie) {
        seq![cookie]
    } else {
        Seq::empty()
    }
}

/// The cookies that a logout redirect removes: the access token and a
/// leftover CSRF state on every hop, the identity token on the last hop
/// only. A cookie that cannot be written as a header is left out.
pub open spec fn logout_cookies(config: Config, last_hop: bool) -> Seq<Seq<char>> {
    let domain = opt_view(config.cookie_domain);
    let hop = if_header_value(
        clear_cookie_value(ACCESS_TOKEN_COOKIE@, SESSION_PATH@, domain, config.environment),
    ) + if_header_value(
        clear_cookie_value(OAUTH_STATE_COOKIE@, AUTH_PATH@, domain, config.environment),
    );
    if last_hop {
        hop + if_header_value(
            clear_cookie_value(ID_TOKEN_COOKIE@, SESSION_PATH@, domain, config.environment),
        )
    } else {
        hop
    }
}

/// The redirect that a logout request is answered with: to the sign-out
/// endpoint of the next reachable service, which sends the browser back
/// with that service's id, or, with no such service, to the provider's
/// end-session endpoint.
pub open spec fn logout_reply(
    config: Config,
    next: Option<Oauth2ProxyServiceView>,
    id_token: Option<Seq<char>>,
    now: int,
) -> HttpReplyView {
    match next {
        Some(service) => redirect_to(
            sign_out_url(service.url, logout_continue_url(config.portal_public_url@, service.id)),
            logout_cookies(config, false),
        ),
        None => redirect_to(
            keycloak_logout_url(
                config.keycloak_callback_url@,
                config.keycloak_realm@,
                config.portal_public_url@,
                config.client_id@,
                id_token,
                now,
            ),
            logout_cookies(config, true),
        ),
    }
}

/// Logout always moves on: whatever the configuration, the services and
/// the identity token, the reply is a redirect.
pub proof fn lemma_logout_always_redirects(
    config: Config,
    next: Option<Oauth2ProxyServiceView>,
    id_token: Option<Seq<char>>,
    now: int,
)
    ensures
        logout_reply(config, next, id_token, now).status == STATUS_SEE_OTHER,
        logout_reply(config, next, id_token, now).location is Some,
        logout_reply(config, next, id_token, now).body is None,
{
}

/// Appends `cookie` to `cookies` if it can be written as a header.
fn push_if_header_value(cookies: &mut Vec<String>, cookie: String)
    ensures
        list_view(final(cookies)@) == list_view(old(cookies)@) + if_header_value(cookie@),
{
    if header_value(cookie.as_str()) {
        proof {
            lemma_list_view_push(cookies@, cookie);
            assert(list_view(cookies@).push(cookie@) =~= list_view(cookies@) + seq![cookie@]);
        }
        cookies.push(cookie);
    } else {
        assert(list_view(cookies@) + Seq::<Seq<char>>::empty() =~= list_view(cookies@));
    }
}

/// Answers a logout request once the walk over the services is over. `now`
/// is the current time in seconds since the epoch.
pub fn logout_redirect(
    config: &Config,
    found: &FindReachableResult<'_>,
    id_token: Option<&str>,
    now: i64,
) -> (reply: HttpReply)
    ensures
        reply@ == logout_reply(
            *config,
            match found.service {
                Some(s) => Some(s@),
                None => None,
            },
            match id_token {
                Some(t) => Some(t@),
                None => None,
            },
            now as int,
        ),
{
    let mut cookies: Vec<String> = Vec::new();
    assert(list_view(cookies@) =~= Seq::<Seq<char>>::empty());
    push_if_header_value(&mut cookies, clear_cookie(config, ACCESS_TOKEN_COOKIE, SESSION_PATH));
    push_if_header_value(&mut cookies, clear_cookie(config, OAUTH_STATE_COOKIE, AUTH_PATH));
    match found.service {
        Some(next) => {
            let rd_url = build_portal_logout_continue_url(
                config.portal_public_url.as_str(),
                next.id.as_str(),
            );
            let target = build_oauth2_proxy_sign_out_url(next.url.as_str(), rd_url.as_str());
            assert(list_view(cookies@) =~= logout_cookies(*config, false));
            HttpReply::redirect(target, cookies)
        },
        None => {
            let target = build_keycloak_logout_url(
                config.keycloak_callback_url.as_str(),
                config.keycloak_realm.as_str(),
                config.portal_public_url.as_str(),
                config.client_id.as_str(),
                id_token,
                now,
            );
            push_if_header_value(&mut cookies, clear_cookie(config, ID_TOKEN_COOKIE, SESSION_PATH));
            assert(list_view(cookies@) =~= logout_cookies(*config, true));
            HttpReply::redirect(target, cookies)
        },
    }
}

/// The landing spot after the provider has ended its session: a redirect to
/// the landing page.
pub fn logout_complete_handler() -> (reply: HttpReply)
    ensures
        reply@ == redirect_to(LANDING_PATH@, Seq::empty()),
{
    let cookies: Vec<String> = Vec::new();
    assert(list_view(cookies@) =~= Seq::<Seq<char>>::empty());
    HttpReply::redirect(LANDING_PATH.to_owned(), cookies)
}

} // verus!
