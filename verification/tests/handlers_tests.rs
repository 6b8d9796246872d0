use portal::auth::cascade::{find_next_reachable_service, FindReachableResult, FindStep};
use portal::auth::handlers::{
    authorize_endpoint_of, callback_handler, callback_session, decide_callback, login_handler,
    login_redirect, login_with_state, logout_complete_handler, logout_first_step, logout_handler,
    logout_redirect, oauth_endpoints_ok, token_endpoint_of, CallbackParams, CallbackStep,
    LogoutQuery, OidcTokenFields, TokenGrant,
};
use portal::auth::helpers::Oauth2ProxyService;
use portal::auth::probe::{plan_probe, probe_service_reachable, ProbeResponse};
use portal::auth::reply::{ErrorBody, HttpReply};
use portal::config::{Config, DescriptorConfig, DescriptorSource, Environment};
use portal::services::descriptor::{AuthType, Descriptor, KeycloakConfig, PortalConfig, Service};

fn config() -> Config {
    Config {
        environment: Environment::Development,
        server_host: "0.0.0.0".to_string(),
        server_port: 3000,
        portal_public_url: "http://portal.localhost".to_string(),
        keycloak_url: "http://keycloak:8080".to_string(),
        keycloak_callback_url: "http://keycloak.localhost".to_string(),
        keycloak_realm: "dev".to_string(),
        client_id: "portal".to_string(),
        client_secret: "not-a-secret".to_string(),
        redirect_uri: "http://portal.localhost/auth/callback".to_string(),
        cookie_domain: None,
        http_connect_timeout_secs: 10,
        http_request_timeout_secs: 30,
        jwks_cache_ttl_secs: 3600,
        logout_probe_connect_timeout_ms: 300,
        logout_probe_request_timeout_ms: 750,
        traefik_internal_url: None,
        descriptor: DescriptorConfig { source: DescriptorSource::Json("{}".to_string()) },
    }
}

fn params(code: Option<&str>, state: Option<&str>, error: Option<&str>, description: Option<&str>) -> CallbackParams {
    CallbackParams {
        code: code.map(|s| s.to_string()),
        state: state.map(|s| s.to_string()),
        error: error.map(|s| s.to_string()),
        error_description: description.map(|s| s.to_string()),
    }
}

fn refusal(step: CallbackStep) -> (u16, String) {
    match step {
        CallbackStep::Reply(reply) => {
            assert!(reply.location.is_none());
            assert!(reply.set_cookies.is_empty());
            match reply.body {
                Some(ErrorBody::Message { error }) => (reply.status, error),
                other => panic!("expected an error message, got {:?}", other),
            }
        }
        CallbackStep::Exchange { code } => panic!("the code {} was handed on", code),
    }
}

fn message(reply: &HttpReply) -> (u16, String) {
    match &reply.body {
        Some(ErrorBody::Message { error }) => (reply.status, error.clone()),
        other => panic!("expected an error message, got {:?}", other),
    }
}

#[test]
fn callback_hands_on_the_code_when_state_matches() {
    let headers = vec!["oauth_state=abc; other=1".to_string()];
    match callback_handler(&params(Some("code-1"), Some("abc"), None, None), &config(), &headers) {
        CallbackStep::Exchange { code } => assert_eq!(code, "code-1"),
        CallbackStep::Reply(reply) => panic!("refused with {:?}", reply),
    }
}

#[test]
fn callback_without_state_is_a_bad_request() {
    let headers = vec!["oauth_state=abc".to_string()];
    assert_eq!(
        refusal(callback_handler(&params(Some("code-1"), None, None, None), &config(), &headers)),
        (400, "Missing state parameter".to_string())
    );
    // Even without a cookie the missing parameter is reported first.
    assert_eq!(
        refusal(callback_handler(&params(Some("code-1"), None, None, None), &config(), &Vec::new())),
        (400, "Missing state parameter".to_string())
    );
}

#[test]
fn callback_without_state_cookie_is_unauthorized() {
    assert_eq!(
        refusal(callback_handler(&params(Some("code-1"), Some("abc"), None, None), &config(), &Vec::new())),
        (401, "CSRF validation failed: missing state cookie".to_string())
    );
    let headers = vec!["access_token=abc".to_string()];
    assert_eq!(
        refusal(callback_handler(&params(Some("code-1"), Some("abc"), None, None), &config(), &headers)),
        (401, "CSRF validation failed: missing state cookie".to_string())
    );
}

#[test]
fn callback_with_differing_state_is_unauthorized() {
    for stored in ["abd", "ABC", "abc ", "", "abcabc"] {
        assert_eq!(
            refusal(decide_callback(&params(Some("code-1"), Some("abc"), None, None), Some(stored), true)),
            (401, "CSRF validation failed: state mismatch".to_string())
        );
    }
    // No normalization: a cookie value in quotes differs.
    let headers = vec!["oauth_state=\"abc\"".to_string()];
    assert_eq!(
        refusal(callback_handler(&params(Some("code-1"), Some("abc"), None, None), &config(), &headers)),
        (401, "CSRF validation failed: state mismatch".to_string())
    );
}

#[test]
fn callback_without_code_is_a_bad_request() {
    assert_eq!(
        refusal(decide_callback(&params(None, Some("abc"), None, None), Some("abc"), true)),
        (400, "Missing authorization code".to_string())
    );
}

#[test]
fn callback_with_broken_endpoints_is_an_internal_error() {
    assert_eq!(
        refusal(decide_callback(&params(Some("c"), Some("abc"), None, None), Some("abc"), false)),
        (500, "OAuth configuration error".to_string())
    );
    let mut broken = config();
    broken.keycloak_url = "//keycloak:8080".to_string();
    assert!(!oauth_endpoints_ok(&broken));
    let headers = vec!["oauth_state=abc".to_string()];
    assert_eq!(
        refusal(callback_handler(&params(Some("c"), Some("abc"), None, None), &broken, &headers)),
        (500, "OAuth configuration error".to_string())
    );
    // The state is looked at first.
    assert_eq!(
        refusal(callback_handler(&params(Some("c"), Some("xyz"), None, None), &broken, &headers)),
        (401, "CSRF validation failed: state mismatch".to_string())
    );
}

#[test]
fn callback_hands_on_what_the_provider_reported() {
    let step = decide_callback(
        &params(Some("c"), Some("abc"), Some("access_denied"), Some("User said no")),
        Some("abc"),
        true,
    );
    match step {
        CallbackStep::Reply(reply) => {
            assert_eq!(reply.status, 400);
            match reply.body {
                Some(ErrorBody::Provider { error, error_description }) => {
                    assert_eq!(error, "access_denied");
                    assert_eq!(error_description, Some("User said no".to_string()));
                }
                other => panic!("expected the provider's error, got {:?}", other),
            }
        }
        CallbackStep::Exchange { .. } => panic!("the code was handed on"),
    }
    match decide_callback(&params(None, None, Some("server_error"), None), None, false) {
        CallbackStep::Reply(reply) => {
            assert_eq!(reply.status, 400);
            assert!(matches!(reply.body, Some(ErrorBody::Provider { error_description: None, .. })));
        }
        CallbackStep::Exchange { .. } => panic!("the code was handed on"),
    }
}

fn grant(access: &str, expires_in: Option<u64>, id_token: Option<&str>) -> TokenGrant {
    TokenGrant {
        access_token: access.to_string(),
        expires_in,
        extra_fields: OidcTokenFields { id_token: id_token.map(|s| s.to_string()) },
    }
}

#[test]
fn session_is_established_with_both_tokens() {
    let reply = callback_session(&config(), Some(&grant("acc", Some(300), Some("idt"))));
    assert_eq!(reply.status, 303);
    assert_eq!(reply.location, Some("/dashboard".to_string()));
    assert!(reply.body.is_none());
    assert_eq!(
        reply.set_cookies,
        vec![
            "access_token=acc; HttpOnly; Path=/; Max-Age=300; SameSite=Lax".to_string(),
            "id_token=idt; HttpOnly; Path=/; Max-Age=300; SameSite=Lax".to_string(),
            "oauth_state=; HttpOnly; Path=/auth; Max-Age=0; SameSite=Lax".to_string(),
        ]
    );
}

#[test]
fn session_without_identity_token_lives_an_hour_by_default() {
    let mut prod = config();
    prod.environment = Environment::Production;
    prod.cookie_domain = Some("example.com".to_string());
    let reply = callback_session(&prod, Some(&grant("acc", None, None)));
    assert_eq!(reply.status, 303);
    assert_eq!(
        reply.set_cookies,
        vec![
            "access_token=acc; HttpOnly; Path=/; Max-Age=3600; SameSite=Lax; Domain=example.com; Secure".to_string(),
            "oauth_state=; HttpOnly; Path=/auth; Max-Age=0; SameSite=Lax; Domain=example.com; Secure".to_string(),
        ]
    );
}

#[test]
fn failed_exchange_is_unauthorized() {
    let reply = callback_session(&config(), None);
    assert_eq!(message(&reply), (401, "Token exchange failed".to_string()));
    assert!(reply.set_cookies.is_empty() && reply.location.is_none());
}

#[test]
fn token_that_fits_no_header_is_an_internal_error() {
    for bad in [grant("a\nb", Some(1), None), grant("acc", Some(1), Some("id\u{0}"))] {
        let reply = callback_session(&config(), Some(&bad));
        assert_eq!(message(&reply), (500, "Internal error setting response headers".to_string()));
        assert!(reply.set_cookies.is_empty());
    }
    let mut odd = config();
    odd.cookie_domain = Some("bad\rdomain".to_string());
    let reply = callback_session(&odd, Some(&grant("acc", Some(1), None)));
    assert_eq!(message(&reply), (500, "Internal error setting response headers".to_string()));
}

#[test]
fn header_values_refuse_control_characters() {
    let reply_for = |state: &str| login_redirect(&config(), state, Some("http://k/auth".to_string()), true);
    for state in ["abc", "tab\tis fine", "caf\u{e9}", "", "a b;c=d"] {
        let reply = reply_for(state);
        assert_eq!(reply.status, 303, "{:?}", state);
        assert_eq!(
            reply.set_cookies,
            vec![format!("oauth_state={}; HttpOnly; Path=/auth; Max-Age=600; SameSite=Lax", state)]
        );
    }
    for state in ["line\nbreak", "nul\u{0}", "del\u{7f}", "\r", "\u{1f}"] {
        assert_eq!(
            message(&reply_for(state)),
            (500, "Internal error setting response headers".to_string()),
            "{:?}",
            state
        );
    }
}

#[test]
fn oauth_endpoints_of_the_configuration() {
    assert_eq!(authorize_endpoint_of(&config()), "http://keycloak.localhost/realms/dev/protocol/openid-connect/auth");
    assert_eq!(token_endpoint_of(&config()), "http://keycloak:8080/realms/dev/protocol/openid-connect/token");
    assert!(oauth_endpoints_ok(&config()));
    let mut broken = config();
    broken.redirect_uri = "/auth/callback".to_string();
    assert!(!oauth_endpoints_ok(&broken));
    let mut broken = config();
    broken.keycloak_callback_url = String::new();
    assert!(!oauth_endpoints_ok(&broken));
}

#[test]
fn login_redirects_to_the_provider_and_keeps_the_state() {
    let reply = login_with_state(&config(), "st4te");
    assert_eq!(reply.status, 303);
    assert_eq!(
        reply.location,
        Some(
            "http://keycloak.localhost/realms/dev/protocol/openid-connect/auth?response_type=code&client_id=portal&state=st4te&redirect_uri=http%3A%2F%2Fportal.localhost%2Fauth%2Fcallback&scope=openid+profile+email"
                .to_string()
        )
    );
    assert_eq!(
        reply.set_cookies,
        vec!["oauth_state=st4te; HttpOnly; Path=/auth; Max-Age=600; SameSite=Lax".to_string()]
    );
}

#[test]
fn login_draws_a_fresh_state_each_time() {
    let first = login_handler(&config());
    let second = login_handler(&config());
    let state_of = |reply: &HttpReply| -> String {
        let cookie = &reply.set_cookies[0];
        let value = cookie.strip_prefix("oauth_state=").unwrap();
        value[..value.find(';').unwrap()].to_string()
    };
    let (a, b) = (state_of(&first), state_of(&second));
    assert_eq!(a.len(), 22);
    assert!(a.chars().all(|c| c.is_ascii_alphanumeric() || c == '-' || c == '_'));
    assert_ne!(a, b);
    assert!(first.location.unwrap().contains(&format!("&state={}&", a)));
    assert_eq!(first.status, 303);
}

#[test]
fn login_with_broken_configuration_is_an_internal_error() {
    let mut broken = config();
    broken.keycloak_callback_url = "no url".to_string();
    assert_eq!(message(&login_with_state(&broken, "s")), (500, "OAuth configuration error".to_string()));
    assert_eq!(message(&login_handler(&broken)), (500, "OAuth configuration error".to_string()));
    // The token endpoint counts too, though the browser never sees it.
    let mut broken = config();
    broken.keycloak_url = "no url".to_string();
    assert_eq!(message(&login_with_state(&broken, "s")), (500, "OAuth configuration error".to_string()));
    assert_eq!(
        message(&login_redirect(&config(), "s", None, true)),
        (500, "OAuth configuration error".to_string())
    );
    assert_eq!(
        message(&login_redirect(&config(), "s", Some("http://k/auth".to_string()), false)),
        (500, "OAuth configuration error".to_string())
    );
    assert_eq!(
        message(&login_redirect(&config(), "s\n", Some("http://k/auth".to_string()), true)),
        (500, "Internal error setting response headers".to_string())
    );
}

fn service(id: &str, auth_type: AuthType) -> Service {
    Service {
        id: id.to_string(),
        name: id.to_uppercase(),
        url: format!("http://{}.localhost", id),
        protected: auth_type != AuthType::NoAuth,
        auth_type,
        group: None,
        icon: None,
        description: None,
        required_realm_roles: if auth_type == AuthType::NoAuth { None } else { Some(vec!["dev".to_string()]) },
    }
}

fn descriptor(services: Vec<Service>) -> Descriptor {
    Descriptor {
        version: "1".to_string(),
        deployment_id: "local".to_string(),
        environment: "dev".to_string(),
        base_domain: "localhost".to_string(),
        deployment: None,
        portal: PortalConfig { public_url: "http://localhost".to_string() },
        keycloak: KeycloakConfig {
            public_url: "http://keycloak.localhost".to_string(),
            issuer_url: "http://keycloak.localhost/realms/dev".to_string(),
            realm: "dev".to_string(),
        },
        services,
    }
}

fn abc() -> Descriptor {
    descriptor(vec![
        service("a", AuthType::Oauth2Proxy),
        service("docs", AuthType::NoAuth),
        service("b", AuthType::Oauth2Proxy),
        service("panel", AuthType::Portal),
        service("c", AuthType::Oauth2Proxy),
    ])
}

const CLEAR_ACCESS: &str = "access_token=; HttpOnly; Path=/; Max-Age=0; SameSite=Lax";
const CLEAR_STATE: &str = "oauth_state=; HttpOnly; Path=/auth; Max-Age=0; SameSite=Lax";
const CLEAR_ID: &str = "id_token=; HttpOnly; Path=/; Max-Age=0; SameSite=Lax";
const END_SESSION: &str = "http://keycloak.localhost/realms/dev/protocol/openid-connect/logout?client_id=portal&post_logout_redirect_uri=http%3A%2F%2Fportal.localhost%2Fauth%2Flogout%2Fcomplete";

/// Answers one logout request as a caller does: services whose id is in
/// `down` do not respond, all others answer 401 to the probe.
fn hop(config: &Config, service_id: Option<&str>, cookies: &[&str], down: &[&str]) -> (HttpReply, Vec<String>) {
    let query = LogoutQuery { service_id: service_id.map(|s| s.to_string()) };
    let headers: Vec<String> = cookies.iter().map(|c| c.to_string()).collect();
    let start = logout_handler(config, &abc(), &query, &headers);
    let mut probed = Vec::new();
    let mut step = logout_first_step(&start);
    let found = loop {
        match step {
            FindStep::Probe { index, service } => {
                probed.push(service.id.clone());
                let proxy = config.traefik_internal_url.as_deref();
                assert!(plan_probe(&service.url, proxy).is_ok());
                let response = if down.contains(&service.id.as_str()) {
                    ProbeResponse::Failed
                } else {
                    ProbeResponse::Status(401)
                };
                let result = probe_service_reachable(&service.url, proxy, response);
                step = find_next_reachable_service(&start.services, index, Some(result));
            }
            FindStep::Done(found) => break found,
        }
    };
    (logout_redirect(config, &found, start.id_token.as_deref(), 1_700_000_000), probed)
}

#[test]
fn logout_walks_the_services_one_redirect_at_a_time() {
    let down = ["a"];
    // Start: a is down, b answers.
    let (reply, probed) = hop(&config(), None, &[], &down);
    assert_eq!(probed, vec!["a", "b"]);
    assert_eq!(reply.status, 303);
    assert_eq!(
        reply.location,
        Some("http://b.localhost/oauth2/sign_out?rd=http%3A%2F%2Fportal.localhost%2Fauth%2Flogout%3FserviceId%3Db".to_string())
    );
    assert_eq!(reply.set_cookies, vec![CLEAR_ACCESS.to_string(), CLEAR_STATE.to_string()]);

    // Back from b: only c is probed.
    let (reply, probed) = hop(&config(), Some("b"), &[], &down);
    assert_eq!(probed, vec!["c"]);
    assert_eq!(
        reply.location,
        Some("http://c.localhost/oauth2/sign_out?rd=http%3A%2F%2Fportal.localhost%2Fauth%2Flogout%3FserviceId%3Dc".to_string())
    );
    assert_eq!(reply.set_cookies, vec![CLEAR_ACCESS.to_string(), CLEAR_STATE.to_string()]);

    // Back from c: nothing is left, the provider's session ends.
    let (reply, probed) = hop(&config(), Some("c"), &[], &down);
    assert!(probed.is_empty());
    assert_eq!(reply.location, Some(END_SESSION.to_string()));
    assert_eq!(
        reply.set_cookies,
        vec![CLEAR_ACCESS.to_string(), CLEAR_STATE.to_string(), CLEAR_ID.to_string()]
    );
}

#[test]
fn logout_restarts_on_an_unknown_service_id() {
    let (reply, probed) = hop(&config(), Some("unknown-id"), &[], &[]);
    assert_eq!(probed, vec!["a"]);
    assert_eq!(
        reply.location,
        Some("http://a.localhost/oauth2/sign_out?rd=http%3A%2F%2Fportal.localhost%2Fauth%2Flogout%3FserviceId%3Da".to_string())
    );
    // Services outside the cascade are unknown to it.
    let (_, probed) = hop(&config(), Some("docs"), &[], &[]);
    assert_eq!(probed, vec!["a"]);
}

#[test]
fn logout_ends_at_the_provider_when_nothing_answers() {
    let (reply, probed) = hop(&config(), None, &[], &["a", "b", "c"]);
    assert_eq!(probed, vec!["a", "b", "c"]);
    assert_eq!(reply.location, Some(END_SESSION.to_string()));
    assert_eq!(reply.set_cookies.len(), 3);
}

#[test]
fn logout_probes_nothing_in_production_without_a_proxy() {
    let mut prod = config();
    prod.environment = Environment::Production;
    let start = logout_handler(&prod, &abc(), &LogoutQuery { service_id: None }, &Vec::new());
    assert!(start.skip_probes);
    assert_eq!(start.services.len(), 3);
    assert!(matches!(logout_first_step(&start), FindStep::Done(FindReachableResult { service: None })));
    let (reply, probed) = hop(&prod, None, &[], &[]);
    assert!(probed.is_empty());
    assert_eq!(reply.location, Some(END_SESSION.to_string()));
    assert_eq!(
        reply.set_cookies,
        vec![
            format!("{}; Secure", CLEAR_ACCESS),
            format!("{}; Secure", CLEAR_STATE),
            format!("{}; Secure", CLEAR_ID),
        ]
    );

    // With a proxy to probe through, production probes as well.
    prod.traefik_internal_url = Some("http://traefik:80".to_string());
    let start = logout_handler(&prod, &abc(), &LogoutQuery { service_id: None }, &Vec::new());
    assert!(!start.skip_probes);
    let (_, probed) = hop(&prod, None, &[], &[]);
    assert_eq!(probed, vec!["a"]);

    // Without services there is nothing to skip.
    prod.traefik_internal_url = None;
    let start = logout_handler(&prod, &descriptor(Vec::new()), &LogoutQuery { service_id: None }, &Vec::new());
    assert!(!start.skip_probes);
    assert!(matches!(logout_first_step(&start), FindStep::Done(FindReachableResult { service: None })));
}

#[test]
fn logout_hints_at_the_session_with_a_fresh_identity_token() {
    let fresh = "eyJhbGciOiJub25lIiwidHlwIjoiSldUIn0.eyJleHAiOjQxMDI0NDQ4MDB9.";
    let cookie = format!("id_token={}", fresh);
    let (reply, _) = hop(&config(), Some("c"), &[&cookie], &[]);
    assert_eq!(
        reply.location,
        Some(format!(
            "http://keycloak.localhost/realms/dev/protocol/openid-connect/logout?id_token_hint={}&post_logout_redirect_uri=http%3A%2F%2Fportal.localhost%2Fauth%2Flogout%2Fcomplete",
            fresh
        ))
    );
    let stale = "id_token=eyJhbGciOiJub25lIiwidHlwIjoiSldUIn0.eyJleHAiOjE1Nzc4MzY4MDB9.";
    let (reply, _) = hop(&config(), Some("c"), &[stale], &[]);
    assert_eq!(reply.location, Some(END_SESSION.to_string()));
}

#[test]
fn logout_leaves_out_cookies_that_fit_no_header() {
    let mut odd = config();
    odd.cookie_domain = Some("bad\ndomain".to_string());
    let service = Oauth2ProxyService { id: "a".to_string(), url: "http://a.localhost".to_string() };
    let reply = logout_redirect(&odd, &FindReachableResult { service: Some(&service) }, None, 0);
    assert_eq!(reply.status, 303);
    assert!(reply.set_cookies.is_empty());
    assert!(reply.location.unwrap().starts_with("http://a.localhost/oauth2/sign_out?rd="));
    let reply = logout_redirect(&odd, &FindReachableResult { service: None }, None, 0);
    assert_eq!(reply.status, 303);
    assert!(reply.set_cookies.is_empty());
}

#[test]
fn logout_completes_at_the_landing_page() {
    let reply = logout_complete_handler();
    assert_eq!(reply.status, 303);
    assert!(reply.is_redirect());
    assert_eq!(reply.location, Some("/".to_string()));
    assert!(reply.set_cookies.is_empty());
    assert!(reply.body.is_none());
    assert!(!HttpReply::error(400, "x").is_redirect());
}
