use portal::auth::cascade::{cascade_start_index, find_next_reachable_service, FindStep};
use portal::auth::cookies::{clear_cookie, cookie_from_header, extract_cookie, set_cookie};
use portal::auth::helpers::{
    build_keycloak_logout_url, build_oauth2_proxy_sign_out_url, build_portal_logout_continue_url,
    build_probe_client, create_http_client, is_expiry_stale, is_jwt_expired, is_url,
    list_oauth2_proxy_services, parse_service_url, ClientSettings, Oauth2ProxyService, TimeUnit,
};
use portal::auth::probe::{
    classify_probe_response, plan_probe, probe_service_reachable, HttpMethod, ProbeResponse,
    ProbeResult,
};
use portal::config::{Config, DescriptorConfig, DescriptorSource, Environment};
use portal::services::descriptor::{AuthType, Descriptor, KeycloakConfig, PortalConfig, Service};

fn now() -> i64 {
    std::time::SystemTime::now()
        .duration_since(std::time::UNIX_EPOCH)
        .map(|d| d.as_secs() as i64)
        .unwrap_or(0)
}

fn config(environment: Environment, cookie_domain: Option<&str>) -> Config {
    Config {
        environment,
        server_host: "0.0.0.0".to_string(),
        server_port: 3000,
        portal_public_url: "http://portal.localhost".to_string(),
        keycloak_url: "http://keycloak:8080".to_string(),
        keycloak_callback_url: "http://keycloak.localhost".to_string(),
        keycloak_realm: "dev".to_string(),
        client_id: "portal".to_string(),
        client_secret: "not-a-secret".to_string(),
        redirect_uri: "http://portal.localhost/auth/callback".to_string(),
        cookie_domain: cookie_domain.map(|d| d.to_string()),
        http_connect_timeout_secs: 10,
        http_request_timeout_secs: 30,
        jwks_cache_ttl_secs: 3600,
        logout_probe_connect_timeout_ms: 300,
        logout_probe_request_timeout_ms: 750,
        traefik_internal_url: None,
        descriptor: DescriptorConfig { source: DescriptorSource::Json("{}".to_string()) },
    }
}

fn service(id: &str, name: &str, url: &str, auth_type: AuthType, roles: Option<Vec<&str>>) -> Service {
    Service {
        id: id.to_string(),
        name: name.to_string(),
        url: url.to_string(),
        protected: auth_type != AuthType::NoAuth,
        auth_type,
        group: None,
        icon: None,
        description: None,
        required_realm_roles: roles.map(|r| r.into_iter().map(|s| s.to_string()).collect()),
    }
}

fn descriptor(services: Vec<Service>) -> Descriptor {
    Descriptor {
        version: "1".to_string(),
        deployment_id: "local".to_string(),
        environment: "dev".to_string(),
        base_domain: "localhost".to_string(),
        deployment: None,
        portal: PortalConfig { public_url: "http://localhost".to_string() },
        keycloak: KeycloakConfig {
            public_url: "http://keycloak.localhost".to_string(),
            issuer_url: "http://keycloak.localhost/realms/dev".to_string(),
            realm: "dev".to_string(),
        },
        services,
    }
}

fn headers(values: &[&str]) -> Vec<String> {
    values.iter().map(|v| v.to_string()).collect()
}

#[test]
fn test_build_portal_logout_continue_url() {
    let url = build_portal_logout_continue_url("http://portal.localhost", "demo");
    assert_eq!(url, "http://portal.localhost/auth/logout?serviceId=demo");
}

#[test]
fn test_build_oauth2_proxy_sign_out_url() {
    let rd_url = "http://portal.localhost/auth/logout?serviceId=demo";
    let url = build_oauth2_proxy_sign_out_url("http://demo.localhost", rd_url);
    assert!(url.starts_with("http://demo.localhost/oauth2/sign_out?rd="));
    assert!(url.contains("portal.localhost"));
    assert!(url.contains("%3A"));
    assert!(url.contains("%2F"));
}

#[test]
fn sign_out_url_is_percent_encoded_exactly() {
    let url = build_oauth2_proxy_sign_out_url("http://demo.localhost", "http://p.io/a b?x=ä~_-.");
    assert_eq!(
        url,
        "http://demo.localhost/oauth2/sign_out?rd=http%3A%2F%2Fp.io%2Fa%20b%3Fx%3D%C3%A4~_-."
    );
}

#[test]
fn test_extract_cookie_finds_value() {
    let headers = headers(&["foo=bar; id_token=abc123; baz=qux"]);
    let result = extract_cookie(&headers, "id_token");
    assert_eq!(result, Some("abc123".to_string()));
}

#[test]
fn test_extract_cookie_missing_cookie() {
    let headers = headers(&["foo=bar; baz=qux"]);
    let result = extract_cookie(&headers, "id_token");
    assert_eq!(result, None);
}

#[test]
fn test_extract_cookie_no_cookie_header() {
    let headers: Vec<String> = Vec::new();
    let result = extract_cookie(&headers, "id_token");
    assert_eq!(result, None);
}

#[test]
fn test_extract_cookie_multiple_headers() {
    let headers = headers(&["foo=bar", "id_token=secret123; baz=qux"]);
    let result = extract_cookie(&headers, "id_token");
    assert_eq!(result, Some("secret123".to_string()));
}

#[test]
fn test_extract_cookie_multiple_headers_first_match() {
    let headers = headers(&["id_token=first_value", "id_token=second_value"]);
    let result = extract_cookie(&headers, "id_token");
    assert_eq!(result, Some("first_value".to_string()));
}

#[test]
fn extract_cookie_trims_blanks_and_keeps_inner_text() {
    let headers = headers(&["a=1;\t  id_token=x y=z \t;b=2"]);
    assert_eq!(extract_cookie(&headers, "id_token"), Some("x y=z".to_string()));
    assert_eq!(extract_cookie(&headers, "a"), Some("1".to_string()));
    assert_eq!(extract_cookie(&headers, "b"), Some("2".to_string()));
    assert_eq!(extract_cookie(&headers, "token"), None);
}

#[test]
fn extract_cookie_skips_a_header_that_is_no_text() {
    let headers = headers(&["id_token=caf\u{e9}", "id_token=plain"]);
    assert_eq!(extract_cookie(&headers, "id_token"), Some("plain".to_string()));
    assert_eq!(cookie_from_header("id_token=a\nb", "id_token"), None);
    assert_eq!(cookie_from_header("id_token=", "id_token"), Some(String::new()));
}

#[test]
fn test_parse_service_url_simple() {
    let result = parse_service_url("http://demo.localhost").unwrap();
    assert_eq!(result.host, "demo.localhost");
}

#[test]
fn test_parse_service_url_with_path() {
    let result = parse_service_url("http://demo.localhost/some/path").unwrap();
    assert_eq!(result.host, "demo.localhost");
}

#[test]
fn test_parse_service_url_https() {
    let result = parse_service_url("https://demo.example.com/path").unwrap();
    assert_eq!(result.host, "demo.example.com");
}

#[test]
fn test_parse_service_url_with_port() {
    let result = parse_service_url("http://demo.localhost:8080/path").unwrap();
    assert_eq!(result.host, "demo.localhost");
}

#[test]
fn test_parse_service_url_with_query() {
    let result = parse_service_url("http://demo.localhost/path?foo=bar").unwrap();
    assert_eq!(result.host, "demo.localhost");
}

#[test]
fn test_parse_service_url_invalid() {
    assert!(parse_service_url("not-a-url").is_none());
}

#[test]
fn test_parse_service_url_missing_scheme() {
    assert!(parse_service_url("demo.localhost").is_none());
}

#[test]
fn url_without_host_is_a_url_but_no_service_url() {
    assert!(is_url("data:text/plain,Stuff"));
    assert!(parse_service_url("data:text/plain,Stuff").is_none());
    assert!(!is_url("not-a-url"));
    assert!(is_url("http://demo.localhost"));
}

#[test]
fn test_probe_result_is_reachable() {
    assert!(ProbeResult::Reachable.is_reachable());
    assert!(!ProbeResult::NoMatchingRoute.is_reachable());
    assert!(!ProbeResult::NetworkError.is_reachable());
    assert!(!ProbeResult::InvalidUrl.is_reachable());
}

#[test]
fn test_is_jwt_expired_malformed() {
    assert!(is_jwt_expired("not-a-jwt", now()));
    assert!(is_jwt_expired("only.two", now()));
    assert!(is_jwt_expired("", now()));
}

#[test]
fn test_is_jwt_expired_with_valid_token() {
    let header = "eyJhbGciOiJub25lIiwidHlwIjoiSldUIn0";
    let payload = "eyJleHAiOjQxMDI0NDQ4MDB9";
    let signature = "";
    let token = format!("{}.{}.{}", header, payload, signature);

    assert!(!is_jwt_expired(&token, now()));
}

#[test]
fn test_is_jwt_expired_with_expired_token() {
    let header = "eyJhbGciOiJub25lIiwidHlwIjoiSldUIn0";
    let payload = "eyJleHAiOjE1Nzc4MzY4MDB9";
    let signature = "";
    let token = format!("{}.{}.{}", header, payload, signature);

    assert!(is_jwt_expired(&token, now()));
}

#[test]
fn jwt_staleness_tolerates_five_seconds() {
    // Payload {"exp":1577836800}
    let token = "eyJhbGciOiJub25lIiwidHlwIjoiSldUIn0.eyJleHAiOjE1Nzc4MzY4MDB9.";
    assert!(!is_jwt_expired(token, 1577836800));
    assert!(!is_jwt_expired(token, 1577836805));
    assert!(is_jwt_expired(token, 1577836806));
    assert!(is_jwt_expired(token, i64::MAX));
    assert!(!is_jwt_expired(token, i64::MIN));
    // Four parts, a payload that is no base64, a payload without exp.
    assert!(is_jwt_expired("a.eyJleHAiOjE1Nzc4MzY4MDB9.c.d", 0));
    assert!(is_jwt_expired("a.!!!.c", 0));
    assert!(is_jwt_expired("a.e30.c", 0));
}

#[test]
fn expiry_staleness_by_value() {
    assert!(is_expiry_stale(None, 0));
    assert!(is_expiry_stale(Some(94), 100));
    assert!(!is_expiry_stale(Some(95), 100));
    assert!(!is_expiry_stale(Some(i64::MAX), i64::MIN));
    assert!(is_expiry_stale(Some(i64::MIN), i64::MAX));
}

#[test]
fn keycloak_logout_url_prefers_a_fresh_id_token() {
    let fresh = "eyJhbGciOiJub25lIiwidHlwIjoiSldUIn0.eyJleHAiOjQxMDI0NDQ4MDB9.";
    let url = build_keycloak_logout_url(
        "http://keycloak.localhost",
        "dev",
        "http://portal.localhost",
        "portal",
        Some(fresh),
        1_700_000_000,
    );
    assert_eq!(
        url,
        "http://keycloak.localhost/realms/dev/protocol/openid-connect/logout?id_token_hint=eyJhbGciOiJub25lIiwidHlwIjoiSldUIn0.eyJleHAiOjQxMDI0NDQ4MDB9.&post_logout_redirect_uri=http%3A%2F%2Fportal.localhost%2Fauth%2Flogout%2Fcomplete"
    );
}

#[test]
fn keycloak_logout_url_falls_back_to_client_id() {
    let expected = "http://keycloak.localhost/realms/dev/protocol/openid-connect/logout?client_id=my%20portal&post_logout_redirect_uri=http%3A%2F%2Fportal.localhost%2Fauth%2Flogout%2Fcomplete";
    let stale = "eyJhbGciOiJub25lIiwidHlwIjoiSldUIn0.eyJleHAiOjE1Nzc4MzY4MDB9.";
    for id_token in [None, Some(stale), Some(""), Some("   "), Some("not-a-jwt")] {
        let url = build_keycloak_logout_url(
            "http://keycloak.localhost",
            "dev",
            "http://portal.localhost",
            "my portal",
            id_token,
            1_700_000_000,
        );
        assert_eq!(url, expected);
    }
}

#[test]
fn test_list_oauth2_proxy_services_filters_correctly() {
    let services = vec![
        service("demo", "Demo", "http://demo.localhost", AuthType::Oauth2Proxy, Some(vec!["dev"])),
        service("docs", "Docs", "http://docs.localhost", AuthType::NoAuth, None),
        service("admin", "Admin", "http://admin.localhost", AuthType::Oauth2Proxy, Some(vec!["admin"])),
    ];

    let oauth2_proxy_services = list_oauth2_proxy_services(&descriptor(services));

    assert_eq!(oauth2_proxy_services.len(), 2);
    assert_eq!(oauth2_proxy_services[0].id, "demo");
    assert_eq!(oauth2_proxy_services[1].id, "admin");
    assert_eq!(oauth2_proxy_services[0].url, "http://demo.localhost");
    assert_eq!(oauth2_proxy_services[1].url, "http://admin.localhost");
}

#[test]
fn portal_native_services_stay_out_of_the_cascade() {
    let services = vec![
        service("panel", "Panel", "http://panel.localhost", AuthType::Portal, Some(vec!["admin"])),
        service("docs", "Docs", "http://docs.localhost", AuthType::NoAuth, None),
    ];
    assert!(list_oauth2_proxy_services(&descriptor(services)).is_empty());
    assert!(list_oauth2_proxy_services(&descriptor(Vec::new())).is_empty());
}

fn proxies(ids: &[&str]) -> Vec<Oauth2ProxyService> {
    ids.iter()
        .map(|id| Oauth2ProxyService { id: id.to_string(), url: format!("http://{}.localhost", id) })
        .collect()
}

#[test]
fn cascade_starts_behind_the_last_service() {
    let services = proxies(&["a", "b", "c"]);
    assert_eq!(cascade_start_index(&services, None), 0);
    assert_eq!(cascade_start_index(&services, Some("a")), 1);
    assert_eq!(cascade_start_index(&services, Some("b")), 2);
    assert_eq!(cascade_start_index(&services, Some("c")), 3);
    assert_eq!(cascade_start_index(&[], Some("a")), 0);
}

#[test]
fn cascade_restarts_on_an_unknown_id() {
    let services = proxies(&["a", "b", "c"]);
    assert_eq!(cascade_start_index(&services, Some("unknown-id")), 0);
    assert_eq!(cascade_start_index(&services, Some("")), 0);
    assert_eq!(cascade_start_index(&services, Some("A")), 0);
}

#[test]
fn cascade_takes_the_first_of_equal_ids() {
    let services = proxies(&["a", "b", "a"]);
    assert_eq!(cascade_start_index(&services, Some("a")), 1);
}

/// Walks the services as a caller does, answering each probe from `reachable`.
fn walk(services: &[Oauth2ProxyService], start: usize, reachable: &[bool]) -> (Option<String>, Vec<usize>) {
    let mut probed = Vec::new();
    let mut step = find_next_reachable_service(services, start, None);
    loop {
        match step {
            FindStep::Probe { index, service } => {
                assert_eq!(service.id, services[index].id);
                probed.push(index);
                let result = if reachable[index] {
                    ProbeResult::Reachable
                } else {
                    ProbeResult::NetworkError
                };
                step = find_next_reachable_service(services, index, Some(result));
            }
            FindStep::Done(found) => return (found.service.map(|s| s.id.clone()), probed),
        }
    }
}

#[test]
fn walk_skips_unreachable_services() {
    let services = proxies(&["a", "b", "c"]);
    let reachable = [false, true, true];
    assert_eq!(walk(&services, 0, &reachable), (Some("b".to_string()), vec![0, 1]));
    assert_eq!(walk(&services, 2, &reachable), (Some("c".to_string()), vec![2]));
    assert_eq!(walk(&services, 3, &reachable), (None, vec![]));
    assert_eq!(walk(&services, 0, &[false, false, false]), (None, vec![0, 1, 2]));
    assert_eq!(walk(&[], 0, &[]), (None, vec![]));
    assert_eq!(walk(&services, usize::MAX, &reachable), (None, vec![]));
}

#[test]
fn every_unreachable_result_is_skipped() {
    let services = proxies(&["a", "b"]);
    for result in [ProbeResult::NoMatchingRoute, ProbeResult::NetworkError, ProbeResult::InvalidUrl] {
        match find_next_reachable_service(&services, 0, Some(result)) {
            FindStep::Probe { index, .. } => assert_eq!(index, 1),
            FindStep::Done(_) => panic!("the walk ended early"),
        }
        match find_next_reachable_service(&services, 1, Some(result)) {
            FindStep::Done(found) => assert!(found.service.is_none()),
            FindStep::Probe { .. } => panic!("the walk went past the end"),
        }
    }
    match find_next_reachable_service(&services, 5, Some(ProbeResult::Reachable)) {
        FindStep::Done(found) => assert!(found.service.is_none()),
        FindStep::Probe { .. } => panic!("the walk went past the end"),
    }
}

#[test]
fn probe_goes_through_the_proxy_with_the_host_header() {
    let plan = plan_probe("http://demo.localhost:8080/path", Some("http://traefik:80")).unwrap();
    assert_eq!(plan.method, HttpMethod::Head);
    assert_eq!(plan.url, "http://traefik:80");
    assert_eq!(plan.host_header, Some("demo.localhost".to_string()));

    let direct = plan_probe("http://demo.localhost:8080/path", None).unwrap();
    assert_eq!(direct.url, "http://demo.localhost:8080/path");
    assert_eq!(direct.host_header, None);

    assert_eq!(plan_probe("not-a-url", None).unwrap_err(), ProbeResult::InvalidUrl);
    assert_eq!(plan_probe("not-a-url", Some("http://traefik:80")).unwrap_err(), ProbeResult::InvalidUrl);
}

#[test]
fn outbound_clients_follow_no_redirects() {
    let exchange = create_http_client(10, 30);
    assert_eq!(
        exchange,
        ClientSettings { follow_redirects: false, unit: TimeUnit::Seconds, connect_timeout: 10, request_timeout: 30 }
    );
    let probe = build_probe_client(300, 750);
    assert_eq!(
        probe,
        ClientSettings {
            follow_redirects: false,
            unit: TimeUnit::Milliseconds,
            connect_timeout: 300,
            request_timeout: 750,
        }
    );
    assert!(!build_probe_client(u64::MAX, 0).follow_redirects);
}

#[test]
fn probe_reads_responses() {
    for status in [200u16, 204, 301, 401, 403, 405, 500, 503] {
        assert_eq!(classify_probe_response(true, ProbeResponse::Status(status)), ProbeResult::Reachable);
        assert_eq!(classify_probe_response(false, ProbeResponse::Status(status)), ProbeResult::Reachable);
    }
    assert_eq!(classify_probe_response(true, ProbeResponse::Status(404)), ProbeResult::NoMatchingRoute);
    assert_eq!(classify_probe_response(false, ProbeResponse::Status(404)), ProbeResult::Reachable);
    assert_eq!(classify_probe_response(true, ProbeResponse::Failed), ProbeResult::NetworkError);
    assert_eq!(classify_probe_response(false, ProbeResponse::Failed), ProbeResult::NetworkError);
}

#[test]
fn probe_of_a_service_by_response() {
    let proxy = Some("http://traefik:80");
    assert_eq!(
        probe_service_reachable("http://demo.localhost", proxy, ProbeResponse::Status(404)),
        ProbeResult::NoMatchingRoute
    );
    assert_eq!(
        probe_service_reachable("http://demo.localhost", proxy, ProbeResponse::Status(500)),
        ProbeResult::Reachable
    );
    assert_eq!(
        probe_service_reachable("http://demo.localhost", None, ProbeResponse::Status(404)),
        ProbeResult::Reachable
    );
    assert_eq!(
        probe_service_reachable("http://demo.localhost", None, ProbeResponse::Failed),
        ProbeResult::NetworkError
    );
    assert_eq!(
        probe_service_reachable("demo.localhost", proxy, ProbeResponse::Status(200)),
        ProbeResult::InvalidUrl
    );
}

#[test]
fn cookies_carry_the_configured_attributes() {
    let dev = config(Environment::Development, None);
    assert_eq!(
        set_cookie(&dev, "access_token", "abc", "/", 3600),
        "access_token=abc; HttpOnly; Path=/; Max-Age=3600; SameSite=Lax"
    );
    let prod = config(Environment::Production, Some("example.com"));
    assert_eq!(
        set_cookie(&prod, "oauth_state", "xyz", "/auth", 600),
        "oauth_state=xyz; HttpOnly; Path=/auth; Max-Age=600; SameSite=Lax; Domain=example.com; Secure"
    );
    assert_eq!(
        clear_cookie(&prod, "id_token", "/"),
        "id_token=; HttpOnly; Path=/; Max-Age=0; SameSite=Lax; Domain=example.com; Secure"
    );
    assert_eq!(
        set_cookie(&dev, "n", "", "/", u64::MAX),
        "n=; HttpOnly; Path=/; Max-Age=18446744073709551615; SameSite=Lax"
    );
}

