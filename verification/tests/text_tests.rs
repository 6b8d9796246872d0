use portal::assets::logos::{is_logo_file, select_random_logo};
use portal::config::{
    eq_ignore_case, non_empty_value, parse_environment, parse_number_or, url_origin, Config,
    ConfigError, DescriptorSource, EnvValues, Environment,
};
use portal::encoding::{base64_decode_simple, base64_url_decode, base64_value_of};
use portal::text::{
    char_of_digit, clone_list, clone_opt, clone_opt_list, digit_of, from_chars,
    parse_bounded, push_all, push_decimal, push_decimal_padded, push_str_chars, slice_chars,
    split_chars, starts_with, str_eq, to_chars, trim_chars,
};

fn chars(s: &str) -> Vec<char> {
    s.chars().collect()
}

fn text(v: &Vec<char>) -> String {
    v.iter().collect()
}

#[test]
fn strings_and_characters_convert_both_ways() {
    for s in ["", "a", "héllo wörld", "日本語", "a\u{0}b"] {
        assert_eq!(to_chars(s), chars(s));
        assert_eq!(from_chars(&chars(s)), s);
    }
    let mut out = chars("ab");
    push_str_chars(&mut out, "cé");
    push_all(&mut out, &chars("!"));
    assert_eq!(text(&out), "abcé!");
    assert_eq!(slice_chars(&chars("hello"), 1, 3), chars("el"));
    assert_eq!(slice_chars(&chars("hello"), 2, 2), chars(""));
    assert_eq!(slice_chars(&chars("hello"), 0, 5), chars("hello"));
}

#[test]
fn equality_and_prefixes() {
    assert!(str_eq("abc", "abc"));
    assert!(!str_eq("abc", "abd"));
    assert!(!str_eq("abc", "ab"));
    assert!(str_eq("", ""));
    assert!(starts_with(&chars("id_token=x"), &chars("id_token=")));
    assert!(starts_with(&chars("abc"), &chars("")));
    assert!(starts_with(&chars("abc"), &chars("abc")));
    assert!(!starts_with(&chars("ab"), &chars("abc")));
    assert!(!starts_with(&chars("xbc"), &chars("ab")));
}

#[test]
fn splitting_keeps_empty_pieces() {
    let split = |s: &str, sep: char| -> Vec<String> {
        split_chars(&chars(s), sep).iter().map(text).collect()
    };
    assert_eq!(split("a.b.c", '.'), vec!["a", "b", "c"]);
    assert_eq!(split("", '.'), vec![""]);
    assert_eq!(split(".", '.'), vec!["", ""]);
    assert_eq!(split("a..b.", '.'), vec!["a", "", "b", ""]);
    assert_eq!(split("abc", '.'), vec!["abc"]);
    assert_eq!(split(".a", '.'), vec!["", "a"]);
}

#[test]
fn trimming_takes_blanks_off_both_ends() {
    let trim = |s: &str| text(&trim_chars(&chars(s)));
    assert_eq!(trim("  a b \t"), "a b");
    assert_eq!(trim("\t\t"), "");
    assert_eq!(trim(""), "");
    assert_eq!(trim("x"), "x");
    assert_eq!(trim(" x"), "x");
    assert_eq!(trim("x "), "x");
    assert_eq!(trim("\nx\n"), "\nx\n");
}

#[test]
fn numbers_in_decimal() {
    let decimal = |n: u64| {
        let mut out = Vec::new();
        push_decimal(&mut out, n);
        text(&out)
    };
    assert_eq!(decimal(0), "0");
    assert_eq!(decimal(7), "7");
    assert_eq!(decimal(10), "10");
    assert_eq!(decimal(3600), "3600");
    assert_eq!(decimal(u64::MAX), "18446744073709551615");
    let padded = |n: u64, width: usize| {
        let mut out = chars(">");
        push_decimal_padded(&mut out, n, width);
        text(&out)
    };
    assert_eq!(padded(5, 2), ">05");
    assert_eq!(padded(0, 4), ">0000");
    assert_eq!(padded(12345, 4), ">12345");
    assert_eq!(padded(42, 0), ">42");
    assert_eq!(padded(42, 2), ">42");
    for d in 0..10u8 {
        assert_eq!(digit_of(char_of_digit(d)), Some(d));
    }
    assert_eq!(char_of_digit(9), '9');
    assert_eq!(digit_of('/'), None);
    assert_eq!(digit_of(':'), None);
    assert_eq!(digit_of('٣'), None);
}

#[test]
fn numbers_are_parsed_as_the_integer_types_parse_them() {
    let parse = |s: &str, max: u64| parse_bounded(&chars(s), max);
    for s in ["0", "7", "007", "+7", "65535", "65536", "", "+", "-1", " 1", "1 ", "1a", "++1", "1+", "٣"] {
        assert_eq!(parse(s, u16::MAX as u64), s.parse::<u16>().ok().map(|n| n as u64), "{:?}", s);
    }
    for s in ["18446744073709551615", "18446744073709551616", "99999999999999999999", "000000000000000000000001"] {
        assert_eq!(parse(s, u64::MAX), s.parse::<u64>().ok(), "{:?}", s);
    }
    assert_eq!(parse("4294967295", u32::MAX as u64), Some(4294967295));
    assert_eq!(parse("4294967296", u32::MAX as u64), None);
    assert_eq!(parse("0", 0), Some(0));
    assert_eq!(parse("1", 0), None);
}

#[test]
fn copies_of_optional_and_listed_strings() {
    assert_eq!(clone_opt(&Some("a".to_string())), Some("a".to_string()));
    assert_eq!(clone_opt(&None), None);
    let list = vec!["a".to_string(), String::new(), "c".to_string()];
    assert_eq!(clone_list(&list), list);
    assert_eq!(clone_opt_list(&Some(list.clone())), Some(list));
    assert_eq!(clone_opt_list(&None), None);
}

#[test]
fn base64_decodes_leniently() {
    assert_eq!(base64_decode_simple("aGVsbG8="), Ok(b"hello".to_vec()));
    assert_eq!(base64_decode_simple("aGVsbG8"), Ok(b"hello".to_vec()));
    assert_eq!(base64_decode_simple("aGVsbG8h"), Ok(b"hello!".to_vec()));
    assert_eq!(base64_decode_simple(""), Ok(Vec::new()));
    assert_eq!(base64_decode_simple("="), Ok(Vec::new()));
    assert_eq!(base64_decode_simple("a"), Ok(Vec::new()));
    assert_eq!(base64_decode_simple("/+8="), Ok(vec![0xff, 0xef]));
    assert_eq!(base64_decode_simple("AAAA"), Ok(vec![0, 0, 0]));
    assert_eq!(base64_decode_simple("////"), Ok(vec![255, 255, 255]));
    // Whatever follows the first padding character is not looked at.
    assert_eq!(base64_decode_simple("aGk=!!"), Ok(b"hi".to_vec()));
    assert_eq!(base64_decode_simple("aG!k"), Err(()));
    assert_eq!(base64_decode_simple("a-_b"), Err(()));
    assert_eq!(base64_decode_simple("aGk "), Err(()));
    assert_eq!(base64_decode_simple("é"), Err(()));
}

#[test]
fn base64_url_decodes_either_alphabet() {
    assert_eq!(base64_url_decode("_-8"), Some(vec![0xff, 0xef]));
    assert_eq!(base64_url_decode("/+8"), Some(vec![0xff, 0xef]));
    assert_eq!(base64_url_decode("eyJleHAiOjF9"), Some(b"{\"exp\":1}".to_vec()));
    assert_eq!(base64_url_decode("e30"), Some(b"{}".to_vec()));
    assert_eq!(base64_url_decode("e30="), Some(b"{}".to_vec()));
    assert_eq!(base64_url_decode(""), Some(Vec::new()));
    assert_eq!(base64_url_decode("e3.0"), None);
    assert_eq!(base64_value_of('A'), Some(0));
    assert_eq!(base64_value_of('Z'), Some(25));
    assert_eq!(base64_value_of('a'), Some(26));
    assert_eq!(base64_value_of('z'), Some(51));
    assert_eq!(base64_value_of('0'), Some(52));
    assert_eq!(base64_value_of('9'), Some(61));
    assert_eq!(base64_value_of('+'), Some(62));
    assert_eq!(base64_value_of('/'), Some(63));
    assert_eq!(base64_value_of('-'), None);
    assert_eq!(base64_value_of('='), None);
}

#[test]
fn random_logo_is_one_of_the_list() {
    assert_eq!(select_random_logo(&[]), None);
    assert_eq!(select_random_logo(&["one.png".to_string()]), Some("one.png".to_string()));
    let logos = vec!["a.png".to_string(), "b.svg".to_string(), "c.webp".to_string()];
    for _ in 0..50 {
        assert!(logos.contains(&select_random_logo(&logos).unwrap()));
    }
    for ext in ["png", "jpg", "jpeg", "svg", "webp"] {
        assert!(is_logo_file(ext));
    }
    for ext in ["", "gif", "PNG", "png ", "html"] {
        assert!(!is_logo_file(ext));
    }
}

fn minimal_env() -> EnvValues {
    EnvValues {
        environment: None,
        keycloak_url: Some("http://keycloak:8080".to_string()),
        keycloak_callback_url: Some("http://keycloak.localhost".to_string()),
        keycloak_realm: Some("dev".to_string()),
        client_id: Some("portal".to_string()),
        client_secret: Some("not-a-secret".to_string()),
        redirect_uri: Some("http://portal.localhost/auth/callback".to_string()),
        portal_public_url: None,
        server_host: None,
        server_port: None,
        cookie_domain: None,
        http_connect_timeout_secs: None,
        http_request_timeout_secs: None,
        jwks_cache_ttl_secs: None,
        logout_probe_connect_timeout_ms: None,
        logout_probe_request_timeout_ms: None,
        traefik_internal_url: None,
        portal_descriptor_json: Some("{}".to_string()),
        portal_descriptor_path: None,
    }
}

#[test]
fn configuration_defaults() {
    let config = Config::load(&minimal_env()).unwrap();
    assert_eq!(config.environment, Environment::Development);
    assert!(!config.is_production());
    assert_eq!(config.server_host, "0.0.0.0");
    assert_eq!(config.server_port, 3000);
    assert_eq!(config.bind_address(), "0.0.0.0:3000");
    assert_eq!(config.portal_public_url, "http://portal.localhost");
    assert_eq!(config.keycloak_url, "http://keycloak:8080");
    assert_eq!(config.keycloak_callback_url, "http://keycloak.localhost");
    assert_eq!(config.keycloak_realm, "dev");
    assert_eq!(config.client_id, "portal");
    assert_eq!(config.client_secret, "not-a-secret");
    assert_eq!(config.redirect_uri, "http://portal.localhost/auth/callback");
    assert_eq!(config.cookie_domain, None);
    assert_eq!(config.cookie_domain_attr(), "");
    assert_eq!(config.cookie_secure_flag(), "");
    assert_eq!(config.http_connect_timeout_secs, 10);
    assert_eq!(config.http_request_timeout_secs, 30);
    assert_eq!(config.jwks_cache_ttl_secs, 3600);
    assert_eq!(config.logout_probe_connect_timeout_ms, 300);
    assert_eq!(config.logout_probe_request_timeout_ms, 750);
    assert_eq!(config.traefik_internal_url, None);
    assert!(matches!(config.descriptor.source, DescriptorSource::Json(ref j) if j == "{}"));
}

#[test]
fn configuration_from_values() {
    let mut env = minimal_env();
    env.environment = Some("PROD".to_string());
    env.portal_public_url = Some("https://portal.example.com".to_string());
    env.server_host = Some("127.0.0.1".to_string());
    env.server_port = Some("8080".to_string());
    env.cookie_domain = Some("example.com".to_string());
    env.http_connect_timeout_secs = Some("3".to_string());
    env.http_request_timeout_secs = Some("x".to_string());
    env.jwks_cache_ttl_secs = Some("0".to_string());
    env.logout_probe_connect_timeout_ms = Some("-5".to_string());
    env.logout_probe_request_timeout_ms = Some("1000".to_string());
    env.traefik_internal_url = Some(String::new());
    env.portal_descriptor_json = None;
    env.portal_descriptor_path = Some("/etc/portal.json".to_string());
    let config = Config::load(&env).unwrap();
    assert!(config.is_production());
    assert_eq!(config.cookie_secure_flag(), "; Secure");
    assert_eq!(config.cookie_domain_attr(), "; Domain=example.com");
    assert_eq!(config.bind_address(), "127.0.0.1:8080");
    assert_eq!(config.portal_public_url, "https://portal.example.com");
    assert_eq!(config.http_connect_timeout_secs, 3);
    assert_eq!(config.http_request_timeout_secs, 30);
    assert_eq!(config.jwks_cache_ttl_secs, 0);
    assert_eq!(config.logout_probe_connect_timeout_ms, 300);
    assert_eq!(config.logout_probe_request_timeout_ms, 1000);
    assert_eq!(config.traefik_internal_url, None);
    assert!(matches!(config.descriptor.source, DescriptorSource::File(ref p) if p == "/etc/portal.json"));

    // Inline JSON takes precedence over a file.
    env.portal_descriptor_json = Some("{\"a\":1}".to_string());
    env.server_port = Some("65536".to_string());
    env.cookie_domain = Some(String::new());
    env.traefik_internal_url = Some("http://traefik:80".to_string());
    let config = Config::load(&env).unwrap();
    assert!(matches!(config.descriptor.source, DescriptorSource::Json(ref j) if j == "{\"a\":1}"));
    assert_eq!(config.server_port, 3000);
    assert_eq!(config.cookie_domain, None);
    assert_eq!(config.traefik_internal_url, Some("http://traefik:80".to_string()));
}

#[test]
fn configuration_names_what_is_missing() {
    let cases: Vec<(fn(&mut EnvValues), ConfigError)> = vec![
        (|e| e.keycloak_url = None, ConfigError::MissingKeycloakUrl),
        (|e| e.keycloak_callback_url = None, ConfigError::MissingKeycloakCallbackUrl),
        (|e| e.keycloak_realm = None, ConfigError::MissingKeycloakRealm),
        (|e| e.client_id = None, ConfigError::MissingClientId),
        (|e| e.client_secret = None, ConfigError::MissingClientSecret),
        (|e| e.redirect_uri = None, ConfigError::MissingRedirectUri),
        (|e| e.portal_descriptor_json = None, ConfigError::MissingDescriptor),
    ];
    for (unset, expected) in cases {
        let mut env = minimal_env();
        unset(&mut env);
        assert_eq!(Config::load(&env).unwrap_err(), expected);
    }
    // The first missing value is named.
    let mut env = minimal_env();
    env.client_id = None;
    env.keycloak_realm = None;
    env.portal_descriptor_json = None;
    assert_eq!(Config::load(&env).unwrap_err(), ConfigError::MissingKeycloakRealm);
}

#[test]
fn pieces_of_configuration() {
    for name in ["production", "prod", "Production", "PROD", "pRoD"] {
        assert_eq!(parse_environment(&Some(name.to_string())), Environment::Production);
    }
    for name in ["", "development", "prod ", "productio", "staging", "prød"] {
        assert_eq!(parse_environment(&Some(name.to_string())), Environment::Development);
    }
    assert_eq!(parse_environment(&None), Environment::Development);
    assert!(eq_ignore_case("PrOd", "prod"));
    assert!(!eq_ignore_case("prod", "PROD"));
    assert!(eq_ignore_case("", ""));

    assert_eq!(url_origin("http://portal.localhost/auth/callback"), "http://portal.localhost");
    assert_eq!(url_origin("https://p.example.com:8443/a/b?c=d"), "https://p.example.com:8443");
    assert_eq!(url_origin("http://portal.localhost"), "http://portal.localhost");
    assert_eq!(url_origin("http://portal.localhost/"), "http://portal.localhost");
    assert_eq!(url_origin("portal.localhost/auth"), "portal.localhost/auth");
    assert_eq!(url_origin("a://"), "a://");
    assert_eq!(url_origin(":///x"), "://");
    assert_eq!(url_origin("a:/b://c/d"), "a:/b://c");
    assert_eq!(url_origin(""), "");
    assert_eq!(url_origin(":/"), ":/");

    assert_eq!(parse_number_or(&Some("42".to_string()), 7, 100), 42);
    assert_eq!(parse_number_or(&Some("101".to_string()), 7, 100), 7);
    assert_eq!(parse_number_or(&Some("+100".to_string()), 7, 100), 100);
    assert_eq!(parse_number_or(&Some(" 1".to_string()), 7, 100), 7);
    assert_eq!(parse_number_or(&None, 7, 100), 7);
    assert_eq!(non_empty_value(&Some("x".to_string())), Some("x".to_string()));
    assert_eq!(non_empty_value(&Some(String::new())), None);
    assert_eq!(non_empty_value(&None), None);
}
