//! Process configuration, built once at startup and passed by reference.

use crate::text::{
    decimal, find_char, from_chars, lemma_find_char_is, opt_view, parse_bounded, parse_decimal,
    push_decimal, push_str_chars, slice_chars, to_chars,
};
use vstd::prelude::*;
use vstd::string::*;

verus! {

/// The mode the gateway runs in.
#[derive(Debug, Clone, Copy, PartialEq, Eq, Structural)]
pub enum Environment {
    /// Local development: cookies need no TLS and services may be probed directly.
    Development,
    /// Production.
    Production,
}

/// Where the descriptor is read from.
#[derive(Debug, Clone)]
pub enum DescriptorSource {
    /// The descriptor as inline JSON.
    Json(String),
    /// Path of a file that holds the descriptor.
    File(String),
}

/// Descriptor settings.
#[derive(Debug, Clone)]
pub struct DescriptorConfig {
    /// Where the descriptor is read from.
    pub source: DescriptorSource,
}

/// Everything the gateway is configured with.
#[derive(Debug, Clone)]
pub struct Config {
    /// Development or production.
    pub environment: Environment,
    /// Host the server binds to.
    pub server_host: String,
    /// Port the server binds to.
    pub server_port: u16,
    /// Browser-visible URL of the gateway.
    pub portal_public_url: String,
    /// Identity provider, as reached from the gateway.
    pub keycloak_url: String,
    /// Identity provider, as reached from the browser.
    pub keycloak_callback_url: String,
    /// Realm name.
    pub keycloak_realm: String,
    /// OAuth2 client identifier.
    pub client_id: String,
    /// OAuth2 client secret.
    pub client_secret: String,
    /// Where the provider sends the browser back to.
    pub redirect_uri: String,
    /// Domain of the session cookies; host-only cookies where absent.
    pub cookie_domain: Option<String>,
    /// Connect timeout of outbound requests, in seconds.
    pub http_connect_timeout_secs: u64,
    /// Total timeout of outbound requests, in seconds.
    pub http_request_timeout_secs: u64,
    /// Lifetime of a fetched key set, in seconds.
    pub jwks_cache_ttl_secs: u64,
    /// Connect timeout of a reachability probe, in milliseconds.
    pub logout_probe_connect_timeout_ms: u64,
    /// Total timeout of a reachability probe, in milliseconds.
    pub logout_probe_request_timeout_ms: u64,
    /// Internal proxy through which services are probed.
    pub traefik_internal_url: Option<String>,
    /// Descriptor settings.
    pub descriptor: DescriptorConfig,
}

/// The values of the environment variables that configure the gateway, each
/// absent where the variable is not set.
#[derive(Debug, Clone)]
pub struct EnvValues {
    /// `ENVIRONMENT`
    pub environment: Option<String>,
    /// `KEYCLOAK_URL`
    pub keycloak_url: Option<String>,
    /// `KEYCLOAK_CALLBACK_URL`
    pub keycloak_callback_url: Option<String>,
    /// `KEYCLOAK_REALM`
    pub keycloak_realm: Option<String>,
    /// `CLIENT_ID`
    pub client_id: Option<String>,
    /// `CLIENT_SECRET`
    pub client_secret: Option<String>,
    /// `REDIRECT_URI`
    pub redirect_uri: Option<String>,
    /// `PORTAL_PUBLIC_URL`
    pub portal_public_url: Option<String>,
    /// `SERVER_HOST`
    pub server_host: Option<String>,
    /// `SERVER_PORT`
    pub server_port: Option<String>,
    /// `COOKIE_DOMAIN`
    pub cookie_domain: Option<String>,
    /// `HTTP_CONNECT_TIMEOUT_SECS`
    pub http_connect_timeout_secs: Option<String>,
    /// `HTTP_REQUEST_TIMEOUT_SECS`
    pub http_request_timeout_secs: Option<String>,
    /// `JWKS_CACHE_TTL_SECS`
    pub jwks_cache_ttl_secs: Option<String>,
    /// `LOGOUT_PROBE_CONNECT_TIMEOUT_MS`
    pub logout_probe_connect_timeout_ms: Option<String>,
    /// `LOGOUT_PROBE_REQUEST_TIMEOUT_MS`
    pub logout_probe_request_timeout_ms: Option<String>,
    /// `TRAEFIK_INTERNAL_URL`
    pub traefik_internal_url: Option<String>,
    /// `PORTAL_DESCRIPTOR_JSON`
    pub portal_descriptor_json: Option<String>,
    /// `PORTAL_DESCRIPTOR_PATH`
    pub portal_descriptor_path: Option<String>,
}

/// What a configuration lacks.
#[derive(Debug, Clone, Copy, PartialEq, Eq, Structural)]
pub enum ConfigError {
    /// `KEYCLOAK_URL` is not set.
    MissingKeycloakUrl,
    /// `KEYCLOAK_CALLBACK_URL` is not set.
    MissingKeycloakCallbackUrl,
    /// `KEYCLOAK_REALM` is not set.
    MissingKeycloakRealm,
    /// `CLIENT_ID` is not set.
    MissingClientId,
    /// `CLIENT_SECRET` is not set.
    MissingClientSecret,
    /// `REDIRECT_URI` is not set.
    MissingRedirectUri,
    /// Neither `PORTAL_DESCRIPTOR_JSON` nor `PORTAL_DESCRIPTOR_PATH` is set.
    MissingDescriptor,
}

/// Host the server binds to where none is configured.
pub const DEFAULT_SERVER_HOST: &'static str = "0.0.0.0";

/// Port the server binds to where none is configured.
pub const DEFAULT_SERVER_PORT: u16 = 3000;

/// Connect timeout of outbound requests where none is configured.
pub const DEFAULT_CONNECT_TIMEOUT_SECS: u64 = 10;

/// Total timeout of outbound requests where none is configured.
pub const DEFAULT_REQUEST_TIMEOUT_SECS: u64 = 30;

/// Lifetime of a key set where none is configured.
pub const DEFAULT_JWKS_TTL_SECS: u64 = 3600;

/// Connect timeout of a probe where none is configured.
pub const DEFAULT_PROBE_CONNECT_TIMEOUT_MS: u64 = 300;

/// Total timeout of a probe where none is configured.
pub const DEFAULT_PROBE_REQUEST_TIMEOUT_MS: u64 = 750;

/// A letter in lower case; any other character as it is.
pub open spec fn ascii_lower(c: char) -> char {
    if 'A' <= c && c <= 'Z' {
        ((c as u8) + 32) as char
    } else {
        c
    }
}

/// Whether `s` reads `word`, letters compared without regard to case.
pub open spec fn reads_as(s: Seq<char>, word: Seq<char>) -> bool {
    s.map_values(|c: char| ascii_lower(c)) == word
}

/// The mode that `ENVIRONMENT` names: production for `production` and
/// `prod` in any case, development for everything else.
pub open spec fn environment_named(value: Option<Seq<char>>) -> Environment {
    match value {
        Some(s) if reads_as(s, "production"@) || reads_as(s, "prod"@) => Environment::Production,
        _ => Environment::Development,
    }
}

/// Index at which the first `://` of `s` begins, or `s.len()` where `s`
/// holds none.
pub open spec fn scheme_end(s: Seq<char>) -> int
    decreases s.len(),
{
    if s.len() < 3 {
        s.len() as int
    } else if s[0] == ':' && s[1] == '/' && s[2] == '/' {
        0
    } else {
        1 + scheme_end(s.skip(1))
    }
}

/// A URL cut in front of its path: everything up to the first `/` behind
/// the first `://`. A text without `://`, or without a `/` behind it, stays
/// whole.
pub open spec fn origin_of(url: Seq<char>) -> Seq<char> {
    let sep = scheme_end(url);
    if sep + 3 <= url.len() {
        let rest = url.skip(sep + 3);
        let slash = find_char(rest, '/');
        if slash < rest.len() {
            url.take(sep + 3 + slash)
        } else {
            url
        }
    } else {
        url
    }
}

/// A number read from a variable, or `default` where the variable is not
/// set or holds no number within `max`.
pub open spec fn number_or(value: Option<Seq<char>>, default: u64, max: u64) -> u64 {
    match value {
        Some(s) => match parse_decimal(s) {
            Some(n) if n <= max => n as u64,
            _ => default,
        },
        None => default,
    }
}

/// A variable that counts as unset where it is empty.
pub open spec fn non_empty(value: Option<Seq<char>>) -> Option<Seq<char>> {
    match value {
        Some(s) if s.len() > 0 => Some(s),
        _ => None,
    }
}

/// The first thing that a set of values lacks, if it lacks anything.
pub open spec fn first_missing(v: EnvValues) -> Option<ConfigError> {
    if v.keycloak_url is None {
        Some(ConfigError::MissingKeycloakUrl)
    } else if v.keycloak_callback_url is None {
        Some(ConfigError::MissingKeycloakCallbackUrl)
    } else if v.keycloak_realm is None {
        Some(ConfigError::MissingKeycloakRealm)
    } else if v.client_id is None {
        Some(ConfigError::MissingClientId)
    } else if v.client_secret is None {
        Some(ConfigError::MissingClientSecret)
    } else if v.redirect_uri is None {
        Some(ConfigError::MissingRedirectUri)
    } else if v.portal_descriptor_json is None && v.portal_descriptor_path is None {
        Some(ConfigError::MissingDescriptor)
    } else {
        None
    }
}

/// Whether `c` is the configuration that the values `v` describe. Inline
/// JSON takes precedence over a descriptor file; the public URL defaults to
/// the origin of the redirect URI.
pub open spec fn describes(v: EnvValues, c: Config) -> bool {
    &&& c.environment == environment_named(opt_view(v.environment))
    &&& c.server_host@ == match v.server_host {
        Some(h) => h@,
        None => DEFAULT_SERVER_HOST@,
    }
    &&& c.server_port == number_or(
        opt_view(v.server_port),
        DEFAULT_SERVER_PORT as u64,
        u16::MAX as u64,
    )
    &&& c.portal_public_url@ == match v.portal_public_url {
        Some(u) => u@,
        None => origin_of(v.redirect_uri->0@),
    }
    &&& Some(c.keycloak_url@) == opt_view(v.keycloak_url)
    &&& Some(c.keycloak_callback_url@) == opt_view(v.keycloak_callback_url)
    &&& Some(c.keycloak_realm@) == opt_view(v.keycloak_realm)
    &&& Some(c.client_id@) == opt_view(v.client_id)
    &&& Some(c.client_secret@) == opt_view(v.client_secret)
    &&& Some(c.redirect_uri@) == opt_view(v.redirect_uri)
    &&& opt_view(c.cookie_domain) == non_empty(opt_view(v.cookie_domain))
    &&& c.http_connect_timeout_secs == number_or(
        opt_view(v.http_connect_timeout_secs),
        DEFAULT_CONNECT_TIMEOUT_SECS,
        u64::MAX,
    )
    &&& c.http_request_timeout_secs == number_or(
        opt_view(v.http_request_timeout_secs),
        DEFAULT_REQUEST_TIMEOUT_SECS,
        u64::MAX,
    )
    &&& c.jwks_cache_ttl_secs == number_or(
        opt_view(v.jwks_cache_ttl_secs),
        DEFAULT_JWKS_TTL_SECS,
        u64::MAX,
    )
    &&& c.logout_probe_connect_timeout_ms == number_or(
        opt_view(v.logout_probe_connect_timeout_ms),
        DEFAULT_PROBE_CONNECT_TIMEOUT_MS,
        u64::MAX,
    )
    &&& c.logout_probe_request_timeout_ms == number_or(
        opt_view(v.logout_probe_request_timeout_ms),
        DEFAULT_PROBE_REQUEST_TIMEOUT_MS,
        u64::MAX,
    )
    &&& opt_view(c.traefik_internal_url) == non_empty(opt_view(v.traefik_internal_url))
    &&& match c.descriptor.source {
        DescriptorSource::Json(json) => Some(json@) == opt_view(v.portal_descriptor_json),
        DescriptorSource::File(path) => v.portal_descriptor_json is None && Some(path@)
            == opt_view(v.portal_descriptor_path),
    }
}

/// Whether `s` reads `word` without regard to the case of letters.
pub fn eq_ignore_case(s: &str, word: &str) -> (r: bool)
    ensures
        r == reads_as(s@, word@),
{
    let a = to_chars(s);
    let b = to_chars(word);
    if a.len() != b.len() {
        assert(s@.map_values(|c: char| ascii_lower(c)).len() == s@.len());
        return false;
    }
    let mut i: usize = 0;
    while i < a.len()
        invariant
            i <= a.len(),
            a.len() == b.len(),
            a@ == s@,
            b@ == word@,
            forall|j: int| 0 <= j < i ==> ascii_lower(a@[j]) == b@[j],
        decreases a.len() - i,
    {
        let c = a[i];
        let lower = if c >= 'A' && c <= 'Z' {
            ((c as u8) + 32) as char
        } else {
            c
        };
        if lower != b[i] {
            assert(s@.map_values(|c: char| ascii_lower(c))[i as int] != word@[i as int]);
            return false;
        }
        i += 1;
    }
    assert(s@.map_values(|c: char| ascii_lower(c)) =~= word@);
    true
}

/// Reads the mode from the value of `ENVIRONMENT`.
pub fn parse_environment(value: &Option<String>) -> (e: Environment)
    ensures
        e == environment_named(opt_view(*value)),
{
    match value {
        Some(s) => if eq_ignore_case(s.as_str(), "production") || eq_ignore_case(
            s.as_str(),
            "prod",
        ) {
            Environment::Production
        } else {
            Environment::Development
        },
        None => Environment::Development,
    }
}

/// Whether `://` stands at index `i` of `s`.
pub open spec fn scheme_sep_at(s: Seq<char>, i: int) -> bool {
    0 <= i && i + 3 <= s.len() && s[i] == ':' && s[i + 1] == '/' && s[i + 2] == '/'
}

/// `scheme_end` is the first index at which `://` stands, or the length.
pub proof fn lemma_scheme_end_is(s: Seq<char>, k: int)
    requires
        0 <= k <= s.len(),
        forall|j: int| 0 <= j < k ==> !scheme_sep_at(s, j),
        scheme_sep_at(s, k) || k == s.len(),
    ensures
        scheme_end(s) == k,
    decreases s.len(),
{
    if s.len() >= 3 && !scheme_sep_at(s, 0) {
        let rest = s.skip(1);
        assert forall|j: int| 0 <= j < k - 1 implies !scheme_sep_at(rest, j) by {
            assert(!scheme_sep_at(s, j + 1));
            if j + 3 <= rest.len() {
                assert(rest[j] == s[j + 1]);
                assert(rest[j + 1] == s[j + 2]);
                assert(rest[j + 2] == s[j + 3]);
            }
        }
        if scheme_sep_at(s, k) {
            assert(rest[k - 1] == s[k]);
            assert(rest[k] == s[k + 1]);
            assert(rest[k + 1] == s[k + 2]);
        }
        lemma_scheme_end_is(rest, k - 1);
    } else if s.len() < 3 {
        assert(!scheme_sep_at(s, k));
    } else {
        assert(scheme_sep_at(s, 0));
        if k > 0 {
            assert(!scheme_sep_at(s, 0));
        }
    }
}

/// Cuts a URL in front of its path.
pub fn url_origin(url: &str) -> (r: String)
    ensures
        r@ == origin_of(url@),
{
    let chars = to_chars(url);
    if chars.len() < 3 {
        proof {
            lemma_scheme_end_is(chars@, chars@.len() as int);
        }
        return from_chars(&chars);
    }
    let last: usize = chars.len() - 3;
    let mut sep: usize = 0;
    while sep <= last && !(chars[sep] == ':' && chars[sep + 1] == '/' && chars[sep + 2] == '/')
        invariant
            last == chars.len() - 3,
            sep <= last + 1,
            forall|j: int| 0 <= j < sep ==> !scheme_sep_at(chars@, j),
        decreases last + 1 - sep,
    {
        sep += 1;
    }
    if sep > last {
        proof {
            assert forall|j: int| 0 <= j < chars@.len() implies !scheme_sep_at(chars@, j) by {}
            lemma_scheme_end_is(chars@, chars@.len() as int);
        }
        return from_chars(&chars);
    }
    proof {
        lemma_scheme_end_is(chars@, sep as int);
    }
    let start = sep + 3;
    let mut slash: usize = start;
    while slash < chars.len() && chars[slash] != '/'
        invariant
            start <= slash <= chars.len(),
            forall|j: int| start <= j < slash ==> chars@[j] != '/',
        decreases chars.len() - slash,
    {
        slash += 1;
    }
    proof {
        let rest = chars@.skip(start as int);
        lemma_find_char_is(rest, '/', slash - start);
    }
    if slash < chars.len() {
        let origin = slice_chars(&chars, 0, slash);
        assert(origin@ == chars@.take(slash as int));
        from_chars(&origin)
    } else {
        from_chars(&chars)
    }
}

/// Reads a number from a variable, with a default.
pub fn parse_number_or(value: &Option<String>, default: u64, max: u64) -> (n: u64)
    ensures
        n == number_or(opt_view(*value), default, max),
{
    match value {
        Some(s) => {
            let chars = to_chars(s.as_str());
            match parse_bounded(&chars, max) {
                Some(n) => n,
                None => default,
            }
        },
        None => default,
    }
}

/// A copy of a variable, unset where it is empty.
pub fn non_empty_value(value: &Option<String>) -> (r: Option<String>)
    ensures
        opt_view(r) == non_empty(opt_view(*value)),
{
    match value {
        Some(s) => {
            let chars = to_chars(s.as_str());
            if chars.len() > 0 {
                Some(s.clone())
            } else {
                None
            }
        },
        None => None,
    }
}

/// The `Secure` cookie attribute, present in production only.
pub open spec fn secure_flag(environment: Environment) -> Seq<char> {
    if environment == Environment::Production {
        "; Secure"@
    } else {
        ""@
    }
}

/// The `Domain` cookie attribute, present where a domain is configured.
pub open spec fn domain_attr(cookie_domain: Option<Seq<char>>) -> Seq<char> {
    match cookie_domain {
        Some(d) => "; Domain="@ + d,
        None => Seq::<char>::empty(),
    }
}

impl Config {
    /// Builds the configuration from the values of the environment
    /// variables, or names the first required value that is missing.
    pub fn load(values: &EnvValues) -> (r: Result<Config, ConfigError>)
        ensures
            match r {
                Ok(config) => first_missing(*values) is None && describes(*values, config),
                Err(e) => first_missing(*values) == Some(e),
            },
    {
        let keycloak_url = match &values.keycloak_url {
            Some(v) => v.clone(),
            None => {
                return Err(ConfigError::MissingKeycloakUrl);
            },
        };
        let keycloak_callback_url = match &values.keycloak_callback_url {
            Some(v) => v.clone(),
            None => {
                return Err(ConfigError::MissingKeycloakCallbackUrl);
            },
        };
        let keycloak_realm = match &values.keycloak_realm {
            Some(v) => v.clone(),
            None => {
                return Err(ConfigError::MissingKeycloakRealm);
            },
        };
        let client_id = match &values.client_id {
            Some(v) => v.clone(),
            None => {
                return Err(ConfigError::MissingClientId);
            },
        };
        let client_secret = match &values.client_secret {
            Some(v) => v.clone(),
            None => {
                return Err(ConfigError::MissingClientSecret);
            },
        };
        let redirect_uri = match &values.redirect_uri {
            Some(v) => v.clone(),
            None => {
                return Err(ConfigError::MissingRedirectUri);
            },
        };
        let source = match &values.portal_descriptor_json {
            Some(json) => DescriptorSource::Json(json.clone()),
            None => match &values.portal_descriptor_path {
                Some(path) => DescriptorSource::File(path.clone()),
                None => {
                    return Err(ConfigError::MissingDescriptor);
                },
            },
        };
        let portal_public_url = match &values.portal_public_url {
            Some(url) => url.clone(),
            None => url_origin(redirect_uri.as_str()),
        };
        let server_host = match &values.server_host {
            Some(host) => host.clone(),
            None => DEFAULT_SERVER_HOST.to_owned(),
        };
        let server_port = parse_number_or(
            &values.server_port,
            DEFAULT_SERVER_PORT as u64,
            0xffff,
        ) as u16;
        Ok(
            Config {
                environment: parse_environment(&values.environment),
                server_host,
                server_port,
                portal_public_url,
                keycloak_url,
                keycloak_callback_url,
                keycloak_realm,
                client_id,
                client_secret,
                redirect_uri,
                cookie_domain: non_empty_value(&values.cookie_domain),
                http_connect_timeout_secs: parse_number_or(
                    &values.http_connect_timeout_secs,
                    DEFAULT_CONNECT_TIMEOUT_SECS,
                    u64::MAX,
                ),
                http_request_timeout_secs: parse_number_or(
                    &values.http_request_timeout_secs,
                    DEFAULT_REQUEST_TIMEOUT_SECS,
                    u64::MAX,
                ),
                jwks_cache_ttl_secs: parse_number_or(
                    &values.jwks_cache_ttl_secs,
                    DEFAULT_JWKS_TTL_SECS,
                    u64::MAX,
                ),
                logout_probe_connect_timeout_ms: parse_number_or(
                    &values.logout_probe_connect_timeout_ms,
                    DEFAULT_PROBE_CONNECT_TIMEOUT_MS,
                    u64::MAX,
                ),
                logout_probe_request_timeout_ms: parse_number_or(
                    &values.logout_probe_request_timeout_ms,
                    DEFAULT_PROBE_REQUEST_TIMEOUT_MS,
                    u64::MAX,
                ),
                traefik_internal_url: non_empty_value(&values.traefik_internal_url),
                descriptor: DescriptorConfig { source },
            },
        )
    }

    /// Whether the gateway runs in production.
    pub open spec fn spec_is_production(&self) -> bool {
        self.environment == Environment::Production
    }

    /// Whether the gateway runs in production.
    #[verifier::when_used_as_spec(spec_is_production)]
    pub fn is_production(&self) -> (r: bool)
        ensures
            r == (self.environment == Environment::Production),
    {
        matches!(self.environment, Environment::Production)
    }

    /// `"; Secure"` in production, nothing otherwise.
    pub fn cookie_secure_flag(&self) -> (flag: &'static str)
        ensures
            flag@ == secure_flag(self.environment),
    {
        if self.is_production() {
            "; Secure"
        } else {
            ""
        }
    }

    /// `"; Domain=<domain>"` where a cookie domain is configured, nothing
    /// otherwise.
    pub fn cookie_domain_attr(&self) -> (attr: String)
        ensures
            attr@ == domain_attr(opt_view(self.cookie_domain)),
    {
        match &self.cookie_domain {
            Some(domain) => {
                let mut attr = String::from_str("; Domain=");
                attr.append(domain.as_str());
                attr
            },
            None => String::new(),
        }
    }

    /// `<host>:<port>`, the port in decimal.
    pub fn bind_address(&self) -> (addr: String)
        ensures
            addr@ == self.server_host@ + seq![':'] + decimal(self.server_port as nat),
    {
        let mut out: Vec<char> = Vec::new();
        push_str_chars(&mut out, self.server_host.as_str());
        out.push(':');
        push_decimal(&mut out, self.server_port as u64);
        proof {
            assert(Seq::<char>::empty() + self.server_host@ == self.server_host@);
            assert(self.server_host@.push(':') == self.server_host@ + seq![':']);
        }
        from_chars(&out)
    }
}

} // verus!
