//! Reachability probes. A probe asks whether a host is routable, not whether
//! the service behind it is healthy.

use crate::auth::helpers::{parse_service_url, service_host};
use crate::text::opt_view;
use vstd::prelude::*;
use vstd::string::*;

verus! {

/// Status with which the internal proxy says that no router matches.
pub const STATUS_NOT_FOUND: u16 = 404;

/// Outcome of probing one dependent service.
#[derive(Debug, Clone, Copy, PartialEq, Eq, Structural)]
pub enum ProbeResult {
    /// A response arrived and the route exists.
    Reachable,
    /// The internal proxy answered 404: no router matches the host.
    NoMatchingRoute,
    /// Connection refused, DNS failure or timeout.
    NetworkError,
    /// The service URL could not be parsed.
    InvalidUrl,
}

impl ProbeResult {
    /// Only `Reachable` lets the cascade redirect to the service.
    pub open spec fn spec_is_reachable(&self) -> bool {
        *self == ProbeResult::Reachable
    }

    /// Only `Reachable` lets the cascade redirect to the service.
    #[verifier::when_used_as_spec(spec_is_reachable)]
    pub fn is_reachable(&self) -> (r: bool)
        ensures
            r == (*self == ProbeResult::Reachable),
    {
        matches!(self, ProbeResult::Reachable)
    }
}

/// What came back from a probe request.
#[derive(Debug, Clone, Copy, PartialEq, Eq, Structural)]
pub enum ProbeResponse {
    /// A response with this status code.
    Status(u16),
    /// No response: timeout, refusal, DNS failure.
    Failed,
}

/// The method of a request.
#[derive(Debug, Clone, Copy, PartialEq, Eq, Structural)]
pub enum HttpMethod {
    /// `HEAD`: headers only, which is all a probe needs.
    Head,
}

/// The request that probes a service.
#[derive(Debug, Clone)]
pub struct ProbeRequest {
    /// The method of the request.
    pub method: HttpMethod,
    /// Where the request is sent.
    pub url: String,
    /// Value of the `Host` header, where one is set.
    pub host_header: Option<String>,
}

/// A probe request as plain text.
pub ghost struct ProbeRequestView {
    pub method: HttpMethod,
    pub url: Seq<char>,
    pub host_header: Option<Seq<char>>,
}

impl View for ProbeRequest {
    type V = ProbeRequestView;

    open spec fn view(&self) -> ProbeRequestView {
        ProbeRequestView {
            method: self.method,
            url: self.url@,
            host_header: opt_view(self.host_header),
        }
    }
}

/// The request that probes `service_url`: a `HEAD` request, sent through
/// the internal proxy with the service's host (without port) as `Host`
/// header where a proxy is configured, else directly and without that
/// header. A URL that does not parse, or has no host, is not probed.
pub open spec fn probe_request(service_url: Seq<char>, proxy_url: Option<Seq<char>>) -> Option<
    ProbeRequestView,
> {
    match service_host(service_url) {
        Some(host) => Some(
            match proxy_url {
                Some(proxy) => ProbeRequestView {
                    method: HttpMethod::Head,
                    url: proxy,
                    host_header: Some(host),
                },
                None => ProbeRequestView {
                    method: HttpMethod::Head,
                    url: service_url,
                    host_header: None,
                },
            },
        ),
        None => None,
    }
}

/// What a response means. Through the proxy a 404 says that no route
/// matches; any other status, error statuses included, says that the route
/// exists. Asked directly, any response shows that the service is there.
pub open spec fn response_meaning(via_proxy: bool, response: ProbeResponse) -> ProbeResult {
    match response {
        ProbeResponse::Failed => ProbeResult::NetworkError,
        ProbeResponse::Status(status) => if via_proxy && status == STATUS_NOT_FOUND {
            ProbeResult::NoMatchingRoute
        } else {
            ProbeResult::Reachable
        },
    }
}

/// The result of probing `service_url`, given what came back.
pub open spec fn probe_result(
    service_url: Seq<char>,
    proxy_url: Option<Seq<char>>,
    response: ProbeResponse,
) -> ProbeResult {
    if service_host(service_url) is None {
        ProbeResult::InvalidUrl
    } else {
        response_meaning(proxy_url is Some, response)
    }
}

/// Plans the probe of one service: the request to send, or `InvalidUrl`
/// where the service URL cannot be probed.
pub fn plan_probe(service_url: &str, traefik_internal_url: Option<&str>) -> (plan: Result<
    ProbeRequest,
    ProbeResult,
>)
    ensures
        match plan {
            Ok(request) => probe_request(
                service_url@,
                match traefik_internal_url {
                    Some(p) => Some(p@),
                    None => None,
                },
            ) == Some(request@),
            Err(result) => result == ProbeResult::InvalidUrl && service_host(service_url@) is None,
        },
{
    match parse_service_url(service_url) {
        Some(parsed) => Ok(
            match traefik_internal_url {
                Some(proxy) => ProbeRequest {
                    method: HttpMethod::Head,
                    url: proxy.to_owned(),
                    host_header: Some(parsed.host),
                },
                None => ProbeRequest {
                    method: HttpMethod::Head,
                    url: service_url.to_owned(),
                    host_header: None,
                },
            },
        ),
        None => Err(ProbeResult::InvalidUrl),
    }
}

/// Reads the response to a probe.
pub fn classify_probe_response(via_proxy: bool, response: ProbeResponse) -> (result: ProbeResult)
    ensures
        result == response_meaning(via_proxy, response),
{
    match response {
        ProbeResponse::Failed => ProbeResult::NetworkError,
        ProbeResponse::Status(status) => if via_proxy && status == STATUS_NOT_FOUND {
            ProbeResult::NoMatchingRoute
        } else {
            ProbeResult::Reachable
        },
    }
}

/// The result of probing a service, given what came back from the request
/// that `plan_probe` describes. For a URL that cannot be probed no request
/// is made and `response` is not looked at.
pub fn probe_service_reachable(
    service_url: &str,
    traefik_internal_url: Option<&str>,
    response: ProbeResponse,
) -> (result: ProbeResult)
    ensures
        result == probe_result(
            service_url@,
            match traefik_internal_url {
                Some(p) => Some(p@),
                None => None,
            },
            response,
        ),
{
    match parse_service_url(service_url) {
        Some(_) => classify_probe_response(traefik_internal_url.is_some(), response),
        None => ProbeResult::InvalidUrl,
    }
}

/// Through the proxy every status but 404 counts as reachable and 404 as no
/// matching route; asked directly every status counts as reachable; a
/// request that fails is a network error either way.
pub proof fn lemma_probe_rules(via_proxy: bool, status: u16)
    ensures
        status != STATUS_NOT_FOUND ==> response_meaning(true, ProbeResponse::Status(status))
            == ProbeResult::Reachable,
        response_meaning(true, ProbeResponse::Status(STATUS_NOT_FOUND))
            == ProbeResult::NoMatchingRoute,
        response_meaning(false, ProbeResponse::Status(status)) == ProbeResult::Reachable,
        response_meaning(via_proxy, ProbeResponse::Failed) == ProbeResult::NetworkError,
{
}

} // verus!
