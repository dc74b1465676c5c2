//! Structured error types for the transport.rest client.
//!
//! The taxonomy distinguishes network problems ([`TransportRestError::Network`]),
//! timeouts ([`TransportRestError::Timeout`]), uninterpretable HTTP responses
//! ([`TransportRestError::Http`]), structured API errors
//! ([`TransportRestError::Api`]), rate limiting
//! ([`TransportRestError::RateLimited`]) and client-side problems such as
//! invalid parameters ([`TransportRestError::InvalidParameter`]).
//!
//! All fields are plain values: URLs as their serialization, bodies as text.

use vstd::prelude::*;
use crate::text::{nat_text, push_str, u64_text};
use crate::{capability_name, Capability, Provider, ProviderView};

verus! {

/// Maximum number of bytes kept from an error body for debugging purposes.
pub const ERROR_BODY_SNIPPET_LEN: usize = 512;

/// Top level error type of this library.
#[derive(Debug)]
pub enum TransportRestError {
    /// A connection-level failure (DNS, TCP, TLS).
    Network(NetworkError),
    /// The request exceeded the configured timeout.
    Timeout(TimeoutError),
    /// The server answered with a status code that could not be interpreted.
    Http(HttpError),
    /// The transport.rest instance returned a structured error.
    Api(ApiError),
    /// The instance rate limited us (HTTP 429).
    RateLimited(RateLimitedError),
    /// The response body could not be parsed.
    Serialization(SerializationError),
    /// A parameter was missing or invalid before any request was sent.
    InvalidParameter(InvalidParameterError),
    /// The configured provider does not support the requested endpoint.
    CapabilityNotSupported(CapabilityNotSupportedError),
}

/// Where in the request lifecycle a timeout occurred.
#[derive(Debug, Clone, Copy, PartialEq, Eq, Structural)]
pub enum TimeoutKind {
    /// Establishing the TCP/TLS connection timed out.
    Connect,
    /// The overall request (connect + send + receive) timed out.
    Request,
}

impl TimeoutKind {
    /// `connect` or `request`.
    pub fn as_str(&self) -> (r: &'static str)
        ensures
            r@ == (match self {
                TimeoutKind::Connect => "connect"@,
                TimeoutKind::Request => "request"@,
            }),
    {
        match self {
            TimeoutKind::Connect => "connect",
            TimeoutKind::Request => "request",
        }
    }
}

/// Connection-level failure details.
#[derive(Debug)]
pub struct NetworkError {
    /// URL the failing request targeted, when already known.
    pub url: Option<String>,
    /// Description of the underlying failure.
    pub message: String,
}

/// Timeout failure details.
#[derive(Debug)]
pub struct TimeoutError {
    /// Which phase of the request timed out.
    pub kind: TimeoutKind,
    /// URL the timing out request targeted, when already known.
    pub url: Option<String>,
    /// Description of the underlying failure.
    pub message: String,
}

/// A non-success HTTP response that was *not* a structured API error
/// (e.g. an HTML error page from a proxy, or an empty body).
#[derive(Debug)]
pub struct HttpError {
    /// HTTP status code.
    pub status: u16,
    /// HTTP method of the request.
    pub method: String,
    /// The full request URL.
    pub url: String,
    /// Truncated body to aid debugging without leaking unbounded payloads.
    pub body_snippet: String,
}

/// Structured error returned by transport.rest instances
/// (`{"message": "..."}` with a 4xx/5xx status).
#[derive(Debug)]
pub struct ApiError {
    /// HTTP status code of the response.
    pub status: u16,
    /// The full request URL.
    pub url: String,
    /// Human readable message extracted from the response body.
    pub message: String,
    /// The body as returned by the instance when it is JSON (`None` stands
    /// for JSON `null`).
    pub body: Option<String>,
}

/// A wait time, as seconds plus nanoseconds below one second.
#[derive(Debug, Clone, Copy, PartialEq, Eq, Structural)]
pub struct RetryDelay {
    /// Whole seconds.
    pub secs: u64,
    /// Nanoseconds, below 1_000_000_000.
    pub nanos: u32,
}

/// HTTP 429 details, including an optional `Retry-After` hint.
#[derive(Debug)]
pub struct RateLimitedError {
    /// The underlying API error carrying URL/message/body details.
    pub api: ApiError,
    /// Suggested wait time parsed from the `Retry-After` header.
    pub retry_after: Option<RetryDelay>,
}

/// Response body could not be deserialized into the expected model.
#[derive(Debug)]
pub struct SerializationError {
    /// URL the offending response came from.
    pub url: Option<String>,
    /// Underlying cause.
    pub source: SerializationErrorKind,
}

/// Underlying cause of a [`SerializationError`].
#[derive(Debug)]
pub enum SerializationErrorKind {
    /// The body was not valid JSON at all.
    InvalidJson(String),
    /// Valid JSON but it did not match the expected model (or was too large).
    Schema(String),
}

impl SerializationError {
    /// The body was not JSON.
    pub fn invalid_json(message: String, url: Option<String>) -> (e: Self)
        ensures
            e.url == url,
            e.source == SerializationErrorKind::InvalidJson(message),
    {
        SerializationError { url, source: SerializationErrorKind::InvalidJson(message) }
    }

    /// The body did not match the expected model.
    pub fn schema(message: String, url: Option<String>) -> (e: Self)
        ensures
            e.url == url,
            e.source == SerializationErrorKind::Schema(message),
    {
        SerializationError { url, source: SerializationErrorKind::Schema(message) }
    }
}

/// A parameter failed client-side validation.
#[derive(Debug, Clone)]
pub struct InvalidParameterError {
    /// Name of the offending builder parameter, if applicable.
    pub parameter: Option<&'static str>,
    /// Why the value was rejected.
    pub reason: String,
}

impl InvalidParameterError {
    /// Rejection of a named parameter.
    pub fn new(parameter: &'static str, reason: String) -> (e: Self)
        ensures
            e.parameter == Some(parameter),
            e.reason == reason,
    {
        InvalidParameterError { parameter: Some(parameter), reason }
    }

    /// Rejection of a combination of parameters.
    pub fn other(reason: String) -> (e: Self)
        ensures
            e.parameter is None,
            e.reason == reason,
    {
        InvalidParameterError { parameter: None, reason }
    }
}

/// An endpoint that is not available on every provider was requested.
#[derive(Debug)]
pub struct CapabilityNotSupportedError {
    /// Capability that was requested.
    pub capability: Capability,
    /// Provider it was requested from.
    pub provider: Provider,
}

/// The error for a failed exchange with the server: a timeout (during the
/// connection phase or later) or another network failure.
pub fn map_transport_error(
    url: Option<String>,
    timed_out: bool,
    during_connect: bool,
    message: String,
) -> (e: TransportRestError)
    ensures
        timed_out ==> e == TransportRestError::Timeout(
            TimeoutError {
                kind: if during_connect {
                    TimeoutKind::Connect
                } else {
                    TimeoutKind::Request
                },
                url,
                message,
            },
        ),
        !timed_out ==> e == TransportRestError::Network(NetworkError { url, message }),
{
    if timed_out {
        let kind = if during_connect {
            TimeoutKind::Connect
        } else {
            TimeoutKind::Request
        };
        TransportRestError::Timeout(TimeoutError { kind, url, message })
    } else {
        TransportRestError::Network(NetworkError { url, message })
    }
}


// ---------------------------------------------------------------------------
// Messages
// ---------------------------------------------------------------------------

/// What `format!("{:?}", s)` writes for a string: `s` quoted, with the
/// characters that need it escaped.
pub uninterp spec fn debug_text(s: Seq<char>) -> Seq<char>;

/// `<str as Debug>::fmt` through `format!("{:?}", ..)`. The contract names
/// the result; it does not state the escaping rules.
#[verifier::external_body]
fn debug_quoted(s: &str) -> (r: String)
    ensures
        r@ == debug_text(s@),
{
    format!("{:?}", s)
}

/// What `format!("{:?}", Duration::new(secs, nanos))` writes.
pub uninterp spec fn duration_debug_text(secs: u64, nanos: u32) -> Seq<char>;

/// `<Duration as Debug>::fmt` through `format!("{:?}", ..)`, for a
/// duration with nanoseconds below one second (so `Duration::new` does not
/// carry, and cannot overflow). The contract names the result; it does not
/// state the unit selection and rounding.
#[verifier::external_body]
fn duration_debug(secs: u64, nanos: u32) -> (r: String)
    requires
        nanos < 1_000_000_000,
    ensures
        r@ == duration_debug_text(secs, nanos),
{
    format!("{:?}", std::time::Duration::new(secs, nanos))
}

/// The derived `Debug` form of a provider.
pub open spec fn provider_debug(p: ProviderView) -> Seq<char> {
    match p {
        ProviderView::Db => "Db"@,
        ProviderView::Bvg => "Bvg"@,
        ProviderView::Vbb => "Vbb"@,
        ProviderView::Poland => "Poland"@,
        ProviderView::Custom(u) => "Custom { base_url: "@ + debug_text(u) + " }"@,
    }
}

/// The derived `Debug` form of a provider.
pub fn provider_debug_string(p: &Provider) -> (r: String)
    ensures
        r@ == provider_debug(p@),
{
    match p {
        Provider::Db => "Db".to_owned(),
        Provider::Bvg => "Bvg".to_owned(),
        Provider::Vbb => "Vbb".to_owned(),
        Provider::Poland => "Poland".to_owned(),
        Provider::Custom { base_url } => {
            let mut r = "Custom { base_url: ".to_owned();
            push_str(&mut r, debug_quoted(base_url.as_str()).as_str());
            push_str(&mut r, " }");
            r
        },
    }
}

/// The text of a timeout phase.
pub open spec fn timeout_kind_text(k: TimeoutKind) -> Seq<char> {
    match k {
        TimeoutKind::Connect => "connect"@,
        TimeoutKind::Request => "request"@,
    }
}

/// Message of an invalid-parameter error.
pub open spec fn invalid_parameter_text(e: InvalidParameterError) -> Seq<char> {
    "invalid parameter '"@ + match e.parameter {
        Some(p) => p@,
        None => "<none>"@,
    } + "': "@ + e.reason@
}

/// Message of a capability error.
pub open spec fn capability_text(e: CapabilityNotSupportedError) -> Seq<char> {
    "capability '"@ + capability_name(e.capability) + "' is not supported by provider '"@
        + provider_debug(e.provider@)
        + "'; enable it explicitly via TransportRestClientBuilder::enable_capability if you know the endpoint exists"@
}

/// Message of a network error.
pub open spec fn network_text(e: NetworkError) -> Seq<char> {
    match e.url {
        Some(u) => "network error for "@ + u@ + ": "@ + e.message@,
        None => "network error: "@ + e.message@,
    }
}

/// Message of a timeout.
pub open spec fn timeout_text(e: TimeoutError) -> Seq<char> {
    match e.url {
        Some(u) => "request timed out ("@ + timeout_kind_text(e.kind) + ") for "@ + u@ + ": "@
            + e.message@,
        None => "request timed out ("@ + timeout_kind_text(e.kind) + "): "@ + e.message@,
    }
}

/// Message of an HTTP error.
pub open spec fn http_text(e: HttpError) -> Seq<char> {
    "unexpected HTTP response: HTTP "@ + nat_text(e.status as nat) + " from "@ + e.method@ + " "@
        + e.url@ + ": "@ + e.body_snippet@
}

/// Message of a rate limiting error.
pub open spec fn rate_limited_text(e: RateLimitedError) -> Seq<char> {
    match e.retry_after {
        Some(d) => "rate limited (HTTP 429), retry after "@ + duration_debug_text(d.secs, d.nanos)
            + ": "@ + e.api.message@,
        None => "rate limited (HTTP 429): "@ + e.api.message@,
    }
}

/// Message of the cause of a deserialization failure.
pub open spec fn serialization_kind_text(k: SerializationErrorKind) -> Seq<char> {
    match k {
        SerializationErrorKind::InvalidJson(_) => "body is not valid JSON"@,
        SerializationErrorKind::Schema(m) => "response did not match expected schema: "@ + m@,
    }
}

/// Message of a deserialization failure.
pub open spec fn serialization_text(e: SerializationError) -> Seq<char> {
    match e.url {
        Some(u) => "failed to deserialize response for "@ + u@ + ": "@ + serialization_kind_text(
            e.source,
        ),
        None => "failed to deserialize response: "@ + serialization_kind_text(e.source),
    }
}

/// Message of any error.
pub open spec fn error_text(e: TransportRestError) -> Seq<char> {
    match e {
        TransportRestError::Network(n) => network_text(n),
        TransportRestError::Timeout(t) => timeout_text(t),
        TransportRestError::Http(h) => http_text(h),
        TransportRestError::Api(a) => a.message@,
        TransportRestError::RateLimited(r) => rate_limited_text(r),
        TransportRestError::Serialization(s) => serialization_text(s),
        TransportRestError::InvalidParameter(p) => invalid_parameter_text(p),
        TransportRestError::CapabilityNotSupported(c) => capability_text(c),
    }
}

impl InvalidParameterError {
    /// The error message.
    pub fn to_text(&self) -> (r: String)
        ensures
            r@ == invalid_parameter_text(*self),
    {
        let mut r = "invalid parameter '".to_owned();
        push_str(&mut r, match self.parameter {
            Some(p) => p,
            None => "<none>",
        });
        push_str(&mut r, "': ");
        push_str(&mut r, self.reason.as_str());
        r
    }
}

impl CapabilityNotSupportedError {
    /// The error message.
    pub fn to_text(&self) -> (r: String)
        ensures
            r@ == capability_text(*self),
    {
        let mut r = "capability '".to_owned();
        push_str(&mut r, self.capability.as_str());
        push_str(&mut r, "' is not supported by provider '");
        push_str(&mut r, provider_debug_string(&self.provider).as_str());
        push_str(
            &mut r,
            "'; enable it explicitly via TransportRestClientBuilder::enable_capability if you know the endpoint exists",
        );
        r
    }
}

impl NetworkError {
    /// The error message.
    pub fn to_text(&self) -> (r: String)
        ensures
            r@ == network_text(*self),
    {
        match &self.url {
            Some(u) => {
                let mut r = "network error for ".to_owned();
                push_str(&mut r, u.as_str());
                push_str(&mut r, ": ");
                push_str(&mut r, self.message.as_str());
                r
            },
            None => {
                let mut r = "network error: ".to_owned();
                push_str(&mut r, self.message.as_str());
                r
            },
        }
    }
}

impl TimeoutError {
    /// The error message.
    pub fn to_text(&self) -> (r: String)
        ensures
            r@ == timeout_text(*self),
    {
        let mut r = "request timed out (".to_owned();
        push_str(&mut r, self.kind.as_str());
        match &self.url {
            Some(u) => {
                push_str(&mut r, ") for ");
                push_str(&mut r, u.as_str());
                push_str(&mut r, ": ");
            },
            None => {
                push_str(&mut r, "): ");
            },
        }
        push_str(&mut r, self.message.as_str());
        r
    }
}

impl HttpError {
    /// The error message.
    pub fn to_text(&self) -> (r: String)
        ensures
            r@ == http_text(*self),
    {
        let mut r = "unexpected HTTP response: HTTP ".to_owned();
        push_str(&mut r, u64_text(self.status as u64).as_str());
        push_str(&mut r, " from ");
        push_str(&mut r, self.method.as_str());
        push_str(&mut r, " ");
        push_str(&mut r, self.url.as_str());
        push_str(&mut r, ": ");
        push_str(&mut r, self.body_snippet.as_str());
        r
    }
}

impl ApiError {
    /// The error message: the message the instance sent.
    pub fn to_text(&self) -> (r: String)
        ensures
            r@ == self.message@,
    {
        self.message.clone()
    }
}

impl RateLimitedError {
    /// The error message.
    pub fn to_text(&self) -> (r: String)
        requires
            self.retry_after matches Some(d) ==> d.nanos < 1_000_000_000,
        ensures
            r@ == rate_limited_text(*self),
    {
        match self.retry_after {
            Some(d) => {
                let mut r = "rate limited (HTTP 429), retry after ".to_owned();
                push_str(&mut r, duration_debug(d.secs, d.nanos).as_str());
                push_str(&mut r, ": ");
                push_str(&mut r, self.api.message.as_str());
                r
            },
            None => {
                let mut r = "rate limited (HTTP 429): ".to_owned();
                push_str(&mut r, self.api.message.as_str());
                r
            },
        }
    }
}

impl SerializationErrorKind {
    /// The message of the cause.
    pub fn to_text(&self) -> (r: String)
        ensures
            r@ == serialization_kind_text(*self),
    {
        match self {
            SerializationErrorKind::InvalidJson(_) => "body is not valid JSON".to_owned(),
            SerializationErrorKind::Schema(m) => {
                let mut r = "response did not match expected schema: ".to_owned();
                push_str(&mut r, m.as_str());
                r
            },
        }
    }
}

impl SerializationError {
    /// The error message.
    pub fn to_text(&self) -> (r: String)
        ensures
            r@ == serialization_text(*self),
    {
        let mut r = match &self.url {
            Some(u) => {
                let mut r = "failed to deserialize response for ".to_owned();
                push_str(&mut r, u.as_str());
                push_str(&mut r, ": ");
                r
            },
            None => "failed to deserialize response: ".to_owned(),
        };
        push_str(&mut r, self.source.to_text().as_str());
        r
    }
}

impl TransportRestError {
    /// The error message: that of the wrapped error.
    pub fn to_text(&self) -> (r: String)
        requires
            self matches TransportRestError::RateLimited(e) ==> (e.retry_after matches Some(d)
                ==> d.nanos < 1_000_000_000),
        ensures
            r@ == error_text(*self),
    {
        match self {
            TransportRestError::Network(e) => e.to_text(),
            TransportRestError::Timeout(e) => e.to_text(),
            TransportRestError::Http(e) => e.to_text(),
            TransportRestError::Api(e) => e.to_text(),
            TransportRestError::RateLimited(e) => e.to_text(),
            TransportRestError::Serialization(e) => e.to_text(),
            TransportRestError::InvalidParameter(e) => e.to_text(),
            TransportRestError::CapabilityNotSupported(e) => e.to_text(),
        }
    }
}

} // verus!
