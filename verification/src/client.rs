//! The client: a validated configuration plus a handle that the transport
//! layer uses to send requests.

use vstd::prelude::*;
use crate::builder::Timeout;
use crate::error::{CapabilityNotSupportedError, TransportRestError};
use crate::request::{query_text, Query};
use crate::response::{opt_str, opt_text};
use crate::{Capabilities, Capability, Provider, ProviderView};

verus! {

/// Validated settings shared by all requests of a client.
#[derive(Debug)]
pub struct ClientConfig {
    /// Base URL all requests are resolved against (serialized, normalized).
    pub base_url: String,
    /// The configured provider.
    pub provider: Provider,
    /// Endpoint groups this client may use.
    pub capabilities: Capabilities,
    /// Maximum accepted response body size in bytes.
    pub max_response_bytes: usize,
    /// `User-Agent` header value.
    pub user_agent: String,
    /// Overall request timeout.
    pub timeout: Timeout,
    /// Connection establishment timeout.
    pub connect_timeout: Timeout,
}

/// The plain values of a [`ClientConfig`].
pub struct ClientConfigView {
    pub base_url: Seq<char>,
    pub provider: ProviderView,
    pub capabilities: Set<Capability>,
    pub max_response_bytes: usize,
    pub user_agent: Seq<char>,
    pub timeout: Timeout,
    pub connect_timeout: Timeout,
}

impl View for ClientConfig {
    type V = ClientConfigView;

    open spec fn view(&self) -> ClientConfigView {
        ClientConfigView {
            base_url: self.base_url@,
            provider: self.provider@,
            capabilities: self.capabilities@,
            max_response_bytes: self.max_response_bytes,
            user_agent: self.user_agent@,
            timeout: self.timeout,
            connect_timeout: self.connect_timeout,
        }
    }
}

impl Clone for ClientConfig {
    fn clone(&self) -> (r: Self)
        ensures
            r@ == self@,
    {
        ClientConfig {
            base_url: self.base_url.clone(),
            provider: self.provider.clone(),
            capabilities: self.capabilities,
            max_response_bytes: self.max_response_bytes,
            user_agent: self.user_agent.clone(),
            timeout: self.timeout,
            connect_timeout: self.connect_timeout,
        }
    }
}

/// Client for a transport.rest instance. `H` is the handle of the transport
/// layer that executes the planned requests; this crate only carries it.
#[derive(Debug)]
pub struct TransportRestClient<H> {
    /// Transport handle (connection pool etc.).
    pub handle: H,
    /// Validated settings.
    pub config: ClientConfig,
}

/// A request ready to be sent: an absolute path with percent-encoded
/// segments, and the query parameters in order.
#[derive(Debug)]
pub struct RequestPlan {
    /// Path, starting with `/`.
    pub path: String,
    /// Query parameters.
    pub query: Query,
}

/// `r` is a plan for `path` with parameters `params`.
pub open spec fn plans(r: Result<RequestPlan, TransportRestError>, path: Seq<char>, params: Seq<(Seq<char>, Seq<char>)>) -> bool {
    r matches Ok(p) && p.path@ == path && p.query@ == params
}

/// `e` reports that `cap` is not available on `provider`.
pub open spec fn is_capability_error(e: TransportRestError, cap: Capability, provider: ProviderView) -> bool {
    e matches TransportRestError::CapabilityNotSupported(c) && c.capability == cap && c.provider@
        == provider
}

impl<H: Clone> Clone for TransportRestClient<H> {
    fn clone(&self) -> (r: Self)
        ensures
            r.config@ == self.config@,
    {
        TransportRestClient { handle: self.handle.clone(), config: self.config.clone() }
    }
}

impl<H> TransportRestClient<H> {
    /// A client from a transport handle and validated settings.
    pub fn from_parts(handle: H, config: ClientConfig) -> (c: Self)
        ensures
            c.handle == handle,
            c.config == config,
    {
        TransportRestClient { handle, config }
    }

    /// Base URL all requests are resolved against.
    pub fn base_url(&self) -> (r: &str)
        ensures
            r@ == self.config.base_url@,
    {
        self.config.base_url.as_str()
    }

    /// The configured provider.
    pub fn provider(&self) -> (r: &Provider)
        ensures
            r == self.config.provider,
    {
        &self.config.provider
    }

    /// True if this client may use the given endpoint group.
    pub fn supports(&self, capability: Capability) -> (r: bool)
        ensures
            r == self.config.capabilities@.contains(capability),
    {
        self.config.capabilities.contains(capability)
    }

    /// `Ok` if the endpoint group is available, else the error naming it and
    /// the provider.
    pub fn check_capability(&self, capability: Capability) -> (r: Result<(), TransportRestError>)
        ensures
            self.config.capabilities@.contains(capability) ==> r is Ok,
            !self.config.capabilities@.contains(capability) ==> (r matches Err(e)
                && is_capability_error(e, capability, self.config.provider@)),
    {
        if self.config.capabilities.contains(capability) {
            Ok(())
        } else {
            Err(
                TransportRestError::CapabilityNotSupported(
                    CapabilityNotSupportedError {
                        capability,
                        provider: self.config.provider.clone(),
                    },
                ),
            )
        }
    }
}

/// A copy of an optional `String`.
pub fn clone_opt(o: &Option<String>) -> (r: Option<String>)
    ensures
        r == *o,
{
    match o {
        Some(s) => Some(s.clone()),
        None => None,
    }
}


/// What the URL parser makes of `base` with its path set to `path` and its
/// query to `query`, when `base` parses: the serialization.
pub uninterp spec fn url_with(base: Seq<char>, path: Seq<char>, query: Option<Seq<char>>) -> Option<Seq<char>>;

/// `url::Url::parse(base)`, then `Url::set_path(path)` and
/// `Url::set_query(query)`, read back through `Url::as_str`. The contract
/// names the result; it does not state how the parser escapes or
/// normalizes.
#[verifier::external_body]
fn join_url(base: &str, path: &str, query: Option<&str>) -> (r: Option<String>)
    ensures
        opt_text(r) == url_with(base@, path@, opt_str(query)),
{
    let mut u = url::Url::parse(base).ok()?;
    u.set_path(path);
    u.set_query(query);
    Some(u.as_str().to_owned())
}

/// The URL a plan is sent to: the base URL with the plan's path, and the
/// encoded query when there are parameters.
pub open spec fn plan_url(base: Seq<char>, path: Seq<char>, params: Seq<(Seq<char>, Seq<char>)>) -> Option<Seq<char>> {
    url_with(
        base,
        path,
        if params.len() == 0 {
            None
        } else {
            Some(query_text(params))
        },
    )
}

impl<H> TransportRestClient<H> {
    /// The full URL of a planned request (see [`plan_url`]); `None` only if
    /// the base URL does not parse.
    pub fn url_for(&self, plan: RequestPlan) -> (r: Option<String>)
        ensures
            opt_text(r) == plan_url(self.config.base_url@, plan.path@, plan.query@),
    {
        let RequestPlan { path, query } = plan;
        if query.is_empty() {
            join_url(self.config.base_url.as_str(), path.as_str(), None)
        } else {
            let q = query.encode();
            join_url(self.config.base_url.as_str(), path.as_str(), Some(q.as_str()))
        }
    }
}

} // verus!
