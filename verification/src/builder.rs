//! Builder for the client configuration: provider, base URL, limits and
//! explicitly enabled endpoint groups.

use vstd::prelude::*;
use crate::client::{ClientConfig, TransportRestClient};
use crate::error::{InvalidParameterError, TransportRestError};
use crate::request::{concat, invalid, is_invalid_param};
use crate::response::opt_str;
use crate::text::{push_str, str_eq};
use crate::{default_base_url_spec, default_capabilities_spec, Capability, Provider, ProviderView};

verus! {

/// Overall request timeout in seconds by default.
pub const DEFAULT_REQUEST_TIMEOUT_SECS: u64 = 30;

/// Connection establishment timeout in seconds by default.
pub const DEFAULT_CONNECT_TIMEOUT_SECS: u64 = 10;

/// Largest response body accepted by default: 16 MiB.
pub const DEFAULT_MAX_RESPONSE_BYTES: usize = 16777216;

/// Default `User-Agent` header value.
pub const DEFAULT_USER_AGENT: &'static str = "transport-rest-rs/0.1.0";

/// A length of time: whole seconds, and nanoseconds below one second (the
/// plain values of a `std::time::Duration`).
#[derive(Debug, Clone, Copy, PartialEq, Eq, Structural)]
pub struct Timeout {
    /// Whole seconds.
    pub secs: u64,
    /// Nanoseconds, below 1_000_000_000.
    pub nanos: u32,
}

impl Timeout {
    /// `secs` whole seconds.
    pub fn from_secs(secs: u64) -> (t: Self)
        ensures
            t == (Timeout { secs, nanos: 0 }),
    {
        Timeout { secs, nanos: 0 }
    }
}

/// What `url::Url::parse` makes of `text`, if it accepts it, once its path
/// is set to `path`, its query to `query` and its fragment to `fragment`:
/// the URL's scheme and its serialization.
pub uninterp spec fn url_parts(text: Seq<char>, path: Seq<char>, query: Option<Seq<char>>, fragment: Option<Seq<char>>) -> Option<(Seq<char>, Seq<char>)>;

/// `url::Url::parse(text)`, then `Url::set_path(path)`,
/// `Url::set_query(query)` and `Url::set_fragment(fragment)`, read back
/// through `Url::scheme` and `Url::as_str`. The contract names both
/// results; it does not state the URL grammar.
#[verifier::external_body]
fn parse_url_with(text: &str, path: &str, query: Option<&str>, fragment: Option<&str>) -> (r: Option<(String, String)>)
    ensures
        match r {
            Some((scheme, ser)) => url_parts(text@, path@, opt_str(query), opt_str(fragment)) == Some(
                (scheme@, ser@),
            ),
            None => url_parts(text@, path@, opt_str(query), opt_str(fragment)) is None,
        },
{
    let mut u = url::Url::parse(text).ok()?;
    u.set_path(path);
    u.set_query(query);
    u.set_fragment(fragment);
    Some((u.scheme().to_owned(), u.as_str().to_owned()))
}

/// A base URL as the client keeps it: `text` parsed, with the empty path
/// and neither query nor fragment (requests append their own path, so a
/// trailing slash, query or fragment is dropped). Scheme and serialization.
pub open spec fn url_base(text: Seq<char>) -> Option<(Seq<char>, Seq<char>)> {
    url_parts(text, seq![], None, None)
}

/// The outcome for the base URL `text` given what the URL parser made of
/// it (see [`url_base`]): refused when it did not parse or its scheme is
/// neither `http` nor `https`, else the normalized URL.
pub open spec fn base_from_parts(text: Seq<char>, parsed: Option<(Seq<char>, Seq<char>)>) -> Result<Seq<char>, (Option<Seq<char>>, Seq<char>)> {
    match parsed {
        None => Err((Some("base_url"@), invalid_url_reason(text))),
        Some((scheme, base)) => if scheme != "https"@ && scheme != "http"@ {
            Err((Some("base_url"@), "scheme must be http or https"@))
        } else {
            Ok(base)
        },
    }
}

/// Decide on the base URL `text` from what the URL parser made of it:
/// `parsed` is its scheme and normalized serialization, or `None` when it
/// did not parse (see [`base_from_parts`]).
pub fn base_from_parsed(text: &str, parsed: Option<(String, String)>) -> (r: Result<String, TransportRestError>)
    ensures
        match base_from_parts(
            text@,
            match parsed {
                Some((a, b)) => Some((a@, b@)),
                None => None,
            },
        ) {
            Ok(u) => r matches Ok(s) && s@ == u,
            Err((param, reason)) => r matches Err(e) && is_invalid_param(e, param, reason),
        },
{
    match parsed {
        None => {
            let mut reason = concat("'", text);
            push_str(&mut reason, "' is not a valid absolute http(s) URL");
            Err(TransportRestError::InvalidParameter(InvalidParameterError::new("base_url", reason)))
        },
        Some((scheme, base)) => {
            if !str_eq(scheme.as_str(), "https") && !str_eq(scheme.as_str(), "http") {
                return Err(invalid(Some("base_url"), "scheme must be http or https"));
            }
            Ok(base)
        },
    }
}

/// Builder for a client configuration.
#[derive(Debug)]
pub struct TransportRestClientBuilder {
    /// Provider instance; [`Provider::Db`] by default.
    pub provider: Provider,
    /// Base URL overriding the provider default.
    pub base_url: Option<String>,
    /// Overall request timeout.
    pub timeout: Timeout,
    /// Connection establishment timeout.
    pub connect_timeout: Timeout,
    /// `User-Agent` header value.
    pub user_agent: String,
    /// Maximum accepted response body size in bytes (at least 1).
    pub max_response_bytes: usize,
    /// Capabilities enabled beyond the provider defaults, each once, in the
    /// order they were first enabled.
    pub enabled_capabilities: Vec<Capability>,
}

/// The base URL text a builder resolves: the explicit one, else the one of a
/// custom provider, else the provider default (`None` if there is none).
pub open spec fn base_url_choice(explicit: Option<Seq<char>>, provider: ProviderView) -> Option<Seq<char>> {
    match explicit {
        Some(u) => Some(u),
        None => match provider {
            ProviderView::Custom(u) => Some(u),
            _ => default_base_url_spec(provider),
        },
    }
}

/// The error message for a base URL the URL parser rejects.
pub open spec fn invalid_url_reason(text: Seq<char>) -> Seq<char> {
    "'"@ + text + "' is not a valid absolute http(s) URL"@
}

/// The outcome of resolving a base URL: the normalized URL (empty path, no
/// query, no fragment), or the parameter name and reason of the rejection.
/// The scheme must be `http` or `https`.
pub open spec fn resolve_base_url(explicit: Option<Seq<char>>, provider: ProviderView) -> Result<Seq<char>, (Option<Seq<char>>, Seq<char>)> {
    match base_url_choice(explicit, provider) {
        None => Err((None, "custom provider requires base_url"@)),
        Some(text) => base_from_parts(text, url_base(text)),
    }
}

impl TransportRestClientBuilder {
    /// Select a provider instance.
    pub fn provider(self, provider: Provider) -> (b: Self)
        ensures
            b == (TransportRestClientBuilder { provider, ..self }),
    {
        TransportRestClientBuilder { provider, ..self }
    }

    /// Override the base URL (e.g. for self-hosted instances or tests).
    /// Takes precedence over the provider default.
    pub fn base_url(self, url: String) -> (b: Self)
        ensures
            b == (TransportRestClientBuilder { base_url: Some(url), ..self }),
    {
        TransportRestClientBuilder { base_url: Some(url), ..self }
    }

    /// Overall request timeout.
    pub fn timeout(self, timeout: Timeout) -> (b: Self)
        ensures
            b == (TransportRestClientBuilder { timeout, ..self }),
    {
        TransportRestClientBuilder { timeout, ..self }
    }

    /// Connection establishment timeout.
    pub fn connect_timeout(self, timeout: Timeout) -> (b: Self)
        ensures
            b == (TransportRestClientBuilder { connect_timeout: timeout, ..self }),
    {
        TransportRestClientBuilder { connect_timeout: timeout, ..self }
    }

    /// `User-Agent` header value.
    pub fn user_agent(self, user_agent: String) -> (b: Self)
        ensures
            b == (TransportRestClientBuilder { user_agent, ..self }),
    {
        TransportRestClientBuilder { user_agent, ..self }
    }

    /// Maximum accepted response body size in bytes; `0` counts as `1`.
    pub fn max_response_bytes(self, max: usize) -> (b: Self)
        ensures
            b == (TransportRestClientBuilder {
                max_response_bytes: if max >= 1 {
                    max
                } else {
                    1
                },
                ..self
            }),
    {
        let m = if max >= 1 {
            max
        } else {
            1
        };
        TransportRestClientBuilder { max_response_bytes: m, ..self }
    }

    /// Explicitly enable a capability even though it is not known to be
    /// supported by the chosen provider. Enabling one twice changes nothing.
    pub fn enable_capability(self, capability: Capability) -> (b: Self)
        ensures
            b.enabled_capabilities@ == if self.enabled_capabilities@.contains(capability) {
                self.enabled_capabilities@
            } else {
                self.enabled_capabilities@.push(capability)
            },
            b == (TransportRestClientBuilder { enabled_capabilities: b.enabled_capabilities, ..self }),
    {
        let mut caps = self.enabled_capabilities;
        let mut found = false;
        for i in 0..caps.len()
            invariant
                found == exists|j: int| 0 <= j < i && caps@[j] == capability,
        {
            if caps[i] == capability {
                found = true;
            }
        }
        if !found {
            caps.push(capability);
        }
        TransportRestClientBuilder { enabled_capabilities: caps, ..self }
    }

    /// Resolve the base URL: the explicit one, else the custom provider's,
    /// else the provider default; it must parse as an absolute `http` or
    /// `https` URL and is cut back to its root.
    pub fn resolved_base_url(&self) -> (r: Result<String, TransportRestError>)
        ensures
            match resolve_base_url(
                match self.base_url {
                    Some(u) => Some(u@),
                    None => None,
                },
                self.provider@,
            ) {
                Ok(u) => r matches Ok(s) && s@ == u,
                Err((param, reason)) => r matches Err(e) && is_invalid_param(e, param, reason),
            },
    {
        let text: String = match &self.base_url {
            Some(u) => u.clone(),
            None => match &self.provider {
                Provider::Custom { base_url } => base_url.clone(),
                p => match p.default_base_url() {
                    Some(d) => d.to_owned(),
                    None => {
                        return Err(invalid(None, "custom provider requires base_url"));
                    },
                },
            },
        };
        let parsed = parse_url_with(text.as_str(), "", None, None);
        proof {
            reveal_strlit("");
            assert(""@ =~= Seq::<char>::empty());
        }
        base_from_parsed(text.as_str(), parsed)
    }

    /// Validate the configuration and produce the client settings: the
    /// resolved base URL, the provider defaults plus the explicitly enabled
    /// capabilities, and the limits as set.
    pub fn build(self) -> (r: Result<ClientConfig, TransportRestError>)
        ensures
            match resolve_base_url(
                match self.base_url {
                    Some(u) => Some(u@),
                    None => None,
                },
                self.provider@,
            ) {
                Ok(u) => r matches Ok(c) && c@.base_url == u && c@.provider == self.provider@
                    && c@.capabilities == default_capabilities_spec(self.provider@)
                    + self.enabled_capabilities@.to_set()
                    && c@.max_response_bytes == self.max_response_bytes
                    && c@.user_agent == self.user_agent@ && c@.timeout == self.timeout
                    && c@.connect_timeout == self.connect_timeout,
                Err((param, reason)) => r matches Err(e) && is_invalid_param(e, param, reason),
            },
    {
        let base_url = self.resolved_base_url()?;
        let mut capabilities = self.provider.default_capabilities();
        let n = self.enabled_capabilities.len();
        for i in 0..n
            invariant
                n == self.enabled_capabilities@.len(),
                capabilities@ == default_capabilities_spec(self.provider@)
                    + self.enabled_capabilities@.take(i as int).to_set(),
        {
            let c = self.enabled_capabilities[i];
            capabilities.insert_raw(c);
            proof {
                let s = self.enabled_capabilities@;
                assert(s.take(i + 1) =~= s.take(i as int).push(c));
                assert(s.take(i as int).push(c).to_set() =~= s.take(i as int).to_set().insert(c)) by {
                    s.take(i as int).lemma_push_to_set_commute(c);
                }
                assert(capabilities@ =~= default_capabilities_spec(self.provider@) + s.take(
                    i + 1,
                ).to_set());
            }
        }
        assert(self.enabled_capabilities@.take(n as int) =~= self.enabled_capabilities@);
        Ok(
            ClientConfig {
                base_url,
                provider: self.provider,
                capabilities,
                max_response_bytes: self.max_response_bytes,
                user_agent: self.user_agent,
                timeout: self.timeout,
                connect_timeout: self.connect_timeout,
            },
        )
    }
}

impl Default for TransportRestClientBuilder {
    fn default() -> (b: Self)
        ensures
            b.timeout == (Timeout { secs: DEFAULT_REQUEST_TIMEOUT_SECS, nanos: 0 }),
            b.connect_timeout == (Timeout { secs: DEFAULT_CONNECT_TIMEOUT_SECS, nanos: 0 }),
            b.provider@ == ProviderView::Db,
            b.base_url is None,
            b.user_agent@ == DEFAULT_USER_AGENT@,
            b.max_response_bytes == DEFAULT_MAX_RESPONSE_BYTES,
            b.enabled_capabilities@.len() == 0,
    {
        TransportRestClientBuilder {
            provider: Provider::Db,
            base_url: None,
            timeout: Timeout::from_secs(DEFAULT_REQUEST_TIMEOUT_SECS),
            connect_timeout: Timeout::from_secs(DEFAULT_CONNECT_TIMEOUT_SECS),
            user_agent: DEFAULT_USER_AGENT.to_owned(),
            max_response_bytes: DEFAULT_MAX_RESPONSE_BYTES,
            enabled_capabilities: Vec::new(),
        }
    }
}

impl<H> TransportRestClient<H> {
    /// A builder with the defaults.
    pub fn builder() -> (b: TransportRestClientBuilder)
        ensures
            b.timeout == (Timeout { secs: DEFAULT_REQUEST_TIMEOUT_SECS, nanos: 0 }),
            b.connect_timeout == (Timeout { secs: DEFAULT_CONNECT_TIMEOUT_SECS, nanos: 0 }),
            b.provider@ == ProviderView::Db,
            b.base_url is None,
            b.user_agent@ == DEFAULT_USER_AGENT@,
            b.max_response_bytes == DEFAULT_MAX_RESPONSE_BYTES,
            b.enabled_capabilities@.len() == 0,
    {
        TransportRestClientBuilder::default()
    }

    /// A client for the default provider with the default settings, sending
    /// through `handle`.
    pub fn new(handle: H) -> (r: Result<Self, TransportRestError>)
        ensures
            r matches Ok(c) ==> c.handle == handle && c.config@.provider == ProviderView::Db
                && c.config@.capabilities == default_capabilities_spec(ProviderView::Db)
                && c.config@.user_agent == DEFAULT_USER_AGENT@
                && c.config@.max_response_bytes == DEFAULT_MAX_RESPONSE_BYTES
                && c.config@.timeout == (Timeout { secs: DEFAULT_REQUEST_TIMEOUT_SECS, nanos: 0 })
                && c.config@.connect_timeout == (Timeout { secs: DEFAULT_CONNECT_TIMEOUT_SECS, nanos: 0 })
                && c.config@.base_url == (url_base("https://v6.db.transport.rest"@)->0).1,
            r is Err ==> url_base("https://v6.db.transport.rest"@) is None || ((url_base(
                "https://v6.db.transport.rest"@,
            )->0).0 != "https"@ && (url_base("https://v6.db.transport.rest"@)->0).0 != "http"@),
    {
        let b = TransportRestClientBuilder::default();
        let config = b.build()?;
        Ok(TransportRestClient::from_parts(handle, config))
    }
}


/// After a successful build, every capability that was enabled on the
/// builder is supported, next to the provider's defaults.
pub proof fn law_enabled_capabilities_are_supported(provider: ProviderView, enabled: Seq<Capability>, cap: Capability)
    ensures
        enabled.contains(cap) ==> (default_capabilities_spec(provider) + enabled.to_set()).contains(cap),
        default_capabilities_spec(provider).subset_of(default_capabilities_spec(provider) + enabled.to_set()),
{
}

} // verus!
