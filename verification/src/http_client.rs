//! Configuration of the middleware-equipped HTTP client: a plain value that
//! records the retry policy bounds and an optional bearer key, and the
//! construction of the client it describes.
//!
//! The client itself is an opaque networking collaborator; only its
//! configuration is modelled here.

use vstd::prelude::*;

verus! {

/// The ways building a configured HTTP client can fail.
#[derive(Clone, Copy, Debug, PartialEq, Eq, Structural)]
pub enum HttpClientError {
    /// The API key cannot stand in an `Authorization` header.
    InvalidApiKey,
    /// The underlying HTTP client could not be constructed on this host.
    Build,
}

#[verifier::external_type_specification]
#[verifier::external_body]
pub struct ExClient(reqwest::Client);

#[verifier::external_type_specification]
#[verifier::external_body]
pub struct ExClientWithMiddleware(reqwest_middleware::ClientWithMiddleware);

/// Whether `Bearer ` followed by the key is a valid HTTP header value.
/// Names the acceptance of http's `HeaderValue::from_str`, which depends on
/// the key's bytes alone (it accepts exactly the bytes 32 to 255 less DEL,
/// and tab).
pub uninterp spec fn bearer_key_ok(k: Seq<char>) -> bool;

/// Relies on reqwest's `ClientBuilder`: `default_headers` attaches a constant
/// `Authorization: Bearer …` header to every request, and `build` constructs
/// the client. Turning the key into a header value goes through http's
/// `HeaderValue::from_str` and fails exactly when the formatted key is not a
/// valid header value; `build` itself may fail for reasons of the host (TLS
/// backend, system resolver), so no success is promised.
#[verifier::external_body]
fn build_base_client(api_key: Option<String>) -> (r: Result<reqwest::Client, HttpClientError>)
    ensures
        (r matches Err(e) && e == HttpClientError::InvalidApiKey) <==> (api_key matches Some(k)
            && !bearer_key_ok(k@)),
{
    let mut builder = reqwest::Client::builder();
    if let Some(key) = api_key {
        let value = match format!("Bearer {key}").parse() {
            Ok(v) => v,
            Err(_) => return Err(HttpClientError::InvalidApiKey),
        };
        let mut headers = reqwest::header::HeaderMap::new();
        headers.insert("Authorization", value);
        builder = builder.default_headers(headers);
    }
    match builder.build() {
        Ok(client) => Ok(client),
        Err(_) => Err(HttpClientError::Build),
    }
}

/// Relies on reqwest_retry's `ExponentialBackoff` policy and
/// reqwest_middleware's `ClientBuilder`: wraps the client so that transient
/// failures are retried at most `retry` times, with backoff intervals between
/// the two bounds in milliseconds. `retry_bounds` panics when the lower bound
/// exceeds the upper one, so that case is excluded here.
#[verifier::external_body]
fn wrap_with_retry(
    client: reqwest::Client,
    retry: u32,
    min_interval_ms: u64,
    max_interval_ms: u64,
) -> reqwest_middleware::ClientWithMiddleware
    requires
        min_interval_ms <= max_interval_ms,
{
    let policy = reqwest_retry::policies::ExponentialBackoff::builder()
        .retry_bounds(
            std::time::Duration::from_millis(min_interval_ms),
            std::time::Duration::from_millis(max_interval_ms),
        )
        .build_with_max_retries(retry);
    reqwest_middleware::ClientBuilder::new(client)
        .with(reqwest_retry::RetryTransientMiddleware::new_with_policy(policy))
        .build()
}

/// Configuration of the middleware-equipped HTTP client: how often transient
/// failures are retried, the bounds of the backoff interval in milliseconds,
/// and the bearer key attached to every request, if any.
pub struct OnionClient {
    retry: u32,
    timeout: u64,
    max_retry_interval: u64,
    api_key: Option<String>,
}

impl OnionClient {
    /// How often a transient failure is retried.
    pub closed spec fn retry_spec(&self) -> u32 {
        self.retry
    }

    /// The lower backoff interval bound, in milliseconds.
    pub closed spec fn timeout_spec(&self) -> u64 {
        self.timeout
    }

    /// The upper backoff interval bound, in milliseconds.
    pub closed spec fn max_retry_interval_spec(&self) -> u64 {
        self.max_retry_interval
    }

    /// The bearer key attached to every request, if any.
    pub closed spec fn api_key_spec(&self) -> Option<String> {
        self.api_key
    }

    /// Build the client this configuration describes: one that attaches the
    /// bearer key (when one is set) and retries transient failures under an
    /// exponential backoff policy within the configured bounds. It fails with
    /// `InvalidApiKey` exactly when a key is set that cannot stand in a
    /// bearer header; the only other failure is `Build`, which the host
    /// decides.
    pub fn into_client(self) -> (r: Result<
        reqwest_middleware::ClientWithMiddleware,
        HttpClientError,
    >)
        requires
            self.timeout_spec() <= self.max_retry_interval_spec(),
        ensures
            (r matches Err(e) && e == HttpClientError::InvalidApiKey) <==> (
            self.api_key_spec() matches Some(k) && !bearer_key_ok(k@)),
    {
        let OnionClient { retry, timeout, max_retry_interval, api_key } = self;
        match build_base_client(api_key) {
            Ok(client) => Ok(wrap_with_retry(client, retry, timeout, max_retry_interval)),
            Err(e) => Err(e),
        }
    }

    /// A client that never retries and attaches the given bearer key, with
    /// the default backoff bounds. It fails with `InvalidApiKey` exactly when
    /// the key cannot stand in a bearer header; the only other failure is
    /// `Build`, which the host decides.
    pub fn with_api_key(api_key: String) -> (r: Result<
        reqwest_middleware::ClientWithMiddleware,
        HttpClientError,
    >)
        ensures
            (r matches Err(e) && e == HttpClientError::InvalidApiKey) <==> !bearer_key_ok(
                api_key@,
            ),
    {
        OnionClientBuilder::default().retry(0u32).api_key(Some(api_key)).build().into_client()
    }
}

/// Builder for `OnionClient`. A field that is never set falls back to its
/// default: 3 retries, a lower bound of one minute and an upper bound of ten
/// minutes, and no key.
pub struct OnionClientBuilder {
    retry: Option<u32>,
    timeout: Option<u64>,
    max_retry_interval: Option<u64>,
    api_key: Option<Option<String>>,
}

impl OnionClientBuilder {
    /// The retry count the built configuration will hold.
    pub closed spec fn retry_spec(&self) -> u32 {
        match self.retry {
            Some(v) => v,
            None => 3,
        }
    }

    /// The lower backoff bound the built configuration will hold.
    pub closed spec fn timeout_spec(&self) -> u64 {
        match self.timeout {
            Some(v) => v,
            None => 60_000,
        }
    }

    /// The upper backoff bound the built configuration will hold.
    pub closed spec fn max_retry_interval_spec(&self) -> u64 {
        match self.max_retry_interval {
            Some(v) => v,
            None => 600_000,
        }
    }

    /// The bearer key the built configuration will hold.
    pub closed spec fn api_key_spec(&self) -> Option<String> {
        match self.api_key {
            Some(k) => k,
            None => None,
        }
    }

    /// Set how often a transient failure is retried.
    pub fn retry(self, v: u32) -> (r: Self)
        ensures
            r.retry_spec() == v,
            r.timeout_spec() == self.timeout_spec(),
            r.max_retry_interval_spec() == self.max_retry_interval_spec(),
            r.api_key_spec() == self.api_key_spec(),
    {
        Self { retry: Some(v), ..self }
    }

    /// Set the lower backoff interval bound, in milliseconds.
    pub fn timeout(self, v: u64) -> (r: Self)
        ensures
            r.timeout_spec() == v,
            r.retry_spec() == self.retry_spec(),
            r.max_retry_interval_spec() == self.max_retry_interval_spec(),
            r.api_key_spec() == self.api_key_spec(),
    {
        Self { timeout: Some(v), ..self }
    }

    /// Set the upper backoff interval bound, in milliseconds.
    pub fn max_retry_interval(self, v: u64) -> (r: Self)
        ensures
            r.max_retry_interval_spec() == v,
            r.retry_spec() == self.retry_spec(),
            r.timeout_spec() == self.timeout_spec(),
            r.api_key_spec() == self.api_key_spec(),
    {
        Self { max_retry_interval: Some(v), ..self }
    }

    /// Set the bearer key attached to every request.
    pub fn api_key(self, v: Option<String>) -> (r: Self)
        ensures
            r.api_key_spec() == v,
            r.retry_spec() == self.retry_spec(),
            r.timeout_spec() == self.timeout_spec(),
            r.max_retry_interval_spec() == self.max_retry_interval_spec(),
    {
        Self { api_key: Some(v), ..self }
    }

    /// The configuration these settings describe, defaults applied.
    pub fn build(self) -> (r: OnionClient)
        ensures
            r.retry_spec() == self.retry_spec(),
            r.timeout_spec() == self.timeout_spec(),
            r.max_retry_interval_spec() == self.max_retry_interval_spec(),
            r.api_key_spec() == self.api_key_spec(),
    {
        let OnionClientBuilder { retry, timeout, max_retry_interval, api_key } = self;
        OnionClient {
            retry: match retry {
                Some(v) => v,
                None => 3,
            },
            timeout: match timeout {
                Some(v) => v,
                None => 60_000,
            },
            max_retry_interval: match max_retry_interval {
                Some(v) => v,
                None => 600_000,
            },
            api_key: match api_key {
                Some(k) => k,
                None => None,
            },
        }
    }
}

impl Default for OnionClientBuilder {
    /// An empty builder: every field falls back to its default.
    fn default() -> (r: Self)
        ensures
            r.retry_spec() == 3,
            r.timeout_spec() == 60_000,
            r.max_retry_interval_spec() == 600_000,
            r.api_key_spec() is None,
    {
        OnionClientBuilder { retry: None, timeout: None, max_retry_interval: None, api_key: None }
    }
}

/// Whether an HTTP status code lies in the client-error or server-error
/// range, in which a response body is reported as an error instead of being
/// decoded.
pub fn is_error_status(status: u16) -> (r: bool)
    ensures
        r <==> (400 <= status && status < 600),
{
    400 <= status && status < 600
}

} // verus!
