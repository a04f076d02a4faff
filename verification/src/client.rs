//! The client's configuration: where it sends its queries and how long it
//! waits for an answer.

use crate::endpoint::{base_url_refusal, url_parse, validate_base_url};
use crate::error::{ErrorView, ShikicrateError};
use std::time::Duration;
use vstd::prelude::*;
use vstd::string::StringExecFns;

verus! {

/// The address of the service.
pub const API_BASE_URL: &'static str = "https://shikimori.one/api/graphql";

/// The whole seconds that a client waits for an answer unless told otherwise.
pub const DEFAULT_TIMEOUT_SECS: u64 = 30;

/// The duration of a number of whole seconds, as `Duration::from_secs`
/// makes it.
pub uninterp spec fn duration_of_secs(secs: u64) -> Duration;

/// `Duration::from_secs`. Not proved: that the result is the one named by
/// [`duration_of_secs`].
pub assume_specification[ Duration::from_secs ](secs: u64) -> (duration: Duration)
    ensures
        duration == duration_of_secs(secs),
;

/// `Duration::clone`. Not proved: that the copy equals the value it was made from.
pub assume_specification[ <Duration as Clone>::clone ](duration: &Duration) -> (copy: Duration)
    ensures
        copy == *duration,
;

/// A validated configuration, shared read-only by every operation that is
/// run with it.
#[derive(Debug, Clone)]
pub struct ShikicrateClient {
    base_url: String,
    timeout: Duration,
}

/// The mathematical value of a [`ShikicrateClient`].
pub struct ClientView {
    pub base_url: Seq<char>,
    pub timeout: Duration,
}

impl View for ShikicrateClient {
    type V = ClientView;

    closed spec fn view(&self) -> ClientView {
        ClientView { base_url: self.base_url@, timeout: self.timeout }
    }
}

/// Collects the settings of a client before it is made.
#[derive(Debug, Clone)]
pub struct ShikicrateClientBuilder {
    base_url: Option<String>,
    timeout: Option<Duration>,
}

/// The mathematical value of a [`ShikicrateClientBuilder`]: the settings
/// that were given, each absent until it is.
pub struct BuilderView {
    pub base_url: Option<Seq<char>>,
    pub timeout: Option<Duration>,
}

impl View for ShikicrateClientBuilder {
    type V = BuilderView;

    closed spec fn view(&self) -> BuilderView {
        BuilderView {
            base_url: match self.base_url {
                Some(url) => Some(url@),
                None => None,
            },
            timeout: self.timeout,
        }
    }
}

impl BuilderView {
    /// Why no client can be built from these settings, if none can: a base
    /// URL was given and is refused.
    pub open spec fn refusal(self) -> Option<Seq<char>> {
        match self.base_url {
            Some(url) => base_url_refusal(url_parse(url)),
            None => None,
        }
    }

    /// The client that these settings describe: what was given, and the
    /// default for what was not.
    pub open spec fn client(self) -> ClientView {
        ClientView {
            base_url: match self.base_url {
                Some(url) => url,
                None => API_BASE_URL@,
            },
            timeout: match self.timeout {
                Some(timeout) => timeout,
                None => duration_of_secs(DEFAULT_TIMEOUT_SECS),
            },
        }
    }
}

impl ShikicrateClientBuilder {
    /// A builder with nothing set.
    pub fn new() -> (builder: ShikicrateClientBuilder)
        ensures
            builder@.base_url is None,
            builder@.timeout is None,
    {
        ShikicrateClientBuilder { base_url: None, timeout: None }
    }

    /// Sets the base URL. It is checked when the client is built.
    pub fn base_url(self, url: String) -> (builder: ShikicrateClientBuilder)
        ensures
            builder@.base_url == Some(url@),
            builder@.timeout == self@.timeout,
    {
        ShikicrateClientBuilder { base_url: Some(url), timeout: self.timeout }
    }

    /// Sets how long the client waits for an answer.
    pub fn timeout(self, timeout: Duration) -> (builder: ShikicrateClientBuilder)
        ensures
            builder@.timeout == Some(timeout),
            builder@.base_url == self@.base_url,
    {
        ShikicrateClientBuilder { base_url: self.base_url, timeout: Some(timeout) }
    }

    /// Makes the client, or refuses a base URL that was set and must not be
    /// used. The default base URL is not checked again.
    pub fn build(self) -> (built: Result<ShikicrateClient, ShikicrateError>)
        ensures
            match built {
                Ok(client) => self@.refusal() is None && client@ == self@.client(),
                Err(error) => self@.refusal() is Some && error@ == ErrorView::Validation(
                    self@.refusal()->0,
                ),
            },
    {
        let timeout = match self.timeout {
            Some(timeout) => timeout,
            None => Duration::from_secs(DEFAULT_TIMEOUT_SECS),
        };
        match self.base_url {
            Some(url) => match validate_base_url(url.as_str()) {
                Ok(_) => Ok(ShikicrateClient { base_url: url, timeout }),
                Err(error) => Err(error),
            },
            None => Ok(ShikicrateClient { base_url: String::from_str(API_BASE_URL), timeout }),
        }
    }
}

impl Default for ShikicrateClientBuilder {
    fn default() -> (builder: ShikicrateClientBuilder)
        ensures
            builder@.base_url is None,
            builder@.timeout is None,
    {
        ShikicrateClientBuilder::new()
    }
}

impl ShikicrateClient {
    /// A client for the service's own address, with the default timeout.
    /// This cannot fail.
    pub fn new() -> (made: Result<ShikicrateClient, ShikicrateError>)
        ensures
            made is Ok,
            made->Ok_0@.base_url == API_BASE_URL@,
            made->Ok_0@.timeout == duration_of_secs(DEFAULT_TIMEOUT_SECS),
    {
        ShikicrateClient::with_timeout(Duration::from_secs(DEFAULT_TIMEOUT_SECS))
    }

    /// A client for the service's own address that waits as long as told.
    /// This cannot fail.
    pub fn with_timeout(timeout: Duration) -> (made: Result<ShikicrateClient, ShikicrateError>)
        ensures
            made is Ok,
            made->Ok_0@.base_url == API_BASE_URL@,
            made->Ok_0@.timeout == timeout,
    {
        Ok(ShikicrateClient { base_url: String::from_str(API_BASE_URL), timeout })
    }

    /// A client for another address, with the default timeout. The address
    /// is refused unless it parses, uses `http` or `https` and names a host.
    pub fn with_base_url(base_url: String) -> (made: Result<ShikicrateClient, ShikicrateError>)
        ensures
            match made {
                Ok(client) => {
                    &&& base_url_refusal(url_parse(base_url@)) is None
                    &&& client@.base_url == base_url@
                    &&& client@.timeout == duration_of_secs(DEFAULT_TIMEOUT_SECS)
                },
                Err(error) => {
                    &&& base_url_refusal(url_parse(base_url@)) is Some
                    &&& error@ == ErrorView::Validation(base_url_refusal(url_parse(base_url@))->0)
                },
            },
    {
        match validate_base_url(base_url.as_str()) {
            Ok(_) => Ok(
                ShikicrateClient { base_url, timeout: Duration::from_secs(DEFAULT_TIMEOUT_SECS) },
            ),
            Err(error) => Err(error),
        }
    }

    /// Whether an attempt that failed with this error may be made again.
    pub fn is_retryable(error: &ShikicrateError) -> (retryable: bool)
        ensures
            retryable == error@.retryable(),
    {
        error.is_retryable()
    }

    /// The address that queries are sent to.
    pub fn base_url(&self) -> (url: &str)
        ensures
            url@ == self@.base_url,
    {
        self.base_url.as_str()
    }

    /// How long the client waits for an answer.
    pub fn timeout(&self) -> (timeout: Duration)
        ensures
            timeout == self@.timeout,
    {
        self.timeout
    }
}

impl Default for ShikicrateClient {
    fn default() -> (client: ShikicrateClient)
        ensures
            client@.base_url == API_BASE_URL@,
            client@.timeout == duration_of_secs(DEFAULT_TIMEOUT_SECS),
    {
        ShikicrateClient {
            base_url: String::from_str(API_BASE_URL),
            timeout: Duration::from_secs(DEFAULT_TIMEOUT_SECS),
        }
    }
}

} // verus!
