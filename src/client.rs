//! The client: its fixed identity, the headers it sends, and the checks made
//! on a request before any network activity.
use vstd::prelude::*;
use std::time::Duration;
use crate::error::AnthropicError;
use crate::retry::{BackoffPolicy, DEFAULT_MAX_RETRIES, INVALID_POLICY, Retrier, default_policy};
use crate::trusted::{http_client_with_timeout, seconds};
use crate::types::MessagesRequest;

verus! {

pub const DEFAULT_API_BASE: &'static str = "https://api.anthropic.com";
pub const DEFAULT_API_VERSION: &'static str = "2023-06-01";
/// Seconds after which a request times out when no timeout is set.
pub const DEFAULT_TIMEOUT_SECS: u64 = 60;
pub const MESSAGES_PATH: &'static str = "/v1/messages";
pub const API_KEY_HEADER: &'static str = "x-api-key";
pub const VERSION_HEADER: &'static str = "anthropic-version";
pub const BETA_HEADER: &'static str = "anthropic-beta";
pub const CONTENT_TYPE_HEADER: &'static str = "content-type";
pub const ACCEPT_HEADER: &'static str = "accept";
pub const JSON_MEDIA_TYPE: &'static str = "application/json";
pub const MISSING_API_KEY: &'static str = "api_key is required";
pub const EMPTY_API_KEY: &'static str = "api_key must not be empty";
pub const STREAM_REFUSED: &'static str = "stream=true requests must use messages_stream";

/// What a builder has been given so far.
pub struct BuilderSettings {
    pub api_key: Option<Seq<char>>,
    pub api_base: Option<Seq<char>>,
    pub api_version: Option<Seq<char>>,
    pub beta: Option<Seq<char>>,
    pub timeout: Option<Duration>,
    pub backoff: Option<BackoffPolicy>,
    pub has_http_client: bool,
    pub max_retries: Option<u32>,
}

pub open spec fn opt_view(o: Option<String>) -> Option<Seq<char>> {
    match o {
        Some(s) => Some(s@),
        None => None,
    }
}

/// Configure and build a client.
pub struct ClientBuilder {
    api_key: Option<String>,
    api_base: Option<String>,
    api_version: Option<String>,
    beta: Option<String>,
    timeout: Option<Duration>,
    backoff: Option<BackoffPolicy>,
    http_client: Option<reqwest::Client>,
    max_retries: Option<u32>,
}

impl View for ClientBuilder {
    type V = BuilderSettings;

    closed spec fn view(&self) -> BuilderSettings {
        BuilderSettings {
            api_key: opt_view(self.api_key),
            api_base: opt_view(self.api_base),
            api_version: opt_view(self.api_version),
            beta: opt_view(self.beta),
            timeout: self.timeout,
            backoff: self.backoff,
            has_http_client: self.http_client is Some,
            max_retries: self.max_retries,
        }
    }
}

/// The fixed identity of a client. The timeout is the one its HTTP client was
/// built with, when it built one (`None`: the default of 60 seconds).
pub struct Identity {
    pub api_key: Seq<char>,
    pub api_base: Seq<char>,
    pub api_version: Seq<char>,
    pub beta: Option<Seq<char>>,
    pub timeout: Option<Duration>,
    pub backoff: BackoffPolicy,
    pub max_retries: u32,
}

/// The identity that a builder with `s` gives: the defaults fill what was not set.
pub open spec fn identity_of(s: BuilderSettings) -> Identity {
    Identity {
        api_key: s.api_key->Some_0,
        api_base: if s.api_base is Some { s.api_base->Some_0 } else { DEFAULT_API_BASE@ },
        api_version: if s.api_version is Some { s.api_version->Some_0 } else { DEFAULT_API_VERSION@ },
        beta: s.beta,
        timeout: s.timeout,
        backoff: if s.backoff is Some { s.backoff->Some_0 } else { default_policy() },
        max_retries: if s.max_retries is Some { s.max_retries->Some_0 } else { DEFAULT_MAX_RETRIES },
    }
}

/// Whether a builder with `s` may build a client: a credential must be set,
/// and not be empty, and a backoff policy, when set, must be valid.
pub open spec fn buildable(s: BuilderSettings) -> bool {
    &&& s.api_key is Some
    &&& s.api_key->Some_0.len() > 0
    &&& (s.backoff is None || s.backoff->Some_0.valid())
}

/// The message of the error that a builder with `s` is refused with.
pub open spec fn refusal(s: BuilderSettings) -> Seq<char> {
    if s.api_key is None {
        MISSING_API_KEY@
    } else if s.api_key->Some_0.len() == 0 {
        EMPTY_API_KEY@
    } else {
        INVALID_POLICY@
    }
}

} // verus!

verus! {

impl ClientBuilder {
    /// A builder with nothing set.
    pub fn new() -> (r: Self)
        ensures
            r@.api_key is None,
            r@.api_base is None,
            r@.api_version is None,
            r@.beta is None,
            r@.timeout is None,
            r@.backoff is None,
            !r@.has_http_client,
            r@.max_retries is None,
    {
        ClientBuilder {
            api_key: None,
            api_base: None,
            api_version: None,
            beta: None,
            timeout: None,
            backoff: None,
            http_client: None,
            max_retries: None,
        }
    }

    pub fn api_key(self, api_key: &str) -> (r: Self)
        ensures
            r@ == (BuilderSettings { api_key: Some(api_key@), ..self@ }),
    {
        ClientBuilder { api_key: Some(String::from_str(api_key)), ..self }
    }

    pub fn api_base(self, api_base: &str) -> (r: Self)
        ensures
            r@ == (BuilderSettings { api_base: Some(api_base@), ..self@ }),
    {
        ClientBuilder { api_base: Some(String::from_str(api_base)), ..self }
    }

    pub fn api_version(self, api_version: &str) -> (r: Self)
        ensures
            r@ == (BuilderSettings { api_version: Some(api_version@), ..self@ }),
    {
        ClientBuilder { api_version: Some(String::from_str(api_version)), ..self }
    }

    pub fn beta(self, beta: &str) -> (r: Self)
        ensures
            r@ == (BuilderSettings { beta: Some(beta@), ..self@ }),
    {
        ClientBuilder { beta: Some(String::from_str(beta)), ..self }
    }

    pub fn timeout(self, timeout: Duration) -> (r: Self)
        ensures
            r@ == (BuilderSettings { timeout: Some(timeout), ..self@ }),
    {
        ClientBuilder { timeout: Some(timeout), ..self }
    }

    /// The backoff policy of rate-limited calls (`default_policy` when not set).
    pub fn backoff(self, backoff: BackoffPolicy) -> (r: Self)
        ensures
            r@ == (BuilderSettings { backoff: Some(backoff), ..self@ }),
    {
        ClientBuilder { backoff: Some(backoff), ..self }
    }

    pub fn http_client(self, http_client: reqwest::Client) -> (r: Self)
        ensures
            r@ == (BuilderSettings { has_http_client: true, ..self@ }),
    {
        ClientBuilder { http_client: Some(http_client), ..self }
    }

    /// Bounds the number of retries of a rate-limited call
    /// (`DEFAULT_MAX_RETRIES` when not set).
    pub fn max_retries(self, max_retries: u32) -> (r: Self)
        ensures
            r@ == (BuilderSettings { max_retries: Some(max_retries), ..self@ }),
    {
        ClientBuilder { max_retries: Some(max_retries), ..self }
    }

    /// The client, with the defaults filling what was not set. Fails when no
    /// credential or an empty one was given, when the backoff policy is out
    /// of range, and when no HTTP client was given and one cannot be built
    /// with the timeout set (or the default one).
    pub fn build(self) -> (r: Result<Client, AnthropicError>)
        ensures
            !buildable(self@) ==> r is Err && r->Err_0 is InvalidRequest
                && r->Err_0->InvalidRequest_0@ == refusal(self@),
            buildable(self@) && self@.has_http_client ==> r is Ok,
            buildable(self@) && r is Err ==> r->Err_0 is Http,
            r is Ok ==> r->Ok_0@ == identity_of(self@),
    {
        let api_key = match self.api_key {
            Some(k) => k,
            None => {
                return Err(AnthropicError::InvalidRequest(String::from_str(MISSING_API_KEY)));
            },
        };
        if api_key.as_str().is_empty() {
            return Err(AnthropicError::InvalidRequest(String::from_str(EMPTY_API_KEY)));
        }
        let backoff = match self.backoff {
            Some(b) => b,
            None => BackoffPolicy::default(),
        };
        if !backoff.is_valid() {
            return Err(AnthropicError::InvalidRequest(String::from_str(INVALID_POLICY)));
        }
        let api_base = match self.api_base {
            Some(b) => b,
            None => String::from_str(DEFAULT_API_BASE),
        };
        let api_version = match self.api_version {
            Some(v) => v,
            None => String::from_str(DEFAULT_API_VERSION),
        };
        let http_client = match self.http_client {
            Some(c) => c,
            None => {
                let timeout = match self.timeout {
                    Some(t) => t,
                    None => seconds(DEFAULT_TIMEOUT_SECS),
                };
                match http_client_with_timeout(timeout) {
                    Ok(c) => c,
                    Err(e) => {
                        return Err(AnthropicError::Http(e));
                    },
                }
            },
        };
        Ok(Client {
            api_key,
            api_base,
            api_version,
            beta: self.beta,
            timeout: self.timeout,
            http_client,
            backoff,
            max_retries: match self.max_retries {
                Some(m) => m,
                None => DEFAULT_MAX_RETRIES,
            },
        })
    }
}

/// The client to interact with the API.
pub struct Client {
    api_key: String,
    api_base: String,
    api_version: String,
    beta: Option<String>,
    timeout: Option<Duration>,
    http_client: reqwest::Client,
    backoff: BackoffPolicy,
    max_retries: u32,
}

impl Client {
    /// The credential is never empty and the backoff policy is valid.
    #[verifier::type_invariant]
    spec fn inv(&self) -> bool {
        self.api_key@.len() > 0 && self.backoff.valid()
    }
}

impl View for Client {
    type V = Identity;

    closed spec fn view(&self) -> Identity {
        Identity {
            api_key: self.api_key@,
            api_base: self.api_base@,
            api_version: self.api_version@,
            beta: opt_view(self.beta),
            timeout: self.timeout,
            backoff: self.backoff,
            max_retries: self.max_retries,
        }
    }
}

/// The headers of every request, in order: credential, protocol version,
/// content type and accepted type, then the feature flag when one is set.
pub open spec fn header_list(id: Identity) -> Seq<(Seq<char>, Seq<char>)> {
    let fixed = seq![
        (API_KEY_HEADER@, id.api_key),
        (VERSION_HEADER@, id.api_version),
        (CONTENT_TYPE_HEADER@, JSON_MEDIA_TYPE@),
        (ACCEPT_HEADER@, JSON_MEDIA_TYPE@),
    ];
    match id.beta {
        Some(b) => fixed.push((BETA_HEADER@, b)),
        None => fixed,
    }
}

pub open spec fn pairs_view(v: Seq<(String, String)>) -> Seq<(Seq<char>, Seq<char>)> {
    v.map_values(|p: (String, String)| (p.0@, p.1@))
}

/// The body of a buffered call made from `req`: one that asks for a stream
/// is refused, any other is sent with no streaming flag.
pub open spec fn buffered_body_ok(req: MessagesRequest, r: MessagesRequest) -> bool {
    r == (MessagesRequest { stream: None, ..req })
}

impl Client {
    /// A client with credential `api_key` and every other setting at its default.
    pub fn new(api_key: &str) -> (r: Result<Self, AnthropicError>)
        ensures
            api_key@.len() == 0 ==> r is Err && r->Err_0 is InvalidRequest
                && r->Err_0->InvalidRequest_0@ == EMPTY_API_KEY@,
            api_key@.len() > 0 && r is Err ==> r->Err_0 is Http,
            r is Ok ==> r->Ok_0@ == (Identity {
                api_key: api_key@,
                api_base: DEFAULT_API_BASE@,
                api_version: DEFAULT_API_VERSION@,
                beta: None,
                timeout: None,
                backoff: default_policy(),
                max_retries: DEFAULT_MAX_RETRIES,
            }),
    {
        ClientBuilder::new().api_key(api_key).build()
    }

    pub fn api_key(&self) -> (r: &str)
        ensures
            r@ == self@.api_key,
            r@.len() > 0,
    {
        proof {
            use_type_invariant(self);
        }
        self.api_key.as_str()
    }

    pub fn api_base(&self) -> (r: &str)
        ensures
            r@ == self@.api_base,
    {
        self.api_base.as_str()
    }

    pub fn api_version(&self) -> (r: &str)
        ensures
            r@ == self@.api_version,
    {
        self.api_version.as_str()
    }

    pub fn beta(&self) -> (r: Option<&str>)
        ensures
            r is Some <==> self@.beta is Some,
            r is Some ==> r->Some_0@ == self@.beta->Some_0,
    {
        match &self.beta {
            Some(b) => Some(b.as_str()),
            None => None,
        }
    }

    /// The timeout that the client's HTTP client was built with, when one was
    /// set.
    pub fn timeout(&self) -> (r: Option<Duration>)
        ensures
            r == self@.timeout,
    {
        self.timeout
    }

    /// The backoff policy of rate-limited calls.
    pub fn backoff(&self) -> (r: BackoffPolicy)
        ensures
            r == self@.backoff,
            r.valid(),
    {
        proof {
            use_type_invariant(self);
        }
        self.backoff
    }

    /// The most retries that a rate-limited call makes.
    pub fn max_retries(&self) -> (r: u32)
        ensures
            r == self@.max_retries,
    {
        self.max_retries
    }

    /// The pooled HTTP client that carries the calls.
    pub fn http_client(&self) -> &reqwest::Client {
        &self.http_client
    }

    /// The URL of `path` under the client's base endpoint.
    pub fn url(&self, path: &str) -> (r: String)
        ensures
            r@ == self@.api_base + path@,
    {
        let mut u = self.api_base.clone();
        u.append(path);
        u
    }

    /// The headers of every request, as name and value.
    pub fn headers(&self) -> (r: Vec<(String, String)>)
        ensures
            pairs_view(r@) == header_list(self@),
    {
        let mut h: Vec<(String, String)> = Vec::new();
        h.push((String::from_str(API_KEY_HEADER), self.api_key.clone()));
        h.push((String::from_str(VERSION_HEADER), self.api_version.clone()));
        h.push((String::from_str(CONTENT_TYPE_HEADER), String::from_str(JSON_MEDIA_TYPE)));
        h.push((String::from_str(ACCEPT_HEADER), String::from_str(JSON_MEDIA_TYPE)));
        match &self.beta {
            Some(b) => h.push((String::from_str(BETA_HEADER), b.clone())),
            None => {},
        }
        proof {
            assert(pairs_view(h@) =~= header_list(self@));
        }
        h
    }

    /// The body of a buffered call: a request that asks for a stream is
    /// refused before any network activity; any other goes out with its
    /// streaming flag off.
    pub fn messages_request(&self, request: MessagesRequest) -> (r: Result<MessagesRequest, AnthropicError>)
        ensures
            request.stream == Some(true) ==> r is Err && r->Err_0 is InvalidRequest
                && r->Err_0->InvalidRequest_0@ == STREAM_REFUSED@,
            request.stream != Some(true) ==> r is Ok && buffered_body_ok(request, r->Ok_0),
    {
        if let Some(true) = request.stream {
            return Err(AnthropicError::InvalidRequest(String::from_str(STREAM_REFUSED)));
        }
        Ok(MessagesRequest { stream: None, ..request })
    }

    /// The body of a streamed call: the request with its streaming flag on.
    pub fn messages_stream_request(&self, request: MessagesRequest) -> (r: MessagesRequest)
        ensures
            r == (MessagesRequest { stream: Some(true), ..request }),
    {
        MessagesRequest { stream: Some(true), ..request }
    }

    /// The retry state for a new buffered call: a schedule from the client's
    /// backoff policy, started now, and its retry ceiling.
    pub fn retrier(&self) -> (r: Retrier)
        ensures
            r.retries_made() == 0,
            r.retry_ceiling() == self@.max_retries,
            r.backoff_policy() == self@.backoff,
            r.well_formed(),
    {
        proof {
            use_type_invariant(self);
        }
        Retrier::new(self.backoff, self.max_retries)
    }
}

/// Everything a buffered call sends, fixed before its first attempt: the URL,
/// the headers, the request body and a fresh retry state. The body is
/// encoded once from `request` and the same bytes go out on every attempt.
pub struct BufferedCall {
    pub url: String,
    pub headers: Vec<(String, String)>,
    pub request: MessagesRequest,
    pub retrier: Retrier,
}

/// Everything a streamed call sends: the URL, the headers and the request body.
pub struct StreamCall {
    pub url: String,
    pub headers: Vec<(String, String)>,
    pub request: MessagesRequest,
}

impl Client {
    /// The buffered call for `request`. A request that asks for a stream gets
    /// no call at all, only the refusal: nothing exists to send.
    pub fn prepare_messages(&self, request: MessagesRequest) -> (r: Result<BufferedCall, AnthropicError>)
        ensures
            request.stream == Some(true) <==> r is Err,
            r is Err ==> r->Err_0 is InvalidRequest && r->Err_0->InvalidRequest_0@ == STREAM_REFUSED@,
            r is Ok ==> {
                let c = r->Ok_0;
                &&& c.url@ == self@.api_base + MESSAGES_PATH@
                &&& pairs_view(c.headers@) == header_list(self@)
                &&& buffered_body_ok(request, c.request)
                &&& c.retrier.retries_made() == 0
                &&& c.retrier.retry_ceiling() == self@.max_retries
                &&& c.retrier.backoff_policy() == self@.backoff
                &&& c.retrier.well_formed()
            },
    {
        let request = match self.messages_request(request) {
            Ok(r) => r,
            Err(e) => {
                return Err(e);
            },
        };
        Ok(BufferedCall {
            url: self.url(MESSAGES_PATH),
            headers: self.headers(),
            request,
            retrier: self.retrier(),
        })
    }

    /// The streamed call for `request`, with its streaming flag on.
    pub fn prepare_messages_stream(&self, request: MessagesRequest) -> (r: StreamCall)
        ensures
            r.url@ == self@.api_base + MESSAGES_PATH@,
            pairs_view(r.headers@) == header_list(self@),
            r.request == (MessagesRequest { stream: Some(true), ..request }),
    {
        StreamCall {
            url: self.url(MESSAGES_PATH),
            headers: self.headers(),
            request: self.messages_stream_request(request),
        }
    }
}

} // verus!
